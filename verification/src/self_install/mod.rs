//! Self-install: the install receipt, PATH handling, release verification,
//! the passive update notice and the decisions behind `self install`,
//! `self update`, `self rollback`, `self uninstall` and `self status`.

pub mod method;
pub mod env;
pub mod layout;
pub mod archive;
pub mod options;
pub mod receipt;
pub mod notice;
pub mod update;
pub mod update_flow;
pub mod rollback_flow;
pub mod install_flow;
pub mod shell_path;
pub mod steps;
pub mod ops;
pub mod place;
pub mod policy;
pub mod release;
pub mod version;
pub mod windows_path;
pub mod doctor;
pub mod commands;
