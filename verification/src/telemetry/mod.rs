//! Telemetry: the axes every decision is made on, the pure policy
//! resolution, probes, the attribute rules of the export boundary, and the
//! end-user surface built on them.

pub mod author;
pub mod axes;
pub mod command_specs;
pub mod commands;
pub mod config;
pub mod doctor;
pub mod env;
pub mod exporter;
pub mod guard;
pub mod init;
pub mod manifest;
pub mod notice;
pub mod panic;
pub mod policy;
pub mod probe;
pub mod probes;
pub mod propagation;
pub mod redact;
pub mod resource;
pub mod startup;
pub mod store;
pub mod subscriber;
