//! A command-line application framework: command specifications, the
//! self-install machinery and the telemetry policy engine.

pub mod config;
pub mod doctor;
pub mod self_install;
pub mod spec;
pub mod telemetry;
pub mod testkit;
pub mod text;
pub mod tool_args;
pub mod view;
pub mod widget;
