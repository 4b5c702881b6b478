//! The application's published configuration manifest.

pub mod manifest;
