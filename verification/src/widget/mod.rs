//! The state of the terminal widgets: what they hold and how they move.
//! Drawing them is the front end's.

pub mod empty_state;
pub mod grid;
pub mod help;
pub mod log;
pub mod view_header;
