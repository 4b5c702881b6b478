//! What a view hands the shell besides its drawing.

pub mod view_trait;
