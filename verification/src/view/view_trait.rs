//! Help entries a view offers for its keybindings.

use vstd::prelude::*;

verus! {

/// One keybinding and what it does.
#[derive(Debug, Clone)]
pub struct HelpItem {
    /// The key or key sequence (e.g. `1`, `t`, `Ctrl+C`).
    pub key: String,
    /// What the keybinding does.
    pub description: String,
}

} // verus!
