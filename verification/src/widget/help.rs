//! The help overlay's state: the entries it lists and whether it shows.

use crate::view::view_trait::HelpItem;
use vstd::prelude::*;

verus! {

/// Help entries shown over the current view on demand.
pub struct HelpOverlay {
    items: Vec<HelpItem>,
    visible: bool,
}

impl HelpOverlay {
    pub closed spec fn shows(self) -> bool {
        self.visible
    }

    pub closed spec fn entries(self) -> Seq<HelpItem> {
        self.items@
    }

    /// A hidden overlay with no entries.
    pub fn new() -> (h: Self)
        ensures
            !h.shows(),
            h.entries() == Seq::<HelpItem>::empty(),
    {
        HelpOverlay { items: Vec::new(), visible: false }
    }

    /// Replace the entries.
    pub fn set_items(&mut self, items: Vec<HelpItem>)
        ensures
            final(self).entries() == items@,
            final(self).shows() == old(self).shows(),
    {
        self.items = items;
    }

    /// The entries, in order.
    pub fn items(&self) -> (r: &[HelpItem])
        ensures
            r@ == self.entries(),
    {
        self.items.as_slice()
    }

    pub fn show(&mut self)
        ensures
            final(self).shows(),
            final(self).entries() == old(self).entries(),
    {
        self.visible = true;
    }

    pub fn close(&mut self)
        ensures
            !final(self).shows(),
            final(self).entries() == old(self).entries(),
    {
        self.visible = false;
    }

    /// Show when hidden, hide when shown.
    pub fn toggle(&mut self)
        ensures
            final(self).shows() == !old(self).shows(),
            final(self).entries() == old(self).entries(),
    {
        self.visible = !self.visible;
    }

    pub fn is_visible(&self) -> (r: bool)
        ensures
            r == self.shows(),
    {
        self.visible
    }
}

} // verus!
