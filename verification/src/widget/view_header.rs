//! A view header's content: title, contextual information on the left and
//! up to five keybindings on the right, and the height that takes.

use crate::view::view_trait::HelpItem;
use vstd::prelude::*;

verus! {

/// The most keybindings a header lists.
pub const HEADER_HELP_MAX: usize = 5;

/// A view's header.
pub struct ViewHeader {
    pub title: String,
    pub info: Option<Vec<(String, String)>>,
    pub help: Option<Vec<HelpItem>>,
}

pub open spec fn opt_len<T>(v: Option<Vec<T>>) -> nat {
    match v {
        Some(x) => x@.len(),
        None => 0,
    }
}

/// The header's height: the taller of its two sides (at least one line),
/// plus one line of spacing.
pub open spec fn header_height(info: nat, help: nat) -> int {
    let i = (info % 0x10000) as int;
    let h = (help % 0x10000) as int;
    let m = if i > h {
        i
    } else {
        h
    };
    (if m > 1 {
        m
    } else {
        1
    }) + 1
}

impl ViewHeader {
    pub fn new(title: String) -> (h: Self)
        ensures
            h.title@ == title@,
            h.info is None,
            h.help is None,
    {
        ViewHeader { title, info: None, help: None }
    }

    /// Set the contextual information.
    pub fn with_info(self, info: Vec<(String, String)>) -> (h: Self)
        ensures
            h.title@ == self.title@,
            h.info == Some(info),
            h.help == self.help,
    {
        ViewHeader { title: self.title, info: Some(info), help: self.help }
    }

    /// Set the keybindings: the first five, none when the list is empty.
    pub fn with_help(self, help: Vec<HelpItem>) -> (h: Self)
        ensures
            h.title@ == self.title@,
            h.info == self.info,
            match h.help {
                Some(v) => help@.len() > 0 && v@ == help@.take(
                    if help@.len() < HEADER_HELP_MAX {
                        help@.len() as int
                    } else {
                        HEADER_HELP_MAX as int
                    },
                ),
                None => help@.len() == 0,
            },
    {
        let mut help = help;
        if help.len() > HEADER_HELP_MAX {
            help.truncate(HEADER_HELP_MAX);
        }
        let help = if help.len() == 0 {
            None
        } else {
            Some(help)
        };
        ViewHeader { title: self.title, info: self.info, help }
    }

    /// The lines the header needs.
    pub fn height(&self) -> (r: u16)
        requires
            header_height(opt_len(self.info), opt_len(self.help)) <= u16::MAX,
        ensures
            r == header_height(opt_len(self.info), opt_len(self.help)),
    {
        let info_height: u16 = match &self.info {
            Some(i) => (i.len() % 0x10000) as u16,
            None => 0,
        };
        let help_height: u16 = match &self.help {
            Some(h) => (h.len() % 0x10000) as u16,
            None => 0,
        };
        let m = if info_height > help_height {
            info_height
        } else {
            help_height
        };
        let m = if m > 1 {
            m
        } else {
            1
        };
        m + 1
    }
}

} // verus!
