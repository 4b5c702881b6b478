//! The text of the empty-state and loading placeholders.

use vstd::prelude::*;

verus! {

/// What a view says when it has no data.
pub struct EmptyState {
    pub message: String,
    pub details: Option<String>,
}

impl EmptyState {
    pub fn new(message: String) -> (e: Self)
        ensures
            e.message@ == message@,
            e.details is None,
    {
        EmptyState { message, details: None }
    }

    /// Add a line of detail under the message.
    pub fn with_details(self, details: String) -> (e: Self)
        ensures
            e.message@ == self.message@,
            e.details matches Some(d) && d@ == details@,
    {
        EmptyState { message: self.message, details: Some(details) }
    }
}

/// The spinner's frames, in order.
pub open spec fn spinner_frames() -> Seq<char> {
    seq!['⠋', '⠙', '⠹', '⠸', '⠼', '⠴', '⠦', '⠧', '⠇', '⠏']
}

/// A message with a spinner that advances one frame per tick.
pub struct LoadingIndicator {
    message: String,
    spinner_index: usize,
}

impl LoadingIndicator {
    pub closed spec fn frame_index(self) -> nat {
        self.spinner_index as nat
    }

    pub closed spec fn text(self) -> Seq<char> {
        self.message@
    }

    /// The message shown beside the spinner.
    pub fn message(&self) -> (r: &str)
        ensures
            r@ == self.text(),
    {
        self.message.as_str()
    }

    pub fn new(message: String) -> (l: Self)
        ensures
            l.text() == message@,
            l.frame_index() == 0,
    {
        LoadingIndicator { message, spinner_index: 0 }
    }

    /// Advance the spinner, wrapping after the last frame.
    pub fn tick(&mut self)
        requires
            old(self).frame_index() < spinner_frames().len(),
        ensures
            final(self).frame_index() == (old(self).frame_index() + 1) % spinner_frames().len(),
            final(self).text() == old(self).text(),
    {
        self.spinner_index = (self.spinner_index + 1) % 10;
    }

    /// The spinner's current frame.
    pub fn spinner(&self) -> (c: char)
        requires
            self.frame_index() < spinner_frames().len(),
        ensures
            c == spinner_frames()[self.frame_index() as int],
    {
        let frames = ['⠋', '⠙', '⠹', '⠸', '⠼', '⠴', '⠦', '⠧', '⠇', '⠏'];
        assert(frames@ =~= spinner_frames());
        frames[self.spinner_index]
    }
}

} // verus!
