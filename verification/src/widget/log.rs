//! A log view's state: a bounded buffer of lines, a scroll position over the
//! lines shown, follow mode, and a case-insensitive keyword filter. Drawing
//! it is the terminal front end's; what to draw is decided here.

use crate::text::{chars_of, contains, contains_seq, owned, push_str, to_lowercase, unicode_lower};
use std::collections::VecDeque;
use vstd::prelude::*;
use vstd::string::StringSliceAdditionalSpecFns;

verus! {

/// How many lines a page holds when no screen has said otherwise.
pub const VISIBLE_LINES: usize = 20;

/// How many lines the buffer keeps unless told otherwise.
pub const DEFAULT_MAX_LINES: usize = 10000;

/// Whether a line passes a filter: the filter occurs in it, both lower-cased.
pub open spec fn line_matches(line: Seq<char>, filter: Seq<char>) -> bool {
    contains_seq(unicode_lower(line), unicode_lower(filter))
}

/// The lines that pass a filter, in order.
pub open spec fn filtered(lines: Seq<Seq<char>>, filter: Seq<char>) -> Seq<Seq<char>>
    decreases lines.len(),
{
    if lines.len() == 0 {
        Seq::empty()
    } else if line_matches(lines.last(), filter) {
        filtered(lines.drop_last(), filter).push(lines.last())
    } else {
        filtered(lines.drop_last(), filter)
    }
}

/// The furthest a view of `visible` lines can scroll over `total` lines.
pub open spec fn max_scroll(total: nat, visible: nat) -> nat {
    if total <= visible {
        0
    } else {
        (total - visible) as nat
    }
}

/// The last `max` lines of `lines`.
pub open spec fn keep_last(lines: Seq<Seq<char>>, max: nat) -> Seq<Seq<char>> {
    if lines.len() <= max {
        lines
    } else {
        lines.subrange(lines.len() - max, lines.len() as int)
    }
}

pub open spec fn texts(v: Seq<String>) -> Seq<Seq<char>> {
    v.map_values(|s: String| s@)
}

/// Streaming log lines with scrolling, follow mode and filtering.
pub struct LogView {
    lines: VecDeque<String>,
    max_lines: usize,
    scroll_position: usize,
    follow_mode: bool,
    filter: Option<String>,
    filtered_lines: Vec<String>,
}

impl LogView {
    /// The buffered lines, oldest first.
    pub closed spec fn buffer(self) -> Seq<Seq<char>> {
        texts(self.lines@)
    }

    /// How many lines the buffer keeps.
    pub closed spec fn capacity(self) -> nat {
        self.max_lines as nat
    }

    /// The index of the first line shown.
    pub closed spec fn scroll(self) -> nat {
        self.scroll_position as nat
    }

    /// Whether new lines keep the view at the bottom.
    pub closed spec fn follows(self) -> bool {
        self.follow_mode
    }

    /// The active filter.
    pub closed spec fn filter_text(self) -> Option<Seq<char>> {
        match self.filter {
            Some(f) => Some(f@),
            None => None,
        }
    }

    /// The lines the view shows: the filtered ones under a filter, all of
    /// them otherwise.
    pub open spec fn shown(self) -> Seq<Seq<char>> {
        match self.filter_text() {
            Some(f) => filtered(self.buffer(), f),
            None => self.buffer(),
        }
    }

    /// The furthest the view scrolls with the default page height.
    pub open spec fn bottom(self) -> nat {
        max_scroll(self.shown().len(), VISIBLE_LINES as nat)
    }

    /// The buffer holds no more than its capacity, and the cached filtered
    /// lines are those of the buffer under the filter.
    pub closed spec fn wf(self) -> bool {
        &&& self.lines@.len() <= self.max_lines
        &&& match self.filter {
            Some(f) => texts(self.filtered_lines@) == filtered(texts(self.lines@), f@),
            None => self.filtered_lines@.len() == 0,
        }
    }

    /// An empty view that keeps `max_lines` lines and follows new ones.
    pub fn with_max_lines(max_lines: usize) -> (v: Self)
        ensures
            v.buffer() == Seq::<Seq<char>>::empty(),
            v.capacity() == max_lines,
            v.scroll() == 0,
            v.follows(),
            v.filter_text() is None,
            v.wf(),
    {
        let v = LogView {
            lines: VecDeque::new(),
            max_lines,
            scroll_position: 0,
            follow_mode: true,
            filter: None,
            filtered_lines: Vec::new(),
        };
        assert(texts(v.lines@) =~= Seq::<Seq<char>>::empty());
        v
    }

    /// An empty view that keeps the last ten thousand lines.
    pub fn new() -> (v: Self)
        ensures
            v.buffer() == Seq::<Seq<char>>::empty(),
            v.capacity() == DEFAULT_MAX_LINES,
            v.scroll() == 0,
            v.follows(),
            v.filter_text() is None,
            v.wf(),
    {
        Self::with_max_lines(DEFAULT_MAX_LINES)
    }

    fn filter_lines(lines: &VecDeque<String>, filter: &str) -> (out: Vec<String>)
        ensures
            texts(out@) == filtered(texts(lines@), filter@),
    {
        let needle = to_lowercase(filter);
        let needle_chars = chars_of(needle.as_str());
        let ghost all = texts(lines@);
        let mut out: Vec<String> = Vec::new();
        let mut i: usize = 0;
        assert(all.take(0) =~= Seq::<Seq<char>>::empty());
        while i < lines.len()
            invariant
                i <= lines@.len(),
                all == texts(lines@),
                needle_chars@ == unicode_lower(filter@),
                texts(out@) == filtered(all.take(i as int), filter@),
            decreases lines.len() - i,
        {
            proof {
                assert(all.take(i + 1).drop_last() =~= all.take(i as int));
                assert(all.take(i + 1).last() == lines@[i as int]@);
            }
            let lower = to_lowercase(lines[i].as_str());
            let hay = chars_of(lower.as_str());
            if contains(hay.as_slice(), needle_chars.as_slice()) {
                let ghost before = texts(out@);
                let line = lines[i].clone();
                out.push(line);
                assert(texts(out@) =~= before.push(lines@[i as int]@));
            }
            i = i + 1;
        }
        assert(all.take(lines@.len() as int) =~= all);
        out
    }

    fn total(&self) -> (n: usize)
        requires
            self.wf(),
        ensures
            n == self.shown().len(),
    {
        if self.filter.is_some() {
            self.filtered_lines.len()
        } else {
            self.lines.len()
        }
    }

    fn max_scroll_for(&self, visible: usize) -> (m: usize)
        requires
            self.wf(),
        ensures
            m == max_scroll(self.shown().len(), visible as nat),
    {
        let total = self.total();
        if total <= visible {
            0
        } else {
            total - visible
        }
    }

    /// Append a line, dropping the oldest beyond capacity; in follow mode
    /// the view moves to the bottom.
    pub fn add_line(&mut self, line: String)
        requires
            old(self).wf(),
        ensures
            final(self).wf(),
            final(self).buffer() == keep_last(old(self).buffer().push(line@), old(self).capacity()),
            final(self).capacity() == old(self).capacity(),
            final(self).filter_text() == old(self).filter_text(),
            final(self).follows() == old(self).follows(),
            final(self).scroll() == if old(self).follows() {
                final(self).bottom()
            } else {
                old(self).scroll()
            },
    {
        let ghost start = texts(self.lines@).push(line@);
        let ghost cap = self.max_lines as nat;
        let mut lines = VecDeque::new();
        std::mem::swap(&mut lines, &mut self.lines);
        let mut filtered_lines: Vec<String> = Vec::new();
        std::mem::swap(&mut filtered_lines, &mut self.filtered_lines);
        lines.push_back(line);
        assert(texts(lines@) =~= start);
        while lines.len() > self.max_lines
            invariant
                cap == self.max_lines,
                start.len() <= cap + 1,
                texts(lines@) == start.subrange(start.len() - lines@.len(), start.len() as int),
                lines@.len() <= start.len(),
                lines@.len() == start.len() || lines@.len() >= cap,
            decreases lines.len(),
        {
            let ghost before = lines@;
            let ghost tb = texts(before);
            let _ = lines.pop_front();
            assert(texts(lines@) =~= tb.subrange(1, tb.len() as int));
            assert(tb.subrange(1, tb.len() as int) =~= start.subrange(
                start.len() - lines@.len(),
                start.len() as int,
            ));
        }
        proof {
            if start.len() <= cap {
                assert(lines@.len() == start.len());
                assert(start.subrange(0, start.len() as int) =~= start);
            } else {
                assert(lines@.len() == cap);
            }
            assert(texts(lines@) == keep_last(start, cap));
        }
        let refreshed = match &self.filter {
            Some(f) => Self::filter_lines(&lines, f.as_str()),
            None => filtered_lines,
        };
        self.filtered_lines = refreshed;
        self.lines = lines;
        if self.follow_mode {
            self.scroll_to_bottom();
        }
    }

    /// Append lines in order, as `add_line` one by one.
    pub fn add_lines(&mut self, lines: Vec<String>)
        requires
            old(self).wf(),
        ensures
            final(self).wf(),
            final(self).capacity() == old(self).capacity(),
            final(self).filter_text() == old(self).filter_text(),
            final(self).follows() == old(self).follows(),
            lines@.len() == 0 ==> final(self).buffer() == old(self).buffer(),
            final(self).buffer() == keep_all(old(self).buffer(), texts(lines@), old(self).capacity()),
    {
        let mut i: usize = 0;
        while i < lines.len()
            invariant
                i <= lines@.len(),
                self.wf(),
                self.capacity() == old(self).capacity(),
                self.filter_text() == old(self).filter_text(),
                self.follows() == old(self).follows(),
                self.buffer() == keep_all(old(self).buffer(), texts(lines@).take(i as int), old(self).capacity()),
            decreases lines.len() - i,
        {
            proof {
                assert(texts(lines@).take(i + 1).drop_last() =~= texts(lines@).take(i as int));
            }
            self.add_line(lines[i].clone());
            i = i + 1;
        }
        assert(texts(lines@).take(lines@.len() as int) =~= texts(lines@));
    }

    /// Set or clear the filter; in follow mode the view moves to the bottom
    /// of what it now shows, otherwise to the top.
    pub fn set_filter(&mut self, filter: Option<String>)
        requires
            old(self).wf(),
        ensures
            final(self).wf(),
            final(self).buffer() == old(self).buffer(),
            final(self).capacity() == old(self).capacity(),
            final(self).filter_text() == match filter {
                Some(f) => Some(f@),
                None => None::<Seq<char>>,
            },
            final(self).follows() == old(self).follows(),
            final(self).scroll() == if old(self).follows() {
                final(self).bottom()
            } else {
                0
            },
    {
        let refreshed = match &filter {
            Some(f) => Self::filter_lines(&self.lines, f.as_str()),
            None => Vec::new(),
        };
        self.filter = filter;
        self.filtered_lines = refreshed;
        if self.follow_mode {
            self.scroll_to_bottom();
        } else {
            self.scroll_position = 0;
        }
    }

    /// The active filter.
    pub fn filter(&self) -> (r: Option<&str>)
        ensures
            match r {
                Some(f) => self.filter_text() == Some(f@),
                None => self.filter_text() is None,
            },
    {
        match &self.filter {
            Some(f) => Some(f.as_str()),
            None => None,
        }
    }

    /// Flip follow mode; turning it on moves the view to the bottom.
    pub fn toggle_follow_mode(&mut self)
        requires
            old(self).wf(),
        ensures
            final(self).wf(),
            final(self).buffer() == old(self).buffer(),
            final(self).filter_text() == old(self).filter_text(),
            final(self).capacity() == old(self).capacity(),
            final(self).follows() == !old(self).follows(),
            final(self).scroll() == if final(self).follows() {
                final(self).bottom()
            } else {
                old(self).scroll()
            },
    {
        self.follow_mode = !self.follow_mode;
        if self.follow_mode {
            self.scroll_to_bottom();
        }
    }

    /// Set follow mode; turning it on moves the view to the bottom.
    pub fn set_follow_mode(&mut self, enabled: bool)
        requires
            old(self).wf(),
        ensures
            final(self).wf(),
            final(self).buffer() == old(self).buffer(),
            final(self).filter_text() == old(self).filter_text(),
            final(self).capacity() == old(self).capacity(),
            final(self).follows() == enabled,
            final(self).scroll() == if enabled {
                final(self).bottom()
            } else {
                old(self).scroll()
            },
    {
        self.follow_mode = enabled;
        if enabled {
            self.scroll_to_bottom();
        }
    }

    pub fn is_follow_mode(&self) -> (r: bool)
        ensures
            r == self.follows(),
    {
        self.follow_mode
    }

    /// The index of the first line shown.
    pub fn scroll_position(&self) -> (r: usize)
        ensures
            r == self.scroll(),
    {
        self.scroll_position
    }

    /// Scroll up a line; scrolling by hand leaves follow mode.
    pub fn scroll_up(&mut self)
        requires
            old(self).wf(),
        ensures
            final(self).wf(),
            final(self).buffer() == old(self).buffer(),
            final(self).filter_text() == old(self).filter_text(),
            final(self).capacity() == old(self).capacity(),
            old(self).scroll() > 0 ==> final(self).scroll() == old(self).scroll() - 1
                && !final(self).follows(),
            old(self).scroll() == 0 ==> final(self).scroll() == 0 && final(self).follows()
                == old(self).follows(),
    {
        if self.scroll_position > 0 {
            self.scroll_position = self.scroll_position - 1;
            self.follow_mode = false;
        }
    }

    /// Scroll down a line, no further than the bottom.
    pub fn scroll_down(&mut self)
        requires
            old(self).wf(),
        ensures
            final(self).wf(),
            final(self).buffer() == old(self).buffer(),
            final(self).filter_text() == old(self).filter_text(),
            final(self).capacity() == old(self).capacity(),
            final(self).follows() == old(self).follows(),
            final(self).scroll() == if old(self).scroll() < old(self).bottom() {
                old(self).scroll() + 1
            } else {
                old(self).scroll()
            },
    {
        let max = self.max_scroll_for(VISIBLE_LINES);
        if self.scroll_position < max {
            self.scroll_position = self.scroll_position + 1;
        }
    }

    /// Jump to the first line and leave follow mode.
    pub fn scroll_to_top(&mut self)
        requires
            old(self).wf(),
        ensures
            final(self).wf(),
            final(self).buffer() == old(self).buffer(),
            final(self).filter_text() == old(self).filter_text(),
            final(self).capacity() == old(self).capacity(),
            final(self).scroll() == 0,
            !final(self).follows(),
    {
        self.scroll_position = 0;
        self.follow_mode = false;
    }

    /// Jump to the bottom.
    pub fn scroll_to_bottom(&mut self)
        requires
            old(self).wf(),
        ensures
            final(self).wf(),
            final(self).buffer() == old(self).buffer(),
            final(self).filter_text() == old(self).filter_text(),
            final(self).capacity() == old(self).capacity(),
            final(self).follows() == old(self).follows(),
            final(self).scroll() == old(self).bottom(),
    {
        let max = self.max_scroll_for(VISIBLE_LINES);
        self.scroll_position = max;
    }

    /// Scroll up a page, stopping at the top; leaves follow mode.
    pub fn page_up(&mut self)
        requires
            old(self).wf(),
        ensures
            final(self).wf(),
            final(self).buffer() == old(self).buffer(),
            final(self).filter_text() == old(self).filter_text(),
            final(self).capacity() == old(self).capacity(),
            final(self).scroll() == if old(self).scroll() >= VISIBLE_LINES {
                (old(self).scroll() - VISIBLE_LINES) as nat
            } else {
                0
            },
            !final(self).follows(),
    {
        if self.scroll_position >= VISIBLE_LINES {
            self.scroll_position = self.scroll_position - VISIBLE_LINES;
        } else {
            self.scroll_position = 0;
        }
        self.follow_mode = false;
    }

    /// Scroll down a page, stopping at the bottom; reaching the bottom turns
    /// follow mode on.
    pub fn page_down(&mut self)
        requires
            old(self).wf(),
        ensures
            final(self).wf(),
            final(self).buffer() == old(self).buffer(),
            final(self).filter_text() == old(self).filter_text(),
            final(self).capacity() == old(self).capacity(),
            final(self).scroll() == if old(self).scroll() + VISIBLE_LINES < old(self).bottom() {
                old(self).scroll() + VISIBLE_LINES
            } else {
                old(self).bottom() as int
            },
            final(self).follows() == (old(self).follows() || final(self).scroll()
                >= old(self).bottom()),
    {
        let max = self.max_scroll_for(VISIBLE_LINES);
        let next = if self.scroll_position >= max || max - self.scroll_position <= VISIBLE_LINES {
            max
        } else {
            self.scroll_position + VISIBLE_LINES
        };
        self.scroll_position = next;
        if self.scroll_position >= max {
            self.follow_mode = true;
        }
    }

    /// Drop every line; the filter and follow mode stay.
    pub fn clear(&mut self)
        requires
            old(self).wf(),
        ensures
            final(self).wf(),
            final(self).buffer() == Seq::<Seq<char>>::empty(),
            final(self).capacity() == old(self).capacity(),
            final(self).filter_text() == old(self).filter_text(),
            final(self).follows() == old(self).follows(),
            final(self).scroll() == 0,
    {
        self.lines.clear();
        self.filtered_lines.clear();
        self.scroll_position = 0;
        assert(texts(self.lines@) =~= Seq::<Seq<char>>::empty());
    }

    /// How many lines the buffer holds.
    pub fn line_count(&self) -> (n: usize)
        ensures
            n == self.buffer().len(),
    {
        self.lines.len()
    }
}

/// A well-formed view never holds more lines than its capacity.
pub proof fn law_buffer_within_capacity(v: LogView)
    requires
        v.wf(),
    ensures
        v.buffer().len() <= v.capacity(),
{
}

/// Appending keeps at most the capacity, and the newest line is last.
pub proof fn law_keep_last_bounded(lines: Seq<Seq<char>>, line: Seq<char>, max: nat)
    requires
        max > 0,
    ensures
        keep_last(lines.push(line), max).len() <= max,
        keep_last(lines.push(line), max).last() == line,
{
}

/// What one draw of the view shows.
pub struct LogFrame {
    /// `Logs`, then the filter and follow mode when they are on.
    pub title: String,
    /// The shown lines in the visible window, untruncated.
    pub rows: Vec<String>,
    /// Lines shown in all, when they overflow the window (a scrollbar is
    /// drawn then).
    pub scrollbar_total: Option<usize>,
    /// The window's first line after clamping.
    pub position: usize,
    /// How many lines the window holds.
    pub viewport: usize,
}

/// The view's title.
pub open spec fn title_text(filter: Option<Seq<char>>, follow: bool) -> Seq<char> {
    "Logs"@ + match filter {
        Some(f) => " [filter: "@ + f + "]"@,
        None => Seq::empty(),
    } + if follow {
        " [follow]"@
    } else {
        Seq::empty()
    }
}

impl LogView {
    /// The title: `Logs`, the filter when there is one, and `[follow]` in
    /// follow mode.
    pub fn title(&self) -> (r: String)
        ensures
            r@ == title_text(self.filter_text(), self.follows()),
    {
        let mut t = owned("Logs");
        if let Some(f) = &self.filter {
            push_str(&mut t, " [filter: ");
            push_str(&mut t, f.as_str());
            push_str(&mut t, "]");
        }
        if self.follow_mode {
            push_str(&mut t, " [follow]");
        }
        t
    }

    /// Prepare one draw in a window `height` rows high (two of them are the
    /// border): pull the position back to the bottom when it has gone past
    /// it, and pick the lines in the window.
    pub fn frame(&mut self, height: u16) -> (r: LogFrame)
        requires
            old(self).wf(),
        ensures
            final(self).wf(),
            final(self).buffer() == old(self).buffer(),
            final(self).filter_text() == old(self).filter_text(),
            final(self).capacity() == old(self).capacity(),
            final(self).follows() == old(self).follows(),
            r.viewport == if height >= 2 {
                height - 2
            } else {
                0
            },
            final(self).scroll() == if old(self).scroll() > max_scroll(
                old(self).shown().len(),
                r.viewport as nat,
            ) {
                max_scroll(old(self).shown().len(), r.viewport as nat)
            } else {
                old(self).scroll()
            },
            r.position == final(self).scroll(),
            texts(r.rows@) == if r.position < old(self).shown().len() {
                old(self).shown().subrange(
                    r.position as int,
                    if r.position + r.viewport < old(self).shown().len() {
                        r.position + r.viewport
                    } else {
                        old(self).shown().len() as int
                    },
                )
            } else {
                Seq::<Seq<char>>::empty()
            },
            r.scrollbar_total == if old(self).shown().len() > r.viewport {
                Some(old(self).shown().len() as usize)
            } else {
                None::<usize>
            },
            r.title@ == title_text(old(self).filter_text(), old(self).follows()),
    {
        let viewport: usize = if height >= 2 {
            (height - 2) as usize
        } else {
            0
        };
        let max = self.max_scroll_for(viewport);
        if self.scroll_position > max {
            self.scroll_position = max;
        }
        let total = self.total();
        let start = self.scroll_position;
        let end = if total - start < viewport || start > total {
            total
        } else {
            start + viewport
        };
        let ghost shown = self.shown();
        let mut rows: Vec<String> = Vec::new();
        if start < total {
            let mut i = start;
            assert(shown.subrange(start as int, start as int) =~= Seq::<Seq<char>>::empty());
            while i < end
                invariant
                    start <= i <= end <= total,
                    total == shown.len(),
                    shown == self.shown(),
                    self.wf(),
                    texts(rows@) == shown.subrange(start as int, i as int),
                decreases end - i,
            {
                let line = if self.filter.is_some() {
                    self.filtered_lines[i].clone()
                } else {
                    self.lines[i].clone()
                };
                proof {
                    if self.filter.is_some() {
                        assert(shown[i as int] == texts(self.filtered_lines@)[i as int]);
                    } else {
                        assert(shown[i as int] == texts(self.lines@)[i as int]);
                    }
                }
                let ghost before = texts(rows@);
                rows.push(line);
                assert(texts(rows@) =~= before.push(shown[i as int]));
                assert(shown.subrange(start as int, i + 1) =~= shown.subrange(start as int, i as int).push(
                    shown[i as int],
                ));
                i = i + 1;
            }
        } else {
            assert(texts(rows@) =~= Seq::<Seq<char>>::empty());
        }
        LogFrame {
            title: self.title(),
            rows,
            scrollbar_total: if total > viewport {
                Some(total)
            } else {
                None
            },
            position: self.scroll_position,
            viewport,
        }
    }
}

/// The last character boundary at or before byte `k`.
pub open spec fn boundary_at_or_before(bytes: Seq<u8>, k: int) -> int
    decreases k,
{
    if k <= 0 {
        0
    } else if vstd::utf8::is_char_boundary(bytes, k) {
        k
    } else {
        boundary_at_or_before(bytes, k - 1)
    }
}

/// A line cut to `max_width` bytes for drawing, when it is longer; a cut
/// that would fall inside a character moves back to where it starts.
pub fn display_line(line: &str, max_width: usize) -> (r: &str)
    ensures
        r.spec_bytes() == if line.spec_bytes().len() > max_width {
            line.spec_bytes().subrange(0, boundary_at_or_before(line.spec_bytes(), max_width as int))
        } else {
            line.spec_bytes()
        },
{
    if line.as_bytes().len() > max_width {
        let mut k = max_width;
        while k > 0 && !line.is_char_boundary(k)
            invariant
                k <= max_width,
                boundary_at_or_before(line.spec_bytes(), k as int) == boundary_at_or_before(
                    line.spec_bytes(),
                    max_width as int,
                ),
            decreases k,
        {
            k = k - 1;
        }
        proof {
            vstd::utf8::encode_utf8_valid_utf8(line@);
            vstd::utf8::is_char_boundary_start_end_of_seq(line.spec_bytes());
        }
        let (head, _) = line.split_at(k);
        head
    } else {
        line
    }
}

/// The buffer after appending each of `new` in turn.
pub open spec fn keep_all(lines: Seq<Seq<char>>, new: Seq<Seq<char>>, max: nat) -> Seq<Seq<char>>
    decreases new.len(),
{
    if new.len() == 0 {
        lines
    } else {
        keep_last(keep_all(lines, new.drop_last(), max).push(new.last()), max)
    }
}

} // verus!
