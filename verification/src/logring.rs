//! The bounded, scroll-aware log buffer: an append-only ring of at most
//! `LOG_CAPACITY` lines with FIFO eviction, a scroll cursor, and an
//! auto-scroll flag that keeps the newest lines visible until the operator
//! scrolls away. Every operation takes the viewport height as a plain value,
//! so the cursor rules are stated exactly against it.

use vstd::prelude::*;
use std::collections::VecDeque;

verus! {

/// Most lines the log keeps; appending beyond this evicts the oldest line.
pub const LOG_CAPACITY: usize = 256;

/// The bounded log buffer with its scroll cursor.
pub struct LogRing {
    pub entries: VecDeque<String>,
    pub scroll_offset: usize,
    pub auto_scroll: bool,
}

/// Greatest valid scroll offset for `len` lines in a viewport of `height`
/// rows: the offset that puts the last line on the bottom row, floored at 0.
pub open spec fn max_scroll(len: int, height: int) -> int {
    if len > height {
        len - height
    } else {
        0
    }
}

/// What one append does to the stored lines: push the new line, evicting the
/// oldest first when the buffer is at capacity.
pub open spec fn appended(lines: Seq<String>, entry: String) -> Seq<String> {
    if lines.len() >= LOG_CAPACITY {
        lines.subrange(1, lines.len() as int).push(entry)
    } else {
        lines.push(entry)
    }
}

impl LogRing {
    /// The stored lines, oldest first.
    pub open spec fn lines(self) -> Seq<String> {
        self.entries@
    }

    /// The buffer never holds more than `LOG_CAPACITY` lines.
    pub open spec fn wf(self) -> bool {
        self.entries@.len() <= LOG_CAPACITY
    }

    /// An empty log with the cursor at the top and auto-scroll on.
    pub fn new() -> (r: LogRing)
        ensures
            r.wf(),
            r.lines() == Seq::<String>::empty(),
            r.scroll_offset == 0,
            r.auto_scroll,
    {
        LogRing { entries: VecDeque::new(), scroll_offset: 0, auto_scroll: true }
    }

    /// Number of stored lines.
    pub fn len(&self) -> (r: usize)
        ensures
            r == self.lines().len(),
    {
        self.entries.len()
    }

    /// Append one line, evicting the oldest when at capacity. When
    /// auto-scroll is on, the cursor moves to the greatest valid offset for
    /// the new length, so the tail stays visible; otherwise it is frozen.
    pub fn append(&mut self, entry: String, height: usize)
        requires
            old(self).wf(),
        ensures
            final(self).wf(),
            final(self).lines() == appended(old(self).lines(), entry),
            final(self).lines().len() == if old(self).lines().len() < LOG_CAPACITY {
                old(self).lines().len() + 1
            } else {
                LOG_CAPACITY as nat
            },
            final(self).auto_scroll == old(self).auto_scroll,
            final(self).scroll_offset == if old(self).auto_scroll {
                max_scroll(final(self).lines().len() as int, height as int)
            } else {
                old(self).scroll_offset as int
            },
    {
        if self.entries.len() == LOG_CAPACITY {
            self.entries.pop_front();
        }
        self.entries.push_back(entry);
        if self.auto_scroll {
            let len = self.entries.len();
            self.scroll_offset = if len > height {
                len - height
            } else {
                0
            };
        }
    }

    /// Scroll one line up: the cursor moves toward the top, floored at 0 and
    /// clamped to the greatest valid offset, and auto-scroll turns off.
    pub fn scroll_up(&mut self, height: usize)
        ensures
            final(self).lines() == old(self).lines(),
            !final(self).auto_scroll,
            final(self).scroll_offset == vstd::math::min(
                if old(self).scroll_offset > 0 {
                    old(self).scroll_offset - 1
                } else {
                    0
                },
                max_scroll(old(self).lines().len() as int, height as int),
            ),
    {
        let stepped: usize = if self.scroll_offset > 0 {
            self.scroll_offset - 1
        } else {
            0
        };
        let max = self.max_scroll_position(height);
        self.scroll_offset = if stepped < max {
            stepped
        } else {
            max
        };
        self.auto_scroll = false;
    }

    /// Scroll one line down. Past the bottom the cursor clamps to the
    /// greatest valid offset and auto-scroll turns on; anywhere short of it
    /// the cursor steps down with auto-scroll off.
    pub fn scroll_down(&mut self, height: usize)
        ensures
            final(self).lines() == old(self).lines(),
            final(self).scroll_offset == vstd::math::min(
                old(self).scroll_offset + 1,
                max_scroll(old(self).lines().len() as int, height as int),
            ),
            final(self).auto_scroll == (old(self).scroll_offset + 1 >= max_scroll(
                old(self).lines().len() as int,
                height as int,
            )),
    {
        let stepped: usize = if self.scroll_offset < usize::MAX {
            self.scroll_offset + 1
        } else {
            usize::MAX
        };
        let max = self.max_scroll_position(height);
        if stepped >= max {
            self.scroll_offset = max;
            self.auto_scroll = true;
        } else {
            self.scroll_offset = stepped;
            self.auto_scroll = false;
        }
    }

    /// Jump to the top: cursor 0, auto-scroll off.
    pub fn jump_top(&mut self)
        ensures
            final(self).lines() == old(self).lines(),
            final(self).scroll_offset == 0,
            !final(self).auto_scroll,
    {
        self.scroll_offset = 0;
        self.auto_scroll = false;
    }

    /// Jump to the bottom: cursor at the greatest valid offset, auto-scroll
    /// on.
    pub fn jump_bottom(&mut self, height: usize)
        ensures
            final(self).lines() == old(self).lines(),
            final(self).scroll_offset == max_scroll(old(self).lines().len() as int, height as int),
            final(self).auto_scroll,
    {
        self.scroll_offset = self.max_scroll_position(height);
        self.auto_scroll = true;
    }

    /// Re-clamp the cursor for a (possibly new) viewport height, as the
    /// renderer may: with auto-scroll it tracks the bottom, without it it is
    /// only clamped into the valid range. Idempotent for a fixed height.
    pub fn reclamp(&mut self, height: usize)
        ensures
            final(self).lines() == old(self).lines(),
            final(self).auto_scroll == old(self).auto_scroll,
            final(self).scroll_offset == if old(self).auto_scroll {
                max_scroll(old(self).lines().len() as int, height as int)
            } else {
                vstd::math::min(
                    old(self).scroll_offset as int,
                    max_scroll(old(self).lines().len() as int, height as int),
                )
            },
    {
        let max = self.max_scroll_position(height);
        if self.auto_scroll {
            self.scroll_offset = max;
        } else if self.scroll_offset > max {
            self.scroll_offset = max;
        }
    }

    /// Clamp the cursor into the valid range for `height` rows, leaving the
    /// auto-scroll flag as it is.
    pub fn clamp_only(&mut self, height: usize)
        ensures
            final(self).lines() == old(self).lines(),
            final(self).auto_scroll == old(self).auto_scroll,
            final(self).scroll_offset == vstd::math::min(
                old(self).scroll_offset as int,
                max_scroll(old(self).lines().len() as int, height as int),
            ),
    {
        let max = self.max_scroll_position(height);
        if self.scroll_offset > max {
            self.scroll_offset = max;
        }
    }

    /// The window of lines a viewport of `height` rows shows from the
    /// cursor: copies of the lines from the cursor (clamped into range) up
    /// to the viewport height or the end, whichever comes first.
    pub fn visible_lines(&self, height: usize) -> (v: Vec<String>)
        ensures
            ({
                let len = self.lines().len() as int;
                let start = vstd::math::min(self.scroll_offset as int, len);
                let end = vstd::math::min(start + height, len);
                &&& v@.len() == end - start
                &&& forall|i: int| 0 <= i < v@.len() ==> v@[i]@ == self.lines()[start + i]@
            }),
    {
        let len = self.entries.len();
        let start: usize = if self.scroll_offset < len {
            self.scroll_offset
        } else {
            len
        };
        let end: usize = if height < len - start {
            start + height
        } else {
            len
        };
        let mut v: Vec<String> = Vec::new();
        let mut i: usize = start;
        while i < end
            invariant
                start <= i <= end <= self.lines().len(),
                v@.len() == i - start,
                forall|j: int| 0 <= j < v@.len() ==> v@[j]@ == self.lines()[start + j]@,
            decreases end - i,
        {
            v.push(self.entries[i].clone());
            i = i + 1;
        }
        v
    }

    /// The greatest valid scroll offset for this log in a viewport of
    /// `height` rows.
    pub fn max_scroll_position(&self, height: usize) -> (r: usize)
        ensures
            r == max_scroll(self.lines().len() as int, height as int),
    {
        let len = self.entries.len();
        if len > height {
            len - height
        } else {
            0
        }
    }
}

/// The page the cursor is on and the page count, one page per `height`
/// lines: pages are numbered from one, an empty log still counts as page one,
/// and with no visible rows both are zero.
pub fn page_info(total_lines: usize, scroll: usize, height: usize) -> (r: (usize, usize))
    requires
        total_lines + height <= usize::MAX,
        scroll <= total_lines,
    ensures
        r.0 == if height == 0 {
            0int
        } else {
            scroll as int / height as int + 1
        },
        r.1 == if height == 0 {
            0int
        } else {
            (total_lines + height - 1) as int / height as int
        },
{
    if height == 0 {
        (0, 0)
    } else {
        (scroll / height + 1, (total_lines + height - 1) / height)
    }
}

/// The ring never exceeds its capacity, and an append at capacity evicts
/// exactly the oldest surviving line while every other line moves up one
/// place, with the new line last.
pub proof fn lemma_append_capacity(lines: Seq<String>, entry: String)
    requires
        lines.len() <= LOG_CAPACITY,
    ensures
        appended(lines, entry).len() <= LOG_CAPACITY,
        appended(lines, entry).last() == entry,
        lines.len() == LOG_CAPACITY ==> {
            &&& appended(lines, entry).len() == LOG_CAPACITY
            &&& forall|i: int|
                1 <= i < LOG_CAPACITY ==> appended(lines, entry)[i - 1] == lines[i]
        },
        lines.len() < LOG_CAPACITY ==> appended(lines, entry) == lines.push(entry),
{
}

/// While the cursor sits at the greatest valid offset, the last line is
/// inside the visible window of `height` rows starting at that offset.
pub proof fn lemma_tail_visible(len: int, height: int)
    requires
        len >= 1,
        height >= 1,
    ensures
        max_scroll(len, height) <= len - 1 < max_scroll(len, height) + height,
{
}

/// Any append with auto-scroll on leaves the tail visible: whatever entry
/// arrives, the new last line lies in the window of `height` rows at the new
/// cursor. Scrolling down past the bottom turns auto-scroll on, so this is
/// what keeps the newest lines on screen from then on.
pub proof fn lemma_auto_append_shows_tail(
    before: LogRing,
    after: LogRing,
    entry: String,
    height: usize,
)
    requires
        before.wf(),
        before.auto_scroll,
        after.lines() == appended(before.lines(), entry),
        after.scroll_offset == max_scroll(after.lines().len() as int, height as int),
        height >= 1,
    ensures
        after.lines().len() >= 1,
        after.scroll_offset <= after.lines().len() - 1 < after.scroll_offset + height,
        after.lines().last() == entry,
{
    lemma_tail_visible(after.lines().len() as int, height as int);
}

} // verus!
