//! The logs tab: how far the log is scrolled.

use vstd::prelude::*;

verus! {

/// The logs tab.
pub struct LogsTab {
    pub scroll: u16,
}

/// The greatest scroll position of a log of `log_len` lines, one line per
/// entry: the index of the last line, as far as `u16` reaches.
pub open spec fn last_line(log_len: usize) -> u16 {
    if log_len == 0 {
        0
    } else if log_len - 1 > u16::MAX {
        u16::MAX
    } else {
        (log_len - 1) as u16
    }
}

impl LogsTab {
    /// The tab at start, scrolled to the top.
    pub fn new() -> (r: Self)
        ensures
            r.scroll == 0,
    {
        LogsTab { scroll: 0 }
    }

    /// The greatest scroll position of a log of `log_len` lines.
    pub fn max_scroll(log_len: usize) -> (r: u16)
        ensures
            r == last_line(log_len),
    {
        let last: usize = log_len.saturating_sub(1);
        if last > 0xffff {
            0xffff
        } else {
            last as u16
        }
    }

    /// Scrolls up by `lines`, as far as the top.
    pub fn scroll_up(&mut self, lines: u16)
        ensures
            final(self).scroll == if old(self).scroll < lines {
                0
            } else {
                old(self).scroll - lines
            },
    {
        self.scroll = self.scroll.saturating_sub(lines);
    }

    /// Scrolls down by `lines`, as far as the last line of a log of
    /// `log_len` lines.
    pub fn scroll_down(&mut self, lines: u16, log_len: usize)
        ensures
            final(self).scroll == if old(self).scroll + lines > last_line(log_len) {
                last_line(log_len)
            } else {
                (old(self).scroll + lines) as u16
            },
    {
        let max = LogsTab::max_scroll(log_len);
        let wanted = self.scroll.saturating_add(lines);
        self.scroll = if wanted > max {
            max
        } else {
            wanted
        };
    }

    /// Scrolls to the top.
    pub fn to_top(&mut self)
        ensures
            final(self).scroll == 0,
    {
        self.scroll = 0;
    }

    /// Scrolls to the last line of a log of `log_len` lines.
    pub fn to_bottom(&mut self, log_len: usize)
        ensures
            final(self).scroll == last_line(log_len),
    {
        self.scroll = LogsTab::max_scroll(log_len);
    }
}

} // verus!
