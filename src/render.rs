use vstd::prelude::*;

use crate::console::{views_of, Console, ConsoleModel, LINE_HEIGHT};
use crate::text::{is_blank, str_is_blank};

verus! {

/// The most log lines laid out for one frame.
pub const RENDER_LINE_CAP: usize = 200;

/// Space in pixels between the console's edge and its text.
pub const PADDING: i32 = 10;

/// Where one log line goes in the backbuffer.
#[derive(Clone, Copy, Debug, PartialEq, Eq, Structural)]
pub struct LinePlacement {
    /// Index of the line in the log.
    pub index: usize,
    /// Top of the line in the backbuffer, in pixels.
    pub y: i64,
}

/// Top of the line of rank `k`, counted from the newest line.
pub open spec fn line_top(m: ConsoleModel, k: int) -> int {
    m.height - LINE_HEIGHT * (k + 2) + m.scroll_y - PADDING
}

/// How many of the newest lines are looked at.
pub open spec fn ranks_shown(m: ConsoleModel) -> int {
    if m.lines.len() < RENDER_LINE_CAP {
        m.lines.len() as int
    } else {
        RENDER_LINE_CAP as int
    }
}

/// The placements, as (index, top), of the non-blank lines among the `k`
/// newest, newest first.
pub open spec fn layout_upto(m: ConsoleModel, k: int) -> Seq<(int, int)>
    decreases k,
{
    if k <= 0 {
        seq![]
    } else {
        let prev = layout_upto(m, k - 1);
        let idx = m.lines.len() - k;
        if is_blank(m.lines[idx]) {
            prev
        } else {
            prev.push((idx, line_top(m, k - 1)))
        }
    }
}

pub open spec fn layout(m: ConsoleModel) -> Seq<(int, int)> {
    layout_upto(m, ranks_shown(m))
}

pub open spec fn placements_view(v: Seq<LinePlacement>) -> Seq<(int, int)> {
    v.map_values(|p: LinePlacement| (p.index as int, p.y as int))
}

proof fn lemma_layout_len(m: ConsoleModel, k: int)
    ensures
        layout_upto(m, k).len() <= if k < 0 { 0 } else { k },
    decreases k,
{
    if k > 0 {
        lemma_layout_len(m, k - 1);
    }
}

impl Console {
    /// Lays out the newest log lines for one frame: walking from the newest
    /// line back, at most `RENDER_LINE_CAP` lines are looked at, each one
    /// `LINE_HEIGHT` above the last, and blank ones are skipped.
    pub fn backbuffer_layout(&self) -> (r: Vec<LinePlacement>)
        requires
            self.wf(),
        ensures
            placements_view(r@) == layout(self@),
            r@.len() <= RENDER_LINE_CAP,
            forall|i: int| 0 <= i < r@.len() ==> (#[trigger] r@[i]).index < self@.lines.len(),
    {
        let lines = self.scroll_back();
        let (_, height) = self.size();
        let scroll = self.scroll_offset();
        let n = lines.len();
        let shown: usize = if n < RENDER_LINE_CAP {
            n
        } else {
            RENDER_LINE_CAP
        };
        let mut out: Vec<LinePlacement> = Vec::new();
        let mut k: usize = 0;
        while k < shown
            invariant
                views_of(lines@) == self@.lines,
                n == lines@.len(),
                height == self@.height,
                scroll == self@.scroll_y,
                shown == ranks_shown(self@),
                k <= shown,
                placements_view(out@) == layout_upto(self@, k as int),
                forall|i: int| 0 <= i < out@.len() ==> (#[trigger] out@[i]).index < n,
            decreases shown - k,
        {
            let idx = n - 1 - k;
            assert(lines@[idx as int]@ == self@.lines[idx as int]);
            if !str_is_blank(lines[idx].as_str()) {
                let y: i64 = height as i64 - (LINE_HEIGHT as i64) * (k as i64 + 2) + scroll as i64
                    - PADDING as i64;
                let ghost before = out@;
                out.push(LinePlacement { index: idx, y });
                proof {
                    assert(placements_view(out@) =~= placements_view(before).push(
                        (idx as int, y as int),
                    ));
                }
            }
            k = k + 1;
        }
        proof {
            lemma_layout_len(self@, shown as int);
            assert(out@.len() == placements_view(out@).len());
        }
        out
    }
}

} // verus!
