//! Vertical caret motion and scrolling of the edit pane, and resizing of the
//! split between the panes.
use vstd::prelude::*;
use crate::editor::{fit_from, start_for, Editor};
use crate::edit::caret_at;
use crate::graphemes::blen;
use crate::term::{ClearKind, TermOp};

verus! {

/// `a + b`, held at `usize::MAX`.
pub open spec fn sat_add(a: int, b: int) -> int {
    if a + b > usize::MAX {
        usize::MAX as int
    } else {
        a + b
    }
}

/// `a - b`, held at 0.
pub open spec fn sat_sub(a: int, b: int) -> int {
    if a < b {
        0
    } else {
        a - b
    }
}

/// The line, the top line of the pane and the caret row after moving down
/// `num` lines from line `lineidx` of `n`, the pane's top at `ss` and the
/// caret on row `cury`. The line stops at the last one. When the caret
/// would leave the pane or reaches the last line, the pane scrolls: by
/// `num` lines for a page, else just enough to keep the line that a full
/// pane would show on its last row (the virtual bottom line) in view; it
/// never scrolls past the caret's line, and always far enough to show it.
/// The caret row follows its line, held on the screen.
pub open spec fn down_geom(
    lineidx: int,
    ss: int,
    n: int,
    cury: int,
    pl: int,
    sizey: int,
    num: int,
) -> (int, int, int) {
    let virt = if ss <= sat_sub(sizey + 2, cury + pl) {
        cury - pl - 2
    } else {
        sat_add(ss, sizey - pl - 3)
    };
    let cy0 = cury + num;
    let li = if num >= n - 1 - lineidx {
        n - 1
    } else {
        lineidx + num
    };
    let ss1 = if cy0 > sizey - 1 || li + 1 == n {
        let t = if num > 10 {
            sat_add(ss, num)
        } else {
            sat_sub(sat_add(virt, num + pl + 3), sizey)
        };
        if t < li {
            t
        } else {
            li
        }
    } else {
        ss
    };
    let pane = sizey - pl - 3;
    let ss2 = if li - ss1 > pane {
        li - pane
    } else {
        ss1
    };
    let rel = li - ss2;
    let cy1 = if rel < sizey && rel + pl + 2 < cy0 {
        rel + pl + 2
    } else {
        cy0
    };
    (li, ss2, if cy1 > sizey - 1 {
        sizey - 1
    } else {
        cy1
    })
}

/// The line, the top line of the pane and the caret row after moving down
/// `num` lines from line `lineidx` of `n`, with the pane's top at
/// `scrollstart` and the caret on row `cury`.
#[verifier::rlimit(60)]
fn down_geometry(
    lineidx: usize,
    scrollstart: usize,
    n: usize,
    cury: u16,
    printlines: u16,
    sizey: u16,
    num: u16,
) -> (r: (usize, usize, u16))
    requires
        lineidx < n,
        scrollstart <= lineidx,
        sizey >= 9,
        sizey / 8 <= printlines <= sizey - 8,
        printlines + 2 <= cury <= sizey - 1,
    ensures
        r.0 == if lineidx + num >= n - 1 {
            n - 1
        } else {
            lineidx + num
        },
        r.1 <= r.0,
        r.0 - r.1 <= sizey - printlines - 3,
        printlines + 2 <= r.2 <= sizey - 1,
        (r.0 as int, r.1 as int, r.2 as int) == down_geom(
            lineidx as int,
            scrollstart as int,
            n as int,
            cury as int,
            printlines as int,
            sizey as int,
            num as int,
        ),
{
    let sizey = sizey as usize;
    let pl = printlines as usize;
    let cury = cury as usize;
    // Past the real bottom line the pane scrolls by a virtual bottom line,
    // the line that a full pane would show on its last row.
    let virtidx: usize = if scrollstart <= (sizey + 2).saturating_sub(cury + pl) {
        cury - pl - 2
    } else {
        scrollstart.saturating_add(sizey - pl - 3)
    };
    let mut cy: usize = cury + num as usize;
    let li: usize = if num as usize >= n - 1 - lineidx {
        n - 1
    } else {
        lineidx + num as usize
    };
    let mut ss = scrollstart;
    if cy > sizey - 1 || li + 1 == n {
        let target: usize = if num > 10 {
            scrollstart.saturating_add(num as usize)
        } else {
            virtidx.saturating_add(num as usize + pl + 3).saturating_sub(sizey)
        };
        ss = if target < li {
            target
        } else {
            li
        };
    }
    let pane: usize = sizey - pl - 3;
    if li - ss > pane {
        ss = li - pane;
    }
    let rel = li - ss;
    if rel < sizey && rel + pl + 2 < cy {
        cy = rel + pl + 2;
    }
    if cy > sizey - 1 {
        cy = sizey - 1;
    }
    (li, ss, cy as u16)
}

impl Editor {
    /// Moves the caret down `num` lines, stopping at the last line, and
    /// scrolls the edit pane so the caret stays on it. On the last line,
    /// with the pane scrolled to it, the caret goes to the end of the line.
    /// With `move_to_beginning` the caret goes to the start of its new line.
    pub fn move_down(&mut self, num: u16, move_to_beginning: bool)
        requires
            old(self).wf(),
        ensures
            final(self).wf(),
            final(self).lines == old(self).lines,
            final(self).same_print_state(&*old(self)),
            final(self).lineidx == if old(self).lineidx + num >= old(self).lines@.len() - 1 {
                old(self).lines@.len() - 1
            } else {
                old(self).lineidx + num
            },
            ({
                let bottom = old(self).lineidx + 1 == old(self).lines@.len()
                    && old(self).scrollstart + 1 == old(self).lines@.len();
                &&& bottom ==> final(self).lidx as int == blen(final(self).line())
                &&& !bottom && move_to_beginning ==> final(self).lidx == 0 && final(self).lofs == 0
                    && final(self).curx == 0
                &&& !bottom ==> (
                    final(self).lineidx as int,
                    final(self).scrollstart as int,
                    final(self).cury as int,
                ) == down_geom(
                    old(self).lineidx as int,
                    old(self).scrollstart as int,
                    old(self).lines@.len() as int,
                    old(self).cury as int,
                    old(self).printlines as int,
                    old(self).sizey as int,
                    num as int,
                )
                &&& !bottom && !move_to_beginning ==> final(self).lidx as int == caret_at(
                    final(self).line(),
                    old(self).lidx as int,
                )
            }),
    {
        self.loose_cursor = true;
        let n = self.lines.len();
        if self.lineidx + 1 == n && self.scrollstart + 1 == n {
            self.lidx = self.lines[self.lineidx].as_str().as_bytes().len();
            self.setpos();
            self.redrawline();
            return ;
        }
        let (li, ss, cy) = down_geometry(
            self.lineidx,
            self.scrollstart,
            n,
            self.cury,
            self.printlines,
            self.sizey,
            num,
        );
        self.lineidx = li;
        self.scrollstart = ss;
        self.cury = cy;
        if move_to_beginning {
            self.lidx = 0;
            self.lofs = 0;
            self.curx = 0;
        } else {
            self.setpos();
        }
        self.redraw();
    }

    /// Moves the caret up `num` lines, stopping at the first line, and
    /// scrolls the edit pane so the caret stays on it. At the top of the
    /// buffer the caret goes to the start of the first line. With
    /// `move_to_end` the caret goes to the end of its new line.
    pub fn move_up(&mut self, num: u16, move_to_end: bool)
        requires
            old(self).wf(),
        ensures
            final(self).wf(),
            final(self).lines == old(self).lines,
            final(self).same_print_state(&*old(self)),
            final(self).lineidx == if old(self).lineidx >= num {
                old(self).lineidx - num
            } else {
                0
            },
            old(self).lineidx == 0 && old(self).scrollstart == 0 ==> final(self).lidx == 0,
            !(old(self).lineidx == 0 && old(self).scrollstart == 0) && move_to_end
                ==> final(self).lidx as int == blen(final(self).line()),
            !(old(self).lineidx == 0 && old(self).scrollstart == 0) && !move_to_end
                ==> final(self).lidx as int == caret_at(final(self).line(), old(self).lidx as int),
            final(self).scrollstart <= old(self).scrollstart,
            !(old(self).lineidx == 0 && old(self).scrollstart == 0) ==> final(self).scrollstart
                == if old(self).cury == old(self).printlines + 2 || final(self).lineidx
                < old(self).scrollstart {
                sat_sub(old(self).scrollstart as int, num as int)
            } else {
                old(self).scrollstart as int
            },
            !(old(self).lineidx == 0 && old(self).scrollstart == 0) ==> final(self).cury
                == final(self).printlines + 2 + (final(self).lineidx - final(self).scrollstart),
    {
        self.loose_cursor = true;
        if self.lineidx == 0 && self.scrollstart == 0 {
            self.lofs = 0;
            self.lidx = 0;
            self.curx = 0;
            self.redrawline();
            return ;
        }
        self.lineidx = self.lineidx.saturating_sub(num as usize);
        if self.cury == self.printlines + 2 || self.lineidx < self.scrollstart {
            self.scrollstart = self.scrollstart.saturating_sub(num as usize);
        }
        let rel = self.lineidx - self.scrollstart;
        self.cury = rel as u16 + self.printlines + 2;
        if move_to_end {
            self.lidx = self.lines[self.lineidx].as_str().as_bytes().len();
        }
        self.setpos();
        self.redraw();
    }

    /// Moves the caret to the end of its line.
    pub fn move_end(&mut self)
        requires
            old(self).wf(),
        ensures
            final(self).wf(),
            final(self).lines == old(self).lines,
            final(self).lineidx == old(self).lineidx,
            final(self).same_print_state(&*old(self)),
            final(self).lidx as int == blen(final(self).line()),
            final(self).lofs as int == fit_from(
                final(self).line(),
                start_for(
                    final(self).line(),
                    final(self).lidx as int,
                    old(self).lofs as int,
                    old(self).loose_cursor,
                    old(self).sizey as int,
                ),
                final(self).lidx as int,
                old(self).tabstop as int,
                old(self).sizex - 1,
            ),
    {
        self.lidx = self.lines[self.lineidx].as_str().as_bytes().len();
        self.setpos();
        self.redrawline();
    }

    /// The facts that a resize keeps while it moves the split: all of the
    /// invariant but the split, the caret row and the print row.
    pub open spec fn resize_ready(&self) -> bool {
        &&& self.sizex >= 2
        &&& self.sizey >= 9
        &&& self.tabstop >= 1
        &&& self.lines@.len() >= 1
        &&& self.lineidx < self.lines@.len()
        &&& self.scrollstart <= self.lineidx
        &&& self.printx <= self.sizex
        &&& self.history_wf()
    }

    /// Grows the print pane by `delta` rows (shrinks it when negative),
    /// held within `sizey / 8 ..= sizey - 8`; the caret row follows the
    /// split and stays on the screen. The screen is drawn again.
    pub fn resize_split(&mut self, delta: i32)
        requires
            old(self).resize_ready(),
            -0x1_0000 <= delta <= 0x1_0000,
        ensures
            final(self).wf(),
            final(self).lines == old(self).lines,
            final(self).sizex == old(self).sizex,
            final(self).sizey == old(self).sizey,
            final(self).printlines as int == if old(self).printlines + delta < old(self).sizey
                / 8 {
                (old(self).sizey / 8) as int
            } else if old(self).printlines + delta > old(self).sizey - 8 {
                old(self).sizey - 8
            } else {
                old(self).printlines + delta
            },
    {
        self.out.push(TermOp::MoveTo(self.printx, self.printy));
        self.out.push(TermOp::Clear(ClearKind::FromCursorDown));
        let sizey: i32 = self.sizey as i32;
        let pre: i32 = self.printlines as i32;
        let lo: i32 = sizey / 8;
        let hi: i32 = sizey - 8;
        let mut np: i32 = pre + delta;
        if np < lo {
            np = lo;
        }
        if np > hi {
            np = hi;
        }
        self.printlines = np as u16;
        let mut cy: i32 = self.cury as i32 + (np - pre);
        if cy < np + 2 {
            cy = np + 2;
        }
        if cy > sizey - 1 {
            let excess: usize = (cy - (sizey - 1)) as usize;
            cy = sizey - 1;
            self.lineidx = self.lineidx.saturating_sub(excess);
            if self.scrollstart > self.lineidx {
                self.scrollstart = self.lineidx;
            }
        }
        self.cury = cy as u16;
        let pane: usize = (self.sizey - self.printlines - 3) as usize;
        if self.lineidx - self.scrollstart > pane {
            self.scrollstart = self.lineidx - pane;
        }
        if self.printy > self.printlines {
            self.printy = self.printlines;
        }
        self.setpos();
        self.writebuf(&[]);
    }
}

} // verus!
