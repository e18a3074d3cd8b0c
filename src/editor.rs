//! The editor: a buffer of lines with a caret, the screen geometry of the
//! print and edit panes, and the scrollback state. Every change to the screen
//! is queued in `out` as terminal operations.
use vstd::prelude::*;
use historybuffer::HistoryBuffer;
use crate::graphemes::{
    blen, grapheme_floor, grapheme_idx_at, grapheme_next, is_boundary, join_lines,
    next_grapheme_idx, push_str, shown_width, shown_width_upto, split_lines,
};
use crate::history::{history_bytes, history_cap, history_total};
use crate::term::TermOp;

verus! {

/// The number of bytes that the scrollback history keeps at least.
pub const HISTORY_BUFFER_SIZE: usize = 300 * 160 * 4;

/// The offset at which display of the bytes up to `b` of `s` starts when
/// it starts no earlier than `p`: from `p`, one grapheme at a time, the
/// first offset whose tab-expanded width up to `b` is at most `max`.
pub open spec fn fit_from(s: Seq<char>, p: int, b: int, ts: int, max: int) -> int
    decreases b - p,
{
    let n = grapheme_next(s, p);
    if p < b && shown_width(s, p, b, ts) > max && p < n {
        fit_from(
            s,
            if n > b {
                b
            } else {
                n
            },
            b,
            ts,
            max,
        )
    } else {
        p
    }
}

/// Where the search for the display offset of line `s` starts, for the
/// caret at byte `b`: 0 after a vertical move (`loose`) unless the caret is
/// far along a long line, 0 when the caret is before `lofs`, and otherwise
/// `lofs` snapped to a grapheme boundary.
pub open spec fn start_for(s: Seq<char>, b: int, lofs: int, loose: bool, sizey: int) -> int {
    let l1 = if loose && (b < lofs || b - lofs < 4 * sizey + 15) {
        0
    } else {
        lofs
    };
    let l2 = if b < l1 {
        0
    } else {
        l1
    };
    if l2 == 0 {
        0
    } else {
        grapheme_floor(s, l2)
    }
}

/// The views of a sequence of lines.
pub open spec fn lines_view(lines: Seq<String>) -> Seq<Seq<char>> {
    lines.map_values(|l: String| l@)
}

/// The editor's whole state.
pub struct Editor {
    /// Column of the edit caret.
    pub curx: u16,
    /// Row of the edit caret.
    pub cury: u16,
    /// Whether the print pane shows the scrollback history.
    pub hb_active: bool,
    /// Absolute index of the first history byte shown.
    pub hb_start_index: usize,
    /// Absolute index past the last history byte shown.
    pub hb_end_index: usize,
    /// The printed bytes kept for scrollback.
    pub histbuf: HistoryBuffer,
    /// Byte offset of the caret in the current line.
    pub lidx: usize,
    /// The lines of the buffer, without newlines.
    pub lines: Vec<String>,
    /// Index of the current line.
    pub lineidx: usize,
    /// Byte offset in the current line at which display starts.
    pub lofs: usize,
    /// Set by vertical moves: the next caret placement may reset `lofs`.
    pub loose_cursor: bool,
    /// Rows of the print pane.
    pub printlines: u16,
    /// Column of the print cursor.
    pub printx: u16,
    /// Row of the print cursor.
    pub printy: u16,
    /// Index of the line shown on the top row of the edit pane.
    pub scrollstart: usize,
    /// Terminal width in cells.
    pub sizex: u16,
    /// Terminal height in rows.
    pub sizey: u16,
    /// Text shown in the separator bar.
    pub split_prompt: String,
    /// Tab stop width.
    pub tabstop: u8,
    /// Terminal operations queued and not yet run.
    pub out: Vec<TermOp>,
}

impl Editor {
    /// The current line.
    pub open spec fn line(&self) -> Seq<char> {
        self.lines@[self.lineidx as int]@
    }

    /// The buffer as one text: the lines joined with newlines.
    pub open spec fn text_view(&self) -> Seq<char> {
        join_lines(lines_view(self.lines@))
    }

    /// Where `setpos` starts looking for the display offset.
    pub open spec fn setpos_start(&self) -> int {
        let b = if self.lidx == 0 {
            0
        } else {
            grapheme_floor(self.line(), self.lidx as int)
        };
        start_for(self.line(), b, self.lofs as int, self.loose_cursor, self.sizey as int)
    }

    /// The tab-expanded width from `lofs` to the caret.
    pub open spec fn caret_width(&self) -> int {
        shown_width(self.line(), self.lofs as int, self.lidx as int, self.tabstop as int)
    }

    /// The history ring holds the newest bytes up to its size, and its size
    /// is at least `HISTORY_BUFFER_SIZE`.
    pub open spec fn history_wf(&self) -> bool {
        &&& history_cap(self.histbuf) >= HISTORY_BUFFER_SIZE
        &&& history_total(self.histbuf) <= usize::MAX
        &&& history_bytes(self.histbuf).len() == if history_total(self.histbuf) <= history_cap(
            self.histbuf,
        ) {
            history_total(self.histbuf)
        } else {
            history_cap(self.histbuf)
        }
    }

    /// Geometry and buffer facts that hold between any two steps, apart
    /// from the caret's place in its line.
    pub open spec fn frame_wf(&self) -> bool {
        &&& self.sizex >= 2
        &&& self.sizey >= 9
        &&& self.tabstop >= 1
        &&& self.lines@.len() >= 1
        &&& self.lineidx < self.lines@.len()
        &&& self.scrollstart <= self.lineidx
        &&& self.sizey / 8 <= self.printlines <= self.sizey - 8
        &&& self.lineidx - self.scrollstart <= self.sizey - self.printlines - 3
        &&& self.printlines + 2 <= self.cury <= self.sizey - 1
        &&& self.printy <= self.printlines
        &&& self.printx <= self.sizex
        &&& self.history_wf()
    }

    /// The caret and the horizontal offset stand on grapheme boundaries of
    /// the current line, and the caret is on screen at the column `curx`.
    pub open spec fn caret_wf(&self) -> bool {
        &&& is_boundary(self.line(), self.lidx as int)
        &&& self.lofs <= self.lidx
        &&& is_boundary(self.line(), self.lofs as int)
        &&& self.caret_width() <= self.sizex - 1
        &&& self.curx as int == self.caret_width()
    }

    /// Everything of the print pane, the scrollback and the geometry is as
    /// in `other`.
    pub open spec fn same_print_state(&self, other: &Editor) -> bool {
        &&& self.hb_active == other.hb_active
        &&& self.hb_start_index == other.hb_start_index
        &&& self.hb_end_index == other.hb_end_index
        &&& self.histbuf == other.histbuf
        &&& self.printlines == other.printlines
        &&& self.printx == other.printx
        &&& self.printy == other.printy
        &&& self.sizex == other.sizex
        &&& self.sizey == other.sizey
        &&& self.split_prompt == other.split_prompt
        &&& self.tabstop == other.tabstop
    }

    /// The editor's invariant.
    pub open spec fn wf(&self) -> bool {
        self.frame_wf() && self.caret_wf()
    }

    /// A new editor holding `initial_content` split on newlines, for a
    /// terminal of `sizex` by `sizey` cells whose cursor is on row `row`.
    /// The print pane takes `print_height_pct` percent of the rows, held
    /// within 10 to 90 percent and then within `sizey / 8 ..= sizey - 8`.
    pub fn new(
        initial_content: &str,
        split_prompt: String,
        print_height_pct: u16,
        tabstop: u8,
        sizex: u16,
        sizey: u16,
        row: u16,
    ) -> (r: Editor)
        requires
            tabstop >= 1,
            sizex >= 2,
            sizey >= 9,
        ensures
            r.wf(),
            r.text_view() == initial_content@,
            forall|i: int| 0 <= i < r.lines@.len() ==> !r.lines@[i]@.contains('\n'),
            r.lineidx == 0 && r.lidx == 0 && r.lofs == 0 && r.scrollstart == 0,
            r.curx == 0,
            r.cury == r.printlines + 2,
            r.printlines == Self::initial_printlines(print_height_pct as int, sizey as int),
            r.printx == 0,
            r.printy == if row + 1 <= r.printlines {
                row + 1
            } else {
                r.printlines as int
            },
            !r.hb_active && !r.loose_cursor,
            r.sizex == sizex && r.sizey == sizey && r.tabstop == tabstop,
            r.split_prompt == split_prompt,
            r.out@.len() == 0,
            history_total(r.histbuf) == 0,
    {
        let pct: u32 = if print_height_pct < 10 {
            10
        } else if print_height_pct > 90 {
            90
        } else {
            print_height_pct as u32
        };
        assert((sizey as u32) * pct <= 0xffff * 90) by (nonlinear_arith)
            requires
                pct <= 90,
                sizey <= 0xffff,
        ;
        let want: u32 = (sizey as u32) * pct / 100;
        let lo: u32 = (sizey / 8) as u32;
        let hi: u32 = (sizey - 8) as u32;
        let printlines: u16 = if want < lo {
            lo as u16
        } else if want > hi {
            hi as u16
        } else {
            want as u16
        };
        let printy: u16 = if row < printlines {
            row + 1
        } else {
            printlines
        };
        let histbuf = HistoryBuffer::new(HISTORY_BUFFER_SIZE);
        let lines = split_lines(initial_content);
        Editor {
            curx: 0,
            cury: printlines + 2,
            hb_active: false,
            hb_start_index: 0,
            hb_end_index: 0,
            histbuf,
            lidx: 0,
            lines,
            lineidx: 0,
            lofs: 0,
            loose_cursor: false,
            printlines,
            printx: 0,
            printy,
            scrollstart: 0,
            sizex,
            sizey,
            split_prompt,
            tabstop,
            out: Vec::new(),
        }
    }

    /// The print pane height that a new editor starts with.
    pub open spec fn initial_printlines(pct: int, sizey: int) -> int {
        let p = if pct < 10 {
            10
        } else if pct > 90 {
            90
        } else {
            pct
        };
        let want = sizey * p / 100;
        if want < sizey / 8 {
            sizey / 8
        } else if want > sizey - 8 {
            sizey - 8
        } else {
            want
        }
    }

    /// The buffer's contents, lines joined with newlines.
    pub fn text(&self) -> (r: String)
        ensures
            r@ == self.text_view(),
    {
        let mut r = String::new();
        let mut i: usize = 0;
        while i < self.lines.len()
            invariant
                i <= self.lines@.len(),
                r@ == join_lines(lines_view(self.lines@.subrange(0, i as int))),
            decreases self.lines@.len() - i,
        {
            let ghost before = lines_view(self.lines@.subrange(0, i as int));
            let ghost after = lines_view(self.lines@.subrange(0, i + 1));
            assert(after.drop_last() =~= before);
            if i > 0 {
                let nl = "\n";
                proof {
                    reveal_strlit("\n");
                }
                push_str(&mut r, nl);
            }
            push_str(&mut r, self.lines[i].as_str());
            proof {
                if i == 0 {
                    assert(r@ =~= after[0]);
                } else {
                    assert(after.last() == self.lines@[i as int]@);
                    assert(r@ =~= join_lines(before) + seq!['\n'] + after.last());
                }
            }
            i = i + 1;
        }
        assert(self.lines@.subrange(0, self.lines@.len() as int) =~= self.lines@);
        r
    }

    /// Places the caret on a grapheme boundary and moves `lofs` so that the
    /// caret is on screen; `curx` becomes the caret's column.
    ///
    /// After a vertical move (`loose_cursor`), `lofs` goes back to 0 unless
    /// the caret is far along a long line.
    pub fn setpos(&mut self)
        requires
            old(self).frame_wf(),
        ensures
            final(self).wf(),
            final(self).lidx as int == if old(self).lidx == 0 {
                0
            } else {
                grapheme_floor(old(self).line(), old(self).lidx as int)
            },
            is_boundary(old(self).line(), old(self).lidx as int) ==> final(self).lidx
                == old(self).lidx,
            old(self).lidx as int >= blen(old(self).line()) ==> final(self).lidx as int == blen(
                old(self).line(),
            ),
            !final(self).loose_cursor,
            final(self).lofs as int == fit_from(
                old(self).line(),
                old(self).setpos_start(),
                final(self).lidx as int,
                old(self).tabstop as int,
                old(self).sizex - 1,
            ),
            final(self).lines == old(self).lines,
            final(self).lineidx == old(self).lineidx,
            final(self).scrollstart == old(self).scrollstart,
            final(self).cury == old(self).cury,
            final(self).printx == old(self).printx,
            final(self).printy == old(self).printy,
            final(self).printlines == old(self).printlines,
            final(self).sizex == old(self).sizex,
            final(self).sizey == old(self).sizey,
            final(self).tabstop == old(self).tabstop,
            final(self).histbuf == old(self).histbuf,
            final(self).hb_active == old(self).hb_active,
            final(self).hb_start_index == old(self).hb_start_index,
            final(self).hb_end_index == old(self).hb_end_index,
            final(self).split_prompt == old(self).split_prompt,
            final(self).out == old(self).out,
    {
        let maxwidth: usize = (self.sizex - 1) as usize;
        let ts = self.tabstop;
        let line: &str = self.lines[self.lineidx].as_str();
        let lidx = grapheme_idx_at(line, self.lidx);
        let mut lofs = self.lofs;
        if self.loose_cursor {
            let reach: usize = (self.sizey as usize) * 4 + 15;
            if lidx < lofs || lidx - lofs < reach {
                lofs = 0;
            }
        }
        if lidx < lofs {
            lofs = 0;
        }
        lofs = grapheme_idx_at(line, lofs);
        let ghost start = lofs;
        let mut w = shown_width_upto(line, lofs, lidx, ts, maxwidth);
        while w > maxwidth
            invariant
                lofs <= lidx,
                is_boundary(line@, lofs as int),
                is_boundary(line@, lidx as int),
                ts >= 1,
                maxwidth < 0x1_0000,
                shown_width(line@, lofs as int, lidx as int, ts as int) <= maxwidth ==> w as int
                    == shown_width(line@, lofs as int, lidx as int, ts as int),
                shown_width(line@, lofs as int, lidx as int, ts as int) > maxwidth ==> w
                    > maxwidth,
                fit_from(line@, lofs as int, lidx as int, ts as int, maxwidth as int)
                    == fit_from(line@, start as int, lidx as int, ts as int, maxwidth as int),
            decreases lidx - lofs,
        {
            if lofs == lidx {
                // an empty span is never wider than the screen
                assert(shown_width(line@, lofs as int, lidx as int, ts as int) == 0);
            }
            let n = next_grapheme_idx(line, lofs);
            lofs = if n > lidx {
                lidx
            } else {
                n
            };
            w = shown_width_upto(line, lofs, lidx, ts, maxwidth);
        }
        self.lidx = lidx;
        self.lofs = lofs;
        self.curx = w as u16;
        self.loose_cursor = false;
    }
}

} // verus!
