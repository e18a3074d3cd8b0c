//! Changes to the text: putting text in at the caret, erasing graphemes,
//! splitting and joining lines.
use vstd::prelude::*;
use crate::editor::{fit_from, lines_view, start_for, Editor};
use crate::graphemes::{
    blen, bytes_of, cuttable, grapheme_floor, grapheme_next, grapheme_prev, insert_str,
    is_boundary, next_grapheme_idx, prev_grapheme_idx, push_str, remove_range, slice_of, substr,
};

verus! {

/// The bytes of `line` with `g` put in at byte `b`.
pub open spec fn inserted(line: Seq<char>, b: int, g: Seq<char>) -> Seq<u8> {
    bytes_of(line).subrange(0, b) + bytes_of(g) + bytes_of(line).subrange(b, blen(line))
}

/// The bytes of `line` without the bytes `a..b`.
pub open spec fn erased(line: Seq<char>, a: int, b: int) -> Seq<u8> {
    bytes_of(line).subrange(0, a) + bytes_of(line).subrange(b, blen(line))
}

/// The lines with line `l` cut in two at byte `b`.
pub open spec fn split_line(lines: Seq<Seq<char>>, l: int, b: int) -> Seq<Seq<char>> {
    let s = lines[l];
    lines.subrange(0, l) + seq![slice_of(s, 0, b), slice_of(s, b, blen(s))] + lines.subrange(
        l + 1,
        lines.len() as int,
    )
}

/// The lines with line `k` appended to line `k - 1`.
pub open spec fn join_line(lines: Seq<Seq<char>>, k: int) -> Seq<Seq<char>> {
    lines.subrange(0, k - 1) + seq![lines[k - 1] + lines[k]] + lines.subrange(
        k + 1,
        lines.len() as int,
    )
}

/// Where the caret lands at byte `b` of `s`: the grapheme boundary at or
/// before it.
pub open spec fn caret_at(s: Seq<char>, b: int) -> int {
    if b == 0 {
        0
    } else {
        grapheme_floor(s, b)
    }
}

/// Putting one grapheme `g` in at the caret and then erasing the grapheme
/// before the caret gives the line and the caret back, when `g` stays one
/// grapheme in its place.
pub proof fn lemma_insert_then_backspace(
    line: Seq<char>,
    b: int,
    g: Seq<char>,
    mid: Seq<char>,
    back: Seq<char>,
)
    requires
        is_boundary(line, b),
        bytes_of(mid) == inserted(line, b, g),
        grapheme_next(mid, b) == b + blen(g),
        grapheme_prev(mid, b + blen(g)) == b,
        bytes_of(back) == erased(
            mid,
            grapheme_prev(mid, grapheme_next(mid, b)),
            grapheme_next(mid, b),
        ),
    ensures
        back == line,
        caret_at(back, b) == b,
{
    broadcast use vstd::utf8::encode_utf8_decode_utf8;

    let bl = bytes_of(line);
    let bm = bytes_of(mid);
    assert(bm.len() == bl.len() + blen(g));
    assert(bm.subrange(0, b) =~= bl.subrange(0, b));
    assert(bm.subrange(b + blen(g), bm.len() as int) =~= bl.subrange(b, bl.len() as int));
    assert(bytes_of(back) =~= bl);
    assert(vstd::utf8::decode_utf8(bytes_of(back)) == back);
}

/// Splitting a line at a byte where it may be cut, and then joining the new
/// line back onto it, gives the lines back; the join point is the byte of
/// the split.
pub proof fn lemma_split_then_join(lines: Seq<Seq<char>>, l: int, b: int)
    requires
        0 <= l < lines.len(),
        cuttable(lines[l], b),
    ensures
        join_line(split_line(lines, l, b), l + 1) == lines,
        blen(slice_of(lines[l], 0, b)) == b,
{
    broadcast use vstd::utf8::group_utf8_lib;

    let s = lines[l];
    let bs = bytes_of(s);
    let sp = split_line(lines, l, b);
    vstd::utf8::encode_utf8_valid_utf8(s);
    vstd::utf8::is_char_boundary_start_end_of_seq(bs);
    assert(vstd::utf8::is_char_boundary(bs, b));
    vstd::utf8::decode_utf8_split(bs, b);
    vstd::utf8::valid_utf8_split(bs, b);
    assert(bs.subrange(b, bs.len() as int) == bs.subrange(b, blen(s)));
    assert(sp[l] + sp[l + 1] =~= s);
    assert(join_line(sp, l + 1) =~= lines);
    vstd::utf8::decode_utf8_encode_utf8(bs.subrange(0, b));
}

impl Editor {
    /// Puts `ch` in at the caret and moves the caret past the grapheme that
    /// now starts there.
    pub fn insert_charstr(&mut self, ch: &str)
        requires
            old(self).wf(),
        ensures
            final(self).wf(),
            final(self).same_print_state(&*old(self)),
            final(self).lineidx == old(self).lineidx,
            final(self).scrollstart == old(self).scrollstart,
            final(self).lines@ == old(self).lines@.update(
                old(self).lineidx as int,
                final(self).lines@[old(self).lineidx as int],
            ),
            bytes_of(final(self).line()) == inserted(old(self).line(), old(self).lidx as int, ch@),
            final(self).lidx as int == grapheme_next(final(self).line(), old(self).lidx as int),
            final(self).lofs as int == fit_from(
                final(self).line(),
                start_for(
                    final(self).line(),
                    final(self).lidx as int,
                    old(self).lofs as int,
                    false,
                    old(self).sizey as int,
                ),
                final(self).lidx as int,
                old(self).tabstop as int,
                old(self).sizex - 1,
            ),
    {
        let li = self.lineidx;
        let mut line = self.lines[li].clone();
        insert_str(&mut line, self.lidx, ch);
        let n = next_grapheme_idx(line.as_str(), self.lidx);
        self.lines.set(li, line);
        self.lidx = n;
        self.loose_cursor = false;
        self.setpos();
        self.redrawline();
    }

    /// Erases the grapheme before the caret; at the start of a line, joins
    /// the line onto the one above with the caret at the join; at the start
    /// of the buffer, does nothing.
    pub fn backspace(&mut self)
        requires
            old(self).wf(),
        ensures
            final(self).wf(),
            final(self).same_print_state(&*old(self)),
            old(self).lidx == 0 && old(self).lineidx == 0 ==> *final(self) == *old(self),
            old(self).lidx == 0 && old(self).lineidx > 0 ==> {
                &&& lines_view(final(self).lines@) == join_line(
                    lines_view(old(self).lines@),
                    old(self).lineidx as int,
                )
                &&& final(self).lineidx == old(self).lineidx - 1
                &&& final(self).lidx as int == caret_at(
                    final(self).line(),
                    blen(old(self).lines@[old(self).lineidx - 1]@),
                )
            },
            old(self).lidx > 0 ==> {
                &&& final(self).lineidx == old(self).lineidx
                &&& final(self).lines@.len() == old(self).lines@.len()
                &&& final(self).lines@ == old(self).lines@.update(
                    old(self).lineidx as int,
                    final(self).lines@[old(self).lineidx as int],
                )
                &&& bytes_of(final(self).line()) == erased(
                    old(self).line(),
                    grapheme_prev(old(self).line(), old(self).lidx as int),
                    old(self).lidx as int,
                )
                &&& final(self).lidx as int == caret_at(
                    final(self).line(),
                    grapheme_prev(old(self).line(), old(self).lidx as int),
                )
            },
    {
        let li = self.lineidx;
        if self.lidx == 0 {
            if li == 0 {
                return ;
            }
            let ghost lv = lines_view(self.lines@);
            let mut prev = self.lines[li - 1].clone();
            let joint = prev.as_str().as_bytes().len();
            push_str(&mut prev, self.lines[li].as_str());
            self.lines.set(li - 1, prev);
            self.lines.remove(li);
            proof {
                assert(lines_view(self.lines@) =~= join_line(lv, li as int));
            }
            self.lidx = joint;
            self.lineidx = li - 1;
            // the caret goes up a row with its line, scrolling at the top
            if self.cury == self.printlines + 2 || self.lineidx < self.scrollstart {
                self.scrollstart = self.scrollstart.saturating_sub(1);
            }
            let pane: usize = (self.sizey - self.printlines - 3) as usize;
            let mut rel = self.lineidx - self.scrollstart;
            if rel > pane {
                self.scrollstart = self.lineidx - pane;
                rel = pane;
            }
            self.cury = rel as u16 + self.printlines + 2;
            self.loose_cursor = true;
            self.setpos();
            self.redraw();
        } else {
            let mut line = self.lines[li].clone();
            let start = prev_grapheme_idx(line.as_str(), self.lidx);
            remove_range(&mut line, start, self.lidx);
            self.lines.set(li, line);
            self.lidx = start;
            self.loose_cursor = false;
            self.setpos();
            self.redrawline();
        }
    }

    /// Erases the grapheme at the caret; at the end of a line, joins the
    /// next line onto it; at the end of the buffer, does nothing.
    pub fn delete(&mut self)
        requires
            old(self).wf(),
        ensures
            final(self).wf(),
            final(self).same_print_state(&*old(self)),
            final(self).lineidx == old(self).lineidx,
            old(self).lidx as int >= blen(old(self).line()) && old(self).lineidx + 1 >= old(
                self,
            ).lines@.len() ==> final(self).lines == old(self).lines && final(self).lidx == old(
                self,
            ).lidx,
            old(self).lidx as int >= blen(old(self).line()) && old(self).lineidx + 1 < old(
                self,
            ).lines@.len() ==> {
                &&& lines_view(final(self).lines@) == join_line(
                    lines_view(old(self).lines@),
                    old(self).lineidx + 1,
                )
                &&& final(self).lidx as int == caret_at(final(self).line(), old(self).lidx as int)
            },
            (old(self).lidx as int) < blen(old(self).line()) ==> {
                &&& final(self).lines@ == old(self).lines@.update(
                    old(self).lineidx as int,
                    final(self).lines@[old(self).lineidx as int],
                )
                &&& bytes_of(final(self).line()) == erased(
                    old(self).line(),
                    old(self).lidx as int,
                    grapheme_next(old(self).line(), old(self).lidx as int),
                )
                &&& final(self).lidx as int == caret_at(final(self).line(), old(self).lidx as int)
            },
    {
        let li = self.lineidx;
        let len = self.lines[li].as_str().as_bytes().len();
        if self.lidx >= len {
            if li < self.lines.len() - 1 {
                let ghost lv = lines_view(self.lines@);
                let mut line = self.lines[li].clone();
                push_str(&mut line, self.lines[li + 1].as_str());
                self.lines.set(li, line);
                self.lines.remove(li + 1);
                proof {
                    assert(lines_view(self.lines@) =~= join_line(lv, li + 1));
                }
                self.loose_cursor = false;
                self.setpos();
                self.redraw();
            }
        } else {
            let mut line = self.lines[li].clone();
            let end = next_grapheme_idx(line.as_str(), self.lidx);
            remove_range(&mut line, self.lidx, end);
            self.lines.set(li, line);
            self.loose_cursor = false;
            self.setpos();
            self.redrawline();
        }
    }

    /// Cuts the current line at the caret: the part after the caret becomes
    /// a new line below, and the caret goes to its start.
    pub fn split_at_cursor(&mut self)
        requires
            old(self).wf(),
            old(self).lines@.len() < usize::MAX,
        ensures
            final(self).wf(),
            final(self).same_print_state(&*old(self)),
            lines_view(final(self).lines@) == split_line(
                lines_view(old(self).lines@),
                old(self).lineidx as int,
                old(self).lidx as int,
            ),
            final(self).lineidx == old(self).lineidx + 1,
            final(self).lidx == 0,
    {
        broadcast use vstd::utf8::encode_utf8_decode_utf8;

        let li = self.lineidx;
        let ghost lv = lines_view(self.lines@);
        let line: &str = self.lines[li].as_str();
        let len = line.as_bytes().len();
        let head = substr(line, 0, self.lidx).to_owned();
        let tail = substr(line, self.lidx, len).to_owned();
        self.lines.set(li, head);
        self.lines.insert(li + 1, tail);
        proof {
            assert(lines_view(self.lines@) =~= split_line(lv, li as int, self.lidx as int));
        }
        self.lidx = 0;
        self.lofs = 0;
        self.curx = 0;
        self.loose_cursor = false;
        self.move_down(1, true);
    }

    /// Erases the current line from its start up to the caret, and puts the
    /// caret at the start.
    pub fn kill_to_start(&mut self)
        requires
            old(self).wf(),
        ensures
            final(self).wf(),
            final(self).same_print_state(&*old(self)),
            final(self).lineidx == old(self).lineidx,
            final(self).lines@ == old(self).lines@.update(
                old(self).lineidx as int,
                final(self).lines@[old(self).lineidx as int],
            ),
            bytes_of(final(self).line()) == erased(old(self).line(), 0, old(self).lidx as int),
            final(self).lidx == 0,
    {
        let li = self.lineidx;
        let mut line = self.lines[li].clone();
        remove_range(&mut line, 0, self.lidx);
        self.lines.set(li, line);
        self.lidx = 0;
        self.lofs = 0;
        self.loose_cursor = false;
        self.setpos();
        self.redraw();
    }
}

} // verus!
