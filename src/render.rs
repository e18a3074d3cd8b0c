//! Drawing the panes: the separator bar, the edit pane's lines, and the
//! output bytes written into the print pane.
use vstd::prelude::*;
use crate::editor::Editor;
use crate::error::Error;
use crate::graphemes::{
    blen, cells_of, cuttable, grapheme_cells, grapheme_next, is_tab_at, next_grapheme_idx,
    prefix_col, push_str, slice_of, string_width, substr, tab_between, text_width,
};
use crate::history::{history_bytes, history_cap, history_total, retained_after};
use crate::term::{ClearKind, TermOp};

verus! {

/// Where the print cursor goes after one output byte `b`: a newline goes to
/// column 0 of the next row, any other byte one column right, wrapping to
/// column 1 of the next row past the last column; rows stop at `sizey`.
pub open spec fn print_step(x: int, y: int, b: u8, sizex: int, sizey: int) -> (int, int) {
    let down = if y + 1 <= sizey {
        y + 1
    } else {
        y
    };
    if b == 10u8 {
        (0, down)
    } else if x + 1 > sizex {
        (1, down)
    } else {
        (x + 1, y)
    }
}

/// Where the print cursor goes after the output bytes `bytes`.
pub open spec fn print_pos(x: int, y: int, bytes: Seq<u8>, sizex: int, sizey: int) -> (int, int)
    decreases bytes.len(),
{
    if bytes.len() == 0 {
        (x, y)
    } else {
        let p = print_pos(x, y, bytes.drop_last(), sizex, sizey);
        print_step(p.0, p.1, bytes.last(), sizex, sizey)
    }
}

/// `b` is `a` with only the queued terminal operations grown.
pub open spec fn same_but_output(a: Editor, b: Editor) -> bool {
    &&& b.curx == a.curx
    &&& b.cury == a.cury
    &&& b.hb_active == a.hb_active
    &&& b.hb_start_index == a.hb_start_index
    &&& b.hb_end_index == a.hb_end_index
    &&& b.histbuf == a.histbuf
    &&& b.lidx == a.lidx
    &&& b.lines == a.lines
    &&& b.lineidx == a.lineidx
    &&& b.lofs == a.lofs
    &&& b.loose_cursor == a.loose_cursor
    &&& b.printlines == a.printlines
    &&& b.printx == a.printx
    &&& b.printy == a.printy
    &&& b.scrollstart == a.scrollstart
    &&& b.sizex == a.sizex
    &&& b.sizey == a.sizey
    &&& b.split_prompt == a.split_prompt
    &&& b.tabstop == a.tabstop
    &&& a.out@.len() <= b.out@.len()
    &&& b.out@.subrange(0, a.out@.len() as int) == a.out@
}

/// `b` is `a` with the print cursor, the scrollback state and the queued
/// operations changed, and nothing of the buffer or the edit pane.
pub open spec fn same_edit_state(a: Editor, b: Editor) -> bool {
    &&& b.curx == a.curx
    &&& b.cury == a.cury
    &&& b.lidx == a.lidx
    &&& b.lines == a.lines
    &&& b.lineidx == a.lineidx
    &&& b.lofs == a.lofs
    &&& b.loose_cursor == a.loose_cursor
    &&& b.printlines == a.printlines
    &&& b.scrollstart == a.scrollstart
    &&& b.sizex == a.sizex
    &&& b.sizey == a.sizey
    &&& b.split_prompt == a.split_prompt
    &&& b.tabstop == a.tabstop
}

/// How the grapheme from byte `i` to byte `n` of `s` shows in `cw` cells:
/// a tab as arrows, any other grapheme as it is.
pub open spec fn shown_grapheme(s: Seq<char>, i: int, n: int, cw: int) -> Seq<char> {
    if is_tab_at(s, i) {
        Seq::new(cw as nat, |k: int| '→')
    } else {
        slice_of(s, i, n)
    }
}

/// The text that shows the graphemes of `s` from byte `i` on, after `w`
/// cells were already used, the first shown at column `col + w`: graphemes
/// as `shown_grapheme` says, as many as keep the width within `limit`.
pub open spec fn rendered(s: Seq<char>, i: int, ts: int, col: int, w: int, limit: int) -> Seq<
    char,
>
    decreases blen(s) - i,
{
    let n = grapheme_next(s, i);
    if 0 <= i < blen(s) && i < n <= blen(s) {
        let cw = grapheme_cells(s, i, ts, col + w);
        if cw > limit - w {
            Seq::empty()
        } else {
            shown_grapheme(s, i, n, cw) + rendered(s, n, ts, col, w + cw, limit)
        }
    } else {
        Seq::empty()
    }
}

/// The title of the separator bar around the split prompt `prompt`.
pub open spec fn separator_title(prompt: Seq<char>) -> Seq<char> {
    "=====  AsyncEditor  ========== "@ + prompt
        + " ==  Ctrl ⬅️  / ⮕ / ⬆️/ / ⬇️  ==  Ctrl-PgUp/Ctrl-PgDn  "@
}

/// The text that shows line `l` of the edit pane: the current line from
/// `lofs`, any other line from its start, clipped to the screen width.
pub open spec fn line_text(e: Editor, l: int) -> Seq<char> {
    let s = e.lines@[l]@;
    if l == e.lineidx {
        rendered(
            s,
            e.lofs as int,
            e.tabstop as int,
            prefix_col(s, e.lofs as int, e.tabstop as int),
            0,
            e.sizex - 1,
        )
    } else {
        rendered(s, 0, e.tabstop as int, 0, 0, e.sizex - 1)
    }
}

/// How many lines the edit pane shows from `scrollstart`.
pub open spec fn visible_lines(e: Editor) -> int {
    if e.lines@.len() - e.scrollstart < e.sizey - e.printlines - 2 {
        e.lines@.len() - e.scrollstart
    } else {
        e.sizey - e.printlines - 2
    }
}

/// From index `k` on, `ops` move to column 0 of row `row` and print `t`.
pub open spec fn shows_at(ops: Seq<TermOp>, k: int, row: int, t: Seq<char>) -> bool {
    &&& 0 <= k
    &&& k + 1 < ops.len()
    &&& ops[k] == TermOp::MoveTo(0, row as u16)
    &&& prints(ops[k + 1], t)
}

/// What a terminal operation does, with its text as a sequence.
pub enum OpView {
    MoveTo(u16, u16),
    MoveToColumn(u16),
    Clear(ClearKind),
    Print(Seq<char>),
    Write(Seq<u8>),
    ScrollUp(u16),
}

/// The view of one terminal operation.
pub open spec fn op_view(op: TermOp) -> OpView {
    match op {
        TermOp::MoveTo(x, y) => OpView::MoveTo(x, y),
        TermOp::MoveToColumn(x) => OpView::MoveToColumn(x),
        TermOp::Clear(k) => OpView::Clear(k),
        TermOp::Print(s) => OpView::Print(s@),
        TermOp::Write(b) => OpView::Write(b@),
        TermOp::ScrollUp(n) => OpView::ScrollUp(n),
    }
}

/// The views of a sequence of terminal operations.
pub open spec fn ops_view(ops: Seq<TermOp>) -> Seq<OpView> {
    ops.map_values(|op: TermOp| op_view(op))
}

/// The separator bar's text for the editor `e`.
pub open spec fn separator_text(e: Editor) -> Seq<char> {
    separator_title(e.split_prompt@) + Seq::new(
        (if text_width(separator_title(e.split_prompt@)) < e.sizex {
            e.sizex - text_width(separator_title(e.split_prompt@))
        } else {
            0
        }) as nat,
        |k: int| '=',
    )
}

/// The operations that draw line `l` of `e` on its row: move to the row,
/// print the line, and put `>` in the last column when the line is wider
/// than the screen.
pub open spec fn row_ops(e: Editor, l: int) -> Seq<OpView> {
    seq![
        OpView::MoveTo(0, (e.printlines + 2 + (l - e.scrollstart)) as u16),
        OpView::Print(line_text(e, l)),
    ] + if text_width(e.lines@[l]@) > e.sizex - 1 {
        seq![OpView::MoveToColumn((e.sizex - 1) as u16), OpView::Print(seq!['>'])]
    } else {
        Seq::empty()
    }
}

/// The operations that draw the first `k` rows of the edit pane.
pub open spec fn rows_ops(e: Editor, k: int) -> Seq<OpView>
    decreases k,
{
    if k <= 0 {
        Seq::empty()
    } else {
        rows_ops(e, k - 1) + row_ops(e, e.scrollstart + k - 1)
    }
}

/// The operations of a full redraw: clear from the separator row down,
/// print the separator (the row below it stays blank), draw the visible
/// lines from row `printlines + 2`, and put the caret back.
pub open spec fn redraw_ops(e: Editor) -> Seq<OpView> {
    seq![
        OpView::MoveTo(0, e.printlines),
        OpView::Clear(ClearKind::FromCursorDown),
        OpView::Print(separator_text(e)),
    ] + rows_ops(e, visible_lines(e)) + seq![OpView::MoveTo(e.curx, e.cury)]
}

proof fn lemma_subrange_of_concat(a: Seq<OpView>, b: Seq<OpView>, m: int)
    requires
        0 <= m <= a.len(),
    ensures
        (a + b).subrange(m, (a.len() + b.len()) as int) == a.subrange(m, a.len() as int) + b,
{
    assert((a + b).subrange(m, (a.len() + b.len()) as int) =~= a.subrange(m, a.len() as int) + b);
}

/// A redraw draws the same for two editors whose buffer, caret and
/// geometry agree.
pub proof fn lemma_redraw_ops_same(a: Editor, b: Editor)
    requires
        same_but_output(a, b),
    ensures
        redraw_ops(a) == redraw_ops(b),
{
    lemma_rows_ops_same(a, b, visible_lines(a));
}

proof fn lemma_rows_ops_same(a: Editor, b: Editor, k: int)
    requires
        same_but_output(a, b),
    ensures
        rows_ops(a, k) == rows_ops(b, k),
    decreases k,
{
    if k > 0 {
        lemma_rows_ops_same(a, b, k - 1);
        assert(row_ops(a, a.scrollstart + k - 1) == row_ops(b, b.scrollstart + k - 1));
    }
}

/// The op writes output bytes or goes back to column 0.
pub open spec fn is_output_op(op: TermOp) -> bool {
    match op {
        TermOp::Write(_) => true,
        TermOp::MoveToColumn(x) => x == 0,
        _ => false,
    }
}

/// Somewhere from index `from` on, `ops` show line `scrollstart + j` of
/// `e` on row `j` of the edit pane.
pub open spec fn row_shown(ops: Seq<TermOp>, from: int, e: Editor, j: int) -> bool {
    exists|k: int|
        from <= k && #[trigger] shows_at(
            ops,
            k,
            e.printlines + 2 + j,
            line_text(e, e.scrollstart + j),
        )
}

/// The op prints exactly `t`.
pub open spec fn prints(op: TermOp, t: Seq<char>) -> bool {
    match op {
        TermOp::Print(s) => s@ == t,
        _ => false,
    }
}

/// The output bytes that the ops write, in order.
pub open spec fn written(ops: Seq<TermOp>) -> Seq<u8>
    decreases ops.len(),
{
    if ops.len() == 0 {
        Seq::empty()
    } else {
        written(ops.drop_last()) + match ops.last() {
            TermOp::Write(b) => b@,
            _ => Seq::empty(),
        }
    }
}

proof fn lemma_written_push(ops: Seq<TermOp>, op: TermOp)
    ensures
        written(ops.push(op)) == written(ops) + match op {
            TermOp::Write(b) => b@,
            _ => Seq::<u8>::empty(),
        },
{
    assert(ops.push(op).drop_last() =~= ops);
}

/// The graphemes of `line` from byte `start`, a tab as arrows up to its tab
/// stop, as many as fit in `limit` cells when the first stands at column
/// `base`.
fn render_line(line: &str, start: usize, ts: u8, base: usize, limit: usize) -> (r: String)
    requires
        cuttable(line@, start as int),
        ts >= 1,
        base < 0x1_0000,
        limit < 0x1_0000,
    ensures
        r@ == rendered(line@, start as int, ts as int, base as int, 0, limit as int),
{
    broadcast use vstd::utf8::encode_utf8_decode_utf8;

    let len = line.as_bytes().len();
    let mut s = String::new();
    let mut i = start;
    let mut w: usize = 0;
    let ghost all = rendered(line@, start as int, ts as int, base as int, 0, limit as int);
    loop
        invariant
            start <= i,
            len as int == blen(line@),
            i <= len,
            cuttable(line@, i as int),
            w <= limit,
            ts >= 1,
            base < 0x1_0000,
            limit < 0x1_0000,
            all == rendered(line@, start as int, ts as int, base as int, 0, limit as int),
            all == s@ + rendered(line@, i as int, ts as int, base as int, w as int, limit as int),
        ensures
            s@ == all,
        decreases len - i,
    {
        if i >= len {
            proof {
                assert(rendered(line@, i as int, ts as int, base as int, w as int, limit as int)
                    =~= Seq::<char>::empty());
                assert(s@ =~= all);
            }
            break;
        }
        let n = next_grapheme_idx(line, i);
        let cw = cells_of(line, i, n, ts, base + w);
        if cw > limit - w {
            proof {
                assert(s@ =~= all);
            }
            break;
        }
        let ghost s0 = s@;
        let is_tab = tab_between(line, i, n);
        proof {
            assert(is_tab == is_tab_at(line@, i as int));
        }
        if is_tab {
            let mut k: usize = 0;
            while k < cw
                invariant
                    k <= cw,
                    s@ == s0 + Seq::new(k as nat, |j: int| '→'),
                decreases cw - k,
            {
                let arrow = "→";
                proof {
                    reveal_strlit("→");
                }
                push_str(&mut s, arrow);
                proof {
                    assert(s@ =~= s0 + Seq::new((k + 1) as nat, |j: int| '→'));
                }
                k = k + 1;
            }
        } else {
            let g = substr(line, i, n);
            proof {
                vstd::utf8::encode_utf8_decode_utf8(g@);
                assert(g@ == slice_of(line@, i as int, n as int));
            }
            push_str(&mut s, g);
        }
        proof {
            assert(s@ =~= s0 + shown_grapheme(line@, i as int, n as int, cw as int));
        }
        w = w + cw;
        i = n;
    }
    s
}

impl Editor {
    /// Queues one terminal operation.
    pub(crate) fn emit(&mut self, op: TermOp)
        ensures
            final(self).out@ == old(self).out@.push(op),
            same_but_output(*old(self), *final(self)),
            written(final(self).out@) == written(old(self).out@) + match op {
                TermOp::Write(b) => b@,
                _ => Seq::<u8>::empty(),
            },
            ops_view(final(self).out@) == ops_view(old(self).out@).push(op_view(op)),
    {
        proof {
            lemma_written_push(self.out@, op);
        }
        self.out.push(op);
        proof {
            assert(ops_view(self.out@) =~= ops_view(old(self).out@).push(op_view(op)));
            assert(self.out@.subrange(0, old(self).out@.len() as int) =~= old(self).out@);
        }
    }

    /// The separator bar: a fixed title holding the split prompt, padded
    /// with `=` up to the terminal width.
    pub fn separator(&self) -> (r: String)
        ensures
            r@ == separator_title(self.split_prompt@) + Seq::new(
                (if text_width(separator_title(self.split_prompt@)) < self.sizex {
                    self.sizex - text_width(separator_title(self.split_prompt@))
                } else {
                    0
                }) as nat,
                |k: int| '=',
            ),
    {
        let mut s = String::new();
        push_str(&mut s, "=====  AsyncEditor  ========== ");
        push_str(&mut s, self.split_prompt.as_str());
        push_str(&mut s, " ==  Ctrl ⬅️  / ⮕ / ⬆️/ / ⬇️  ==  Ctrl-PgUp/Ctrl-PgDn  ");
        let ghost title = s@;
        assert(title =~= separator_title(self.split_prompt@));
        let width = string_width(s.as_str());
        let mut k: usize = width;
        while k < self.sizex as usize
            invariant
                width <= k,
                width >= self.sizex ==> k == width,
                width < self.sizex ==> k <= self.sizex,
                s@ == title + Seq::new((k - width) as nat, |j: int| '='),
            decreases self.sizex as usize - k,
        {
            let eq = "=";
            proof {
                reveal_strlit("=");
                assert(eq@ =~= seq!['=']);
            }
            push_str(&mut s, eq);
            proof {
                assert(s@ =~= title + Seq::new((k + 1 - width) as nat, |j: int| '='));
            }
            k = k + 1;
        }
        s
    }

    /// Queues a redraw of the current edit row from `lofs`, tabs expanded,
    /// clipped to the width of the screen, and puts the caret back.
    pub fn redrawline(&mut self)
        requires
            old(self).wf(),
        ensures
            same_but_output(*old(self), *final(self)),
            final(self).out@.len() == old(self).out@.len() + 4,
            final(self).out@[old(self).out@.len() as int] == TermOp::MoveTo(0, old(self).cury),
            final(self).out@[old(self).out@.len() + 1int] == TermOp::Clear(ClearKind::CurrentLine),
            prints(
                final(self).out@[old(self).out@.len() + 2int],
                rendered(
                    old(self).line(),
                    old(self).lofs as int,
                    old(self).tabstop as int,
                    prefix_col(old(self).line(), old(self).lofs as int, old(self).tabstop as int),
                    0,
                    old(self).sizex - 1,
                ),
            ),
            final(self).out@.last() == TermOp::MoveTo(old(self).curx, old(self).cury),
    {
        broadcast use vstd::utf8::encode_utf8_decode_utf8;

        let line: &str = self.lines[self.lineidx].as_str();
        let ts = self.tabstop;
        let pre = substr(line, 0, self.lofs);
        let base = string_width(pre) % (ts as usize);
        let text = render_line(line, self.lofs, ts, base, (self.sizex - 1) as usize);
        self.out.push(TermOp::MoveTo(0, self.cury));
        self.out.push(TermOp::Clear(ClearKind::CurrentLine));
        self.out.push(TermOp::Print(text));
        self.out.push(TermOp::MoveTo(self.curx, self.cury));
        proof {
            assert(self.out@.subrange(0, old(self).out@.len() as int) =~= old(self).out@);
        }
    }

    /// Queues a redraw of the separator bar and of the edit pane: the lines
    /// from `scrollstart` that fit, the current one from `lofs`, the others
    /// from their start with `>` in the last column when they are wider than
    /// the screen. The caret is put back at (`curx`, `cury`).
    pub fn redraw(&mut self)
        requires
            old(self).wf(),
        ensures
            same_but_output(*old(self), *final(self)),
            final(self).out@.len() > old(self).out@.len(),
            final(self).out@.last() == TermOp::MoveTo(old(self).curx, old(self).cury),
            written(final(self).out@) == written(old(self).out@),
            ops_view(final(self).out@) == ops_view(old(self).out@) + redraw_ops(*old(self)),
            final(self).out@[old(self).out@.len() as int] == TermOp::MoveTo(
                0,
                old(self).printlines,
            ),
            final(self).out@[old(self).out@.len() + 1int] == TermOp::Clear(
                ClearKind::FromCursorDown,
            ),
            prints(
                final(self).out@[old(self).out@.len() + 2int],
                separator_title(old(self).split_prompt@) + Seq::new(
                    (if text_width(separator_title(old(self).split_prompt@)) < old(self).sizex {
                        old(self).sizex - text_width(separator_title(old(self).split_prompt@))
                    } else {
                        0
                    }) as nat,
                    |k: int| '=',
                ),
            ),
            forall|j: int|
                0 <= j < visible_lines(*old(self)) ==> #[trigger] row_shown(
                    final(self).out@,
                    old(self).out@.len() as int,
                    *old(self),
                    j,
                ),
    {
        broadcast use vstd::utf8::encode_utf8_decode_utf8;

        let ghost start_out = self.out@;
        let sep = self.separator();
        self.emit(TermOp::MoveTo(0, self.printlines));
        self.emit(TermOp::Clear(ClearKind::FromCursorDown));
        self.emit(TermOp::Print(sep));
        let ghost head = self.out@;
        proof {
            assert(self.out@[start_out.len() + 2int] == TermOp::Print(sep));
        }
        let rows: usize = (self.sizey - self.printlines - 2) as usize;
        let end_index: usize = if self.lines.len() - self.scrollstart < rows {
            self.lines.len()
        } else {
            self.scrollstart + rows
        };
        let maxwidth: usize = (self.sizex - 1) as usize;
        let ts = self.tabstop;
        let mut l: usize = self.scrollstart;
        let ghost mut pos: Seq<int> = Seq::empty();
        proof {
            assert(self.out@.subrange(0, start_out.len() as int) =~= start_out);
            assert(self.out@.subrange(0, head.len() as int) =~= head);
            assert(ops_view(self.out@) =~= ops_view(start_out) + seq![
                OpView::MoveTo(0, self.printlines),
                OpView::Clear(ClearKind::FromCursorDown),
                OpView::Print(separator_text(*old(self))),
            ] + rows_ops(*old(self), 0));
        }
        while l < end_index
            invariant
                self.wf(),
                same_but_output(*old(self), *self),
                start_out.len() < self.out@.len(),
                self.out@.subrange(0, start_out.len() as int) == start_out,
                start_out == old(self).out@,
                written(self.out@) == written(start_out),
                head.len() == start_out.len() + 3,
                head.len() <= self.out@.len(),
                self.out@.subrange(0, head.len() as int) == head,
                head[start_out.len() as int] == TermOp::MoveTo(0, self.printlines),
                head[start_out.len() + 1int] == TermOp::Clear(ClearKind::FromCursorDown),
                prints(
                    head[start_out.len() + 2int],
                    separator_title(self.split_prompt@) + Seq::new(
                        (if text_width(separator_title(self.split_prompt@)) < self.sizex {
                            self.sizex - text_width(separator_title(self.split_prompt@))
                        } else {
                            0
                        }) as nat,
                        |k: int| '=',
                    ),
                ),
                self.scrollstart <= l <= end_index,
                end_index <= self.lines@.len(),
                end_index - self.scrollstart <= rows,
                rows == self.sizey - self.printlines - 2,
                maxwidth == self.sizex - 1,
                ts == self.tabstop,
                end_index - self.scrollstart == visible_lines(*old(self)),
                pos.len() == l - self.scrollstart,
                ops_view(self.out@) == ops_view(start_out) + seq![
                    OpView::MoveTo(0, self.printlines),
                    OpView::Clear(ClearKind::FromCursorDown),
                    OpView::Print(separator_text(*old(self))),
                ] + rows_ops(*old(self), l - self.scrollstart),
                forall|j: int|
                    0 <= j < pos.len() ==> start_out.len() <= pos[j] && shows_at(
                        self.out@,
                        pos[j],
                        self.printlines + 2 + j,
                        line_text(*old(self), self.scrollstart + j),
                    ),
            decreases end_index - l,
        {
            let line: &str = self.lines[l].as_str();
            let row: u16 = self.printlines + 2 + (l - self.scrollstart) as u16;
            let text = if l == self.lineidx {
                let pre = substr(line, 0, self.lofs);
                proof {
                    vstd::utf8::encode_utf8_decode_utf8(pre@);
                    assert(pre@ == slice_of(line@, 0, self.lofs as int));
                }
                let base = string_width(pre) % (ts as usize);
                render_line(line, self.lofs, ts, base, maxwidth)
            } else {
                render_line(line, 0, ts, 0, maxwidth)
            };
            let wide = string_width(line) > maxwidth;
            let ghost at = self.out@.len() as int;
            let ghost prev = self.out@;
            self.emit(TermOp::MoveTo(0, row));
            self.emit(TermOp::Print(text));
            proof {
                assert(shows_at(
                    self.out@,
                    at,
                    self.printlines + 2 + (l - self.scrollstart),
                    line_text(*old(self), l as int),
                ));
                assert forall|j: int| 0 <= j < pos.len() implies shows_at(
                    self.out@,
                    pos[j],
                    self.printlines + 2 + j,
                    line_text(*old(self), self.scrollstart + j),
                ) by {
                    assert(self.out@[pos[j]] == prev[pos[j]]);
                    assert(self.out@[pos[j] + 1] == prev[pos[j] + 1]);
                }
                pos = pos.push(at);
            }
            let ghost mid = self.out@;
            let ghost vmid = ops_view(self.out@);
            if wide {
                self.emit(TermOp::MoveToColumn(self.sizex - 1));
                self.emit(TermOp::Print(char_gt()));
            }
            proof {
                let pre = ops_view(start_out) + seq![
                    OpView::MoveTo(0, self.printlines),
                    OpView::Clear(ClearKind::FromCursorDown),
                    OpView::Print(separator_text(*old(self))),
                ];
                let k = l - self.scrollstart;
                assert(rows_ops(*old(self), k + 1) == rows_ops(*old(self), k) + row_ops(
                    *old(self),
                    l as int,
                ));
                assert(ops_view(self.out@) =~= pre + rows_ops(*old(self), k + 1));
                assert(self.out@.subrange(0, start_out.len() as int) =~= start_out);
                assert(written(self.out@) =~= written(start_out));
                assert(self.out@.subrange(0, head.len() as int) =~= head);
                assert forall|j: int| 0 <= j < pos.len() implies shows_at(
                    self.out@,
                    pos[j],
                    self.printlines + 2 + j,
                    line_text(*old(self), self.scrollstart + j),
                ) by {
                    assert(self.out@[pos[j]] == mid[pos[j]]);
                    assert(self.out@[pos[j] + 1] == mid[pos[j] + 1]);
                }
            }
            l = l + 1;
        }
        let ghost before_last = self.out@;
        self.emit(TermOp::MoveTo(self.curx, self.cury));
        proof {
            assert(ops_view(self.out@) =~= ops_view(old(self).out@) + redraw_ops(*old(self)));
            assert(self.out@.subrange(0, start_out.len() as int) =~= start_out);
            let kept = before_last.subrange(0, head.len() as int);
            assert(self.out@[start_out.len() as int] == kept[start_out.len() as int]);
            assert(self.out@[start_out.len() + 1int] == kept[start_out.len() + 1int]);
            assert(self.out@[start_out.len() + 2int] == kept[start_out.len() + 2int]);
            assert forall|j: int| 0 <= j < visible_lines(*old(self)) implies #[trigger] row_shown(
                self.out@,
                old(self).out@.len() as int,
                *old(self),
                j,
            ) by {
                assert(self.out@[pos[j]] == before_last[pos[j]]);
                assert(self.out@[pos[j] + 1] == before_last[pos[j] + 1]);
                assert(shows_at(
                    self.out@,
                    pos[j],
                    old(self).printlines + 2 + j,
                    line_text(*old(self), old(self).scrollstart + j),
                ));
            }
        }
    }

    /// Writes output bytes into the print pane at the print cursor, line by
    /// line, moving the print cursor as `print_pos` says. Rows past the
    /// pane's last row scroll the screen up by as many rows, and the print
    /// cursor stays on the last row. The separator and the edit pane are
    /// drawn again after.
    pub fn writebuf(&mut self, buf: &[u8])
        requires
            old(self).wf(),
        ensures
            final(self).wf(),
            same_edit_state(*old(self), *final(self)),
            final(self).hb_active == old(self).hb_active,
            final(self).hb_start_index == old(self).hb_start_index,
            final(self).hb_end_index == old(self).hb_end_index,
            final(self).histbuf == old(self).histbuf,
            ({
                let p = print_pos(
                    old(self).printx as int,
                    old(self).printy as int,
                    buf@,
                    old(self).sizex as int,
                    old(self).sizey as int,
                );
                &&& final(self).printx as int == p.0
                &&& final(self).printy as int == if p.1 <= old(self).printlines - 1 {
                    p.1
                } else {
                    old(self).printlines - 1
                }
                &&& p.1 > old(self).printlines - 1 ==> exists|k: int|
                    old(self).out@.len() <= k < final(self).out@.len() && final(self).out@[k]
                        == TermOp::ScrollUp((p.1 - (old(self).printlines - 1)) as u16)
            }),
            written(final(self).out@) == written(old(self).out@) + buf@,
            ({
                let p = print_pos(
                    old(self).printx as int,
                    old(self).printy as int,
                    buf@,
                    old(self).sizex as int,
                    old(self).sizey as int,
                );
                exists|m: int|
                    {
                        &&& old(self).out@.len() <= m <= final(self).out@.len()
                        &&& forall|k: int|
                            old(self).out@.len() <= k < m ==> is_output_op(
                                #[trigger] final(self).out@[k],
                            )
                        &&& ops_view(final(self).out@).subrange(
                            m,
                            final(self).out@.len() as int,
                        ) == (if p.1 > old(self).printlines - 1 {
                            seq![OpView::ScrollUp((p.1 - (old(self).printlines - 1)) as u16)]
                        } else {
                            Seq::empty()
                        }) + redraw_ops(*final(self))
                    }
            }),
            old(self).out@.len() <= final(self).out@.len(),
            final(self).out@.subrange(0, old(self).out@.len() as int) == old(self).out@,
    {
        let sizex = self.sizex;
        let sizey = self.sizey;
        let mut x: u16 = self.printx;
        let mut y: u16 = self.printy;
        let mut seg: Vec<u8> = Vec::new();
        let mut i: usize = 0;
        while i < buf.len()
            invariant
                self.wf(),
                same_edit_state(*old(self), *self),
                self.printx == old(self).printx,
                self.printy == old(self).printy,
                self.hb_active == old(self).hb_active,
                self.hb_start_index == old(self).hb_start_index,
                self.hb_end_index == old(self).hb_end_index,
                self.histbuf == old(self).histbuf,
                sizex == self.sizex,
                sizey == self.sizey,
                i <= buf@.len(),
                written(self.out@) + seg@ == written(old(self).out@) + buf@.subrange(0, i as int),
                old(self).out@.len() <= self.out@.len(),
                self.out@.subrange(0, old(self).out@.len() as int) == old(self).out@,
                forall|k: int|
                    old(self).out@.len() <= k < self.out@.len() ==> is_output_op(
                        #[trigger] self.out@[k],
                    ),
                x <= sizex,
                y <= sizey,
                (x as int, y as int) == print_pos(
                    old(self).printx as int,
                    old(self).printy as int,
                    buf@.subrange(0, i as int),
                    sizex as int,
                    sizey as int,
                ),
            decreases buf@.len() - i,
        {
            let b = buf[i];
            let ghost out0 = self.out@;
            let ghost seg0 = seg@;
            seg.push(b);
            proof {
                assert(buf@.subrange(0, i + 1) =~= buf@.subrange(0, i as int).push(b));
                assert(written(out0) + seg@ =~= (written(out0) + seg0).push(b));
                assert(written(out0) + seg@ =~= written(old(self).out@) + buf@.subrange(0, i + 1));
            }
            let ghost seg1 = seg@;
            let down: u16 = if y < sizey {
                y + 1
            } else {
                y
            };
            if b == 10u8 {
                self.emit(TermOp::Write(seg));
                self.emit(TermOp::MoveToColumn(0));
                seg = Vec::new();
                proof {
                    assert(written(self.out@) == written(out0) + seg1);
                    assert(self.out@.subrange(0, old(self).out@.len() as int) =~= out0.subrange(
                        0,
                        old(self).out@.len() as int,
                    ));
                    assert(written(self.out@) + seg@ =~= written(old(self).out@) + buf@.subrange(
                        0,
                        i + 1,
                    ));
                }
                x = 0;
                y = down;
            } else if x >= sizex {
                x = 1;
                y = down;
            } else {
                x = x + 1;
            }
            proof {
                assert(written(self.out@) + seg@ =~= written(old(self).out@) + buf@.subrange(
                    0,
                    i + 1,
                ));
                let s1 = buf@.subrange(0, i + 1);
                assert(s1.drop_last() =~= buf@.subrange(0, i as int));
                assert(s1.last() == b);
            }
            i = i + 1;
        }
        let ghost out1 = self.out@;
        if seg.len() > 0 {
            self.emit(TermOp::Write(seg));
        } else {
            assert(seg@ =~= Seq::<u8>::empty());
        }
        proof {
            assert(buf@.subrange(0, buf@.len() as int) =~= buf@);
            assert(written(self.out@) =~= written(old(self).out@) + buf@);
            assert(self.out@.subrange(0, old(self).out@.len() as int) =~= out1.subrange(
                0,
                old(self).out@.len() as int,
            ));
        }
        let last: u16 = self.printlines - 1;
        let ghost scroll_at = self.out@.len();
        let ghost m = self.out@.len() as int;
        assert(forall|k: int|
            old(self).out@.len() <= k < m ==> is_output_op(#[trigger] self.out@[k]));
        let ghost y_before = y;
        if y > last {
            let ghost out2 = self.out@;
            self.emit(TermOp::ScrollUp(y - last));
            proof {
                assert(ops_view(self.out@).subrange(m, self.out@.len() as int) =~= seq![
                    OpView::ScrollUp((y_before - last) as u16),
                ]);
                assert(self.out@.subrange(0, old(self).out@.len() as int) =~= out2.subrange(
                    0,
                    old(self).out@.len() as int,
                ));
            }
            y = last;
        }
        let ghost out3 = self.out@;
        proof {
            if y_before <= last {
                assert(ops_view(out3).subrange(m, out3.len() as int) =~= Seq::<OpView>::empty());
            }
        }
        self.printx = x;
        self.printy = y;
        let ghost before = *self;
        self.redraw();
        proof {
            lemma_redraw_ops_same(before, *self);
            let tail = ops_view(self.out@).subrange(m, self.out@.len() as int);
            assert(ops_view(self.out@) == ops_view(out3) + redraw_ops(before));
            assert(ops_view(out3).len() == out3.len());
            assert(ops_view(self.out@).len() == self.out@.len());
            lemma_subrange_of_concat(ops_view(out3), redraw_ops(before), m);
            assert(tail == ops_view(out3).subrange(m, out3.len() as int) + redraw_ops(before));
            assert forall|k: int| old(self).out@.len() <= k < m implies is_output_op(
                #[trigger] self.out@[k],
            ) by {
                assert(self.out@[k] == self.out@.subrange(0, out3.len() as int)[k]);
            }
        }
        proof {
            assert(self.out@.subrange(0, old(self).out@.len() as int) =~= out3.subrange(
                0,
                old(self).out@.len() as int,
            ));
            if y == last && scroll_at < out3.len() {
                assert(self.out@[scroll_at as int] == out3[scroll_at as int]);
            }
        }
    }

    /// Takes output bytes from a producer: they go to the scrollback history,
    /// and unless the print pane shows the history, onto the screen at the
    /// print cursor. Fails only when the history's running count of bytes
    /// would pass `usize::MAX`.
    pub fn writeout(&mut self, buf: &[u8]) -> (r: Result<(), Error>)
        requires
            old(self).wf(),
        ensures
            final(self).wf(),
            r.is_ok() == (history_total(old(self).histbuf) + buf@.len() <= usize::MAX),
            r.is_err() ==> *final(self) == *old(self),
            r.is_ok() ==> {
                &&& history_total(final(self).histbuf) == history_total(old(self).histbuf)
                    + buf@.len()
                &&& history_bytes(final(self).histbuf) == retained_after(
                    history_bytes(old(self).histbuf),
                    buf@,
                    history_cap(old(self).histbuf),
                )
                &&& same_edit_state(*old(self), *final(self))
                &&& final(self).hb_active == old(self).hb_active
                &&& old(self).hb_active ==> final(self).printx == old(self).printx
                    && final(self).printy == old(self).printy && final(self).out == old(self).out
                &&& !old(self).hb_active ==> written(final(self).out@) == written(old(self).out@)
                    + buf@
                &&& final(self).hb_start_index == old(self).hb_start_index
                &&& final(self).hb_end_index == old(self).hb_end_index
                &&& !old(self).hb_active ==> {
                    let p = print_pos(
                        old(self).printx as int,
                        old(self).printy as int,
                        buf@,
                        old(self).sizex as int,
                        old(self).sizey as int,
                    );
                    &&& final(self).printx as int == p.0
                    &&& final(self).printy as int == if p.1 <= old(self).printlines - 1 {
                        p.1
                    } else {
                        old(self).printlines - 1
                    }
                    &&& old(self).out@.len() + 2 <= final(self).out@.len()
                    &&& final(self).out@[old(self).out@.len() as int] == TermOp::MoveTo(
                        old(self).printx,
                        old(self).printy,
                    )
                    &&& final(self).out@[old(self).out@.len() + 1int] == TermOp::Clear(
                        ClearKind::FromCursorDown,
                    )
                }
            },
    {
        let last = self.histbuf.get_last_index();
        let total: usize = if last > 0 {
            last + 1
        } else if self.histbuf.get(0).is_some() {
            1
        } else {
            0
        };
        if buf.len() > usize::MAX - total {
            return Err(Error::Msg("history index overflow"));
        }
        self.histbuf.add(buf);
        if !self.hb_active {
            self.emit(TermOp::MoveTo(self.printx, self.printy));
            self.emit(TermOp::Clear(ClearKind::FromCursorDown));
            let ghost o2 = self.out@;
            self.writebuf(buf);
            proof {
                let kept = self.out@.subrange(0, o2.len() as int);
                assert(kept == o2);
                assert(self.out@[old(self).out@.len() as int] == kept[old(self).out@.len() as int]);
                assert(self.out@[old(self).out@.len() + 1int] == kept[old(self).out@.len() + 1int]);
            }
        }
        Ok(())
    }
}

/// The truncation marker.
fn char_gt() -> (r: String)
    ensures
        r@ == seq!['>'],
{
    let r = String::from_str(">");
    proof {
        reveal_strlit(">");
    }
    r
}

} // verus!
