//! The key bindings: what each input event does to the editor.
use vstd::prelude::*;
use crate::edit::{
    caret_at, erased, inserted, join_line, lemma_insert_then_backspace, lemma_split_then_join,
    split_line,
};
use crate::editor::{fit_from, lines_view, start_for, Editor};
use crate::history::{history_bytes, last_index, newest};
use crate::scrollback::back_scan;
use crate::render::written;
use crate::graphemes::{
    blen, bytes_of, char_string, cuttable, first_char, grapheme_next, grapheme_prev, is_boundary,
    is_white, next_grapheme_idx, prev_grapheme_idx, slice_of, white_space,
};
use crate::term::{ClearKind, EditorEvent, InputEvent, KeyCode, TermOp, WriteHistoryType};

verus! {

/// The high-level event that an input event gives: Control with c, d, q
/// or x asks to quit, Control with s or n asks to save.
pub open spec fn key_event(ev: InputEvent) -> Option<EditorEvent> {
    match ev {
        InputEvent::Key { code: KeyCode::Char(c), ctrl: true } => {
            if c == 'c' {
                Some(EditorEvent::CtrlC)
            } else if c == 'd' {
                Some(EditorEvent::CtrlD)
            } else if c == 'q' {
                Some(EditorEvent::CtrlQ)
            } else if c == 's' || c == 'n' {
                Some(EditorEvent::CtrlS)
            } else if c == 'x' {
                Some(EditorEvent::CtrlX)
            } else {
                None
            }
        },
        _ => None,
    }
}

/// Only line `l` of `b` may differ from `a`, and the line count is kept.
pub open spec fn only_line_changed(a: Editor, b: Editor) -> bool {
    &&& b.lineidx == a.lineidx
    &&& b.lines@ == a.lines@.update(a.lineidx as int, b.lines@[a.lineidx as int])
}

/// Putting `g` in at the caret: the line gets `g`, the caret goes past the
/// grapheme that now starts at the old caret.
pub open spec fn insert_effect(a: Editor, b: Editor, g: Seq<char>) -> bool {
    &&& only_line_changed(a, b)
    &&& bytes_of(b.line()) == inserted(a.line(), a.lidx as int, g)
    &&& b.lidx as int == grapheme_next(b.line(), a.lidx as int)
    &&& b.lofs as int == fit_from(
        b.line(),
        start_for(b.line(), b.lidx as int, a.lofs as int, false, a.sizey as int),
        b.lidx as int,
        a.tabstop as int,
        a.sizex - 1,
    )
}

/// Going to the end of the line: the caret at the end, the display offset
/// found from where `setpos` starts.
pub open spec fn end_effect(a: Editor, b: Editor) -> bool {
    &&& b.lines == a.lines
    &&& b.lineidx == a.lineidx
    &&& b.lidx as int == blen(b.line())
    &&& b.lofs as int == fit_from(
        b.line(),
        start_for(b.line(), b.lidx as int, a.lofs as int, a.loose_cursor, a.sizey as int),
        b.lidx as int,
        a.tabstop as int,
        a.sizex - 1,
    )
}

/// What Ctrl-PageUp does: it enters the history at its newest byte, or
/// goes on back from the page shown, and pages up; at index 0 it does
/// nothing more.
pub open spec fn page_up_effect(a: Editor, b: Editor) -> bool {
    &&& b.lines == a.lines
    &&& b.histbuf == a.histbuf
    &&& b.hb_active
    &&& !(a.hb_active && a.hb_start_index == 0) ==> {
        let s0 = if a.hb_active {
            a.hb_start_index as int
        } else {
            last_index(a.histbuf)
        };
        let bs = back_scan(
            a.histbuf,
            s0,
            a.sizex as int,
            0,
            a.sizex as int,
            a.printlines as int,
        );
        &&& b.hb_start_index == bs.0
        &&& bs.0 > 0 ==> b.hb_end_index == s0 && written(b.out@) == written(a.out@)
            + a.history_range(
            if bs.1 {
                bs.0
            } else {
                bs.0 + 1
            },
            s0 + 1,
        )
        &&& a.out@.len() + 2 <= b.out@.len()
        &&& b.out@[a.out@.len() as int] == TermOp::MoveTo(0, 0)
        &&& b.out@[a.out@.len() + 1int] == TermOp::Clear(ClearKind::All)
    }
}

/// What Backspace does: erase the grapheme before the caret, or join the
/// line onto the one above, or nothing at the start of the buffer.
pub open spec fn backspace_effect(a: Editor, b: Editor) -> bool {
    &&& a.lidx == 0 && a.lineidx == 0 ==> b.lines == a.lines && b.lineidx == a.lineidx && b.lidx
        == a.lidx
    &&& a.lidx == 0 && a.lineidx > 0 ==> {
        &&& lines_view(b.lines@) == join_line(lines_view(a.lines@), a.lineidx as int)
        &&& b.lineidx == a.lineidx - 1
        &&& b.lidx as int == caret_at(b.line(), blen(a.lines@[a.lineidx - 1]@))
    }
    &&& a.lidx > 0 ==> {
        &&& only_line_changed(a, b)
        &&& bytes_of(b.line()) == erased(
            a.line(),
            grapheme_prev(a.line(), a.lidx as int),
            a.lidx as int,
        )
        &&& b.lidx as int == caret_at(b.line(), grapheme_prev(a.line(), a.lidx as int))
    }
}

/// What Delete does: erase the grapheme at the caret, or join the next
/// line on, or nothing at the end of the buffer.
pub open spec fn delete_effect(a: Editor, b: Editor) -> bool {
    &&& b.lineidx == a.lineidx
    &&& a.lidx as int >= blen(a.line()) && a.lineidx + 1 >= a.lines@.len() ==> b.lines == a.lines
        && b.lidx == a.lidx
    &&& a.lidx as int >= blen(a.line()) && a.lineidx + 1 < a.lines@.len() ==> {
        &&& lines_view(b.lines@) == join_line(lines_view(a.lines@), a.lineidx + 1)
        &&& b.lidx as int == caret_at(b.line(), a.lidx as int)
    }
    &&& (a.lidx as int) < blen(a.line()) ==> {
        &&& only_line_changed(a, b)
        &&& bytes_of(b.line()) == erased(
            a.line(),
            a.lidx as int,
            grapheme_next(a.line(), a.lidx as int),
        )
        &&& b.lidx as int == caret_at(b.line(), a.lidx as int)
    }
}

/// The line index after moving down `num` lines, stopping at the last.
pub open spec fn line_down(a: Editor, num: int) -> int {
    if a.lineidx + num >= a.lines@.len() - 1 {
        a.lines@.len() - 1
    } else {
        a.lineidx + num
    }
}

/// The line index after moving up `num` lines, stopping at the first.
pub open spec fn line_up(a: Editor, num: int) -> int {
    if a.lineidx >= num {
        a.lineidx - num
    } else {
        0
    }
}

/// What a key pressed without Control does.
pub open spec fn plain_key_effect(a: Editor, b: Editor, code: KeyCode) -> bool {
    match code {
        KeyCode::Char(c) => insert_effect(a, b, seq![c]),
        KeyCode::Tab => insert_effect(a, b, seq!['\t']),
        KeyCode::Enter => a.lines@.len() < usize::MAX ==> lines_view(b.lines@) == split_line(
            lines_view(a.lines@),
            a.lineidx as int,
            a.lidx as int,
        ) && b.lineidx == a.lineidx + 1 && b.lidx == 0,
        KeyCode::Backspace => backspace_effect(a, b),
        KeyCode::Delete => delete_effect(a, b),
        KeyCode::Home => b.lidx == 0 && b.lofs == 0 && b.lines == a.lines && b.lineidx
            == a.lineidx,
        KeyCode::End => end_effect(a, b),
        KeyCode::Left => {
            &&& b.lines == a.lines
            &&& a.lidx > 0 ==> b.lineidx == a.lineidx && b.lidx as int == grapheme_prev(
                a.line(),
                a.lidx as int,
            )
            &&& a.lidx == 0 && a.lineidx > 0 ==> b.lineidx == a.lineidx - 1 && b.lidx as int
                == blen(b.line())
            &&& a.lidx == 0 && a.lineidx == 0 ==> b.lineidx == 0 && b.lidx == 0
        },
        KeyCode::Right => {
            &&& b.lines == a.lines
            &&& (a.lidx as int) < blen(a.line()) ==> b.lineidx == a.lineidx && b.lidx as int
                == grapheme_next(a.line(), a.lidx as int)
            &&& a.lidx as int >= blen(a.line()) && a.lineidx + 1 < a.lines@.len() ==> b.lineidx
                == a.lineidx + 1 && b.lidx == 0
            &&& a.lidx as int >= blen(a.line()) && a.lineidx + 1 >= a.lines@.len() ==> b.lineidx
                == a.lineidx && b.lidx == a.lidx
        },
        KeyCode::Up => b.lines == a.lines && b.lineidx == line_up(a, 1),
        KeyCode::Down => b.lines == a.lines && b.lineidx == line_down(a, 1) && (a.lineidx + 1
            < a.lines@.len() ==> b.lidx == 0 && b.curx == 0),
        KeyCode::PageUp => b.lines == a.lines && b.lineidx == line_up(
            a,
            a.sizey - a.printlines - 2,
        ),
        KeyCode::PageDown => b.lines == a.lines && b.lineidx == line_down(
            a,
            a.sizey - a.printlines - 2,
        ),
        KeyCode::Esc => {
            &&& !b.hb_active
            &&& b.lines == a.lines
            &&& b.histbuf == a.histbuf
            &&& a.out@.len() + 2 <= b.out@.len()
            &&& b.out@[a.out@.len() as int] == TermOp::MoveTo(0, 0)
            &&& b.out@[a.out@.len() + 1int] == TermOp::Clear(ClearKind::All)
            &&& written(b.out@) == written(a.out@) + newest(history_bytes(a.histbuf), a.page_len())
        },
        _ => true,
    }
}

/// What a key pressed with Control alone does, apart from the high-level
/// events of `key_event`.
pub open spec fn ctrl_key_effect(a: Editor, b: Editor, code: KeyCode) -> bool {
    match code {
        KeyCode::Char(c) => {
            &&& c == 'a' ==> b.lidx == 0 && b.lofs == 0 && b.lines == a.lines && b.lineidx
                == a.lineidx
            &&& c == 'e' ==> end_effect(a, b)
            &&& c == 'l' ==> b.printx == 0 && b.printy == 0 && b.lines == a.lines
            &&& c == 'u' ==> {
                &&& only_line_changed(a, b)
                &&& bytes_of(b.line()) == erased(a.line(), 0, a.lidx as int)
                &&& b.lidx == 0
                &&& b.lofs == 0
            }
        },
        KeyCode::Home => b.lineidx == 0 && b.lidx == 0 && b.scrollstart == 0 && b.lines
            == a.lines,
        KeyCode::End => b.lineidx == a.lines@.len() - 1 && b.lidx as int == blen(b.line())
            && b.lines == a.lines,
        KeyCode::Left => b.lines == a.lines && word_left_effect(a, b),
        KeyCode::Right => b.lines == a.lines && word_right_effect(a, b),
        KeyCode::Down => b.lines == a.lines && b.printlines as int == if a.printlines + 3
            > a.sizey - 8 {
            a.sizey - 8
        } else {
            a.printlines + 3
        },
        KeyCode::Up => b.lines == a.lines && b.printlines as int == if a.printlines - 3 < a.sizey
            / 8 {
            (a.sizey / 8) as int
        } else {
            a.printlines - 3
        },
        KeyCode::PageUp => page_up_effect(a, b),
        KeyCode::PageDown => b.lines == a.lines && b.hb_start_index == a.hb_end_index
            && b.histbuf == a.histbuf,
        _ => true,
    }
}

/// Where Ctrl-Left puts the caret: back over white space, then over one
/// word, from the caret, or from the end of the line above at a line start.
pub open spec fn word_left_effect(a: Editor, b: Editor) -> bool {
    &&& b.lineidx == if a.lidx == 0 && a.lineidx > 0 {
        a.lineidx - 1
    } else {
        a.lineidx as int
    }
    &&& ({
        let s = b.line();
        let start = if a.lidx == 0 {
            blen(s)
        } else {
            a.lidx as int
        };
        b.lidx as int == back_while(s, back_while(s, start, true), false)
    })
}

/// Where Ctrl-Right puts the caret: on over the word, to the next line at
/// the end of the line, then on over white space.
pub open spec fn word_right_effect(a: Editor, b: Editor) -> bool {
    let e1 = fwd_while(a.line(), a.lidx as int, false);
    let on_next = e1 >= blen(a.line());
    &&& b.lineidx == if on_next {
        line_down(a, 1)
    } else {
        a.lineidx as int
    }
    &&& b.lidx as int == fwd_while(
        b.line(),
        if on_next {
            0
        } else {
            e1
        },
        true,
    )
}

/// The print pane height after the terminal becomes `y` rows high: the
/// pane's share of the rows, held within 10 to 90 percent, and then within
/// `y / 8 ..= y - 8`.
pub open spec fn resized_printlines(printlines: int, sizey: int, y: int) -> int {
    let want = printlines * y / sizey;
    let held = if want < y / 10 {
        y / 10
    } else if want > y * 9 / 10 {
        y * 9 / 10
    } else {
        want
    };
    if held < y / 8 {
        y / 8
    } else if held > y - 8 {
        y - 8
    } else {
        held
    }
}

/// Typing a character and then pressing Backspace gives the lines and the
/// caret back, when the character stays one grapheme in its place.
pub proof fn lemma_type_then_backspace(a: Editor, b: Editor, c: Editor, ch: char)
    requires
        a.wf(),
        insert_effect(a, b, seq![ch]),
        backspace_effect(b, c),
        grapheme_next(b.line(), a.lidx as int) == a.lidx + blen(seq![ch]),
        grapheme_prev(b.line(), a.lidx + blen(seq![ch])) == a.lidx,
    ensures
        lines_view(c.lines@) == lines_view(a.lines@),
        c.lineidx == a.lineidx,
        c.lidx == a.lidx,
{
    let g = seq![ch];
    assert(vstd::utf8::encode_utf8(g) =~= vstd::utf8::encode_scalar(ch as u32)
        + vstd::utf8::encode_utf8(g.drop_first()));
    assert(blen(g) > 0) by {
        reveal_with_fuel(vstd::utf8::encode_utf8, 2);
    }
    lemma_insert_then_backspace(a.line(), a.lidx as int, g, b.line(), c.line());
    assert(lines_view(c.lines@) =~= lines_view(a.lines@));
}

/// Pressing Enter and then Backspace gives the lines and the caret back.
pub proof fn lemma_enter_then_backspace(a: Editor, b: Editor, c: Editor)
    requires
        a.wf(),
        a.lines@.len() < usize::MAX,
        plain_key_effect(a, b, KeyCode::Enter),
        b.lines@.len() >= 1,
        backspace_effect(b, c),
    ensures
        lines_view(c.lines@) == lines_view(a.lines@),
        c.lineidx == a.lineidx,
        c.lidx == a.lidx,
{
    let l = a.lineidx as int;
    lemma_split_then_join(lines_view(a.lines@), l, a.lidx as int);
    assert(lines_view(b.lines@)[l] == b.lines@[l]@);
    assert(lines_view(c.lines@)[l] == c.lines@[l]@);
    assert(c.line() == a.line());
}

/// The first character of the grapheme that starts at byte `i` of `s`.
pub open spec fn first_char_at(s: Seq<char>, i: int) -> char {
    slice_of(s, i, grapheme_next(s, i))[0]
}

/// The first character of the grapheme that ends at byte `i` of `s`.
pub open spec fn first_char_before(s: Seq<char>, i: int) -> char {
    slice_of(s, grapheme_prev(s, i), i)[0]
}

/// From byte `i` of `s`, back over the graphemes whose first character is
/// white space when `w`, or is not when `!w`.
pub open spec fn back_while(s: Seq<char>, i: int, w: bool) -> int
    decreases i,
{
    let p = grapheme_prev(s, i);
    if 0 < i && 0 <= p < i && white_space(first_char_before(s, i)) == w {
        back_while(s, p, w)
    } else {
        i
    }
}

/// From byte `i` of `s`, on over the graphemes whose first character is
/// white space when `w`, or is not when `!w`.
pub open spec fn fwd_while(s: Seq<char>, i: int, w: bool) -> int
    decreases blen(s) - i,
{
    let n = grapheme_next(s, i);
    if 0 <= i < blen(s) && i < n <= blen(s) && white_space(first_char_at(s, i)) == w {
        fwd_while(s, n, w)
    } else {
        i
    }
}

/// The first character of the grapheme that starts at byte `i` of `line`.
fn char_at(line: &str, i: usize) -> (r: char)
    requires
        (i as int) < blen(line@),
        cuttable(line@, i as int),
    ensures
        r == first_char_at(line@, i as int),
{
    let n = next_grapheme_idx(line, i);
    first_char(line, i, n)
}

/// The first character of the grapheme before byte `i` of `line`.
fn char_before(line: &str, i: usize) -> (r: char)
    requires
        0 < i,
        cuttable(line@, i as int),
    ensures
        r == first_char_before(line@, i as int),
{
    let p = prev_grapheme_idx(line, i);
    first_char(line, p, i)
}

impl Editor {
    /// Moves the caret to the start of the word before it: back over white
    /// space, then back over the word. At the start of a line it goes on
    /// from the end of the line above.
    pub fn word_left(&mut self)
        requires
            old(self).wf(),
        ensures
            final(self).wf(),
            final(self).lines == old(self).lines,
            final(self).same_print_state(&*old(self)),
            word_left_effect(*old(self), *final(self)),
    {
        let mut i: usize;
        if self.lidx == 0 {
            self.move_up(1, true);
            i = self.lines[self.lineidx].as_str().as_bytes().len();
        } else {
            i = self.lidx;
        }
        let line: &str = self.lines[self.lineidx].as_str();
        let ghost spaces_end = back_while(line@, i as int, true);
        loop
            invariant
                is_boundary(line@, i as int) || i as int == blen(line@),
                cuttable(line@, i as int),
                back_while(line@, i as int, true) == spaces_end,
            ensures
                i as int == spaces_end,
                is_boundary(line@, i as int) || i as int == blen(line@),
                cuttable(line@, i as int),
            decreases i,
        {
            if i == 0 || !is_white(char_before(line, i)) {
                break;
            }
            i = prev_grapheme_idx(line, i);
        }
        let ghost word_start = back_while(line@, i as int, false);
        loop
            invariant
                is_boundary(line@, i as int) || i as int == blen(line@),
                cuttable(line@, i as int),
                back_while(line@, i as int, false) == word_start,
            ensures
                i as int == word_start,
                is_boundary(line@, i as int) || i as int == blen(line@),
            decreases i,
        {
            if i == 0 || is_white(char_before(line, i)) {
                break;
            }
            i = prev_grapheme_idx(line, i);
        }
        self.lidx = i;
        self.setpos();
    }

    /// Moves the caret past the word at it and the white space after; at
    /// the end of a line it goes on from the start of the line below.
    pub fn word_right(&mut self)
        requires
            old(self).wf(),
        ensures
            final(self).wf(),
            final(self).lines == old(self).lines,
            final(self).same_print_state(&*old(self)),
            word_right_effect(*old(self), *final(self)),
    {
        let mut i: usize = self.lidx;
        let len = self.lines[self.lineidx].as_str().as_bytes().len();
        {
            let line: &str = self.lines[self.lineidx].as_str();
            let ghost word_end = fwd_while(line@, i as int, false);
            loop
                invariant
                    is_boundary(line@, i as int),
                    len as int == blen(line@),
                    fwd_while(line@, i as int, false) == word_end,
                ensures
                    i as int == word_end,
                decreases len - i,
            {
                if i >= len || is_white(char_at(line, i)) {
                    break;
                }
                i = next_grapheme_idx(line, i);
            }
        }
        if i >= len {
            self.move_down(1, true);
            i = 0;
        }
        let line: &str = self.lines[self.lineidx].as_str();
        let len = line.as_bytes().len();
        let ghost next_word = fwd_while(line@, i as int, true);
        loop
            invariant
                is_boundary(line@, i as int),
                len as int == blen(line@),
                fwd_while(line@, i as int, true) == next_word,
            ensures
                i as int == next_word,
            decreases len - i,
        {
            if i >= len || !is_white(char_at(line, i)) {
                break;
            }
            i = next_grapheme_idx(line, i);
        }
        self.lidx = i;
        self.setpos();
    }

    /// Keys pressed with Control alone.
    fn handle_ctrl_key(&mut self, code: KeyCode) -> (r: Option<EditorEvent>)
        requires
            old(self).wf(),
        ensures
            final(self).wf(),
            r == key_event(InputEvent::Key { code, ctrl: true }),
            r.is_some() ==> *final(self) == *old(self),
            ctrl_key_effect(*old(self), *final(self), code),
    {
        match code {
            KeyCode::Char(c) => {
                if c == 'a' {
                    self.lidx = 0;
                    self.lofs = 0;
                    self.setpos();
                } else if c == 'c' {
                    return Some(EditorEvent::CtrlC);
                } else if c == 'd' {
                    return Some(EditorEvent::CtrlD);
                } else if c == 'e' {
                    self.move_end();
                } else if c == 'l' {
                    self.printx = 0;
                    self.printy = 0;
                    self.redraw();
                } else if c == 'n' || c == 's' {
                    return Some(EditorEvent::CtrlS);
                } else if c == 'q' {
                    return Some(EditorEvent::CtrlQ);
                } else if c == 'x' {
                    return Some(EditorEvent::CtrlX);
                } else if c == 'u' {
                    self.kill_to_start();
                }
            },
            KeyCode::Down => {
                self.resize_split(3);
            },
            KeyCode::Up => {
                self.resize_split(-3);
            },
            KeyCode::End => {
                self.lineidx = self.lines.len() - 1;
                self.scrollstart = self.lineidx;
                self.cury = self.printlines + 2;
                self.lidx = self.lines[self.lineidx].as_str().as_bytes().len();
                self.setpos();
                self.redraw();
            },
            KeyCode::Home => {
                self.lineidx = 0;
                self.scrollstart = 0;
                self.cury = self.printlines + 2;
                self.lidx = 0;
                self.setpos();
                self.redraw();
            },
            KeyCode::Left => {
                self.word_left();
            },
            KeyCode::Right => {
                self.word_right();
            },
            KeyCode::PageDown => {
                self.writehistory(WriteHistoryType::PageDown);
            },
            KeyCode::PageUp => {
                if !self.hb_active {
                    self.hb_active = true;
                    self.hb_start_index = self.histbuf.get_last_index();
                    self.hb_end_index = self.hb_start_index;
                } else if self.hb_start_index == 0 {
                    return None;
                }
                self.writehistory(WriteHistoryType::PageUp);
            },
            _ => {},
        }
        None
    }

    /// Keys pressed without Control alone.
    fn handle_plain_key(&mut self, code: KeyCode)
        requires
            old(self).wf(),
        ensures
            final(self).wf(),
            plain_key_effect(*old(self), *final(self), code),
    {
        match code {
            KeyCode::Backspace => {
                self.backspace();
            },
            KeyCode::Char(c) => {
                let s = char_string(c);
                self.insert_charstr(s.as_str());
            },
            KeyCode::Delete => {
                self.delete();
            },
            KeyCode::Down => {
                self.move_down(1, true);
                self.redraw();
            },
            KeyCode::End => {
                self.move_end();
            },
            KeyCode::Esc => {
                self.writehistory(WriteHistoryType::Quit);
                self.hb_active = false;
            },
            KeyCode::Enter => {
                if self.lines.len() < usize::MAX {
                    self.split_at_cursor();
                    self.redraw();
                }
            },
            KeyCode::Home => {
                self.lidx = 0;
                self.lofs = 0;
                self.setpos();
            },
            KeyCode::Left => {
                if self.lidx == 0 {
                    if self.lineidx == 0 {
                        return ;
                    }
                    self.move_up(1, true);
                } else {
                    let p = prev_grapheme_idx(self.lines[self.lineidx].as_str(), self.lidx);
                    self.lidx = p;
                }
                self.setpos();
            },
            KeyCode::PageDown => {
                let numlines = self.sizey - self.printlines - 2;
                self.move_down(numlines, false);
            },
            KeyCode::PageUp => {
                let numlines = self.sizey - self.printlines - 2;
                self.move_up(numlines, false);
            },
            KeyCode::Right => {
                let len = self.lines[self.lineidx].as_str().as_bytes().len();
                if self.lidx >= len {
                    if self.lineidx == self.lines.len() - 1 {
                        return ;
                    }
                    self.move_down(1, true);
                } else {
                    let n = next_grapheme_idx(self.lines[self.lineidx].as_str(), self.lidx);
                    self.lidx = n;
                }
                self.setpos();
            },
            KeyCode::Tab => {
                let tab = "\t";
                proof {
                    reveal_strlit("\t");
                    assert(tab@ =~= seq!['\t']);
                }
                self.insert_charstr(tab);
            },
            KeyCode::Up => {
                self.move_up(1, false);
            },
            _ => {},
        }
    }

    /// Handles one input event and queues what it changes on the screen.
    /// Returns the high-level event that the key asks for, and then changes
    /// nothing. A resize to fewer than 2 columns or 9 rows is ignored; any
    /// other resize keeps the print pane's share of the rows, held within 10
    /// to 90 percent.
    pub fn handle_event(&mut self, event: InputEvent) -> (r: Option<EditorEvent>)
        requires
            old(self).wf(),
        ensures
            final(self).wf(),
            r == key_event(event),
            r.is_some() ==> *final(self) == *old(self),
            forall|code: KeyCode|
                event == (InputEvent::Key { code, ctrl: false }) ==> plain_key_effect(
                    *old(self),
                    *final(self),
                    code,
                ),
            forall|code: KeyCode|
                event == (InputEvent::Key { code, ctrl: true }) ==> ctrl_key_effect(
                    *old(self),
                    *final(self),
                    code,
                ),
            forall|x: u16, y: u16|
                event == InputEvent::Resize(x, y) && x >= 2 && y >= 9 ==> final(self).sizex == x
                    && final(self).sizey == y && final(self).printlines as int
                    == resized_printlines(
                    old(self).printlines as int,
                    old(self).sizey as int,
                    y as int,
                ),
    {
        match event {
            InputEvent::Key { code, ctrl: true } => {
                let r = self.handle_ctrl_key(code);
                if r.is_some() {
                    return r;
                }
            },
            InputEvent::Key { code, ctrl: false } => {
                self.handle_plain_key(code);
            },
            InputEvent::Resize(x, y) => {
                if x >= 2 && y >= 9 {
                    let y64 = y as u64;
                    assert((self.printlines as u64) * y64 <= 0xffff * 0xffff) by (nonlinear_arith)
                        requires
                            self.printlines <= 0xffff,
                            y64 <= 0xffff,
                    ;
                    let want: u64 = (self.printlines as u64) * y64 / (self.sizey as u64);
                    let held: u64 = if want < y64 / 10 {
                        y64 / 10
                    } else if want > y64 * 9 / 10 {
                        y64 * 9 / 10
                    } else {
                        want
                    };
                    let delta: i32 = held as i32 - self.printlines as i32;
                    self.sizex = x;
                    self.sizey = y;
                    if self.printx > x {
                        self.printx = x;
                    }
                    self.resize_split(delta);
                }
            },
            InputEvent::Other => {},
        }
        self.emit(TermOp::MoveTo(self.curx, self.cury));
        None
    }
}

} // verus!
