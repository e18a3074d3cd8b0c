use async_editor::{Editor, EditorEvent, Error, InputEvent, KeyCode, TermOp};

fn key(code: KeyCode) -> InputEvent {
    InputEvent::Key { code, ctrl: false }
}

fn ctrl(code: KeyCode) -> InputEvent {
    InputEvent::Key { code, ctrl: true }
}

fn type_str(e: &mut Editor, s: &str) {
    for c in s.chars() {
        let ev = if c == '\t' { key(KeyCode::Tab) } else { key(KeyCode::Char(c)) };
        assert_eq!(e.handle_event(ev), None);
    }
}

fn prints(e: &Editor) -> Vec<String> {
    e.out
        .iter()
        .filter_map(|op| match op {
            TermOp::Print(s) => Some(s.clone()),
            _ => None,
        })
        .collect()
}

fn writes(ops: &[TermOp]) -> Vec<u8> {
    let mut v = Vec::new();
    for op in ops {
        if let TermOp::Write(b) = op {
            v.extend_from_slice(b);
        }
    }
    v
}

#[test]
fn end_then_down_on_two_lines() {
    let mut e = Editor::new("hello\nworld", "prompt".to_string(), 50, 4, 80, 24, 0);
    e.handle_event(key(KeyCode::End));
    assert_eq!(e.lineidx, 0);
    assert_eq!(e.lidx, 5);
    assert_eq!(e.curx, 5);
    e.handle_event(key(KeyCode::Down));
    assert_eq!(e.lineidx, 1);
    assert_eq!(e.lidx, 0);
    assert_eq!(e.curx, 0);
    assert_eq!(e.cury, e.printlines + 3);
    assert_eq!(e.text(), "hello\nworld");
}

#[test]
fn round_trip_without_edits() {
    for s in ["", "a", "hello\nworld", "\n\n", "tab\there\n  x", "é\n你好"] {
        let e = Editor::new(s, String::new(), 50, 4, 80, 24, 0);
        assert_eq!(e.text(), s);
    }
}

#[test]
fn tab_expands_to_the_next_stop() {
    let mut e = Editor::new("", String::new(), 50, 4, 80, 24, 0);
    type_str(&mut e, "abc\tde");
    assert_eq!(e.lines[0], "abc\tde");
    assert_eq!(e.lidx, 6);
    assert_eq!(e.curx, 6);
    assert_eq!(prints(&e).last().unwrap(), "abc→de");
}

#[test]
fn tab_at_a_stop_takes_a_full_stop() {
    let mut e = Editor::new("", String::new(), 50, 4, 80, 24, 0);
    type_str(&mut e, "abcd\tx");
    assert_eq!(e.curx, 9);
    assert_eq!(prints(&e).last().unwrap(), "abcd→→→→x");
}

#[test]
fn long_line_scrolls_horizontally() {
    let mut e = Editor::new("", String::new(), 50, 4, 10, 24, 0);
    type_str(&mut e, "0123456789ABCDE");
    assert_eq!(e.lidx, 15);
    assert_eq!(e.curx, 9);
    assert_eq!(e.lofs, 6);
    assert_eq!(prints(&e).last().unwrap(), "6789ABCDE");
    e.out.clear();
    e.redraw();
    let n = e.out.len();
    assert!(e.out.contains(&TermOp::MoveToColumn(9)));
    assert!(e.out.contains(&TermOp::Print(">".to_string())));
    assert_eq!(e.out[n - 1], TermOp::MoveTo(9, e.cury));
    e.handle_event(key(KeyCode::End));
    e.handle_event(key(KeyCode::Home));
    assert_eq!(e.lofs, 0);
    assert_eq!(e.lidx, 0);
    assert_eq!(e.curx, 0);
}

#[test]
fn output_lines_land_on_rows() {
    let mut e = Editor::new("", String::new(), 50, 4, 80, 24, 0);
    e.handle_event(ctrl(KeyCode::Char('l')));
    assert_eq!((e.printx, e.printy), (0, 0));
    e.out.clear();
    e.writeout(b"line1\nline2\n").unwrap();
    assert_eq!(e.printx, 0);
    assert_eq!(e.printy, 2);
    assert_eq!(e.out[0], TermOp::MoveTo(0, 0));
    assert_eq!(e.out[2], TermOp::Write(b"line1\n".to_vec()));
    assert_eq!(e.out[4], TermOp::Write(b"line2\n".to_vec()));
}

#[test]
fn output_past_the_pane_scrolls_up() {
    let mut e = Editor::new("", String::new(), 50, 4, 80, 24, 0);
    assert_eq!(e.printlines, 12);
    e.handle_event(ctrl(KeyCode::Char('l')));
    e.out.clear();
    let mut text = Vec::new();
    for k in 0..15 {
        text.extend_from_slice(format!("row {k}\n").as_bytes());
    }
    e.writeout(&text).unwrap();
    assert!(e.out.contains(&TermOp::ScrollUp(4)));
    assert_eq!(e.printy, e.printlines - 1);
    assert_eq!(e.printx, 0);
}

#[test]
fn long_output_wraps_at_the_width() {
    let mut e = Editor::new("", String::new(), 50, 4, 10, 24, 0);
    e.handle_event(ctrl(KeyCode::Char('l')));
    e.writeout(b"0123456789abc").unwrap();
    assert_eq!((e.printx, e.printy), (3, 1));
    e.writeout(b"0123456").unwrap();
    assert_eq!((e.printx, e.printy), (10, 1));
    e.writeout(b"x").unwrap();
    assert_eq!((e.printx, e.printy), (1, 2));
}

#[test]
fn scrollback_page_up_and_escape() {
    let mut e = Editor::new("", String::new(), 50, 4, 80, 24, 0);
    let mut text = Vec::new();
    let mut k = 0;
    while text.len() < 10 * 1024 {
        text.extend_from_slice(format!("output line {k:05}\n").as_bytes());
        k += 1;
    }
    let mut sent = 0;
    while sent < text.len() {
        let end = (sent + 100).min(text.len());
        e.writeout(&text[sent..end]).unwrap();
        sent = end;
    }
    e.out.clear();
    e.handle_event(ctrl(KeyCode::PageUp));
    assert!(e.hb_active);
    let shown = writes(&e.out);
    let pl = e.printlines as usize;
    // a page of whole lines: the newest line and the `printlines - 1` lines before it
    let all = String::from_utf8(text.clone()).unwrap();
    let lines: Vec<&str> = all.lines().collect();
    let expect: String = lines[lines.len() - pl..]
        .iter()
        .map(|l| format!("{l}\n"))
        .collect();
    let shown = String::from_utf8(shown).unwrap();
    assert!(expect.ends_with(&shown[shown.find('\n').unwrap() + 1..]));
    assert_eq!(e.out[0], TermOp::MoveTo(0, 0));
    e.out.clear();
    e.handle_event(key(KeyCode::Esc));
    assert!(!e.hb_active);
    let tail = writes(&e.out);
    let page = pl * e.sizex as usize;
    assert_eq!(tail, text[text.len() - page..].to_vec());
}

#[test]
fn scrollback_page_down_returns_to_live() {
    let mut e = Editor::new("", String::new(), 50, 4, 80, 24, 0);
    e.writeout(b"a\nb\nc\n").unwrap();
    e.handle_event(ctrl(KeyCode::PageUp));
    assert!(e.hb_active);
    assert_eq!(e.hb_start_index, 0);
    e.handle_event(ctrl(KeyCode::PageDown));
    assert!(!e.hb_active);
}

#[test]
fn output_is_held_back_during_scrollback() {
    let mut e = Editor::new("", String::new(), 50, 4, 80, 24, 0);
    e.writeout(b"first\n").unwrap();
    e.handle_event(ctrl(KeyCode::PageUp));
    let (x, y) = (e.printx, e.printy);
    e.out.clear();
    e.writeout(b"second\n").unwrap();
    assert!(e.out.is_empty());
    assert_eq!((e.printx, e.printy), (x, y));
}

#[test]
fn insert_then_backspace_restores() {
    let mut e = Editor::new("ab\ncd", String::new(), 50, 4, 80, 24, 0);
    e.handle_event(key(KeyCode::Right));
    let before = (e.lines.clone(), e.lidx);
    type_str(&mut e, "你");
    assert_eq!(e.lines[0], "a你b");
    assert_eq!(e.lidx, 4);
    assert_eq!(e.curx, 3);
    e.handle_event(key(KeyCode::Backspace));
    assert_eq!((e.lines.clone(), e.lidx), before);
}

#[test]
fn split_then_backspace_restores() {
    let mut e = Editor::new("hello world\nnext", String::new(), 50, 4, 80, 24, 0);
    for _ in 0..5 {
        e.handle_event(key(KeyCode::Right));
    }
    let before = (e.lines.clone(), e.lineidx, e.lidx);
    e.handle_event(key(KeyCode::Enter));
    assert_eq!(e.lines, vec!["hello", " world", "next"]);
    assert_eq!((e.lineidx, e.lidx), (1, 0));
    e.handle_event(key(KeyCode::Backspace));
    assert_eq!((e.lines.clone(), e.lineidx, e.lidx), before);
}

#[test]
fn combining_mark_joins_the_grapheme() {
    let mut e = Editor::new("", String::new(), 50, 4, 80, 24, 0);
    type_str(&mut e, "e\u{301}");
    assert_eq!(e.lidx, 3);
    assert_eq!(e.curx, 1);
    e.handle_event(key(KeyCode::Left));
    assert_eq!(e.lidx, 0);
    e.handle_event(key(KeyCode::Right));
    assert_eq!(e.lidx, 3);
    e.handle_event(key(KeyCode::Backspace));
    assert_eq!(e.lines[0], "");
    assert_eq!(e.lidx, 0);
}

#[test]
fn delete_at_and_after_the_caret() {
    let mut e = Editor::new("ab\ncd", String::new(), 50, 4, 80, 24, 0);
    e.handle_event(key(KeyCode::Delete));
    assert_eq!(e.lines, vec!["b", "cd"]);
    e.handle_event(key(KeyCode::End));
    e.handle_event(key(KeyCode::Delete));
    assert_eq!(e.lines, vec!["bcd"]);
    assert_eq!(e.lidx, 1);
    e.handle_event(key(KeyCode::End));
    e.handle_event(key(KeyCode::Delete));
    assert_eq!(e.lines, vec!["bcd"]);
}

#[test]
fn backspace_at_the_start_does_nothing() {
    let mut e = Editor::new("xy", String::new(), 50, 4, 80, 24, 0);
    e.handle_event(key(KeyCode::Backspace));
    assert_eq!(e.lines, vec!["xy"]);
    assert_eq!(e.lidx, 0);
}

#[test]
fn kill_to_start_of_line() {
    let mut e = Editor::new("hello world", String::new(), 50, 4, 80, 24, 0);
    for _ in 0..6 {
        e.handle_event(key(KeyCode::Right));
    }
    e.handle_event(ctrl(KeyCode::Char('u')));
    assert_eq!(e.lines[0], "world");
    assert_eq!(e.lidx, 0);
}

#[test]
fn word_motion() {
    let mut e = Editor::new("foo bar  baz\nnext", String::new(), 50, 4, 80, 24, 0);
    e.handle_event(ctrl(KeyCode::Right));
    assert_eq!(e.lidx, 4);
    e.handle_event(ctrl(KeyCode::Right));
    assert_eq!(e.lidx, 9);
    e.handle_event(ctrl(KeyCode::Right));
    assert_eq!((e.lineidx, e.lidx), (1, 0));
    e.handle_event(ctrl(KeyCode::Left));
    assert_eq!((e.lineidx, e.lidx), (0, 9));
    e.handle_event(ctrl(KeyCode::Left));
    assert_eq!(e.lidx, 4);
}

#[test]
fn control_keys_give_events() {
    let mut e = Editor::new("x", String::new(), 50, 4, 80, 24, 0);
    let cases = [
        ('c', EditorEvent::CtrlC),
        ('d', EditorEvent::CtrlD),
        ('q', EditorEvent::CtrlQ),
        ('x', EditorEvent::CtrlX),
        ('s', EditorEvent::CtrlS),
        ('n', EditorEvent::CtrlS),
    ];
    for (c, ev) in cases {
        assert_eq!(e.handle_event(ctrl(KeyCode::Char(c))), Some(ev));
    }
    assert!(e.out.is_empty());
    assert_eq!(e.handle_event(key(KeyCode::Char('c'))), None);
    assert_eq!(e.lines[0], "cx");
}

#[test]
fn split_resize_holds_the_bounds() {
    let mut e = Editor::new("", String::new(), 50, 4, 80, 24, 0);
    assert_eq!(e.printlines, 12);
    e.handle_event(ctrl(KeyCode::Down));
    assert_eq!(e.printlines, 15);
    e.handle_event(ctrl(KeyCode::Down));
    assert_eq!(e.printlines, 16);
    for _ in 0..10 {
        e.handle_event(ctrl(KeyCode::Up));
    }
    assert_eq!(e.printlines, 3);
    assert!(e.cury >= e.printlines + 2 && e.cury <= e.sizey - 1);
}

#[test]
fn construction_clamps_the_split() {
    assert_eq!(Editor::new("", String::new(), 100, 4, 80, 24, 0).printlines, 16);
    assert_eq!(Editor::new("", String::new(), 0, 4, 80, 24, 0).printlines, 3);
    assert_eq!(Editor::new("", String::new(), 50, 4, 80, 24, 30).printy, 12);
}

#[test]
fn terminal_resize_keeps_the_invariants() {
    let mut e = Editor::new("a\nb\nc\nd\ne\nf\ng\nh\ni\nj", String::new(), 50, 4, 80, 40, 0);
    for _ in 0..9 {
        e.handle_event(key(KeyCode::Down));
    }
    assert_eq!(e.printlines, 20);
    e.handle_event(InputEvent::Resize(20, 12));
    assert_eq!((e.sizex, e.sizey), (20, 12));
    // half of 12 rows, held within 12 / 8 ..= 12 - 8
    assert_eq!(e.printlines, 4);
    assert!(e.printlines >= 12 / 8 && e.printlines <= 12 - 8);
    assert!(e.cury >= e.printlines + 2 && e.cury <= e.sizey - 1);
    assert!(e.scrollstart <= e.lineidx);
    e.handle_event(InputEvent::Resize(1, 3));
    assert_eq!((e.sizex, e.sizey), (20, 12));
}

#[test]
fn paging_moves_by_the_pane_height() {
    let text: Vec<String> = (0..50).map(|k| format!("l{k}")).collect();
    let mut e = Editor::new(&text.join("\n"), String::new(), 50, 4, 80, 24, 0);
    e.handle_event(key(KeyCode::PageDown));
    assert_eq!(e.lineidx, 10);
    e.handle_event(key(KeyCode::PageUp));
    assert_eq!(e.lineidx, 0);
    e.handle_event(ctrl(KeyCode::End));
    assert_eq!((e.lineidx, e.lidx), (49, 3));
    e.handle_event(ctrl(KeyCode::Home));
    assert_eq!((e.lineidx, e.lidx), (0, 0));
}

#[test]
fn separator_fills_the_width() {
    let e = Editor::new("", "my prompt".to_string(), 50, 4, 200, 24, 0);
    let s = e.separator();
    assert!(s.contains("my prompt"));
    assert!(s.ends_with('='));
}

#[test]
fn caret_snaps_to_a_grapheme_start_on_another_line() {
    let mut e = Editor::new("ab\ne\u{301}x", String::new(), 50, 4, 80, 24, 0);
    e.handle_event(key(KeyCode::Right));
    assert_eq!(e.lidx, 1);
    e.handle_event(key(KeyCode::Down));
    assert_eq!(e.lineidx, 1);
    assert_eq!(e.lidx, 0);
    assert_eq!(e.curx, 0);
}

#[test]
fn history_keeps_the_newest_bytes() {
    let mut e = Editor::new("", String::new(), 50, 4, 80, 24, 0);
    let mut stream = Vec::new();
    let mut k: u32 = 0;
    while stream.len() < 300_000 {
        let chunk = format!("{k:07}\n").into_bytes();
        e.writeout(&chunk).unwrap();
        e.out.clear();
        stream.extend_from_slice(&chunk);
        k += 1;
    }
    let held = e.histbuf.get_recent(usize::MAX);
    assert!(held.len() >= 300 * 160 * 4);
    assert!(held.len() < stream.len());
    assert_eq!(held, stream[stream.len() - held.len()..].to_vec());
    assert_eq!(e.histbuf.get_last_index(), stream.len() - 1);
}

#[test]
fn wide_graphemes_take_two_cells() {
    let mut e = Editor::new("", String::new(), 50, 4, 80, 24, 0);
    type_str(&mut e, "你好");
    assert_eq!(e.lidx, 6);
    assert_eq!(e.curx, 4);
}

#[test]
fn error_messages_name_the_kind() {
    assert_eq!(Error::Msg("terminal too small").message(), "Msg(\"terminal too small\")");
    assert_eq!(Error::RedrawRcError.message(), "RedrawRcError");
    assert_eq!(Error::SharedStdoutClosed.message(), "SharedStdoutClosed");
    assert_eq!(Error::Fmt.message(), "Fmt");
    let e = Error::Msg("x");
    assert_eq!(e.message(), format!("{e:?}"));
    assert_eq!(Error::Io("broken pipe".to_string()).message(), "Io(\"broken pipe\")");
}

#[test]
fn separator_text_is_exact() {
    let e = Editor::new("", "P".to_string(), 50, 4, 120, 24, 0);
    let s = e.separator();
    assert!(s.starts_with("=====  AsyncEditor  ========== P ==  Ctrl"));
    let title_end = s.find("Ctrl-PgUp/Ctrl-PgDn  ").unwrap() + "Ctrl-PgUp/Ctrl-PgDn  ".len();
    assert!(s[title_end..].chars().all(|c| c == '='));
    assert!(s.len() > title_end);
}

#[test]
fn resize_keeps_the_print_pane_share() {
    let mut e = Editor::new("", String::new(), 25, 4, 80, 40, 0);
    assert_eq!(e.printlines, 10);
    e.handle_event(InputEvent::Resize(100, 80));
    assert_eq!(e.printlines, 20);
    e.handle_event(InputEvent::Resize(100, 200));
    assert_eq!(e.printlines, 50);
}

#[test]
fn kill_to_start_leaves_other_lines() {
    let mut e = Editor::new("one\ntwo words\nthree", String::new(), 50, 4, 80, 24, 0);
    e.handle_event(key(KeyCode::Down));
    for _ in 0..4 {
        e.handle_event(key(KeyCode::Right));
    }
    e.handle_event(ctrl(KeyCode::Char('u')));
    assert_eq!(e.lines, vec!["one", "words", "three"]);
    assert_eq!((e.lineidx, e.lidx, e.lofs), (1, 0, 0));
}

#[test]
fn redraw_lays_out_the_edit_pane() {
    let mut e = Editor::new("a\nb", "p".to_string(), 50, 4, 80, 24, 0);
    e.out.clear();
    e.redraw();
    let pl = e.printlines;
    assert_eq!(e.out[0], TermOp::MoveTo(0, pl));
    assert_eq!(e.out[3], TermOp::MoveTo(0, pl + 2));
    assert_eq!(e.out[4], TermOp::Print("a".to_string()));
    assert_eq!(e.out[5], TermOp::MoveTo(0, pl + 3));
    assert_eq!(e.out[6], TermOp::Print("b".to_string()));
    assert_eq!(e.out[7], TermOp::MoveTo(0, pl + 2));
    assert_eq!(e.out.len(), 8);
}

#[test]
fn white_space_matches_std() {
    for u in 0u32..=0x10ffff {
        if let Some(c) = char::from_u32(u) {
            assert_eq!(async_editor::graphemes::is_white(c), c.is_whitespace(), "{u:#x}");
        }
    }
}

#[test]
fn word_motion_over_ideographic_space() {
    let mut e = Editor::new("a\u{3000}b", String::new(), 50, 4, 80, 24, 0);
    e.handle_event(ctrl(KeyCode::Right));
    assert_eq!(e.lidx, 4);
}
