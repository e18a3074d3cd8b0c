//! Grapheme boundaries and display widths of strings, as given by
//! `grapheme_utils`, and the byte-level string edits the editor needs.
use vstd::prelude::*;
use vstd::string::StringExecFns;
use vstd::utf8::{encode_utf8, is_char_boundary};

verus! {

/// The largest grapheme boundary at or before byte `i` of `s`.
pub uninterp spec fn grapheme_floor(s: Seq<char>, i: int) -> int;

/// The smallest grapheme boundary after byte `i` of `s`, or the byte length.
pub uninterp spec fn grapheme_next(s: Seq<char>, i: int) -> int;

/// The largest grapheme boundary before byte `i` of `s`, or 0.
pub uninterp spec fn grapheme_prev(s: Seq<char>, i: int) -> int;

/// The number of terminal cells that `s` takes.
pub uninterp spec fn text_width(s: Seq<char>) -> nat;

/// The UTF-8 bytes of `s`.
pub open spec fn bytes_of(s: Seq<char>) -> Seq<u8> {
    encode_utf8(s)
}

/// The byte length of `s`.
pub open spec fn blen(s: Seq<char>) -> int {
    encode_utf8(s).len() as int
}

/// `i` is a byte offset of `s` at which std may cut the string.
pub open spec fn cuttable(s: Seq<char>, i: int) -> bool {
    0 <= i <= blen(s) && (i == 0 || i == blen(s) || is_char_boundary(encode_utf8(s), i))
}

/// `i` is a grapheme boundary of `s` (both ends included).
pub open spec fn is_boundary(s: Seq<char>, i: int) -> bool {
    cuttable(s, i) && (i == 0 || grapheme_floor(s, i) == i)
}

/// `i` is a grapheme boundary of `s`, or the end of `s`.
pub open spec fn is_caret_pos(s: Seq<char>, i: int) -> bool {
    is_boundary(s, i) || i == blen(s)
}

/// The characters of the bytes `a..b` of `s`.
pub open spec fn slice_of(s: Seq<char>, a: int, b: int) -> Seq<char> {
    vstd::utf8::decode_utf8(encode_utf8(s).subrange(a, b))
}

/// The grapheme that starts at byte `i` of `s` is a tab.
pub open spec fn is_tab_at(s: Seq<char>, i: int) -> bool {
    encode_utf8(s).subrange(i, grapheme_next(s, i)) == seq![9u8]
}

/// The cells that the grapheme at byte `i` of `s` takes when it starts at
/// column `col`: a tab reaches the next multiple of `ts`.
pub open spec fn grapheme_cells(s: Seq<char>, i: int, ts: int, col: int) -> int {
    if is_tab_at(s, i) {
        ts - col % ts
    } else {
        text_width(slice_of(s, i, grapheme_next(s, i))) as int
    }
}

/// The cells that the graphemes of `s` from byte `i` up to byte `j` take,
/// the first one starting at column `col`.
pub open spec fn span_cells(s: Seq<char>, i: int, j: int, ts: int, col: int) -> int
    decreases j - i,
{
    let n = grapheme_next(s, i);
    if i < j && i < n {
        let w = grapheme_cells(s, i, ts, col);
        if n <= j {
            w + span_cells(s, n, j, ts, col + w)
        } else {
            w
        }
    } else {
        0
    }
}

/// The column, modulo the tab stop, at which byte `a` of `s` stands.
pub open spec fn prefix_col(s: Seq<char>, a: int, ts: int) -> int {
    text_width(slice_of(s, 0, a)) as int % ts
}

/// The display width of the bytes `a..b` of `s` shown from byte `a`, tabs
/// expanded as they fall on screen.
pub open spec fn shown_width(s: Seq<char>, a: int, b: int, ts: int) -> int {
    span_cells(s, a, b, ts, prefix_col(s, a, ts))
}

proof fn lemma_span_cells_nonneg(s: Seq<char>, i: int, j: int, ts: int, col: int)
    requires
        ts >= 1,
    ensures
        span_cells(s, i, j, ts, col) >= 0,
    decreases j - i,
{
    let n = grapheme_next(s, i);
    if i < j && i < n {
        let w = grapheme_cells(s, i, ts, col);
        if n <= j {
            lemma_span_cells_nonneg(s, n, j, ts, col + w);
        }
    }
}

/// Relies on `grapheme_utils::grapheme_idx_at_idx`: it walks back from `idx`
/// to a character start that the grapheme cursor reports as a boundary, and
/// returns 0 for 0 and the byte length for any index at or past it.
#[verifier::external_body]
pub(crate) fn grapheme_idx_at(s: &str, idx: usize) -> (r: usize)
    ensures
        r as int == grapheme_floor(s@, idx as int),
        idx == 0 ==> r == 0,
        idx as int >= blen(s@) ==> r as int == blen(s@),
        r <= idx,
        is_boundary(s@, r as int),
{
    grapheme_utils::grapheme_idx_at_idx(s, idx)
}

/// Relies on `grapheme_utils::next_grapheme_idx_from_idx`: the next boundary
/// of the grapheme cursor after `idx`, or the byte length at or past the end.
#[verifier::external_body]
pub(crate) fn next_grapheme_idx(s: &str, idx: usize) -> (r: usize)
    ensures
        r as int == grapheme_next(s@, idx as int),
        idx as int >= blen(s@) ==> r as int == blen(s@),
        (idx as int) < blen(s@) ==> idx < r,
        r as int <= blen(s@),
        is_boundary(s@, r as int),
{
    grapheme_utils::next_grapheme_idx_from_idx(s, idx)
}

/// Relies on `grapheme_utils::prev_grapheme_idx_from_idx`: the previous
/// boundary of the grapheme cursor before `idx`, or 0 at the start.
#[verifier::external_body]
pub(crate) fn prev_grapheme_idx(s: &str, idx: usize) -> (r: usize)
    ensures
        r as int == grapheme_prev(s@, idx as int),
        idx == 0 ==> r == 0,
        idx > 0 ==> r < idx,
        r as int <= blen(s@),
        is_boundary(s@, r as int),
{
    grapheme_utils::prev_grapheme_idx_from_idx(s, idx)
}

/// Relies on `grapheme_utils::string_width`: the sum of the widths of the
/// graphemes of `s`.
#[verifier::external_body]
pub(crate) fn string_width(s: &str) -> (r: usize)
    ensures
        r as nat == text_width(s@),
{
    grapheme_utils::string_width(s)
}

/// Relies on std's `str` indexing by a byte range, which cuts the bytes
/// `a..b` out of `s` when both are character boundaries.
#[verifier::external_body]
pub(crate) fn substr(s: &str, a: usize, b: usize) -> (r: &str)
    requires
        a <= b,
        cuttable(s@, a as int),
        cuttable(s@, b as int),
    ensures
        encode_utf8(r@) == encode_utf8(s@).subrange(a as int, b as int),
{
    &s[a..b]
}

/// Relies on `String::insert_str`, which puts `t` in at byte `idx`.
#[verifier::external_body]
pub(crate) fn insert_str(s: &mut String, idx: usize, t: &str)
    requires
        cuttable(old(s)@, idx as int),
    ensures
        encode_utf8(final(s)@) == encode_utf8(old(s)@).subrange(0, idx as int) + encode_utf8(t@)
            + encode_utf8(old(s)@).subrange(idx as int, blen(old(s)@)),
{
    s.insert_str(idx, t)
}

/// Relies on `String::replace_range` with an empty replacement, which
/// removes the bytes `a..b`.
#[verifier::external_body]
pub(crate) fn remove_range(s: &mut String, a: usize, b: usize)
    requires
        a <= b,
        cuttable(old(s)@, a as int),
        cuttable(old(s)@, b as int),
    ensures
        encode_utf8(final(s)@) == encode_utf8(old(s)@).subrange(0, a as int) + encode_utf8(
            old(s)@,
        ).subrange(b as int, blen(old(s)@)),
{
    s.replace_range(a..b, "")
}

/// Every line of `ls`, with a newline between each two.
pub open spec fn join_lines(ls: Seq<Seq<char>>) -> Seq<char>
    decreases ls.len(),
{
    if ls.len() == 0 {
        Seq::empty()
    } else if ls.len() == 1 {
        ls[0]
    } else {
        join_lines(ls.drop_last()) + seq!['\n'] + ls.last()
    }
}

/// Joining one more line onto joined lines puts a newline between them.
proof fn lemma_join_push(ls: Seq<Seq<char>>, x: Seq<char>)
    ensures
        join_lines(ls.push(x)) == if ls.len() == 0 {
            x
        } else {
            join_lines(ls) + seq!['\n'] + x
        },
{
    assert(ls.push(x).drop_last() =~= ls);
    if ls.len() == 0 {
        assert(ls.push(x).len() == 1);
    }
}

/// Relies on `str::split_once` with `'\n'`: the text before the first
/// newline and the text after it, or `None` when `s` has no newline.
#[verifier::external_body]
pub(crate) fn split_at_newline(s: &str) -> (r: Option<(&str, &str)>)
    ensures
        match r {
            Some((a, b)) => s@ == a@ + seq!['\n'] + b@ && !a@.contains('\n'),
            None => !s@.contains('\n'),
        },
{
    s.split_once('\n')
}

/// The pieces of `s` between newlines, at least one, which joined with
/// newlines give `s` back.
pub(crate) fn split_lines(s: &str) -> (r: Vec<String>)
    ensures
        r@.len() >= 1,
        join_lines(r@.map_values(|l: String| l@)) == s@,
        forall|i: int| 0 <= i < r@.len() ==> !r@[i]@.contains('\n'),
{
    let mut out: Vec<String> = Vec::new();
    let mut rest: &str = s;
    loop
        invariant
            join_lines(out@.map_values(|l: String| l@).push(rest@)) == s@,
            forall|i: int| 0 <= i < out@.len() ==> !out@[i]@.contains('\n'),
        decreases rest@.len(),
    {
        match split_at_newline(rest) {
            Some((head, tail)) => {
                let ghost before = out@.map_values(|l: String| l@);
                let ghost old_rest = rest@;
                out.push(head.to_owned());
                rest = tail;
                proof {
                    let now = out@.map_values(|l: String| l@);
                    assert(now =~= before.push(head@));
                    lemma_join_push(before, old_rest);
                    lemma_join_push(before, head@);
                    lemma_join_push(now, tail@);
                    assert(join_lines(now.push(tail@)) =~= join_lines(before.push(old_rest)));
                }
            },
            None => {
                let ghost before = out@.map_values(|l: String| l@);
                out.push(rest.to_owned());
                proof {
                    assert(out@.map_values(|l: String| l@) =~= before.push(rest@));
                }
                return out;
            },
        }
    }
}

/// Whether a character has the Unicode `White_Space` property.
pub open spec fn white_space(c: char) -> bool {
    let u = c as u32;
    (0x09 <= u <= 0x0d) || u == 0x20 || u == 0x85 || u == 0xa0 || u == 0x1680 || (0x2000 <= u
        <= 0x200a) || u == 0x2028 || u == 0x2029 || u == 0x202f || u == 0x205f || u == 0x3000
}

/// Whether `c` is white space, as `char::is_whitespace` decides it.
pub fn is_white(c: char) -> (r: bool)
    ensures
        r == white_space(c),
{
    let u = c as u32;
    (0x09 <= u && u <= 0x0d) || u == 0x20 || u == 0x85 || u == 0xa0 || u == 0x1680 || (0x2000
        <= u && u <= 0x200a) || u == 0x2028 || u == 0x2029 || u == 0x202f || u == 0x205f || u
        == 0x3000
}

/// Relies on `char::to_string`: the one-character string of `c`.
#[verifier::external_body]
pub(crate) fn char_string(c: char) -> (r: String)
    ensures
        r@ == seq![c],
{
    c.to_string()
}

/// Appends `t` to `s`.
pub(crate) fn push_str(s: &mut String, t: &str)
    ensures
        final(s)@ == old(s)@ + t@,
{
    s.append(t)
}

/// The first character of the bytes `a..b` of `line`.
pub(crate) fn first_char(line: &str, a: usize, b: usize) -> (r: char)
    requires
        a < b,
        cuttable(line@, a as int),
        cuttable(line@, b as int),
    ensures
        slice_of(line@, a as int, b as int).len() > 0,
        r == slice_of(line@, a as int, b as int)[0],
{
    broadcast use vstd::utf8::encode_utf8_decode_utf8;

    let g = substr(line, a, b);
    proof {
        if g@.len() == 0 {
            assert(encode_utf8(g@) =~= Seq::<u8>::empty());
        }
    }
    g.get_char(0)
}

/// Whether the grapheme from byte `i` to byte `n` of `line` is a tab.
pub(crate) fn tab_between(line: &str, i: usize, n: usize) -> (r: bool)
    requires
        i <= n,
        cuttable(line@, i as int),
        cuttable(line@, n as int),
    ensures
        r == (encode_utf8(line@).subrange(i as int, n as int) == seq![9u8]),
{
    let g = substr(line, i, n);
    let b = g.as_bytes();
    let r = b.len() == 1 && b[0] == 9u8;
    proof {
        if r {
            assert(b@ =~= seq![9u8]);
        }
    }
    r
}

/// The cells of the grapheme from byte `i` to byte `n` of `line`, shown at
/// column `col`.
pub(crate) fn cells_of(line: &str, i: usize, n: usize, ts: u8, col: usize) -> (r: usize)
    requires
        i < n,
        n as int == grapheme_next(line@, i as int),
        cuttable(line@, i as int),
        cuttable(line@, n as int),
        ts >= 1,
    ensures
        r as int == grapheme_cells(line@, i as int, ts as int, col as int),
{
    broadcast use vstd::utf8::encode_utf8_decode_utf8;

    if tab_between(line, i, n) {
        (ts as usize) - col % (ts as usize)
    } else {
        let g = substr(line, i, n);
        string_width(g)
    }
}

/// The tab-expanded width of the bytes `from..to` of `line`, the first
/// grapheme at column `base`; any value over `limit` means "wider than
/// `limit`".
pub fn span_width(line: &str, from: usize, to: usize, ts: u8, base: usize, limit: usize) -> (r:
    usize)
    requires
        from <= to,
        cuttable(line@, from as int),
        cuttable(line@, to as int),
        ts >= 1,
        base < 0x1_0000,
        limit < 0x1_0000,
    ensures
        span_cells(line@, from as int, to as int, ts as int, base as int) <= limit ==> r as int
            == span_cells(line@, from as int, to as int, ts as int, base as int),
        span_cells(line@, from as int, to as int, ts as int, base as int) > limit ==> r > limit,
{
    let ghost s = line@;
    let ghost total = span_cells(s, from as int, to as int, ts as int, base as int);
    let mut i = from;
    let mut w: usize = 0;
    while i < to
        invariant
            from <= i <= to,
            cuttable(s, i as int),
            cuttable(s, to as int),
            line@ == s,
            ts >= 1,
            w <= limit,
            base < 0x1_0000,
            limit < 0x1_0000,
            total == span_cells(s, from as int, to as int, ts as int, base as int),
            total == w + span_cells(s, i as int, to as int, ts as int, (base + w) as int),
        decreases to - i,
    {
        let n = next_grapheme_idx(line, i);
        let cw = cells_of(line, i, n, ts, base + w);
        if cw > limit - w {
            proof {
                if n <= to {
                    let col = (base + w + cw) as int;
                    lemma_span_cells_nonneg(s, n as int, to as int, ts as int, col);
                }
                assert(span_cells(s, i as int, to as int, ts as int, (base + w) as int) >= cw);
            }
            return limit + 1;
        }
        w = w + cw;
        if n > to {
            i = to;
        } else {
            i = n;
        }
    }
    w
}

/// The tab-expanded width of the bytes `a..b` of `line` as shown from byte
/// `a`; any value over `limit` means "wider than `limit`".
pub fn shown_width_upto(line: &str, a: usize, b: usize, ts: u8, limit: usize) -> (r: usize)
    requires
        a <= b,
        cuttable(line@, a as int),
        cuttable(line@, b as int),
        ts >= 1,
        limit < 0x1_0000,
    ensures
        shown_width(line@, a as int, b as int, ts as int) <= limit ==> r as int == shown_width(
            line@,
            a as int,
            b as int,
            ts as int,
        ),
        shown_width(line@, a as int, b as int, ts as int) > limit ==> r > limit,
{
    broadcast use vstd::utf8::encode_utf8_decode_utf8;

    let pre = substr(line, 0, a);
    let base = string_width(pre) % (ts as usize);
    span_width(line, a, b, ts, base, limit)
}

} // verus!
