//! The scrollback log of printed bytes, kept in `historybuffer`'s ring.
use vstd::prelude::*;
use historybuffer::HistoryBuffer;

verus! {

#[verifier::external_type_specification]
#[verifier::external_body]
pub struct ExHistoryBuffer(HistoryBuffer);

/// The bytes that a history buffer still holds, oldest first.
pub uninterp spec fn history_bytes(h: HistoryBuffer) -> Seq<u8>;

/// The number of bytes ever added to a history buffer.
pub uninterp spec fn history_total(h: HistoryBuffer) -> nat;

/// The size of a history buffer's ring.
pub uninterp spec fn history_cap(h: HistoryBuffer) -> nat;

/// The absolute index of the oldest byte that `h` still holds.
pub open spec fn history_start(h: HistoryBuffer) -> int {
    history_total(h) - history_bytes(h).len()
}

/// The bytes retained after adding `data` to a log that holds `kept` and
/// keeps at most `cap` bytes.
pub open spec fn retained_after(kept: Seq<u8>, data: Seq<u8>, cap: nat) -> Seq<u8> {
    let all = kept + data;
    if all.len() <= cap {
        all
    } else {
        all.subrange(all.len() - cap, all.len() as int)
    }
}

/// The newest bytes of `all`, at most `cap` of them.
pub open spec fn newest(all: Seq<u8>, cap: nat) -> Seq<u8> {
    if all.len() <= cap {
        all
    } else {
        all.subrange(all.len() - cap, all.len() as int)
    }
}

/// A log that holds the newest bytes of everything written so far goes on
/// holding the newest bytes once more are added; so each byte ever written
/// is either still held, at its place, or at least `cap` bytes were written
/// after it.
pub proof fn lemma_history_complete(all: Seq<u8>, kept: Seq<u8>, data: Seq<u8>, cap: nat, i: int)
    requires
        kept == newest(all, cap),
        0 <= i < all.len() + data.len(),
    ensures
        retained_after(kept, data, cap) == newest(all + data, cap),
        ({
            let stream = all + data;
            let held = retained_after(kept, data, cap);
            ||| stream.len() - i <= cap && held[i - (stream.len() - held.len())] == stream[i]
            ||| stream.len() - 1 - i >= cap
        }),
{
    let stream = all + data;
    let held = retained_after(kept, data, cap);
    let both = kept + data;
    assert(both =~= stream.subrange(stream.len() - both.len(), stream.len() as int));
    if both.len() <= cap {
        if all.len() > cap {
            assert(data.len() == 0);
            assert(stream =~= all);
        }
        assert(held =~= newest(stream, cap));
    } else {
        assert(held =~= newest(stream, cap));
    }
    if stream.len() - i <= cap {
        assert(held[i - (stream.len() - held.len())] == stream[i]);
    }
}

/// Relies on `HistoryBuffer::new`: the ring size is the next power of two
/// of `min_buf_size`, clamped to `2..=1 << 23`, and the ring starts empty.
pub assume_specification[ HistoryBuffer::new ](min_buf_size: usize) -> (r: HistoryBuffer)
    ensures
        history_bytes(r) == Seq::<u8>::empty(),
        history_total(r) == 0,
        history_cap(r) >= 2,
        2 <= min_buf_size <= 0x80_0000 ==> min_buf_size <= history_cap(r) < 2 * min_buf_size,
;

/// Relies on `HistoryBuffer::add`: the running count grows by the length of
/// `data`, and the ring keeps the newest bytes up to its size.
pub assume_specification[ HistoryBuffer::add ](h: &mut HistoryBuffer, data: &[u8])
    requires
        history_total(*old(h)) + data@.len() <= usize::MAX,
        history_bytes(*old(h)).len() == if history_total(*old(h)) <= history_cap(*old(h)) {
            history_total(*old(h))
        } else {
            history_cap(*old(h))
        },
    ensures
        history_total(*final(h)) == history_total(*old(h)) + data@.len(),
        history_cap(*final(h)) == history_cap(*old(h)),
        history_bytes(*final(h)) == retained_after(
            history_bytes(*old(h)),
            data@,
            history_cap(*old(h)),
        ),
;

/// Relies on `HistoryBuffer::get`: the byte at an absolute index, present
/// while the ring still holds it.
pub assume_specification[ HistoryBuffer::get ](h: &HistoryBuffer, index: usize) -> (r: Option<u8>)
    ensures
        r == if history_start(*h) <= index < history_total(*h) {
            Some(history_bytes(*h)[index - history_start(*h)])
        } else {
            None::<u8>
        },
;

/// The index of the newest byte of `h`, 0 when nothing was added, and the
/// running count when the ring holds nothing.
pub open spec fn last_index(h: HistoryBuffer) -> int {
    if history_total(h) == 0 {
        0
    } else if history_bytes(h).len() == 0 {
        history_total(h) as int
    } else {
        history_total(h) - 1
    }
}

/// Relies on `HistoryBuffer::get_last_index`: the index of the newest byte,
/// or 0 when nothing was added.
pub assume_specification[ HistoryBuffer::get_last_index ](h: &HistoryBuffer) -> (r: usize)
    ensures
        r as int == last_index(*h),
;

/// Relies on `HistoryBuffer::get_recent`: the newest `max_len` bytes that
/// the ring holds, oldest first.
pub assume_specification[ HistoryBuffer::get_recent ](h: &HistoryBuffer, max_len: usize) -> (r:
    Vec<u8>)
    ensures
        r@ == if max_len >= history_bytes(*h).len() {
            history_bytes(*h)
        } else {
            history_bytes(*h).subrange(
                history_bytes(*h).len() - max_len,
                history_bytes(*h).len() as int,
            )
        },
;

} // verus!
