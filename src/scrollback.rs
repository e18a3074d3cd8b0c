//! Paging through the scrollback history in the print pane.
use vstd::prelude::*;
use historybuffer::HistoryBuffer;
use crate::editor::Editor;
use crate::history::{history_bytes, history_start, history_total, newest};
use crate::render::{same_edit_state, written};
use crate::term::{ClearKind, TermOp, WriteHistoryType};

verus! {

/// Scanning the history forward from absolute index `from`, `k` bytes
/// already taken, `linecnt` cells left on the current row and `lines` rows
/// filled: a row ends at a newline or when it is full (the first row holds
/// `sizex` bytes, the others `sizex - 1`), and the scan stops after `pl`
/// rows or at the end of the history. The bytes taken and the rows filled.
pub open spec fn fwd_scan(
    h: HistoryBuffer,
    from: int,
    k: int,
    linecnt: int,
    lines: int,
    sizex: int,
    pl: int,
) -> (int, int)
    decreases history_total(h) - (from + k),
{
    let i = from + k;
    if history_start(h) <= i < history_total(h) && i < usize::MAX {
        let ch = history_bytes(h)[i - history_start(h)];
        if ch == 10u8 || linecnt - 1 == 0 {
            if lines + 1 >= pl {
                (k + 1, lines + 1)
            } else {
                fwd_scan(h, from, k + 1, sizex - 1, lines + 1, sizex, pl)
            }
        } else {
            fwd_scan(h, from, k + 1, linecnt - 1, lines, sizex, pl)
        }
    } else {
        (k, lines)
    }
}

/// Scanning the history backward from absolute index `idx` with the same
/// row rule: the index where the scan stops, and whether the byte there
/// was taken. It stops after `pl` rows, at index 0, or before the oldest
/// byte held.
pub open spec fn back_scan(
    h: HistoryBuffer,
    idx: int,
    linecnt: int,
    lines: int,
    sizex: int,
    pl: int,
) -> (int, bool)
    decreases idx,
{
    if history_start(h) <= idx < history_total(h) && idx >= 0 {
        let ch = history_bytes(h)[idx - history_start(h)];
        let ends = ch == 10u8 || linecnt - 1 == 0;
        let full = ends && lines + 1 >= pl;
        if full || idx == 0 {
            (idx, true)
        } else if ends {
            back_scan(h, idx - 1, sizex - 1, lines + 1, sizex, pl)
        } else {
            back_scan(h, idx - 1, linecnt - 1, lines, sizex, pl)
        }
    } else {
        (idx, false)
    }
}

impl Editor {
    /// The history bytes at absolute indices `lo..hi`, none when `hi <= lo`.
    pub open spec fn history_range(&self, lo: int, hi: int) -> Seq<u8> {
        if lo < hi {
            history_bytes(self.histbuf).subrange(
                lo - history_start(self.histbuf),
                hi - history_start(self.histbuf),
            )
        } else {
            Seq::empty()
        }
    }

    /// The number of bytes in a full print pane, `printlines * sizex`.
    pub open spec fn page_len(&self) -> nat {
        if self.printlines * self.sizex <= usize::MAX {
            (self.printlines * self.sizex) as nat
        } else {
            usize::MAX as nat
        }
    }

    /// Gathers history bytes forward from absolute index `from` until
    /// `printlines` lines are filled (a line ends at a newline or when the
    /// row is full) or the history ends. Returns the bytes and the number of
    /// lines filled.
    fn gather_forward(&self, from: usize) -> (r: (Vec<u8>, u16))
        requires
            self.wf(),
        ensures
            r.1 <= self.printlines,
            r.1 <= r.0@.len(),
            (r.0@.len() as int, r.1 as int) == fwd_scan(
                self.histbuf,
                from as int,
                0,
                self.sizex as int,
                0,
                self.sizex as int,
                self.printlines as int,
            ),
            from + r.0@.len() <= usize::MAX,
            r.0@.len() > 0 ==> history_start(self.histbuf) <= from && from + r.0@.len()
                <= history_total(self.histbuf),
            forall|k: int|
                0 <= k < r.0@.len() ==> r.0@[k] == history_bytes(self.histbuf)[from + k
                    - history_start(self.histbuf)],
    {
        let sizex = self.sizex;
        let mut linecnt: u16 = sizex;
        let mut num_lines: u16 = 0;
        let mut buf: Vec<u8> = Vec::new();
        let ghost target = fwd_scan(
            self.histbuf,
            from as int,
            0,
            sizex as int,
            0,
            sizex as int,
            self.printlines as int,
        );
        loop
            invariant_except_break
                num_lines < self.printlines,
                fwd_scan(
                    self.histbuf,
                    from as int,
                    buf@.len() as int,
                    linecnt as int,
                    num_lines as int,
                    sizex as int,
                    self.printlines as int,
                ) == target,
            invariant
                self.wf(),
                sizex == self.sizex,
                target == fwd_scan(
                    self.histbuf,
                    from as int,
                    0,
                    sizex as int,
                    0,
                    sizex as int,
                    self.printlines as int,
                ),
                1 <= linecnt <= sizex,
                num_lines <= self.printlines,
                num_lines <= buf@.len(),
                from + buf@.len() <= usize::MAX,
                buf@.len() > 0 ==> history_start(self.histbuf) <= from && from + buf@.len()
                    <= history_total(self.histbuf),
                forall|k: int|
                    0 <= k < buf@.len() ==> buf@[k] == history_bytes(self.histbuf)[from + k
                        - history_start(self.histbuf)],
            ensures
                (buf@.len() as int, num_lines as int) == target,
            decreases usize::MAX - (from + buf@.len()),
        {
            if from + buf.len() == usize::MAX {
                break;
            }
            match self.histbuf.get(from + buf.len()) {
                Some(ch) => {
                    buf.push(ch);
                    linecnt = linecnt - 1;
                    if ch == 10u8 || linecnt == 0 {
                        linecnt = sizex - 1;
                        num_lines = num_lines + 1;
                        if num_lines >= self.printlines {
                            break;
                        }
                    }
                },
                None => {
                    break;
                },
            }
        }
        (buf, num_lines)
    }

    /// Shows a page of the scrollback history in the print pane.
    ///
    /// `PageUp` walks back from `hb_start_index` until `printlines` lines
    /// are filled; at the oldest byte it shows the first full page instead.
    /// `PageDown` shows the page that starts at `hb_end_index`, and when
    /// that page is not full it leaves the history and shows the newest
    /// bytes. `Quit` leaves the history and shows the newest bytes.
    pub fn writehistory(&mut self, kind: WriteHistoryType)
        requires
            old(self).wf(),
        ensures
            final(self).wf(),
            old(self).out@.len() + 2 <= final(self).out@.len(),
            final(self).out@.subrange(0, old(self).out@.len() as int) == old(self).out@,
            final(self).out@[old(self).out@.len() as int] == TermOp::MoveTo(0, 0),
            final(self).out@[old(self).out@.len() + 1int] == TermOp::Clear(ClearKind::All),
            same_edit_state(*old(self), *final(self)),
            final(self).histbuf == old(self).histbuf,
            kind == WriteHistoryType::Quit ==> !final(self).hb_active,
            kind == WriteHistoryType::Quit ==> written(final(self).out@) == written(old(self).out@)
                + newest(history_bytes(old(self).histbuf), old(self).page_len()),
            kind == WriteHistoryType::PageDown ==> ({
                let g = fwd_scan(
                    old(self).histbuf,
                    old(self).hb_end_index as int,
                    0,
                    old(self).sizex as int,
                    0,
                    old(self).sizex as int,
                    old(self).printlines as int,
                );
                &&& final(self).hb_start_index == old(self).hb_end_index
                &&& final(self).hb_end_index == old(self).hb_end_index + g.0
                &&& g.1 < old(self).printlines ==> !final(self).hb_active && written(
                    final(self).out@,
                ) == written(old(self).out@) + newest(
                    history_bytes(old(self).histbuf),
                    old(self).page_len(),
                )
                &&& g.1 >= old(self).printlines ==> final(self).hb_active == old(self).hb_active
                    && written(final(self).out@) == written(old(self).out@) + old(
                    self,
                ).history_range(
                    final(self).hb_start_index as int,
                    final(self).hb_end_index as int,
                )
            }),
            kind == WriteHistoryType::PageUp ==> final(self).hb_active == old(self).hb_active,
            kind == WriteHistoryType::PageUp ==> ({
                let bs = back_scan(
                    old(self).histbuf,
                    old(self).hb_start_index as int,
                    old(self).sizex as int,
                    0,
                    old(self).sizex as int,
                    old(self).printlines as int,
                );
                let first = fwd_scan(
                    old(self).histbuf,
                    0,
                    0,
                    old(self).sizex as int,
                    0,
                    old(self).sizex as int,
                    old(self).printlines as int,
                );
                &&& final(self).hb_start_index == bs.0
                &&& bs.0 == 0 ==> final(self).hb_end_index == first.0 && written(
                    final(self).out@,
                ) == written(old(self).out@) + old(self).history_range(0, first.0)
                &&& bs.0 > 0 ==> final(self).hb_end_index == old(self).hb_start_index && written(
                    final(self).out@,
                ) == written(old(self).out@) + old(self).history_range(
                    if bs.1 {
                        bs.0
                    } else {
                        bs.0 + 1
                    },
                    old(self).hb_start_index + 1,
                )
            }),
    {
        self.emit(TermOp::MoveTo(0, 0));
        self.emit(TermOp::Clear(ClearKind::All));
        let ghost w0 = written(self.out@);
        let ghost o2 = self.out@;
        assert(w0 == written(old(self).out@));
        assert(o2.subrange(0, old(self).out@.len() as int) =~= old(self).out@);
        self.printx = 0;
        self.printy = 0;
        let page: usize = match (self.printlines as usize).checked_mul(self.sizex as usize) {
            Some(p) => p,
            None => usize::MAX,
        };
        match kind {
            WriteHistoryType::PageDown => {
                self.hb_start_index = self.hb_end_index;
                let (buf, num_lines) = self.gather_forward(self.hb_start_index);
                self.hb_end_index = self.hb_start_index + buf.len();
                if num_lines < self.printlines {
                    let recent = self.histbuf.get_recent(page);
                    self.writebuf(recent.as_slice());
                    self.hb_active = false;
                } else {
                    proof {
                        assert(buf@ =~= history_bytes(self.histbuf).subrange(
                            self.hb_start_index - history_start(self.histbuf),
                            self.hb_end_index - history_start(self.histbuf),
                        ));
                    }
                    self.writebuf(buf.as_slice());
                }
            },
            WriteHistoryType::PageUp => {
                self.hb_end_index = self.hb_start_index;
                let sizex = self.sizex;
                let mut linecnt: u16 = sizex;
                let mut num_lines: u16 = 0;
                let mut buf: Vec<u8> = Vec::new();
                let ghost start0 = self.hb_start_index;
                let ghost out_e = self.out@;
                let ghost bs = back_scan(
                    self.histbuf,
                    start0 as int,
                    sizex as int,
                    0,
                    sizex as int,
                    self.printlines as int,
                );
                loop
                    invariant_except_break
                        num_lines < self.printlines,
                        buf@.len() == start0 - self.hb_start_index,
                        buf@.len() > 0 ==> history_start(self.histbuf) <= self.hb_start_index + 1
                            && start0 < history_total(self.histbuf),
                        back_scan(
                            self.histbuf,
                            self.hb_start_index as int,
                            linecnt as int,
                            num_lines as int,
                            sizex as int,
                            self.printlines as int,
                        ) == bs,
                    invariant
                        self.wf(),
                        same_edit_state(*old(self), *self),
                        self.histbuf == old(self).histbuf,
                        self.hb_active == old(self).hb_active,
                        self.hb_start_index <= start0 == old(self).hb_start_index,
                        self.hb_end_index == start0,
                        bs == back_scan(
                            self.histbuf,
                            start0 as int,
                            sizex as int,
                            0,
                            sizex as int,
                            self.printlines as int,
                        ),
                        self.out@ == out_e,
                        written(out_e) == written(old(self).out@),
                        sizex == self.sizex,
                        1 <= linecnt <= sizex,
                        num_lines <= self.printlines,
                        forall|k: int|
                            0 <= k < buf@.len() ==> buf@[k] == history_bytes(self.histbuf)[start0
                                - k - history_start(self.histbuf)],
                    ensures
                        forall|k: int|
                            0 <= k < buf@.len() ==> buf@[k] == history_bytes(self.histbuf)[start0
                                - k - history_start(self.histbuf)],
                        buf@.len() > 0 ==> start0 < history_total(self.histbuf)
                            && history_start(self.histbuf) <= start0 + 1 - buf@.len(),
                        self.hb_start_index <= start0 + 1 - buf@.len(),
                        buf@.len() <= start0 + 1,
                        self.hb_start_index == bs.0,
                        bs.1 ==> buf@.len() == start0 + 1 - self.hb_start_index,
                        !bs.1 ==> buf@.len() == start0 - self.hb_start_index,
                    decreases self.hb_start_index,
                {
                    match self.histbuf.get(self.hb_start_index) {
                        Some(ch) => {
                            buf.push(ch);
                            linecnt = linecnt - 1;
                            if ch == 10u8 || linecnt == 0 {
                                linecnt = sizex - 1;
                                num_lines = num_lines + 1;
                                if num_lines >= self.printlines {
                                    break;
                                }
                            }
                            if self.hb_start_index == 0 {
                                break;
                            }
                            self.hb_start_index = self.hb_start_index - 1;
                        },
                        None => {
                            break;
                        },
                    }
                }
                let mut revbuf: Vec<u8>;
                if self.hb_start_index == 0 {
                    let (first, _) = self.gather_forward(0);
                    self.hb_end_index = first.len();
                    proof {
                        assert(first@ =~= self.history_range(0, first@.len() as int));
                    }
                    revbuf = first;
                } else {
                    revbuf = Vec::new();
                    let mut k: usize = buf.len();
                    while k > 0
                        invariant
                            k <= buf@.len(),
                            revbuf@.len() == buf@.len() - k,
                            forall|j: int|
                                0 <= j < revbuf@.len() ==> revbuf@[j] == buf@[buf@.len() - 1 - j],
                        decreases k,
                    {
                        k = k - 1;
                        revbuf.push(buf[k]);
                    }
                    proof {
                        let lo = start0 + 1 - buf@.len();
                        assert(revbuf@ =~= self.history_range(lo, start0 + 1));
                        assert(written(old(self).out@) + old(self).history_range(lo, start0 + 1)
                            == written(old(self).out@) + revbuf@);
                    }
                }
                self.writebuf(revbuf.as_slice());
            },
            WriteHistoryType::Quit => {
                let recent = self.histbuf.get_recent(page);
                self.writebuf(recent.as_slice());
                self.hb_active = false;
            },
        }
        proof {
            let kept = self.out@.subrange(0, o2.len() as int);
            assert(kept =~= o2);
            assert(self.out@[old(self).out@.len() as int] == kept[old(self).out@.len() as int]);
            assert(self.out@[old(self).out@.len() + 1int] == kept[old(self).out@.len() + 1int]);
            assert(self.out@.subrange(0, old(self).out@.len() as int) =~= o2.subrange(
                0,
                old(self).out@.len() as int,
            ));
        }
    }
}

} // verus!
