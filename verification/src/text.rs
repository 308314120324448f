use vstd::prelude::*;
use crate::addr::Ipv6Address;

verus! {

/// The ASCII colon, the separator of the textual form.
pub const COLON: u8 = 58;

/// The ASCII byte of one hexadecimal digit value, lower case.
pub open spec fn spec_hex_digit(d: u8) -> u8
    recommends
        d < 16,
{
    if d < 10 {
        (48 + d) as u8
    } else {
        (87 + d) as u8
    }
}

/// One group in lower-case hexadecimal without leading zeros.
pub open spec fn spec_group_hex(s: u16) -> Seq<u8>
    decreases s,
{
    if s < 16 {
        seq![spec_hex_digit(s as u8)]
    } else {
        spec_group_hex((s / 16) as u16) + seq![spec_hex_digit((s % 16) as u8)]
    }
}

/// Groups joined with single colons; empty for no groups.
pub open spec fn spec_join_groups(segs: Seq<u16>) -> Seq<u8>
    decreases segs.len(),
{
    if segs.len() == 0 {
        Seq::empty()
    } else if segs.len() == 1 {
        spec_group_hex(segs[0])
    } else {
        spec_join_groups(segs.drop_last()) + seq![COLON] + spec_group_hex(segs.last())
    }
}

/// The groups in `[start, start + len)` exist and are all zero.
pub open spec fn is_zero_run(segs: Seq<u16>, start: int, len: int) -> bool {
    0 <= start && 0 <= len && start + len <= segs.len() && (forall|j: int|
        start <= j < start + len ==> segs[j] == 0)
}

/// `[start, start + len)` is the longest zero run, and the leftmost one of
/// that length. This pins the run down uniquely.
pub open spec fn is_best_zero_run(segs: Seq<u16>, start: int, len: int) -> bool {
    is_zero_run(segs, start, len) && (forall|s: int, l: int|
        is_zero_run(segs, s, l) ==> l <= len) && (forall|s: int|
        is_zero_run(segs, s, len) ==> start <= s)
}

/// The leftmost longest zero run of a group sequence.
pub open spec fn spec_best_run(segs: Seq<u16>) -> (int, int) {
    choose|p: (int, int)| is_best_zero_run(segs, p.0, p.1)
}

/// Two leftmost-longest zero runs of one sequence are the same run.
pub proof fn lemma_best_zero_run_unique(segs: Seq<u16>, s1: int, l1: int, s2: int, l2: int)
    requires
        is_best_zero_run(segs, s1, l1),
        is_best_zero_run(segs, s2, l2),
    ensures
        s1 == s2,
        l1 == l2,
{
    assert(is_zero_run(segs, s1, l1));
    assert(is_zero_run(segs, s2, l2));
}

/// The canonical colon-hexadecimal text of an address: the eight groups in
/// lower-case hexadecimal without leading zeros, joined with colons, with the
/// leftmost longest run of two or more zero groups compressed to `::`.
pub open spec fn spec_canonical_text(a: Ipv6Address) -> Seq<u8> {
    let segs = a.segs();
    let p = spec_best_run(segs);
    if p.1 < 2 {
        spec_join_groups(segs)
    } else {
        spec_join_groups(segs.subrange(0, p.0)) + seq![COLON, COLON] + spec_join_groups(
            segs.subrange(p.0 + p.1, segs.len() as int),
        )
    }
}

/// The ASCII byte of one hexadecimal digit value, lower case.
fn hex_digit(d: u8) -> (r: u8)
    requires
        d < 16,
    ensures
        r == spec_hex_digit(d),
{
    if d < 10 {
        48 + d
    } else {
        87 + d
    }
}

/// Appends one group in lower-case hexadecimal without leading zeros.
fn push_group_hex(s: u16, out: &mut Vec<u8>)
    ensures
        final(out)@ == old(out)@ + spec_group_hex(s),
    decreases s,
{
    if s >= 16 {
        push_group_hex(s / 16, out);
    }
    let d = hex_digit((s % 16) as u8);
    out.push(d);
    proof {
        assert(out@ =~= old(out)@ + spec_group_hex(s));
    }
}

impl Ipv6Address {
    /// The leftmost longest run of zero groups: its start and its length.
    pub fn best_zero_run(&self) -> (r: (usize, usize))
        ensures
            is_best_zero_run(self.segs(), r.0 as int, r.1 as int),
    {
        let mut best_start: usize = 0;
        let mut best_len: usize = 0;
        let mut cur_start: usize = 0;
        let mut cur_len: usize = 0;
        let mut i: usize = 0;
        while i < 8
            invariant
                i <= 8,
                cur_start + cur_len == i,
                is_zero_run(self.segs(), cur_start as int, cur_len as int),
                cur_start == 0 || self.segs()[cur_start - 1] != 0,
                is_zero_run(self.segs(), best_start as int, best_len as int),
                forall|s: int, l: int|
                    #[trigger] is_zero_run(self.segs(), s, l) && s + l <= i ==> l <= best_len,
                forall|s: int|
                    is_zero_run(self.segs(), s, best_len as int) && s + best_len <= i && best_len
                        > 0 ==> best_start <= s,
                best_len == 0 ==> best_start == 0,
                best_start <= cur_start,
            decreases 8 - i,
        {
            let ghost segs = self.segs();
            let ghost old_cs = cur_start as int;
            let ghost old_bs = best_start as int;
            let ghost old_bl = best_len as int;
            let g = self.segment(i);
            if g == 0 {
                cur_len = cur_len + 1;
                if cur_len > best_len {
                    best_start = cur_start;
                    best_len = cur_len;
                }
            } else {
                cur_start = i + 1;
                cur_len = 0;
            }
            i = i + 1;
            proof {
                assert forall|s: int, l: int|
                    #[trigger] is_zero_run(segs, s, l) && s + l <= i implies l
                    <= best_len as int by {
                    if s + l <= i - 1 {
                        // runs ending before this group were bounded already
                        assert(l <= old_bl);
                    } else if l > 0 {
                        // the run ends at this group, so this group is zero and
                        // the run cannot start before the current run does
                        assert(segs[i - 1] == 0);
                        if s < old_cs {
                            assert(segs[old_cs - 1] == 0);
                        }
                        assert(l <= i - old_cs);
                    }
                }
                assert forall|s: int|
                    is_zero_run(segs, s, best_len as int) && s + best_len <= i && best_len
                        > 0 implies best_start as int <= s by {
                    if s + best_len <= i - 1 {
                        if best_len as int == old_bl {
                            assert(old_bs <= s);
                        } else {
                            // the new best length was never reached before this group
                            assert(is_zero_run(segs, s, best_len as int) && s + best_len as int
                                <= i - 1 ==> best_len as int <= old_bl);
                            assert(false);
                        }
                    } else {
                        assert(segs[i - 1] == 0);
                        if s < old_cs {
                            assert(segs[old_cs - 1] == 0);
                        }
                    }
                }
            }
        }
        (best_start, best_len)
    }

    /// Appends the groups in `[from, to)` joined with single colons.
    fn push_groups(&self, from: usize, to: usize, out: &mut Vec<u8>)
        requires
            from <= to,
            to <= 8,
        ensures
            final(out)@ == old(out)@ + spec_join_groups(
                self.segs().subrange(from as int, to as int),
            ),
    {
        let mut k = from;
        while k < to
            invariant
                from <= k <= to <= 8,
                out@ == old(out)@ + spec_join_groups(self.segs().subrange(from as int, k as int)),
            decreases to - k,
        {
            if k > from {
                out.push(COLON);
            }
            push_group_hex(self.segment(k), out);
            k = k + 1;
            proof {
                let sub = self.segs().subrange(from as int, k as int);
                assert(sub.drop_last() =~= self.segs().subrange(from as int, k - 1));
                assert(sub.last() == self.segs()[k - 1]);
                assert(out@ =~= old(out)@ + spec_join_groups(sub));
            }
        }
    }

    /// The canonical colon-hexadecimal text of the address, as ASCII bytes:
    /// lower-case hexadecimal groups without leading zeros, the leftmost
    /// longest run of two or more zero groups compressed to `::`.
    pub fn canonical_text(&self) -> (r: Vec<u8>)
        ensures
            r@ == spec_canonical_text(*self),
    {
        let (bs, bl) = self.best_zero_run();
        proof {
            let w: (int, int) = (bs as int, bl as int);
            assert(is_best_zero_run(self.segs(), w.0, w.1));
            assert(exists|q: (int, int)| is_best_zero_run(self.segs(), q.0, q.1));
            let p = spec_best_run(self.segs());
            assert(is_best_zero_run(self.segs(), p.0, p.1));
            lemma_best_zero_run_unique(self.segs(), p.0, p.1, w.0, w.1);
        }
        let mut out: Vec<u8> = Vec::new();
        if bl < 2 {
            self.push_groups(0, 8, &mut out);
            proof {
                assert(self.segs().subrange(0, 8) =~= self.segs());
                assert(out@ =~= spec_canonical_text(*self));
            }
        } else {
            self.push_groups(0, bs, &mut out);
            out.push(COLON);
            out.push(COLON);
            self.push_groups(bs + bl, 8, &mut out);
            proof {
                assert(out@ =~= spec_canonical_text(*self));
            }
        }
        out
    }
}

} // verus!
