//! The wear-out fault model: stuck bits injected once a page has been
//! erased more often than it safely can be.
use vstd::prelude::*;

use rand::rngs::SmallRng;
use rand::{Rng, SeedableRng};

verus! {

#[verifier::external_type_specification]
#[verifier::external_body]
pub struct ExSmallRng(rand::rngs::SmallRng);

/// Relies on `SeedableRng::seed_from_u64` for `SmallRng`: a generator whose
/// output is fixed by the seed.
#[verifier::external_body]
pub(crate) fn rng_from_seed(seed: u64) -> SmallRng {
    SmallRng::seed_from_u64(seed)
}

/// Relies on `SeedableRng::from_os_rng` for `SmallRng`: a generator seeded
/// from the operating system's entropy source (which panics only if that
/// source fails).
#[verifier::external_body]
pub(crate) fn rng_from_os() -> SmallRng {
    SmallRng::from_os_rng()
}

/// Relies on `Rng::random_range` over `0..bound`, which returns a value in
/// the range and panics only on an empty one.
#[verifier::external_body]
pub(crate) fn random_below(rng: &mut SmallRng, bound: usize) -> (r: usize)
    requires
        bound > 0,
    ensures
        r < bound,
{
    rng.random_range(0..bound)
}

/// Relies on `Rng::random::<bool>`: a fair coin.
#[verifier::external_body]
pub(crate) fn random_flag(rng: &mut SmallRng) -> bool {
    rng.random::<bool>()
}

/// The byte `b` as the device delivers it: bits stuck high forced to 1,
/// bits stuck low forced to 0.
pub open spec fn with_stuck_bits(b: u8, high: u8, low: u8) -> u8 {
    (b | high) & !low
}

/// The mask with only bit `bit` set.
pub open spec fn bit_mask(bit: int) -> u8 {
    1u8 << (bit as u8)
}

/// `mask` with bit `bit` set (`set`) or cleared (`!set`).
pub open spec fn mark_bit(mask: u8, bit: int, set: bool) -> u8 {
    if set {
        mask | bit_mask(bit)
    } else {
        mask & !bit_mask(bit)
    }
}

/// No bit is stuck both high and low.
pub open spec fn masks_disjoint(high: Seq<u8>, low: Seq<u8>) -> bool {
    &&& high.len() == low.len()
    &&& forall|i: int| 0 <= i < high.len() ==> #[trigger] high[i] & low[i] == 0
}

/// Whether a page whose erase count has just become `cycles` gets a new
/// fault: past `safe` cycles, every `period` cycles.
pub open spec fn fault_due(cycles: int, safe: int, period: int) -> bool {
    cycles > safe && (cycles - safe) % period == 0
}

/// The masks `(high2, low2)` are `(high, low)` with one new stuck bit: at
/// some byte and bit, stuck high or stuck low, and no longer stuck the
/// other way.
pub open spec fn one_new_fault(high: Seq<u8>, low: Seq<u8>, high2: Seq<u8>, low2: Seq<u8>) -> bool {
    exists|off: int, bit: int, stuck_high: bool|
        0 <= off < high.len() && 0 <= bit < 8 && high2 == high.update(
            off,
            #[trigger] mark_bit(high[off], bit, stuck_high),
        ) && low2 == low.update(off, mark_bit(low[off], bit, !stuck_high))
}

/// What an erase does to the masks of the page at `[start, start + size)`:
/// one new fault when one is due, nothing otherwise.
pub open spec fn page_masks_after_erase(
    high: Seq<u8>,
    low: Seq<u8>,
    high2: Seq<u8>,
    low2: Seq<u8>,
    start: int,
    size: int,
    due: bool,
) -> bool {
    let h = high.subrange(start, start + size);
    let l = low.subrange(start, start + size);
    let h2 = high2.subrange(start, start + size);
    let l2 = low2.subrange(start, start + size);
    if due {
        one_new_fault(h, l, h2, l2)
    } else {
        h2 == h && l2 == l
    }
}

proof fn lemma_mark_keeps_disjoint(a: u8, b: u8, bit: u8)
    requires
        a & b == 0,
        bit < 8,
    ensures
        (a | (1u8 << bit)) & (b & !(1u8 << bit)) == 0,
        (a & !(1u8 << bit)) & (b | (1u8 << bit)) == 0,
{
    assert((a | (1u8 << bit)) & (b & !(1u8 << bit)) == 0) by (bit_vector)
        requires
            a & b == 0,
            bit < 8,
    ;
    assert((a & !(1u8 << bit)) & (b | (1u8 << bit)) == 0) by (bit_vector)
        requires
            a & b == 0,
            bit < 8,
    ;
}

/// Makes bit `bit` of byte `index` stuck high (`stuck_high`) or stuck low,
/// and no longer stuck the other way.
pub(crate) fn inject_fault(
    high: &mut Vec<u8>,
    low: &mut Vec<u8>,
    index: usize,
    bit: usize,
    stuck_high: bool,
)
    requires
        masks_disjoint(old(high)@, old(low)@),
        index < old(high)@.len(),
        bit < 8,
    ensures
        masks_disjoint(final(high)@, final(low)@),
        final(high)@ == old(high)@.update(
            index as int,
            mark_bit(old(high)@[index as int], bit as int, stuck_high),
        ),
        final(low)@ == old(low)@.update(
            index as int,
            mark_bit(old(low)@[index as int], bit as int, !stuck_high),
        ),
{
    let mask: u8 = 1u8 << (bit as u8);
    let h = high[index];
    let l = low[index];
    proof {
        assert(h & l == 0);
        lemma_mark_keeps_disjoint(h, l, bit as u8);
    }
    if stuck_high {
        high.set(index, h | mask);
        low.set(index, l & !mask);
    } else {
        high.set(index, h & !mask);
        low.set(index, l | mask);
    }
    proof {
        assert forall|i: int| 0 <= i < high@.len() implies #[trigger] high@[i] & low@[i] == 0 by {
            if i != index {
                assert(old(high)@[i] & old(low)@[i] == 0);
            }
        }
    }
}

/// The erase counts after one more erase of each page in `[first, end)`.
pub open spec fn cycles_after_erase(cycles: Seq<u32>, first: int, end: int) -> Seq<u32> {
    Seq::new(
        cycles.len(),
        |q: int|
            if first <= q < end {
                (cycles[q] + 1) as u32
            } else {
                cycles[q]
            },
    )
}

/// The masks of every byte outside `[lo, hi)` are unchanged.
pub open spec fn masks_unchanged_outside(
    high: Seq<u8>,
    low: Seq<u8>,
    high2: Seq<u8>,
    low2: Seq<u8>,
    lo: int,
    hi: int,
) -> bool {
    &&& high2.len() == high.len()
    &&& low2.len() == low.len()
    &&& forall|i: int| 0 <= i < high.len() && !(lo <= i < hi) ==> #[trigger] high2[i] == high[i]
    &&& forall|i: int| 0 <= i < low.len() && !(lo <= i < hi) ==> #[trigger] low2[i] == low[i]
}

proof fn lemma_page_bounds(q: int, p: int, size: int)
    requires
        0 <= q < p,
        size > 0,
    ensures
        q * size + size <= p * size,
        0 <= q * size,
{
    assert(q * size + size <= p * size) by (nonlinear_arith)
        requires
            0 <= q < p,
            size > 0,
    ;
    assert(0 <= q * size) by (nonlinear_arith)
        requires
            0 <= q,
            size > 0,
    ;
}

/// Counts one more erase of each page in `[first, end)` and injects the
/// faults that fall due, drawing each fault's place from `rng`.
pub(crate) fn wear_pages(
    cycles: &mut Vec<u32>,
    high: &mut Vec<u8>,
    low: &mut Vec<u8>,
    rng: &mut SmallRng,
    first: usize,
    end: usize,
    page_size: usize,
    safe: u32,
    period: u32,
)
    requires
        masks_disjoint(old(high)@, old(low)@),
        page_size > 0,
        period > 0,
        first <= end <= old(cycles)@.len(),
        end * page_size <= old(high)@.len(),
        forall|q: int| first <= q < end ==> #[trigger] old(cycles)@[q] < u32::MAX,
    ensures
        masks_disjoint(final(high)@, final(low)@),
        final(cycles)@ == cycles_after_erase(old(cycles)@, first as int, end as int),
        masks_unchanged_outside(
            old(high)@,
            old(low)@,
            final(high)@,
            final(low)@,
            first * page_size,
            end * page_size,
        ),
        forall|q: int|
            first <= q < end ==> #[trigger] page_masks_after_erase(
                old(high)@,
                old(low)@,
                final(high)@,
                final(low)@,
                q * page_size,
                page_size as int,
                fault_due(final(cycles)@[q] as int, safe as int, period as int),
            ),
{
    let ghost h0 = high@;
    let ghost l0 = low@;
    let ghost c0 = cycles@;
    let ghost ps = page_size as int;
    let mut p = first;
    assert(high@.len() == high.len());
    assert(p * page_size <= end * page_size) by (nonlinear_arith)
        requires
            p <= end,
            page_size > 0,
    ;
    let mut start = p * page_size;
    while p < end
        invariant
            first <= p <= end,
            start == p * ps,
            ps == page_size as int,
            end * ps <= h0.len(),
            h0.len() <= usize::MAX,
            ps > 0,
            period > 0,
            h0.len() == l0.len(),
            masks_disjoint(high@, low@),
            cycles@.len() == c0.len(),
            end <= c0.len(),
            forall|q: int| first <= q < end ==> #[trigger] c0[q] < u32::MAX,
            forall|q: int|
                0 <= q < c0.len() ==> #[trigger] cycles@[q] == if first <= q < p {
                    (c0[q] + 1) as u32
                } else {
                    c0[q]
                },
            masks_unchanged_outside(h0, l0, high@, low@, first * ps, p * ps),
            forall|q: int|
                first <= q < p ==> #[trigger] page_masks_after_erase(
                    h0,
                    l0,
                    high@,
                    low@,
                    q * ps,
                    ps,
                    fault_due(cycles@[q] as int, safe as int, period as int),
                ),
        decreases end - p,
    {
        let ghost hp = high@;
        let ghost lp = low@;
        proof {
            lemma_page_bounds(p as int, end as int, ps);
            assert(first * ps <= p * ps) by (nonlinear_arith)
                requires
                    first <= p,
                    ps > 0,
            ;
        }
        let count = cycles[p] + 1;
        cycles.set(p, count);
        if count > safe && (count - safe) % period == 0 {
            let off = random_below(rng, page_size);
            let stuck_high = random_flag(rng);
            let bit = random_below(rng, 8);
            let index = start + off;
            inject_fault(high, low, index, bit, stuck_high);
            proof {
                let h = h0.subrange(start as int, start + ps);
                let l = l0.subrange(start as int, start + ps);
                assert(h[off as int] == h0[index as int]);
                assert(l[off as int] == l0[index as int]);
                assert(high@.subrange(start as int, start + ps) =~= h.update(
                    off as int,
                    mark_bit(h[off as int], bit as int, stuck_high),
                ));
                assert(low@.subrange(start as int, start + ps) =~= l.update(
                    off as int,
                    mark_bit(l[off as int], bit as int, !stuck_high),
                ));
            }
        } else {
            proof {
                assert(high@.subrange(start as int, start + ps) =~= h0.subrange(
                    start as int,
                    start + ps,
                ));
                assert(low@.subrange(start as int, start + ps) =~= l0.subrange(
                    start as int,
                    start + ps,
                ));
            }
        }
        proof {
            assert forall|q: int| first <= q < p implies #[trigger] page_masks_after_erase(
                h0,
                l0,
                high@,
                low@,
                q * ps,
                ps,
                fault_due(cycles@[q] as int, safe as int, period as int),
            ) by {
                lemma_page_bounds(q, p as int, ps);
                assert(high@.subrange(q * ps, q * ps + ps) =~= hp.subrange(q * ps, q * ps + ps));
                assert(low@.subrange(q * ps, q * ps + ps) =~= lp.subrange(q * ps, q * ps + ps));
                assert(page_masks_after_erase(
                    h0,
                    l0,
                    hp,
                    lp,
                    q * ps,
                    ps,
                    fault_due(cycles@[q] as int, safe as int, period as int),
                ));
            }
            assert((p + 1) * ps == p * ps + ps) by (nonlinear_arith);
        }
        p = p + 1;
        start = start + page_size;
    }
    proof {
        assert(cycles@ =~= cycles_after_erase(c0, first as int, end as int));
    }
}

} // verus!
