//! Properties that relate several operations of the engine.
use vstd::prelude::*;

use crate::fault::with_stuck_bits;
use crate::flash::FlashView;

verus! {

proof fn lemma_stuck_bits_idempotent(b: u8, high: u8, low: u8)
    ensures
        with_stuck_bits(with_stuck_bits(b, high, low), high, low) == with_stuck_bits(b, high, low),
{
    assert((((b | high) & !low) | high) & !low == (b | high) & !low) by (bit_vector);
}

/// Writing `bytes` at `offset` and then reading the same range back yields,
/// for each byte, the written byte AND the byte stored before, with the bits
/// that were stuck at the time of the write forced to their stuck value.
pub proof fn lemma_write_then_read<O: Clone>(
    before: FlashView<O>,
    written: FlashView<O>,
    after: FlashView<O>,
    offset: u32,
    bytes: Seq<u8>,
    out: Seq<u8>,
)
    requires
        offset + bytes.len() <= before.data.len(),
        before.write_effect(written, offset, bytes),
        written.read_effect(after, offset, out),
        out.len() == bytes.len(),
    ensures
        forall|k: int|
            0 <= k < bytes.len() ==> #[trigger] out[k] == with_stuck_bits(
                bytes[k] & before.data[offset + k],
                before.stuck_at_1[offset + k],
                before.stuck_at_0[offset + k],
            ),
{
    assert forall|k: int| 0 <= k < bytes.len() implies #[trigger] out[k] == with_stuck_bits(
        bytes[k] & before.data[offset + k],
        before.stuck_at_1[offset + k],
        before.stuck_at_0[offset + k],
    ) by {
        let i = offset + k;
        let a = bytes[k];
        let d = before.data[i];
        let x = d & a;
        assert(a & d == d & a) by (bit_vector);
        assert(written.data[i] == with_stuck_bits(
            x,
            before.stuck_at_1[i],
            before.stuck_at_0[i],
        ));
        assert(out[k] == written.observed(i));
        lemma_stuck_bits_idempotent(x, before.stuck_at_1[i], before.stuck_at_0[i]);
    }
}

/// After an erase, every byte of the erased range reads as all ones except
/// for the bits stuck at 0; a byte with no bit stuck at 0 reads as `0xFF`.
pub proof fn lemma_erase_reads_ones<O: Clone>(
    before: FlashView<O>,
    after: FlashView<O>,
    from: u32,
    to: u32,
    page_size: int,
)
    requires
        to <= before.data.len(),
        before.erase_effect(after, from, to, page_size),
    ensures
        forall|i: int| from <= i < to ==> #[trigger] after.observed(i) == !after.stuck_at_0[i],
        forall|i: int| from <= i < to && after.stuck_at_0[i] == 0 ==> #[trigger] after.observed(i)
            == 0xFF,
{
    assert forall|i: int| from <= i < to implies #[trigger] after.observed(i)
        == !after.stuck_at_0[i] by {
        let low = after.stuck_at_0[i];
        let high = after.stuck_at_1[i];
        assert(after.data[i] == !low);
        assert((!low | high) & !low == !low) by (bit_vector);
    }
    assert(!0u8 == 0xFFu8) by (bit_vector);
}

/// A write never sets a bit: every bit that is 1 after a write was 1 before
/// it or is stuck at 1.
pub proof fn lemma_write_only_clears_bits<O: Clone>(
    before: FlashView<O>,
    after: FlashView<O>,
    offset: u32,
    bytes: Seq<u8>,
)
    requires
        before.write_effect(after, offset, bytes),
    ensures
        forall|i: int|
            0 <= i < before.data.len() ==> #[trigger] after.data[i] & !before.data[i]
                & !before.stuck_at_1[i] == 0,
{
    assert forall|i: int| 0 <= i < before.data.len() implies #[trigger] after.data[i]
        & !before.data[i] & !before.stuck_at_1[i] == 0 by {
        let d = before.data[i];
        let h = before.stuck_at_1[i];
        let l = before.stuck_at_0[i];
        if offset <= i < offset + bytes.len() {
            let b = bytes[i - offset];
            assert(after.data[i] == with_stuck_bits(d & b, h, l));
            assert(((d & b) | h) & !l & !d & !h == 0) by (bit_vector);
        } else {
            assert(d & !d & !h == 0) by (bit_vector);
        }
    }
}

/// Writing the same bytes to the same place a second time, with no erase in
/// between, leaves the contents as the first write left them; a multi-step
/// write that was interrupted can be replayed.
pub proof fn lemma_write_replay_is_idempotent<O: Clone>(
    first: FlashView<O>,
    second: FlashView<O>,
    third: FlashView<O>,
    offset: u32,
    bytes: Seq<u8>,
)
    requires
        first.write_effect(second, offset, bytes),
        second.write_effect(third, offset, bytes),
    ensures
        third.data == second.data,
{
    assert forall|i: int| 0 <= i < second.data.len() implies #[trigger] third.data[i]
        == second.data[i] by {
        if offset <= i < offset + bytes.len() {
            let d = first.data[i];
            let b = bytes[i - offset];
            let h = first.stuck_at_1[i];
            let l = first.stuck_at_0[i];
            assert(((((((d & b) | h) & !l) & b) | h) & !l) == ((d & b) | h) & !l)
                by (bit_vector);
        }
    }
    assert(third.data =~= second.data);
}

} // verus!
