//! The flash-state engine.
use vstd::prelude::*;

use rand::rngs::SmallRng;

use crate::fault::{
    cycles_after_erase, fault_due, masks_disjoint, masks_unchanged_outside,
    page_masks_after_erase, rng_from_os, rng_from_seed, wear_pages, with_stuck_bits,
};
use crate::timing::FlashTimings;
use crate::transaction::{Transaction, TransactionLogLevel};

verus! {

/// The abstract state of a [`SimulatedNorFlash`].
pub struct FlashView<O> {
    /// The stored bytes.
    pub data: Seq<u8>,
    /// Per byte, the bits stuck at 1.
    pub stuck_at_1: Seq<u8>,
    /// Per byte, the bits stuck at 0.
    pub stuck_at_0: Seq<u8>,
    /// Per page, the erases since the counters were last cleared.
    pub page_cycles: Seq<u32>,
    pub bytes_read: nat,
    pub bytes_written: nat,
    pub bytes_erased: nat,
    pub read_accesses: nat,
    pub write_accesses: nat,
    pub erase_accesses: nat,
    /// Calls of `start_operation` since the counters were last cleared.
    pub total_operations: nat,
    pub log_level: TransactionLogLevel,
    pub transactions: Seq<Transaction<O>>,
    /// Erases a page takes before it starts to wear out.
    pub safe_erase_cycles: u32,
    /// Erases between two faults of a worn page.
    pub fault_period: u32,
    /// The tag attached to the records made from now on.
    pub current_operation: Option<O>,
}

/// `dst` is a clone of the tag `src`.
pub open spec fn tag_copied<O: Clone>(src: Option<O>, dst: Option<O>) -> bool {
    match src {
        Some(a) => dst is Some && cloned(a, dst->0),
        None => dst is None,
    }
}

impl<O: Clone> FlashView<O> {
    /// Accesses of every kind.
    pub open spec fn total_accesses(self) -> nat {
        self.read_accesses + self.write_accesses + self.erase_accesses
    }

    /// The byte at `i` as a read delivers it.
    pub open spec fn observed(self, i: int) -> u8 {
        with_stuck_bits(self.data[i], self.stuck_at_1[i], self.stuck_at_0[i])
    }

    /// The `len` bytes from `offset` as a read delivers them.
    pub open spec fn observed_range(self, offset: int, len: nat) -> Seq<u8> {
        Seq::new(len, |k: int| self.observed(offset + k))
    }

    /// The contents after programming `bytes` at `offset`: each byte is the
    /// old one AND the new one, with the stuck bits applied.
    pub open spec fn programmed(self, offset: int, bytes: Seq<u8>) -> Seq<u8> {
        Seq::new(
            self.data.len(),
            |i: int|
                if offset <= i < offset + bytes.len() {
                    with_stuck_bits(
                        self.data[i] & bytes[i - offset],
                        self.stuck_at_1[i],
                        self.stuck_at_0[i],
                    )
                } else {
                    self.data[i]
                },
        )
    }

    /// `after` holds one more record than `self`, tagged with a clone of the
    /// current tag.
    pub open spec fn logged_one(self, after: Self) -> bool {
        &&& after.transactions.len() == self.transactions.len() + 1
        &&& after.transactions.subrange(0, self.transactions.len() as int) == self.transactions
        &&& tag_copied(self.current_operation, after.transactions.last().tag())
    }

    /// A read of `out.len()` bytes at `offset` delivered `out` and took the
    /// state from `self` to `after`.
    pub open spec fn read_effect(self, after: Self, offset: u32, out: Seq<u8>) -> bool {
        &&& out == self.observed_range(offset as int, out.len())
        &&& self.logged_one(after)
        &&& after.transactions.last().is_read_record(self.log_level, offset, out.len() as usize, out)
        &&& after == (FlashView {
            transactions: after.transactions,
            bytes_read: self.bytes_read + out.len(),
            read_accesses: self.read_accesses + 1,
            ..self
        })
    }

    /// A write of `bytes` at `offset` took the state from `self` to `after`.
    pub open spec fn write_effect(self, after: Self, offset: u32, bytes: Seq<u8>) -> bool {
        &&& self.logged_one(after)
        &&& after.transactions.last().is_write_record(
            self.log_level,
            offset,
            bytes,
            after.data.subrange(offset as int, offset + bytes.len()),
        )
        &&& after == (FlashView {
            data: self.programmed(offset as int, bytes),
            transactions: after.transactions,
            bytes_written: self.bytes_written + bytes.len(),
            write_accesses: self.write_accesses + 1,
            ..self
        })
    }

    /// An erase of `[from, to)` on a device with pages of `page_size` bytes
    /// took the state from `self` to `after`: each page in the range counts
    /// one more erase and gets a new stuck bit when one is due, every byte of
    /// the range reads as all ones but for its bits stuck at 0, and the
    /// record keeps the contents from before.
    pub open spec fn erase_effect(self, after: Self, from: u32, to: u32, page_size: int) -> bool {
        let first = from as int / page_size;
        let end = to as int / page_size;
        &&& after.page_cycles == cycles_after_erase(self.page_cycles, first, end)
        &&& masks_unchanged_outside(
            self.stuck_at_1,
            self.stuck_at_0,
            after.stuck_at_1,
            after.stuck_at_0,
            from as int,
            to as int,
        )
        &&& forall|p: int|
            first <= p < end ==> #[trigger] page_masks_after_erase(
                self.stuck_at_1,
                self.stuck_at_0,
                after.stuck_at_1,
                after.stuck_at_0,
                p * page_size,
                page_size,
                fault_due(
                    after.page_cycles[p] as int,
                    self.safe_erase_cycles as int,
                    self.fault_period as int,
                ),
            )
        &&& self.logged_one(after)
        &&& after.transactions.last().is_erase_record(
            self.log_level,
            from,
            to,
            self.data.subrange(from as int, to as int),
        )
        &&& after == (FlashView {
            data: Seq::new(
                self.data.len(),
                |i: int|
                    if from <= i < to {
                        !after.stuck_at_0[i]
                    } else {
                        self.data[i]
                    },
            ),
            stuck_at_1: after.stuck_at_1,
            stuck_at_0: after.stuck_at_0,
            page_cycles: after.page_cycles,
            transactions: after.transactions,
            bytes_erased: self.bytes_erased + (to - from) as nat,
            erase_accesses: self.erase_accesses + 1,
            ..self
        })
    }
}

/// An in-memory NOR flash.
///
/// - `O`: the type of the tags that relate records to higher-level operations.
/// - `READ_SIZE`: alignment of reads in bytes.
/// - `WRITE_SIZE`: alignment of writes in bytes.
/// - `ERASE_SIZE`: size of an erase unit (a page) in bytes, which is also the
///   unit of wear tracking.
pub struct SimulatedNorFlash<
    O,
    const READ_SIZE: usize,
    const WRITE_SIZE: usize,
    const ERASE_SIZE: usize,
> {
    data: Vec<u8>,
    stuck_at_1_bits: Vec<u8>,
    stuck_at_0_bits: Vec<u8>,
    page_cycles: Vec<u32>,
    read: usize,
    written: usize,
    erased: usize,
    read_accesses: usize,
    write_accesses: usize,
    erase_accesses: usize,
    total_operations: usize,
    log_level: TransactionLogLevel,
    transactions: Vec<Transaction<O>>,
    rng: SmallRng,
    minimum_safe_erase_cycles: u32,
    bit_failure_every_x_erases: u32,
    current_operation: Option<O>,
}

impl<O, const RS: usize, const WS: usize, const ES: usize> View for SimulatedNorFlash<O, RS, WS, ES> {
    type V = FlashView<O>;

    closed spec fn view(&self) -> FlashView<O> {
        FlashView {
            data: self.data@,
            stuck_at_1: self.stuck_at_1_bits@,
            stuck_at_0: self.stuck_at_0_bits@,
            page_cycles: self.page_cycles@,
            bytes_read: self.read as nat,
            bytes_written: self.written as nat,
            bytes_erased: self.erased as nat,
            read_accesses: self.read_accesses as nat,
            write_accesses: self.write_accesses as nat,
            erase_accesses: self.erase_accesses as nat,
            total_operations: self.total_operations as nat,
            log_level: self.log_level,
            transactions: self.transactions@,
            safe_erase_cycles: self.minimum_safe_erase_cycles,
            fault_period: self.bit_failure_every_x_erases,
            current_operation: self.current_operation,
        }
    }
}

/// The state of a freshly built device of `size` bytes: erased, unworn, and
/// with every counter at zero.
pub open spec fn fresh_view<O>(
    size: nat,
    page_size: nat,
    safe_erase_cycles: u32,
    fault_period: u32,
    log_level: TransactionLogLevel,
) -> FlashView<O> {
    FlashView {
        data: Seq::new(size, |i: int| 0xFFu8),
        stuck_at_1: Seq::new(size, |i: int| 0u8),
        stuck_at_0: Seq::new(size, |i: int| 0u8),
        page_cycles: Seq::new(size / page_size, |p: int| 0u32),
        bytes_read: 0,
        bytes_written: 0,
        bytes_erased: 0,
        read_accesses: 0,
        write_accesses: 0,
        erase_accesses: 0,
        total_operations: 0,
        log_level,
        transactions: Seq::empty(),
        safe_erase_cycles,
        fault_period,
        current_operation: None,
    }
}

impl<O: Clone, const RS: usize, const WS: usize, const ES: usize> SimulatedNorFlash<O, RS, WS, ES> {
    /// The invariant of the engine.
    pub closed spec fn wf(&self) -> bool {
        &&& RS > 0
        &&& WS > 0
        &&& ES > 0
        &&& self.data@.len() % (ES as nat) == 0
        &&& self.page_cycles@.len() == self.data@.len() / (ES as nat)
        &&& self.stuck_at_1_bits@.len() == self.data@.len()
        &&& masks_disjoint(self.stuck_at_1_bits@, self.stuck_at_0_bits@)
        &&& self.bit_failure_every_x_erases > 0
        &&& self@.total_accesses() <= usize::MAX
    }

    /// Whether a read of `len` bytes at `offset` is allowed: both aligned to
    /// `READ_SIZE`, within the device, and the counters have room.
    pub open spec fn read_allowed(&self, offset: int, len: int) -> bool {
        &&& offset % (RS as int) == 0
        &&& len % (RS as int) == 0
        &&& offset + len <= self@.data.len()
        &&& self@.bytes_read + len <= usize::MAX
        &&& self@.total_accesses() < usize::MAX
    }

    /// Whether a write of `len` bytes at `offset` is allowed: both aligned to
    /// `WRITE_SIZE`, within the device, and the counters have room.
    pub open spec fn write_allowed(&self, offset: int, len: int) -> bool {
        &&& offset % (WS as int) == 0
        &&& len % (WS as int) == 0
        &&& offset + len <= self@.data.len()
        &&& self@.bytes_written + len <= usize::MAX
        &&& self@.total_accesses() < usize::MAX
    }

    /// Whether an erase of `[from, to)` is allowed: both bounds aligned to
    /// `ERASE_SIZE`, a non-empty range within the device, and the counters
    /// have room.
    pub open spec fn erase_allowed(&self, from: int, to: int) -> bool {
        &&& from % (ES as int) == 0
        &&& to % (ES as int) == 0
        &&& from < to
        &&& to <= self@.data.len()
        &&& forall|p: int|
            from / (ES as int) <= p < to / (ES as int) ==> #[trigger] self@.page_cycles[p]
                < u32::MAX
        &&& self@.bytes_erased + (to - from) <= usize::MAX
        &&& self@.total_accesses() < usize::MAX
    }

    /// An erased device of `size` bytes, with wear-out disabled and logging
    /// off.
    pub fn new(size: usize) -> (r: Self)
        requires
            RS > 0,
            WS > 0,
            ES > 0,
            size % ES == 0,
        ensures
            r.wf(),
            r@ == fresh_view::<O>(
                size as nat,
                ES as nat,
                u32::MAX,
                u32::MAX,
                TransactionLogLevel::Off,
            ),
    {
        Self::with_rng(size, u32::MAX, u32::MAX, rng_from_seed(0))
    }

    fn with_rng(
        size: usize,
        minimum_erase_cycles: u32,
        bit_failure_every_x_erases: u32,
        rng: SmallRng,
    ) -> (r: Self)
        requires
            RS > 0,
            WS > 0,
            ES > 0,
            size % ES == 0,
            bit_failure_every_x_erases > 0,
        ensures
            r.wf(),
            r@ == fresh_view::<O>(
                size as nat,
                ES as nat,
                minimum_erase_cycles,
                bit_failure_every_x_erases,
                TransactionLogLevel::Off,
            ),
    {
        let page_count = size / ES;
        let r = SimulatedNorFlash {
            data: vec![0xFFu8; size],
            stuck_at_1_bits: vec![0u8; size],
            stuck_at_0_bits: vec![0u8; size],
            page_cycles: vec![0u32; page_count],
            read: 0,
            written: 0,
            erased: 0,
            read_accesses: 0,
            write_accesses: 0,
            erase_accesses: 0,
            total_operations: 0,
            log_level: TransactionLogLevel::Off,
            transactions: Vec::new(),
            rng,
            minimum_safe_erase_cycles: minimum_erase_cycles,
            bit_failure_every_x_erases,
            current_operation: None,
        };
        proof {
            assert(r@.data =~= Seq::new(size as nat, |i: int| 0xFFu8));
            assert(r@.stuck_at_1 =~= Seq::new(size as nat, |i: int| 0u8));
            assert(r@.stuck_at_0 =~= Seq::new(size as nat, |i: int| 0u8));
            assert(r@.page_cycles =~= Seq::new(size as nat / ES as nat, |p: int| 0u32));
            assert(r@.transactions =~= Seq::empty());
            assert forall|i: int| 0 <= i < size implies #[trigger] r.stuck_at_1_bits@[i]
                & r.stuck_at_0_bits@[i] == 0 by {
                assert(0u8 & 0u8 == 0) by (bit_vector);
            }
        }
        r
    }

    /// An erased device whose pages wear out: past `minimum_erase_cycles`
    /// erases a page gets a stuck bit every `bit_failure_every_x_erases`
    /// erases. With a seed the faults are reproducible; without one the
    /// generator is seeded from the operating system.
    pub fn new_with_failures(
        size: usize,
        minimum_erase_cycles: u32,
        bit_failure_every_x_erases: u32,
        rng_seed: Option<u64>,
    ) -> (r: Self)
        requires
            RS > 0,
            WS > 0,
            ES > 0,
            size % ES == 0,
            bit_failure_every_x_erases > 0,
        ensures
            r.wf(),
            r@ == fresh_view::<O>(
                size as nat,
                ES as nat,
                minimum_erase_cycles,
                bit_failure_every_x_erases,
                TransactionLogLevel::Off,
            ),
    {
        let rng = match rng_seed {
            Some(seed) => rng_from_seed(seed),
            None => rng_from_os(),
        };
        Self::with_rng(size, minimum_erase_cycles, bit_failure_every_x_erases, rng)
    }

    /// The device's capacity in bytes.
    pub fn capacity(&self) -> (r: usize)
        ensures
            r == self@.data.len(),
    {
        self.data.len()
    }

    /// Reads `bytes.len()` bytes at `offset` into `bytes`. Stuck bits show in
    /// what is read; the stored data is not changed.
    pub fn read(&mut self, offset: u32, bytes: &mut [u8])
        requires
            old(self).wf(),
            old(self).read_allowed(offset as int, old(bytes)@.len() as int),
        ensures
            final(self).wf(),
            final(bytes)@.len() == old(bytes)@.len(),
            old(self)@.read_effect(final(self)@, offset, final(bytes)@),
    {
        let start = offset as usize;
        let len = bytes.len();
        let capacity = self.data.len();
        let mut i: usize = 0;
        while i < len
            invariant
                self@ == old(self)@,
                bytes@.len() == len,
                start + len <= capacity,
                capacity == self.data@.len(),
                self.stuck_at_1_bits@.len() == self.data@.len(),
                self.stuck_at_0_bits@.len() == self.data@.len(),
                i <= len,
                forall|k: int| 0 <= k < i ==> #[trigger] bytes@[k] == self@.observed(start + k),
            decreases len - i,
        {
            let b = (self.data[start + i] | self.stuck_at_1_bits[start + i])
                & !self.stuck_at_0_bits[start + i];
            bytes[i] = b;
            i = i + 1;
        }
        proof {
            assert(bytes@ =~= old(self)@.observed_range(offset as int, len as nat));
        }
        let record = Transaction::read(
            self.log_level,
            offset,
            len,
            bytes,
            self.current_operation.clone(),
        );
        self.transactions.push(record);
        self.read = self.read + len;
        self.read_accesses = self.read_accesses + 1;
        proof {
            assert(self@.transactions.subrange(0, old(self)@.transactions.len() as int)
                =~= old(self)@.transactions);
        }
    }

    /// Programs `bytes` at `offset`. Programming only clears bits: each byte
    /// becomes the old byte AND the new one, and stuck bits keep their value.
    pub fn write(&mut self, offset: u32, bytes: &[u8])
        requires
            old(self).wf(),
            old(self).write_allowed(offset as int, bytes@.len() as int),
        ensures
            final(self).wf(),
            old(self)@.write_effect(final(self)@, offset, bytes@),
    {
        let start = offset as usize;
        let len = bytes.len();
        let ghost before = self@;
        let capacity = self.data.len();
        assert(start + len <= capacity);
        let end = start + len;
        program_range(
            &mut self.data,
            &self.stuck_at_1_bits,
            &self.stuck_at_0_bits,
            start,
            bytes,
        );
        let after_write = vstd::slice::slice_subrange(self.data.as_slice(), start, end);
        let record = Transaction::write(
            self.log_level,
            offset,
            bytes,
            after_write,
            self.current_operation.clone(),
        );
        self.transactions.push(record);
        self.written = self.written + len;
        self.write_accesses = self.write_accesses + 1;
        proof {
            assert(self@.transactions.subrange(0, before.transactions.len() as int)
                =~= before.transactions);
        }
    }

    /// Erases the pages of `[from, to)`: each counts one more erase and may
    /// get a new stuck bit, then every byte of the range is set to all ones
    /// but for its bits stuck at 0.
    pub fn erase(&mut self, from: u32, to: u32)
        requires
            old(self).wf(),
            old(self).erase_allowed(from as int, to as int),
        ensures
            final(self).wf(),
            old(self)@.erase_effect(final(self)@, from, to, ES as int),
    {
        let ghost before = self@;
        let capacity = self.data.len();
        let start = from as usize;
        let stop = to as usize;
        let first = start / ES;
        let end = stop / ES;
        proof {
            lemma_page_range(start as int, stop as int, capacity as int, ES as int);
            assert forall|q: int| first <= q < end implies #[trigger] self.page_cycles@[q]
                < u32::MAX by {
                assert(before.page_cycles[q] < u32::MAX);
            }
        }
        wear_pages(
            &mut self.page_cycles,
            &mut self.stuck_at_1_bits,
            &mut self.stuck_at_0_bits,
            &mut self.rng,
            first,
            end,
            ES,
            self.minimum_safe_erase_cycles,
            self.bit_failure_every_x_erases,
        );
        let old_contents = vstd::slice::slice_subrange(self.data.as_slice(), start, stop);
        let record = Transaction::erase(
            self.log_level,
            from,
            to,
            old_contents,
            self.current_operation.clone(),
        );
        self.transactions.push(record);
        erase_range(&mut self.data, &self.stuck_at_0_bits, start, stop);
        self.erased = self.erased + (stop - start);
        self.erase_accesses = self.erase_accesses + 1;
        proof {
            assert(self@.transactions.subrange(0, before.transactions.len() as int)
                =~= before.transactions);
        }
    }

    /// Whether a read of `len` bytes at `offset` is allowed; lets a caller
    /// that cannot prove it test it first.
    pub fn can_read(&self, offset: u32, len: usize) -> (r: bool)
        requires
            self.wf(),
        ensures
            r == self.read_allowed(offset as int, len as int),
    {
        let offset = offset as usize;
        offset % RS == 0 && len % RS == 0 && len <= self.data.len() && offset <= self.data.len()
            - len && len <= usize::MAX - self.read && self.read_accesses + self.write_accesses
            + self.erase_accesses < usize::MAX
    }

    /// Whether a write of `len` bytes at `offset` is allowed; lets a caller
    /// that cannot prove it test it first.
    pub fn can_write(&self, offset: u32, len: usize) -> (r: bool)
        requires
            self.wf(),
        ensures
            r == self.write_allowed(offset as int, len as int),
    {
        let offset = offset as usize;
        offset % WS == 0 && len % WS == 0 && len <= self.data.len() && offset <= self.data.len()
            - len && len <= usize::MAX - self.written && self.read_accesses + self.write_accesses
            + self.erase_accesses < usize::MAX
    }

    /// Whether an erase of `[from, to)` is allowed; lets a caller that cannot
    /// prove it test it first.
    pub fn can_erase(&self, from: u32, to: u32) -> (r: bool)
        requires
            self.wf(),
        ensures
            r == self.erase_allowed(from as int, to as int),
    {
        let start = from as usize;
        let stop = to as usize;
        if !(start % ES == 0 && stop % ES == 0 && start < stop && stop <= self.data.len()) {
            return false;
        }
        if !(stop - start <= usize::MAX - self.erased && self.read_accesses + self.write_accesses
            + self.erase_accesses < usize::MAX) {
            return false;
        }
        proof {
            lemma_page_range(start as int, stop as int, self.data@.len() as int, ES as int);
        }
        let end = stop / ES;
        let mut p = start / ES;
        while p < end
            invariant
                from as int / (ES as int) <= p <= end,
                end == to as int / (ES as int),
                end <= self.page_cycles@.len(),
                forall|q: int| from as int / (ES as int) <= q < p ==> #[trigger] self@.page_cycles[q]
                    < u32::MAX,
            decreases end - p,
        {
            if self.page_cycles[p] == u32::MAX {
                assert(!(self@.page_cycles[p as int] < u32::MAX));
                return false;
            }
            p = p + 1;
        }
        true
    }

    /// Sets the log level for the operations that follow.
    pub fn set_logging(&mut self, level: TransactionLogLevel)
        requires
            old(self).wf(),
        ensures
            final(self).wf(),
            final(self)@ == (FlashView { log_level: level, ..old(self)@ }),
    {
        self.log_level = level;
    }

    /// Tags the records that follow with `operation`, and counts one more
    /// operation.
    pub fn start_operation(&mut self, operation: O)
        requires
            old(self).wf(),
            old(self)@.total_operations < usize::MAX,
        ensures
            final(self).wf(),
            final(self)@ == (FlashView {
                current_operation: Some(operation),
                total_operations: old(self)@.total_operations + 1,
                ..old(self)@
            }),
    {
        self.current_operation = Some(operation);
        self.total_operations = self.total_operations + 1;
    }

    /// Erases everything and clears all statistics and all injected faults.
    pub fn reset(&mut self)
        requires
            old(self).wf(),
        ensures
            final(self).wf(),
            final(self)@ == (FlashView {
                data: Seq::new(old(self)@.data.len(), |i: int| 0xFFu8),
                stuck_at_1: Seq::new(old(self)@.data.len(), |i: int| 0u8),
                stuck_at_0: Seq::new(old(self)@.data.len(), |i: int| 0u8),
                page_cycles: Seq::new(old(self)@.page_cycles.len(), |p: int| 0u32),
                bytes_read: 0,
                bytes_written: 0,
                bytes_erased: 0,
                read_accesses: 0,
                write_accesses: 0,
                erase_accesses: 0,
                total_operations: 0,
                transactions: Seq::empty(),
                current_operation: None,
                ..old(self)@
            }),
    {
        fill(&mut self.data, 0xFF);
        self.reset_stats();
        self.reset_failures();
    }

    /// Clears the counters, the transaction log, the per-page erase counts
    /// and the current tag; the contents and the faults stay.
    pub fn reset_stats(&mut self)
        requires
            old(self).wf(),
        ensures
            final(self).wf(),
            final(self)@ == (FlashView {
                page_cycles: Seq::new(old(self)@.page_cycles.len(), |p: int| 0u32),
                bytes_read: 0,
                bytes_written: 0,
                bytes_erased: 0,
                read_accesses: 0,
                write_accesses: 0,
                erase_accesses: 0,
                total_operations: 0,
                transactions: Seq::empty(),
                current_operation: None,
                ..old(self)@
            }),
    {
        self.read = 0;
        self.written = 0;
        self.erased = 0;
        self.read_accesses = 0;
        self.write_accesses = 0;
        self.erase_accesses = 0;
        self.total_operations = 0;
        self.transactions.clear();
        fill(&mut self.page_cycles, 0);
        self.current_operation = None;
    }

    /// Removes every injected fault and clears the per-page erase counts; the
    /// contents, the counters and the log stay.
    pub fn reset_failures(&mut self)
        requires
            old(self).wf(),
        ensures
            final(self).wf(),
            final(self)@ == (FlashView {
                stuck_at_1: Seq::new(old(self)@.data.len(), |i: int| 0u8),
                stuck_at_0: Seq::new(old(self)@.data.len(), |i: int| 0u8),
                page_cycles: Seq::new(old(self)@.page_cycles.len(), |p: int| 0u32),
                ..old(self)@
            }),
    {
        fill(&mut self.stuck_at_0_bits, 0);
        fill(&mut self.stuck_at_1_bits, 0);
        fill(&mut self.page_cycles, 0);
        proof {
            assert forall|i: int| 0 <= i < self.stuck_at_1_bits@.len() implies
                #[trigger] self.stuck_at_1_bits@[i] & self.stuck_at_0_bits@[i] == 0 by {
                assert(0u8 & 0u8 == 0) by (bit_vector);
            }
        }
    }

    /// Capacity in bytes.
    pub fn size(&self) -> (r: usize)
        ensures
            r == self@.data.len(),
    {
        self.data.len()
    }

    /// Number of pages.
    pub fn page_count(&self) -> (r: usize)
        ensures
            r == self@.page_cycles.len(),
    {
        self.page_cycles.len()
    }

    /// Bytes read since the counters were last cleared.
    pub fn bytes_read(&self) -> (r: usize)
        ensures
            r == self@.bytes_read,
    {
        self.read
    }

    /// Bytes written since the counters were last cleared.
    pub fn bytes_written(&self) -> (r: usize)
        ensures
            r == self@.bytes_written,
    {
        self.written
    }

    /// Pages erased since the counters were last cleared.
    pub fn pages_erased(&self) -> (r: usize)
        requires
            self.wf(),
        ensures
            r == self@.bytes_erased / (ES as nat),
    {
        self.erased / ES
    }

    /// Calls of `start_operation` since the counters were last cleared.
    pub fn total_operations(&self) -> (r: usize)
        ensures
            r == self@.total_operations,
    {
        self.total_operations
    }

    /// Reads, writes and erases since the counters were last cleared.
    pub fn total_accesses(&self) -> (r: usize)
        requires
            self.wf(),
        ensures
            r == self@.total_accesses(),
    {
        self.read_accesses + self.write_accesses + self.erase_accesses
    }

    /// Estimated nanoseconds of the reads so far.
    pub fn read_time(&self, timings: &FlashTimings) -> (r: u64)
        requires
            self@.read_accesses <= u32::MAX,
            timings.read_estimate(self@.bytes_read as int, self@.read_accesses as int) <= u64::MAX,
        ensures
            r == timings.read_estimate(self@.bytes_read as int, self@.read_accesses as int),
    {
        timings.read_time(self.read, self.read_accesses as u32)
    }

    /// Estimated nanoseconds of the writes so far.
    pub fn write_time(&self, timings: &FlashTimings) -> (r: u64)
        requires
            self@.write_accesses <= u32::MAX,
            timings.write_estimate(self@.bytes_written as int, self@.write_accesses as int)
                <= u64::MAX,
        ensures
            r == timings.write_estimate(self@.bytes_written as int, self@.write_accesses as int),
    {
        timings.write_time(self.written, self.write_accesses as u32)
    }

    /// Estimated milliseconds of the erases so far.
    pub fn erase_time(&self, timings: &FlashTimings) -> (r: u64)
        requires
            self.wf(),
            self@.erase_accesses <= u32::MAX,
            timings.page_erase_millis() * (self@.bytes_erased / (ES as nat)) <= u64::MAX,
            timings.erase_overhead_nanos() * self@.erase_accesses <= u64::MAX,
            timings.erase_estimate(
                (self@.bytes_erased / (ES as nat)) as int,
                self@.erase_accesses as int,
            ) <= u64::MAX,
        ensures
            r == timings.erase_estimate(
                (self@.bytes_erased / (ES as nat)) as int,
                self@.erase_accesses as int,
            ),
    {
        timings.erase_time(self.erased / ES, self.erase_accesses as u32)
    }

    /// Estimated milliseconds of all traffic so far.
    pub fn total_time(&self, timings: &FlashTimings) -> (r: u64)
        requires
            self.wf(),
            self@.read_accesses <= u32::MAX,
            self@.write_accesses <= u32::MAX,
            self@.erase_accesses <= u32::MAX,
            timings.fits(
                self@.bytes_read as int,
                self@.read_accesses as int,
                self@.bytes_written as int,
                self@.write_accesses as int,
                (self@.bytes_erased / (ES as nat)) as int,
                self@.erase_accesses as int,
            ),
        ensures
            r == timings.total_estimate(
                self@.bytes_read as int,
                self@.read_accesses as int,
                self@.bytes_written as int,
                self@.write_accesses as int,
                (self@.bytes_erased / (ES as nat)) as int,
                self@.erase_accesses as int,
            ),
    {
        timings.total_time(
            self.read,
            self.read_accesses as u32,
            self.written,
            self.write_accesses as u32,
            self.erased / ES,
            self.erase_accesses as u32,
        )
    }

    /// The transaction log.
    pub fn transactions(&self) -> (r: &[Transaction<O>])
        ensures
            r@ == self@.transactions,
    {
        self.transactions.as_slice()
    }

    /// The erase count of each page.
    pub fn page_erase_cycles(&self) -> (r: &[u32])
        ensures
            r@ == self@.page_cycles,
    {
        self.page_cycles.as_slice()
    }
}

/// Read alignment 1 byte, write alignment 1 byte, 4 KiB pages.
pub type SimulatedNorFlashR1W1E4k<O> = SimulatedNorFlash<O, 1, 1, 4096>;

/// Read alignment 1 byte, write alignment 4 bytes, 4 KiB pages, as on many
/// NOR flashes.
pub type SimulatedNorFlashR1W4E4k<O> = SimulatedNorFlash<O, 1, 4, 4096>;

/// Read alignment 4 bytes, write alignment 4 bytes, 4 KiB pages.
pub type SimulatedNorFlashR4W4E4k<O> = SimulatedNorFlash<O, 4, 4, 4096>;

/// One type for the common configurations, for code that holds devices of
/// different alignments.
pub enum AnySimulatedNorFlash<O> {
    R1W1E4k(SimulatedNorFlashR1W1E4k<O>),
    R1W4E4k(SimulatedNorFlashR1W4E4k<O>),
    R4W4E4k(SimulatedNorFlashR4W4E4k<O>),
}

impl<O> From<SimulatedNorFlashR1W1E4k<O>> for AnySimulatedNorFlash<O> {
    fn from(flash: SimulatedNorFlashR1W1E4k<O>) -> (r: Self) {
        AnySimulatedNorFlash::R1W1E4k(flash)
    }
}

impl<O> vstd::std_specs::convert::FromSpecImpl<SimulatedNorFlashR1W1E4k<O>> for AnySimulatedNorFlash<O> {
    open spec fn obeys_from_spec() -> bool {
        true
    }

    open spec fn from_spec(flash: SimulatedNorFlashR1W1E4k<O>) -> Self {
        AnySimulatedNorFlash::R1W1E4k(flash)
    }
}

impl<O> From<SimulatedNorFlashR1W4E4k<O>> for AnySimulatedNorFlash<O> {
    fn from(flash: SimulatedNorFlashR1W4E4k<O>) -> (r: Self) {
        AnySimulatedNorFlash::R1W4E4k(flash)
    }
}

impl<O> vstd::std_specs::convert::FromSpecImpl<SimulatedNorFlashR1W4E4k<O>> for AnySimulatedNorFlash<O> {
    open spec fn obeys_from_spec() -> bool {
        true
    }

    open spec fn from_spec(flash: SimulatedNorFlashR1W4E4k<O>) -> Self {
        AnySimulatedNorFlash::R1W4E4k(flash)
    }
}

impl<O> From<SimulatedNorFlashR4W4E4k<O>> for AnySimulatedNorFlash<O> {
    fn from(flash: SimulatedNorFlashR4W4E4k<O>) -> (r: Self) {
        AnySimulatedNorFlash::R4W4E4k(flash)
    }
}

impl<O> vstd::std_specs::convert::FromSpecImpl<SimulatedNorFlashR4W4E4k<O>> for AnySimulatedNorFlash<O> {
    open spec fn obeys_from_spec() -> bool {
        true
    }

    open spec fn from_spec(flash: SimulatedNorFlashR4W4E4k<O>) -> Self {
        AnySimulatedNorFlash::R4W4E4k(flash)
    }
}

/// A text label for a tag, shown in snapshots.
pub trait TagLabel {
    fn label(&self) -> String;
}

/// A point-in-time copy of the device's state and statistics, owned and
/// independent of the device it was taken from.
#[derive(Clone, Default, Debug)]
pub struct FlashSnapshot {
    /// The contents, when they were asked for.
    pub data: Option<Vec<u8>>,
    /// The erase count of each page.
    pub page_cycles: Vec<u32>,
    pub bytes_read: usize,
    pub bytes_written: usize,
    pub pages_erased: usize,
    /// Reads, writes and erases together.
    pub total_accesses: usize,
    /// Calls of `start_operation`.
    pub total_operations: usize,
    /// Records in the transaction log.
    pub transactions_len: usize,
    /// The label of the current tag, if there is one.
    pub last_operation: Option<String>,
}

impl<
    O: Clone + TagLabel,
    const RS: usize,
    const WS: usize,
    const ES: usize,
> SimulatedNorFlash<O, RS, WS, ES> {
    /// The state of the device as a snapshot; the contents are copied only
    /// when `with_data` holds.
    pub fn snapshot(&self, with_data: bool) -> (r: FlashSnapshot)
        requires
            self.wf(),
        ensures
            with_data ==> r.data is Some && r.data->0@ == self@.data,
            !with_data ==> r.data is None,
            r.page_cycles@ == self@.page_cycles,
            r.bytes_read == self@.bytes_read,
            r.bytes_written == self@.bytes_written,
            r.pages_erased == self@.bytes_erased / (ES as nat),
            r.total_accesses == self@.total_accesses(),
            r.total_operations == self@.total_operations,
            r.transactions_len == self@.transactions.len(),
            r.last_operation is Some <==> self@.current_operation is Some,
    {
        let data = if with_data {
            Some(vstd::slice::slice_to_vec(self.data.as_slice()))
        } else {
            None
        };
        let last_operation = match &self.current_operation {
            Some(op) => Some(op.label()),
            None => None,
        };
        FlashSnapshot {
            data,
            page_cycles: vstd::slice::slice_to_vec(self.page_erase_cycles()),
            bytes_read: self.bytes_read(),
            bytes_written: self.bytes_written(),
            pages_erased: self.pages_erased(),
            total_accesses: self.total_accesses(),
            total_operations: self.total_operations(),
            transactions_len: self.transactions().len(),
            last_operation,
        }
    }
}

/// Sets every element of `v` to `value`.
fn fill<T: Copy>(v: &mut Vec<T>, value: T)
    ensures
        final(v)@ == Seq::new(old(v)@.len(), |i: int| value),
{
    let ghost len = v@.len();
    let mut i: usize = 0;
    while i < v.len()
        invariant
            v@.len() == len,
            forall|j: int| 0 <= j < i ==> #[trigger] v@[j] == value,
        decreases len - i,
    {
        v.set(i, value);
        i = i + 1;
    }
    proof {
        assert(v@ =~= Seq::new(len, |j: int| value));
    }
}

proof fn lemma_page_range(from: int, to: int, len: int, size: int)
    requires
        size > 0,
        0 <= from <= to <= len,
        from % size == 0,
        to % size == 0,
        len % size == 0,
    ensures
        (from / size) * size == from,
        (to / size) * size == to,
        from / size <= to / size <= len / size,
{
    vstd::arithmetic::div_mod::lemma_fundamental_div_mod(from, size);
    vstd::arithmetic::div_mod::lemma_fundamental_div_mod(to, size);
    vstd::arithmetic::div_mod::lemma_fundamental_div_mod(len, size);
    assert(size * (from / size) == (from / size) * size) by (nonlinear_arith);
    assert(size * (to / size) == (to / size) * size) by (nonlinear_arith);
    assert(size * (len / size) == (len / size) * size) by (nonlinear_arith);
    assert(from / size <= to / size <= len / size) by (nonlinear_arith)
        requires
            size > 0,
            from <= to <= len,
            (from / size) * size == from,
            (to / size) * size == to,
            (len / size) * size == len,
    ;
}

/// Sets every byte of `[start, stop)` to all ones but for its bits stuck at 0.
fn erase_range(data: &mut Vec<u8>, low: &Vec<u8>, start: usize, stop: usize)
    requires
        start <= stop <= old(data)@.len(),
        low@.len() == old(data)@.len(),
    ensures
        final(data)@ == Seq::new(
            old(data)@.len(),
            |i: int|
                if start <= i < stop {
                    !low@[i]
                } else {
                    old(data)@[i]
                },
        ),
{
    let ghost d0 = data@;
    let mut i = start;
    while i < stop
        invariant
            start <= i <= stop,
            stop <= d0.len(),
            low@.len() == d0.len(),
            data@.len() == d0.len(),
            forall|j: int|
                0 <= j < d0.len() ==> #[trigger] data@[j] == if start <= j < i {
                    !low@[j]
                } else {
                    d0[j]
                },
        decreases stop - i,
    {
        data.set(i, !low[i]);
        i = i + 1;
    }
    proof {
        assert(data@ =~= Seq::new(
            d0.len(),
            |j: int|
                if start <= j < stop {
                    !low@[j]
                } else {
                    d0[j]
                },
        ));
    }
}

/// Programs `bytes` into `data` at `start`, keeping stuck bits.
fn program_range(data: &mut Vec<u8>, high: &Vec<u8>, low: &Vec<u8>, start: usize, bytes: &[u8])
    requires
        start + bytes@.len() <= old(data)@.len(),
        high@.len() == old(data)@.len(),
        low@.len() == old(data)@.len(),
    ensures
        final(data)@ == Seq::new(
            old(data)@.len(),
            |i: int|
                if start <= i < start + bytes@.len() {
                    with_stuck_bits(old(data)@[i] & bytes@[i - start], high@[i], low@[i])
                } else {
                    old(data)@[i]
                },
        ),
{
    let ghost d0 = data@;
    let len = bytes.len();
    let capacity = data.len();
    let mut i: usize = 0;
    while i < len
        invariant
            i <= len,
            len == bytes@.len(),
            start + len <= capacity,
            capacity == d0.len(),
            high@.len() == d0.len(),
            low@.len() == d0.len(),
            data@.len() == d0.len(),
            forall|j: int|
                0 <= j < d0.len() ==> #[trigger] data@[j] == if start <= j < start + i {
                    with_stuck_bits(d0[j] & bytes@[j - start], high@[j], low@[j])
                } else {
                    d0[j]
                },
        decreases len - i,
    {
        let b = ((data[start + i] & bytes[i]) | high[start + i]) & !low[start + i];
        data.set(start + i, b);
        i = i + 1;
    }
    proof {
        assert(data@ =~= Seq::new(
            d0.len(),
            |j: int|
                if start <= j < start + bytes@.len() {
                    with_stuck_bits(d0[j] & bytes@[j - start], high@[j], low@[j])
                } else {
                    d0[j]
                },
        ));
    }
}

} // verus!
