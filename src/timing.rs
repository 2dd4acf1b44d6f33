//! The timing model: a closed-form estimate of bus and erase time.
use vstd::prelude::*;

verus! {

/// SPI line configuration, which sets how many data lanes carry each byte.
#[derive(Clone, Copy, Debug, PartialEq, Eq, Structural)]
pub enum SpiType {
    SPI,
    DSPI,
    QSPI,
}

impl SpiType {
    /// The number of data lanes.
    pub open spec fn spec_lanes(self) -> u32 {
        match self {
            SpiType::SPI => 1,
            SpiType::DSPI => 2,
            SpiType::QSPI => 4,
        }
    }

    /// The number of data lanes: 1, 2 or 4.
    pub fn lanes(&self) -> (r: u32)
        ensures
            r == self.spec_lanes(),
    {
        match self {
            SpiType::SPI => 1,
            SpiType::DSPI => 2,
            SpiType::QSPI => 4,
        }
    }
}

/// Relies on `fugit::NanosDurationU64::from_rate` on a megahertz rate: the
/// period of one cycle in whole nanoseconds, `1000 / mhz` rounded down.
#[verifier::external_body]
fn nanos_per_cycle(mhz: u64) -> (r: u64)
    requires
        mhz > 0,
    ensures
        r == 1000int / mhz as int,
{
    fugit::NanosDurationU64::from_rate(fugit::MegahertzU64::from_raw(mhz)).ticks()
}

/// Relies on `fugit::Duration::convert` from nanoseconds to milliseconds:
/// whole milliseconds, rounded down.
#[verifier::external_body]
fn nanos_to_millis(nanos: u64) -> (r: u64)
    ensures
        r == nanos / 1_000_000,
{
    let d: fugit::MillisDurationU64 = fugit::NanosDurationU64::from_ticks(nanos).convert();
    d.ticks()
}

/// Timing parameters of a bus and a device, used to estimate how long the
/// recorded traffic would take.
///
/// Read and write times are in nanoseconds; erase and total times in
/// milliseconds.
#[derive(Clone, Copy, Debug)]
pub struct FlashTimings {
    read_time_per_byte: u64,
    write_time_per_byte: u64,
    page_erase_time: u64,
    read_access_overhead: u64,
    write_access_overhead: u64,
    erase_access_overhead: u64,
}

/// Nanoseconds per byte on a bus of `lanes` lanes at `mhz` megahertz.
pub open spec fn byte_time_nanos(mhz: u64, lanes: u32) -> int {
    1000int / (mhz as int / (8int / lanes as int))
}

/// Nanoseconds of `cycles` bus cycles at `mhz` megahertz.
pub open spec fn overhead_nanos(mhz: u64, cycles: u32) -> int {
    (1000int / mhz as int) * cycles as int
}

impl FlashTimings {
    /// Nanoseconds to read one byte.
    pub closed spec fn read_nanos_per_byte(&self) -> int {
        self.read_time_per_byte as int
    }

    /// Nanoseconds to program one byte.
    pub closed spec fn write_nanos_per_byte(&self) -> int {
        self.write_time_per_byte as int
    }

    /// Milliseconds to erase one page.
    pub closed spec fn page_erase_millis(&self) -> int {
        self.page_erase_time as int
    }

    /// Nanoseconds of fixed overhead per read access.
    pub closed spec fn read_overhead_nanos(&self) -> int {
        self.read_access_overhead as int
    }

    /// Nanoseconds of fixed overhead per write access.
    pub closed spec fn write_overhead_nanos(&self) -> int {
        self.write_access_overhead as int
    }

    /// Nanoseconds of fixed overhead per erase access.
    pub closed spec fn erase_overhead_nanos(&self) -> int {
        self.erase_access_overhead as int
    }

    /// Estimated nanoseconds for reading `bytes` bytes in `accesses` accesses.
    pub open spec fn read_estimate(&self, bytes: int, accesses: int) -> int {
        self.read_nanos_per_byte() * bytes + self.read_overhead_nanos() * accesses
    }

    /// Estimated nanoseconds for programming `bytes` bytes in `accesses` accesses.
    pub open spec fn write_estimate(&self, bytes: int, accesses: int) -> int {
        self.write_nanos_per_byte() * bytes + self.write_overhead_nanos() * accesses
    }

    /// Estimated milliseconds for erasing `pages` pages in `accesses` accesses.
    pub open spec fn erase_estimate(&self, pages: int, accesses: int) -> int {
        self.page_erase_millis() * pages + (self.erase_overhead_nanos() * accesses) / 1_000_000
    }

    /// Estimated milliseconds for all three kinds of traffic together.
    pub open spec fn total_estimate(
        &self,
        read_bytes: int,
        read_accesses: int,
        write_bytes: int,
        write_accesses: int,
        erased_pages: int,
        erase_accesses: int,
    ) -> int {
        self.read_estimate(read_bytes, read_accesses) / 1_000_000 + self.write_estimate(
            write_bytes,
            write_accesses,
        ) / 1_000_000 + self.erase_estimate(erased_pages, erase_accesses)
    }

    /// Whether every estimate over these counts fits in a `u64`.
    pub open spec fn fits(
        &self,
        read_bytes: int,
        read_accesses: int,
        write_bytes: int,
        write_accesses: int,
        erased_pages: int,
        erase_accesses: int,
    ) -> bool {
        &&& self.read_estimate(read_bytes, read_accesses) <= u64::MAX
        &&& self.write_estimate(write_bytes, write_accesses) <= u64::MAX
        &&& self.page_erase_millis() * erased_pages <= u64::MAX
        &&& self.erase_overhead_nanos() * erase_accesses <= u64::MAX
        &&& self.total_estimate(
            read_bytes,
            read_accesses,
            write_bytes,
            write_accesses,
            erased_pages,
            erase_accesses,
        ) <= u64::MAX
    }

    /// Timing parameters from the bus type and clock and the device's page
    /// erase time and per-access overhead.
    ///
    /// - `flash_frequency_mhz`: bus clock in megahertz.
    /// - `page_erase_time_ms`: duration of one page erase in milliseconds.
    /// - `access_overhead_cycles`: extra bus cycles per access (command,
    ///   address, dummy cycles).
    ///
    /// A byte takes `8 / lanes` cycles, so the byte rate is the clock divided
    /// by that; both the byte time and the cycle time are whole nanoseconds.
    pub fn new(
        spi_type: SpiType,
        flash_frequency_mhz: u64,
        page_erase_time_ms: u64,
        access_overhead_cycles: u32,
    ) -> (r: Self)
        requires
            flash_frequency_mhz >= 8int / spi_type.spec_lanes() as int,
        ensures
            r.read_nanos_per_byte() == byte_time_nanos(flash_frequency_mhz, spi_type.spec_lanes()),
            r.write_nanos_per_byte() == byte_time_nanos(flash_frequency_mhz, spi_type.spec_lanes()),
            r.page_erase_millis() == page_erase_time_ms,
            r.read_overhead_nanos() == overhead_nanos(flash_frequency_mhz, access_overhead_cycles),
            r.write_overhead_nanos() == overhead_nanos(flash_frequency_mhz, access_overhead_cycles),
            r.erase_overhead_nanos() == overhead_nanos(flash_frequency_mhz, access_overhead_cycles),
    {
        let cycles_per_byte = (8 / spi_type.lanes()) as u64;
        let bytes_per_second_mhz = flash_frequency_mhz / cycles_per_byte;
        assert(bytes_per_second_mhz > 0) by (nonlinear_arith)
            requires
                flash_frequency_mhz >= cycles_per_byte,
                cycles_per_byte > 0,
                bytes_per_second_mhz == flash_frequency_mhz / cycles_per_byte,
        ;
        let time_per_byte = nanos_per_cycle(bytes_per_second_mhz);
        let cycle_time = nanos_per_cycle(flash_frequency_mhz);
        assert(cycle_time * access_overhead_cycles <= 1000 * u32::MAX) by (nonlinear_arith)
            requires
                cycle_time <= 1000,
                access_overhead_cycles <= u32::MAX,
        ;
        let overhead_time = cycle_time * access_overhead_cycles as u64;
        FlashTimings {
            read_time_per_byte: time_per_byte,
            write_time_per_byte: time_per_byte,
            page_erase_time: page_erase_time_ms,
            read_access_overhead: overhead_time,
            write_access_overhead: overhead_time,
            erase_access_overhead: overhead_time,
        }
    }

    /// Estimated nanoseconds for reading `total_bytes` over `accesses` accesses.
    pub fn read_time(&self, total_bytes: usize, accesses: u32) -> (r: u64)
        requires
            self.read_estimate(total_bytes as int, accesses as int) <= u64::MAX,
        ensures
            r == self.read_estimate(total_bytes as int, accesses as int),
    {
        proof {
            lemma_sum_of_products_fits(
                self.read_time_per_byte as int,
                total_bytes as int,
                self.read_access_overhead as int,
                accesses as int,
            );
        }
        self.read_time_per_byte * total_bytes as u64 + self.read_access_overhead * accesses as u64
    }

    /// Estimated nanoseconds for programming `total_bytes` over `accesses` accesses.
    pub fn write_time(&self, total_bytes: usize, accesses: u32) -> (r: u64)
        requires
            self.write_estimate(total_bytes as int, accesses as int) <= u64::MAX,
        ensures
            r == self.write_estimate(total_bytes as int, accesses as int),
    {
        proof {
            lemma_sum_of_products_fits(
                self.write_time_per_byte as int,
                total_bytes as int,
                self.write_access_overhead as int,
                accesses as int,
            );
        }
        self.write_time_per_byte * total_bytes as u64 + self.write_access_overhead * accesses as u64
    }

    /// Estimated milliseconds for erasing `pages` pages over `accesses` accesses.
    pub fn erase_time(&self, pages: usize, accesses: u32) -> (r: u64)
        requires
            self.page_erase_millis() * pages <= u64::MAX,
            self.erase_overhead_nanos() * accesses <= u64::MAX,
            self.erase_estimate(pages as int, accesses as int) <= u64::MAX,
        ensures
            r == self.erase_estimate(pages as int, accesses as int),
    {
        let pages_time = self.page_erase_time * pages as u64;
        let overhead = nanos_to_millis(self.erase_access_overhead * accesses as u64);
        pages_time + overhead
    }

    /// Estimated milliseconds for reads, writes and erases together; read and
    /// write times are each rounded down to whole milliseconds first.
    pub fn total_time(
        &self,
        read_bytes: usize,
        read_accesses: u32,
        write_bytes: usize,
        write_accesses: u32,
        erased_pages: usize,
        erase_accesses: u32,
    ) -> (r: u64)
        requires
            self.fits(
                read_bytes as int,
                read_accesses as int,
                write_bytes as int,
                write_accesses as int,
                erased_pages as int,
                erase_accesses as int,
            ),
        ensures
            r == self.total_estimate(
                read_bytes as int,
                read_accesses as int,
                write_bytes as int,
                write_accesses as int,
                erased_pages as int,
                erase_accesses as int,
            ),
    {
        let read = nanos_to_millis(self.read_time(read_bytes, read_accesses));
        let write = nanos_to_millis(self.write_time(write_bytes, write_accesses));
        let erase = self.erase_time(erased_pages, erase_accesses);
        read + write + erase
    }
}

proof fn lemma_sum_of_products_fits(a: int, b: int, c: int, d: int)
    requires
        0 <= a,
        0 <= b,
        0 <= c,
        0 <= d,
        a * b + c * d <= u64::MAX,
    ensures
        a * b <= u64::MAX,
        c * d <= u64::MAX,
{
    assert(0 <= a * b && 0 <= c * d) by (nonlinear_arith)
        requires
            0 <= a,
            0 <= b,
            0 <= c,
            0 <= d,
    ;
}

} // verus!
