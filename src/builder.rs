//! Step-by-step configuration of a [`SimulatedNorFlash`].
use vstd::prelude::*;

use crate::flash::{fresh_view, SimulatedNorFlash};
use crate::transaction::TransactionLogLevel;

verus! {

/// The settings a [`SimulatedNorFlashBuilder`] has collected.
pub struct BuilderView {
    pub size: nat,
    pub safe_erase_cycles: u32,
    pub fault_period: u32,
    pub rng_seed: Option<u64>,
    pub log_level: TransactionLogLevel,
}

/// Collects the settings of a [`SimulatedNorFlash`]: its size, its wear-out
/// parameters, the seed of its fault generator and its log level.
pub struct SimulatedNorFlashBuilder {
    size: usize,
    minimum_erase_cycles: u32,
    bit_failure_every_x_erases: u32,
    rng_seed: Option<u64>,
    log_level: TransactionLogLevel,
}

impl View for SimulatedNorFlashBuilder {
    type V = BuilderView;

    closed spec fn view(&self) -> BuilderView {
        BuilderView {
            size: self.size as nat,
            safe_erase_cycles: self.minimum_erase_cycles,
            fault_period: self.bit_failure_every_x_erases,
            rng_seed: self.rng_seed,
            log_level: self.log_level,
        }
    }
}

impl SimulatedNorFlashBuilder {
    /// Starts the settings of a device of `size` bytes: no wear-out, an
    /// unseeded generator, logging off.
    pub fn new(size: usize) -> (r: Self)
        ensures
            r@ == (BuilderView {
                size: size as nat,
                safe_erase_cycles: u32::MAX,
                fault_period: u32::MAX,
                rng_seed: None,
                log_level: TransactionLogLevel::Off,
            }),
    {
        SimulatedNorFlashBuilder {
            size,
            minimum_erase_cycles: u32::MAX,
            bit_failure_every_x_erases: u32::MAX,
            rng_seed: None,
            log_level: TransactionLogLevel::Off,
        }
    }

    /// Sets how many erases a page takes before it may wear out.
    pub fn with_minimum_erase_cycles(self, cycles: u32) -> (r: Self)
        ensures
            r@ == (BuilderView { safe_erase_cycles: cycles, ..self@ }),
    {
        let mut b = self;
        b.minimum_erase_cycles = cycles;
        b
    }

    /// Sets how often a worn page gets a new stuck bit: one every
    /// `bit_failure_every_x_erases` erases past the safe count.
    pub fn with_failure_rate(self, bit_failure_every_x_erases: u32) -> (r: Self)
        requires
            bit_failure_every_x_erases > 0,
        ensures
            r@ == (BuilderView { fault_period: bit_failure_every_x_erases, ..self@ }),
    {
        let mut b = self;
        b.bit_failure_every_x_erases = bit_failure_every_x_erases;
        b
    }

    /// Fixes the seed of the fault generator, which makes faults reproducible.
    pub fn with_rng_seed(self, rng_seed: u64) -> (r: Self)
        ensures
            r@ == (BuilderView { rng_seed: Some(rng_seed), ..self@ }),
    {
        let mut b = self;
        b.rng_seed = Some(rng_seed);
        b
    }

    /// Sets the log level.
    pub fn with_logging(self, level: TransactionLogLevel) -> (r: Self)
        ensures
            r@ == (BuilderView { log_level: level, ..self@ }),
    {
        let mut b = self;
        b.log_level = level;
        b
    }

    /// Builds the device with read, write and erase sizes `RS`, `WS`, `ES`.
    pub fn build<O: Clone, const RS: usize, const WS: usize, const ES: usize>(&self) -> (r:
        SimulatedNorFlash<O, RS, WS, ES>)
        requires
            RS > 0,
            WS > 0,
            ES > 0,
            self@.size % (ES as nat) == 0,
            self@.fault_period > 0,
        ensures
            r.wf(),
            r@ == fresh_view::<O>(
                self@.size,
                ES as nat,
                self@.safe_erase_cycles,
                self@.fault_period,
                self@.log_level,
            ),
    {
        let mut flash = SimulatedNorFlash::new_with_failures(
            self.size,
            self.minimum_erase_cycles,
            self.bit_failure_every_x_erases,
            self.rng_seed,
        );
        flash.set_logging(self.log_level);
        flash
    }
}

} // verus!
