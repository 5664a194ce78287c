//! SPI shared device: a chip-select identity plus a private copy of the
//! device's configuration, arbitrating with its siblings through a
//! shared bus.
//!
//! A shared device cannot know whether the bus was last used by itself
//! or by a sibling, so it conservatively reconfigures the bus at the
//! start of every transaction; the frame is then started, the body runs,
//! and the frame is ended whether the body succeeded or failed.

use vstd::prelude::*;

use crate::spi::bus::{ErrorKind, SpiBus};
use crate::spi::config::SpiConfig;
use crate::spi::controller::{
    pump_reads, spec_configure, spec_end_frame, spec_pump, spec_start_frame, transfer_len,
    CtlView, SpiController,
};
use crate::spi::shared_bus::SharedBus;

verus! {

/// State of the bus at the point where a transaction hands control to
/// its body: the device's configuration applied, the frame started.
pub open spec fn spec_transaction_setup(m: CtlView, cfg: SpiConfig, cs_index: u32) -> CtlView {
    spec_start_frame(spec_configure(m, cfg, Some(cs_index)))
}

/// Effect of one whole shared-device transfer transaction: reconfigure,
/// start the frame, pump, end the frame.
pub open spec fn spec_shared_transfer(
    m: CtlView,
    cfg: SpiConfig,
    cs_index: u32,
    rlen: int,
    w: Seq<u8>,
) -> CtlView {
    spec_end_frame(
        spec_pump(
            spec_transaction_setup(m, cfg, cs_index),
            transfer_len(rlen, w.len() as int),
            w,
        ),
    )
}

/// A device holding its chip-select identity and its own copy of its
/// configuration. The chip-select index must correspond to the line
/// physically wired to the device; pairing them correctly is validated
/// where the device is constructed and trusted afterwards.
pub struct SpiSharedDevice {
    /// Index of the chip-select line wired to this device.
    pub cs_index: u32,
    /// This device's bus configuration, reapplied before each
    /// transaction.
    pub config: SpiConfig,
}

impl SpiSharedDevice {
    /// Creates a shared device from its chip-select identity and its
    /// configuration, which is copied.
    pub fn new(cs_index: u32, config: &SpiConfig) -> (dev: SpiSharedDevice)
        ensures
            dev.cs_index == cs_index,
            dev.config == *config,
    {
        SpiSharedDevice { cs_index, config: *config }
    }

    /// Releases the chip-select identity.
    pub fn release(self) -> (cs_index: u32)
        ensures
            cs_index == self.cs_index,
    {
        self.cs_index
    }

    /// Runs one transaction: acquires the bus exclusively, reconfigures
    /// it for this device, starts the frame, hands the bus to the body,
    /// and ends the frame whether the body succeeded or failed; the
    /// body's result is propagated unchanged.
    pub fn transaction<R, F: FnOnce(SpiBus) -> (SpiBus, Result<R, ErrorKind>)>(
        &self,
        shared: &mut SharedBus,
        f: F,
    ) -> (out: Result<R, ErrorKind>)
        requires
            self.config.wf(),
            forall|b: SpiBus|
                b@ == spec_transaction_setup(old(shared)@, self.config, self.cs_index)
                    ==> call_requires(f, (b,)),
        ensures
            exists|b: SpiBus, mid: SpiBus|
                b@ == spec_transaction_setup(old(shared)@, self.config, self.cs_index)
                    && #[trigger] call_ensures(f, (b,), (mid, out)) && final(shared)@
                    == spec_end_frame(mid@),
    {
        // Take the bus out of the shared cell; the exclusive borrow of
        // `shared` is the critical section.
        let mut bus = SpiBus::new(SpiController::new());
        core::mem::swap(&mut bus, &mut shared.bus);

        bus.configure(&self.config, Some(self.cs_index));
        bus.start_frame();
        let ghost b_v = bus;
        let (bus2, result) = f(bus);
        let mut bus2 = bus2;
        let ghost mid_v = bus2;
        bus2.end_frame();

        core::mem::swap(&mut bus2, &mut shared.bus);
        proof {
            assert(b_v@ == spec_transaction_setup(old(shared)@, self.config, self.cs_index)
                && call_ensures(f, (b_v,), (mid_v, result)) && final(shared)@ == spec_end_frame(
                mid_v@,
            ));
        }
        result
    }

    /// Full-duplex transfer as one transaction: reconfigure, frame,
    /// pump, frame end.
    pub fn transfer(&self, shared: &mut SharedBus, read: &mut Vec<u8>, write: &Vec<u8>) -> (r:
        Result<(), ErrorKind>)
        requires
            self.config.wf(),
        ensures
            r == Ok::<(), ErrorKind>(()),
            final(shared)@ == spec_shared_transfer(
                old(shared)@,
                self.config,
                self.cs_index,
                old(read)@.len() as int,
                write@,
            ),
            final(read)@ == pump_reads(write@, old(read)@.len() as int),
    {
        shared.bus.configure(&self.config, Some(self.cs_index));
        shared.bus.start_frame();
        let result = shared.bus.perform_transfer(read, write);
        shared.bus.end_frame();
        result
    }

    /// Write-only transfer as one transaction.
    pub fn write(&self, shared: &mut SharedBus, words: &Vec<u8>) -> (r: Result<(), ErrorKind>)
        requires
            self.config.wf(),
        ensures
            r == Ok::<(), ErrorKind>(()),
            final(shared)@ == spec_shared_transfer(
                old(shared)@,
                self.config,
                self.cs_index,
                0,
                words@,
            ),
    {
        shared.bus.configure(&self.config, Some(self.cs_index));
        shared.bus.start_frame();
        let mut sink: Vec<u8> = Vec::new();
        let result = shared.bus.perform_transfer(&mut sink, words);
        shared.bus.end_frame();
        result
    }

    /// Read-only transfer as one transaction: zero fillers are clocked
    /// out and the received bytes fill the buffer.
    pub fn read(&self, shared: &mut SharedBus, words: &mut Vec<u8>) -> (r: Result<
        (),
        ErrorKind,
    >)
        requires
            self.config.wf(),
        ensures
            r == Ok::<(), ErrorKind>(()),
            final(shared)@ == spec_shared_transfer(
                old(shared)@,
                self.config,
                self.cs_index,
                old(words)@.len() as int,
                Seq::<u8>::empty(),
            ),
            final(words)@ == pump_reads(Seq::<u8>::empty(), old(words)@.len() as int),
    {
        shared.bus.configure(&self.config, Some(self.cs_index));
        shared.bus.start_frame();
        let empty: Vec<u8> = Vec::new();
        let result = shared.bus.perform_transfer(words, &empty);
        shared.bus.end_frame();
        result
    }
}

} // verus!
