//! Shared bus: brokers exclusive, short-lived access to one bus among
//! several shared devices.
//!
//! On a single core the strongest mutual-exclusion primitive safe to use
//! from both normal and interrupt context is one that admits at most one
//! holder at any instant. Here that role is played by the exclusive
//! borrow: every operation that touches the underlying bus goes through
//! `&mut SharedBus`, so no two devices' register writes can interleave,
//! and each transaction's writes form one contiguous block of the
//! controller's log.

use vstd::prelude::*;

use crate::spi::bus::SpiBus;
use crate::spi::config::SpiConfig;
use crate::spi::controller::{spec_end_frame, spec_start_frame, CtlView, SpiController};
use crate::spi::shared_device::SpiSharedDevice;

verus! {

/// Holder of the one bus that several shared devices time-share.
pub struct SharedBus {
    /// The wrapped bus; reached through an exclusive borrow of the
    /// wrapper.
    pub bus: SpiBus,
}

impl View for SharedBus {
    type V = CtlView;

    open spec fn view(&self) -> CtlView {
        self.bus@
    }
}

impl SpiBus {
    /// Wraps a controller in a shared bus, for use with several devices.
    pub fn shared(ctl: SpiController) -> (shared: SharedBus)
        ensures
            shared@ == ctl@,
    {
        SharedBus::new(SpiBus::new(ctl))
    }
}

impl SharedBus {
    /// Wraps an existing bus.
    pub fn new(bus: SpiBus) -> (shared: SharedBus)
        ensures
            shared@ == bus@,
    {
        SharedBus { bus }
    }

    /// Creates a new shared device for this bus, with its own
    /// chip-select line and its own copy of the configuration.
    pub fn new_device(&self, cs_index: u32, config: &SpiConfig) -> (dev: SpiSharedDevice)
        ensures
            dev.cs_index == cs_index,
            dev.config == *config,
    {
        SpiSharedDevice::new(cs_index, config)
    }

    /// Starts a frame on the underlying bus.
    pub fn start_frame(&mut self)
        ensures
            final(self)@ == spec_start_frame(old(self)@),
    {
        self.bus.start_frame();
    }

    /// Ends a frame on the underlying bus.
    pub fn end_frame(&mut self)
        ensures
            final(self)@ == spec_end_frame(old(self)@),
    {
        self.bus.end_frame();
    }

    /// Releases the underlying controller.
    pub fn release(self) -> (ctl: SpiController)
        ensures
            ctl@ == self@,
    {
        self.bus.release()
    }
}

} // verus!
