//! Configuration values: everything one device wants from the bus.

use vstd::prelude::*;

verus! {

/// Level of the serial clock line while no transfer is running.
#[derive(Clone, Copy, PartialEq, Eq, Structural, Debug)]
pub enum Polarity {
    /// The clock idles low.
    IdleLow,
    /// The clock idles high.
    IdleHigh,
}

/// Clock edge on which incoming data is captured.
#[derive(Clone, Copy, PartialEq, Eq, Structural, Debug)]
pub enum Phase {
    /// Data is captured on the first clock transition of a bit period.
    CaptureOnFirstTransition,
    /// Data is captured on the second clock transition of a bit period.
    CaptureOnSecondTransition,
}

/// One of the four standard serial modes, as a polarity/phase pair.
#[derive(Clone, Copy, PartialEq, Eq, Structural, Debug)]
pub struct Mode {
    /// Idle level of the clock line.
    pub polarity: Polarity,
    /// Capture edge.
    pub phase: Phase,
}

/// Hardware chip-select behaviour, as held by the controller's
/// chip-select mode register. The register encodings are `Auto` = 0,
/// `Hold` = 2 and `Off` = 3.
#[derive(Clone, Copy, PartialEq, Eq, Structural, Debug)]
pub enum CsMode {
    /// Hardware asserts and deasserts the line around each byte frame.
    Auto,
    /// Hardware keeps the line asserted until the mode is changed again.
    Hold,
    /// Hardware control of the line is disabled; the caller manages it.
    Off,
}

/// Contents of the controller's two delay registers, passed through
/// unchanged from a configuration.
#[derive(Clone, Copy, PartialEq, Eq, Structural, Debug)]
pub struct Delays {
    /// Delay between chip-select assert and the first clock edge.
    pub cssck: u8,
    /// Delay between the last clock edge and chip-select deassert.
    pub sckcs: u8,
    /// Minimum delay between two chip-select assertions.
    pub intercs: u8,
    /// Delay between frames that do not deassert chip-select.
    pub interxfr: u8,
}

/// An immutable description of how one device wants the bus configured.
#[derive(Clone, Copy, PartialEq, Eq, Structural, Debug)]
pub struct SpiConfig {
    /// Value for the serial clock divisor register.
    pub clock_divisor: u32,
    /// Serial mode (clock polarity and phase).
    pub mode: Mode,
    /// Chip-select behaviour requested by the device.
    pub cs_mode: CsMode,
    /// Transmit FIFO watermark.
    pub txmark: u8,
    /// Receive FIFO watermark.
    pub rxmark: u8,
    /// Delay register contents.
    pub delays: Delays,
}

impl SpiConfig {
    /// The divisor register is twelve bits wide, so a configuration is
    /// well formed only when its divisor fits that register.
    pub open spec fn wf(self) -> bool {
        self.clock_divisor <= 0xfff
    }

    /// Builds a configuration for a target clock rate.
    ///
    /// The divisor is derived as `base_clock / freq - 1`; keeping the
    /// divisor representable is the caller's responsibility, stated here
    /// as a precondition rather than checked at run time. Watermarks
    /// default to one pending transmit entry and any received entry, and
    /// all delays default to zero.
    pub fn new(mode: Mode, cs_mode: CsMode, freq: u32, base_clock: u32) -> (cfg: SpiConfig)
        requires
            0 < freq,
            1 <= base_clock / freq,
            base_clock / freq - 1 <= 0xfff,
        ensures
            cfg == (SpiConfig {
                clock_divisor: (base_clock / freq - 1) as u32,
                mode,
                cs_mode,
                txmark: 1,
                rxmark: 0,
                delays: Delays { cssck: 0, sckcs: 0, intercs: 0, interxfr: 0 },
            }),
            cfg.wf(),
    {
        SpiConfig {
            clock_divisor: base_clock / freq - 1,
            mode,
            cs_mode,
            txmark: 1,
            rxmark: 0,
            delays: Delays { cssck: 0, sckcs: 0, intercs: 0, interxfr: 0 },
        }
    }
}

} // verus!
