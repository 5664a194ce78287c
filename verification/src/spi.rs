//! Serial Peripheral Interface.
//!
//! The controller is modelled at register level by [`controller::SpiController`];
//! [`bus::SpiBus`] applies configurations and runs the byte pump over it,
//! and the device layers broker exclusive or shared access to one bus.

pub mod bus;
pub mod config;
pub mod controller;
pub mod exclusive_device;
pub mod lemmas;
pub mod nonblock;
pub mod shared_bus;
pub mod shared_device;

pub use bus::{ErrorKind, SpiBus};
pub use config::{CsMode, Delays, Mode, Phase, Polarity, SpiConfig};
pub use controller::{CtlView, RegWrite, SpiController, FIFO_DEPTH};
pub use exclusive_device::{Operation, SpiExclusiveDevice};
pub use nonblock::{AsyncTransferFuture, AsyncWriteFuture, AsyncWriteIterFuture};
pub use shared_bus::SharedBus;
pub use shared_device::SpiSharedDevice;

use vstd::prelude::*;

use crate::spi::bus::same_regs;
use crate::spi::controller::{pump_log, spec_end_frame, spec_pump, spec_start_frame};
use crate::status::Nb;

verus! {

/// The register writes the full-duplex constructor performs, in order.
pub open spec fn spi_new_log(cs_index: Option<u32>, mode: Mode, div: u32) -> Seq<RegWrite> {
    seq![RegWrite::Sckdiv(div)] + (match cs_index {
        Some(i) => seq![RegWrite::Csid(i), RegWrite::Csmode(CsMode::Hold)],
        None => seq![RegWrite::Csmode(CsMode::Off)],
    }) + seq![
        RegWrite::Csdef(1),
        RegWrite::Sckmode(
            mode.phase == Phase::CaptureOnSecondTransition,
            mode.polarity == Polarity::IdleHigh,
        ),
        RegWrite::Fmt,
        RegWrite::Txmark(1),
        RegWrite::Rxmark(0),
        RegWrite::Delay0(0, 0),
        RegWrite::Delay1(0, 0),
    ]
}

/// Effect of the full-duplex constructor on the controller: the divisor
/// is written, hardware chip-select control is enabled on the given line
/// (mode register value two, which holds the line for the frame in
/// flight) or disabled when no line is given (value three), polarity is
/// set inactive-high, the serial mode bits are set, the wire format is
/// fixed, the watermarks default to one pending transmit entry and any
/// received entry, and the delays are reset.
pub open spec fn spec_spi_new(m: CtlView, cs_index: Option<u32>, mode: Mode, div: u32) -> CtlView {
    CtlView {
        sckdiv: div,
        csid: match cs_index {
            Some(i) => i,
            None => m.csid,
        },
        csmode: if cs_index is Some {
            CsMode::Hold
        } else {
            CsMode::Off
        },
        csdef: 1,
        pha: mode.phase == Phase::CaptureOnSecondTransition,
        pol: mode.polarity == Polarity::IdleHigh,
        fmt_proto: 0,
        fmt_msb_first: true,
        fmt_dir_rx: true,
        fmt_len: 8,
        txmark: 1,
        rxmark: 0,
        cssck: 0,
        sckcs: 0,
        intercs: 0,
        interxfr: 0,
        log: m.log + spi_new_log(cs_index, mode, div),
        ..m
    }
}

/// Full-duplex master-mode abstraction over one controller.
pub struct Spi {
    /// The bus wrapping the controller this abstraction drives.
    pub bus: SpiBus,
}

impl View for Spi {
    type V = CtlView;

    open spec fn view(&self) -> CtlView {
        self.bus@
    }
}

impl Spi {
    /// Configures the controller to operate in full-duplex master mode.
    /// The clock divisor is derived as `base_clock / freq - 1`, the same
    /// derivation the configuration type uses; keeping it representable
    /// in the twelve-bit divisor register is the caller's
    /// responsibility, stated as a precondition.
    pub fn new(ctl: SpiController, cs_index: Option<u32>, mode: Mode, freq: u32, base_clock: u32)
        -> (spi: Spi)
        requires
            0 < freq,
            1 <= base_clock / freq,
            base_clock / freq - 1 <= 0xfff,
        ensures
            spi@ == spec_spi_new(ctl@, cs_index, mode, (base_clock / freq - 1) as u32),
    {
        let mut bus = SpiBus::new(ctl);
        let div: u32 = base_clock / freq - 1;
        bus.ctl.write_sckdiv(div);

        match cs_index {
            Some(i) => {
                bus.ctl.write_csid(i);
                bus.ctl.write_csmode(CsMode::Hold);
            },
            None => {
                bus.ctl.write_csmode(CsMode::Off);
            },
        }

        // Chip-select polarity: inactive high.
        bus.ctl.write_csdef(1);

        let phase = mode.phase == Phase::CaptureOnSecondTransition;
        let polarity = mode.polarity == Polarity::IdleHigh;
        bus.ctl.write_sckmode(phase, polarity);

        bus.ctl.write_fmt();

        bus.ctl.write_txmark(1);
        bus.ctl.write_rxmark(0);

        bus.ctl.write_delay0(0, 0);
        bus.ctl.write_delay1(0, 0);

        let spi = Spi { bus };
        proof {
            assert(spi@ =~= spec_spi_new(ctl@, cs_index, mode, div));
        }
        spi
    }

    /// Sets the transmit watermark level.
    pub fn set_tx_watermark(&mut self, value: u8)
        ensures
            final(self)@ == (CtlView {
                txmark: value,
                log: old(self)@.log.push(RegWrite::Txmark(value)),
                ..old(self)@
            }),
    {
        self.bus.ctl.write_txmark(value);
    }

    /// Sets the receive watermark level.
    pub fn set_rx_watermark(&mut self, value: u8)
        ensures
            final(self)@ == (CtlView {
                rxmark: value,
                log: old(self)@.log.push(RegWrite::Rxmark(value)),
                ..old(self)@
            }),
    {
        self.bus.ctl.write_rxmark(value);
    }

    /// Returns the transmit watermark event status: pending while the
    /// transmit FIFO holds fewer entries than the watermark.
    pub fn tx_wm_is_pending(&self) -> (pending: bool)
        ensures
            pending == (self@.tx_fifo.len() < self@.txmark),
    {
        self.bus.ctl.ip_txwm()
    }

    /// Returns the receive watermark event status: pending while the
    /// receive FIFO holds more entries than the watermark.
    pub fn rx_wm_is_pending(&self) -> (pending: bool)
        ensures
            pending == (self@.rx_fifo.len() > self@.rxmark),
    {
        self.bus.ctl.ip_rxwm()
    }

    /// Starts listening for the transmit watermark interrupt event; the
    /// whole interrupt-enable register is rewritten, so the receive
    /// watermark event is no longer listened to.
    pub fn listen_tx_wm(&mut self)
        ensures
            final(self)@ == (CtlView {
                ie_txwm: true,
                ie_rxwm: false,
                log: old(self)@.log.push(RegWrite::Ie(true, false)),
                ..old(self)@
            }),
    {
        self.bus.ctl.write_ie(true, false);
    }

    /// Starts listening for the receive watermark interrupt event; the
    /// whole interrupt-enable register is rewritten, so the transmit
    /// watermark event is no longer listened to.
    pub fn listen_rx_wm(&mut self)
        ensures
            final(self)@ == (CtlView {
                ie_txwm: false,
                ie_rxwm: true,
                log: old(self)@.log.push(RegWrite::Ie(false, true)),
                ..old(self)@
            }),
    {
        self.bus.ctl.write_ie(false, true);
    }

    /// Stops listening for the transmit watermark interrupt event.
    pub fn unlisten_tx_wm(&mut self)
        ensures
            final(self)@ == (CtlView {
                ie_txwm: false,
                ie_rxwm: false,
                log: old(self)@.log.push(RegWrite::Ie(false, false)),
                ..old(self)@
            }),
    {
        self.bus.ctl.write_ie(false, false);
    }

    /// Stops listening for the receive watermark interrupt event.
    pub fn unlisten_rx_wm(&mut self)
        ensures
            final(self)@ == (CtlView {
                ie_txwm: false,
                ie_rxwm: false,
                log: old(self)@.log.push(RegWrite::Ie(false, false)),
                ..old(self)@
            }),
    {
        self.bus.ctl.write_ie(false, false);
    }

    /// Sets automatic chip-select control to per-word operation, which
    /// deasserts the line between frames, unless hardware control is
    /// off.
    pub fn cs_mode_word(&mut self)
        ensures
            final(self)@ == spec_end_frame(old(self)@),
    {
        self.bus.end_frame();
    }

    /// Sets chip-select control to hold the line for the frame in
    /// flight, unless hardware control is off.
    pub fn cs_mode_frame(&mut self)
        ensures
            final(self)@ == spec_start_frame(old(self)@),
    {
        self.bus.start_frame();
    }

    /// Finishes a transfer by deasserting chip-select (only meaningful
    /// under hardware chip-select control).
    pub fn end_transfer(&mut self)
        ensures
            final(self)@ == spec_end_frame(old(self)@),
    {
        self.cs_mode_word()
    }

    /// Releases the controller.
    pub fn free(self) -> (ctl: SpiController)
        ensures
            ctl@ == self@,
    {
        self.bus.release()
    }

    /// Non-blocking read of one byte from the receive-data register.
    pub fn read(&mut self) -> (r: Nb<u8>)
        ensures
            old(self)@.rx_fifo.len() > 0 ==> r == Nb::Ready(old(self)@.rx_fifo[0]) && final(self)@
                == (CtlView { rx_fifo: old(self)@.rx_fifo.remove(0), ..old(self)@ }),
            old(self)@.rx_fifo.len() == 0 && old(self)@.tx_fifo.len() > 0 ==> r == Nb::Ready(
                old(self)@.tx_fifo[0],
            ) && final(self)@ == (CtlView { tx_fifo: old(self)@.tx_fifo.remove(0), ..old(self)@ }),
            old(self)@.rx_fifo.len() == 0 && old(self)@.tx_fifo.len() == 0 ==> r
                == Nb::WouldBlock::<u8> && final(self)@ == old(self)@,
    {
        match self.bus.ctl.rxdata_read() {
            Some(b) => Nb::Ready(b),
            None => Nb::WouldBlock,
        }
    }

    /// Non-blocking write of one byte to the transmit-data register;
    /// reports that it would block while the transmit FIFO is full.
    pub fn send(&mut self, byte: u8) -> (r: Nb<()>)
        ensures
            old(self)@.tx_fifo.len() < FIFO_DEPTH ==> r == Nb::Ready(()) && final(self)@
                == (CtlView {
                tx_fifo: old(self)@.tx_fifo.push(byte),
                log: old(self)@.log.push(RegWrite::Txdata(byte)),
                ..old(self)@
            }),
            old(self)@.tx_fifo.len() >= FIFO_DEPTH ==> r == Nb::WouldBlock::<()> && final(self)@
                == old(self)@,
    {
        if self.bus.ctl.txdata_full() {
            Nb::WouldBlock
        } else {
            self.bus.ctl.txdata_write(byte);
            Nb::Ready(())
        }
    }

    /// Blocking in-place transfer: drains stale receive bytes, brackets
    /// the byte pump in a chip-select frame, and replaces each byte of
    /// the buffer with the byte received in its place (itself, over the
    /// loopback wire).
    pub fn transfer(&mut self, words: &mut Vec<u8>) -> (r: Result<(), ErrorKind>)
        ensures
            r == Ok::<(), ErrorKind>(()),
            final(self)@ == spec_end_frame(
                spec_pump(
                    spec_start_frame(old(self)@),
                    old(words)@.len() as int,
                    old(words)@,
                ),
            ),
            final(words)@ == old(words)@,
    {
        self.bus.start_frame();
        let result = self.bus.transfer_in_place(words);
        self.bus.end_frame();
        result
    }

    /// Blocking write: like `transfer`, with every received byte
    /// discarded.
    pub fn write(&mut self, words: &Vec<u8>) -> (r: Result<(), ErrorKind>)
        ensures
            r == Ok::<(), ErrorKind>(()),
            final(self)@ == spec_end_frame(
                spec_pump(spec_start_frame(old(self)@), words@.len() as int, words@),
            ),
    {
        self.bus.start_frame();
        let result = self.bus.write(words);
        self.bus.end_frame();
        result
    }

    /// Blocking write of a streamed byte sequence: the length is not
    /// known up front, so instead of cursors the pump keeps a count of
    /// outstanding bytes, pushing while bytes and FIFO room remain and
    /// discarding one received byte for each outstanding one. The
    /// register effect is the same as for `write`.
    pub fn write_iter(&mut self, words: &Vec<u8>) -> (r: Result<(), ErrorKind>)
        ensures
            r == Ok::<(), ErrorKind>(()),
            final(self)@ == spec_end_frame(
                spec_pump(spec_start_frame(old(self)@), words@.len() as int, words@),
            ),
    {
        // Ensure that the receive FIFO is empty.
        self.bus.wait_for_rxfifo();
        self.bus.start_frame();

        let ghost m1 = self@;
        let ghost full_log = pump_log(words@, words@.len() as int);
        proof {
            assert(self@.tx_fifo =~= words@.subrange(0, 0));
            assert(self@.log =~= m1.log + full_log.subrange(0, 0));
        }

        let mut index: usize = 0;
        let mut read_count: u8 = 0;
        let mut has_data: bool = true;

        while has_data || read_count > 0
            invariant
                index <= words@.len(),
                !has_data ==> index == words@.len(),
                read_count as int <= index as int,
                read_count as int == self@.tx_fifo.len(),
                self@.tx_fifo.len() <= FIFO_DEPTH,
                self@.rx_fifo.len() == 0,
                self@.tx_fifo == words@.subrange(index - read_count, index as int),
                self@.log == m1.log + full_log.subrange(0, index as int),
                same_regs(m1, self@),
                full_log == pump_log(words@, words@.len() as int),
            decreases 2 * (words@.len() - index) + read_count + (if has_data {
                1int
            } else {
                0int
            }),
        {
            if has_data && !self.bus.ctl.txdata_full() {
                if index < words.len() {
                    let byte: u8 = words[index];
                    self.bus.ctl.txdata_write(byte);
                    index = index + 1;
                    read_count = read_count + 1;
                    proof {
                        assert(self@.tx_fifo =~= words@.subrange(
                            index - read_count,
                            index as int,
                        ));
                        assert(self@.log =~= m1.log + full_log.subrange(0, index as int));
                    }
                } else {
                    has_data = false;
                }
            }

            if read_count > 0 {
                match self.bus.ctl.rxdata_read() {
                    Some(_) => {
                        read_count = read_count - 1;
                        proof {
                            assert(self@.tx_fifo =~= words@.subrange(
                                index - read_count,
                                index as int,
                            ));
                        }
                    },
                    None => {
                        proof {
                            assert(false);
                        }
                    },
                }
            }
        }

        proof {
            assert(self@ =~= spec_pump(spec_start_frame(old(self)@), words@.len() as int, words@));
        }
        self.bus.end_frame();
        Ok(())
    }
}

} // verus!
