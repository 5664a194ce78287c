//! SPI bus abstraction: applies a configuration to the controller's
//! registers and performs the raw byte pump.

use vstd::prelude::*;

use crate::spi::config::{CsMode, Phase, Polarity, SpiConfig};
use crate::spi::controller::{
    cs_deasserted, pump_log, pump_reads, pushed_byte, spec_configure, spec_drain, spec_end_frame,
    spec_pump, spec_start_frame, transfer_len, CtlView, SpiController,
};

verus! {

/// Kinds of bus error. The byte pump itself is infallible once started —
/// status bits are trusted absolutely — so the bus never raises one of
/// these; the type exists so that a caller-supplied transaction body can
/// fail and have its error propagated unchanged.
#[derive(Clone, Copy, PartialEq, Eq, Debug)]
pub enum ErrorKind {
    /// A receive overrun was detected.
    Overrun,
    /// A mode fault was detected.
    ModeFault,
    /// A frame format fault was detected.
    FrameFormat,
    /// A chip-select fault was detected.
    ChipSelectFault,
    /// Any other error.
    Other,
}

/// True when `a` and `b` agree on every configuration register; the
/// FIFOs and the log are left out of the comparison.
pub open spec fn same_regs(a: CtlView, b: CtlView) -> bool {
    b == (CtlView { tx_fifo: b.tx_fifo, rx_fifo: b.rx_fifo, log: b.log, ..a })
}

/// SPI bus abstraction: owns exactly one controller.
pub struct SpiBus {
    /// The controller this bus drives.
    pub ctl: SpiController,
}

impl View for SpiBus {
    type V = CtlView;

    open spec fn view(&self) -> CtlView {
        self.ctl@
    }
}

impl SpiBus {
    /// Constructs the bus around a controller, for use with an exclusive
    /// or a shared device.
    pub fn new(ctl: SpiController) -> (bus: SpiBus)
        ensures
            bus@ == ctl@,
    {
        SpiBus { ctl }
    }

    /// Releases the controller.
    pub fn release(self) -> (ctl: SpiController)
        ensures
            ctl@ == self@,
    {
        self.ctl
    }

    /// Applies a configuration: writes the clock divisor, selects the
    /// chip-select line if one is given, sets the chip-select mode and
    /// polarity, the serial mode bits, the fixed wire format, the
    /// watermarks and the delays, and finally forces a frame end so the
    /// bus starts from a known idle, deasserted state.
    pub fn configure(&mut self, config: &SpiConfig, cs_index: Option<u32>)
        requires
            config.wf(),
        ensures
            final(self)@ == spec_configure(old(self)@, *config, cs_index),
            cs_deasserted(final(self)@),
    {
        self.ctl.write_sckdiv(config.clock_divisor);
        if let Some(index) = cs_index {
            self.ctl.write_csid(index);
        }
        self.ctl.write_csmode(config.cs_mode);

        // Chip-select polarity: inactive high on every line.
        self.ctl.write_csdef(1);

        let phase = config.mode.phase == Phase::CaptureOnSecondTransition;
        let polarity = config.mode.polarity == Polarity::IdleHigh;
        self.ctl.write_sckmode(phase, polarity);

        self.ctl.write_fmt();

        self.ctl.write_txmark(config.txmark);
        self.ctl.write_rxmark(config.rxmark);

        self.ctl.write_delay0(config.delays.cssck, config.delays.sckcs);
        self.ctl.write_delay1(config.delays.intercs, config.delays.interxfr);

        // Ensure chip-select is deasserted before the first frame.
        self.end_frame();
        proof {
            assert(self@ =~= spec_configure(old(self)@, *config, cs_index));
        }
    }

    /// Polls the receive-data register until it reports empty, so that a
    /// following pump cannot consume stale bytes from an earlier
    /// transaction. Registers and log are untouched.
    pub fn wait_for_rxfifo(&mut self)
        ensures
            final(self)@ == spec_drain(old(self)@),
    {
        let ghost m0 = self@;
        loop
            invariant_except_break
                same_regs(m0, self@),
                self@.log == m0.log,
            ensures
                self@ == spec_drain(m0),
            decreases self@.rx_fifo.len() + self@.tx_fifo.len(),
        {
            let r = self.ctl.rxdata_read();
            if r.is_none() {
                proof {
                    assert(self@ =~= spec_drain(m0));
                }
                break;
            }
        }
    }

    /// Starts a frame: flags chip-select hold, unless hardware
    /// chip-select control is off.
    pub fn start_frame(&mut self)
        ensures
            final(self)@ == spec_start_frame(old(self)@),
    {
        if self.ctl.read_csmode() != CsMode::Off {
            self.ctl.write_csmode(CsMode::Hold);
        }
    }

    /// Ends a frame: flags chip-select deassert by returning the mode
    /// register to automatic control, unless hardware chip-select
    /// control is off.
    pub fn end_frame(&mut self)
        ensures
            final(self)@ == spec_end_frame(old(self)@),
    {
        if self.ctl.read_csmode() != CsMode::Off {
            self.ctl.write_csmode(CsMode::Auto);
        }
    }

    /// Reports whether the chip-select line is deasserted.
    pub fn cs_is_deasserted(&self) -> (r: bool)
        ensures
            r == cs_deasserted(self@),
    {
        self.ctl.read_csmode() != CsMode::Hold
    }

    /// The byte pump: drains the write buffer into the transmit FIFO and
    /// simultaneously drains the receive FIFO into the read buffer,
    /// maximizing overlap. The pump runs for the longer of the two
    /// buffers; once the write buffer is exhausted a zero filler byte
    /// keeps the clock running, and received bytes beyond the read
    /// buffer are discarded. The read cursor never outruns the write
    /// cursor. Before pumping, the receive FIFO is drained of stale
    /// bytes.
    pub fn perform_transfer(&mut self, read: &mut Vec<u8>, write: &Vec<u8>) -> (r: Result<
        (),
        ErrorKind,
    >)
        ensures
            r == Ok::<(), ErrorKind>(()),
            final(self)@ == spec_pump(
                old(self)@,
                transfer_len(old(read)@.len() as int, write@.len() as int),
                write@,
            ),
            final(read)@ == pump_reads(write@, old(read)@.len() as int),
    {
        let mut iwrite: usize = 0;
        let mut iread: usize = 0;
        let bytes: usize = if read.len() > write.len() {
            read.len()
        } else {
            write.len()
        };

        // Ensure that the receive FIFO is empty.
        self.wait_for_rxfifo();

        let ghost m1 = self@;
        let ghost r0 = read@;
        // The stream of bytes the pump will push, fillers included.
        let ghost p = pump_reads(write@, bytes as int);
        let ghost full_log = pump_log(write@, bytes as int);
        proof {
            assert(self@.tx_fifo =~= p.subrange(0, 0));
            assert(self@.log =~= m1.log + full_log.subrange(0, 0));
        }

        while iwrite < bytes || iread < bytes
            invariant
                iread <= iwrite <= bytes,
                bytes as int == transfer_len(r0.len() as int, write@.len() as int),
                p == pump_reads(write@, bytes as int),
                full_log == pump_log(write@, bytes as int),
                read@.len() == r0.len(),
                self@.rx_fifo.len() == 0,
                self@.tx_fifo == p.subrange(iread as int, iwrite as int),
                self@.log == m1.log + full_log.subrange(0, iwrite as int),
                same_regs(m1, self@),
                forall|i: int|
                    0 <= i < r0.len() ==> read@[i] == (if i < iread {
                        pushed_byte(write@, i)
                    } else {
                        r0[i]
                    }),
            decreases (bytes - iwrite) + (bytes - iread),
        {
            if iwrite < bytes && !self.ctl.txdata_full() {
                let byte: u8 = if iwrite < write.len() {
                    write[iwrite]
                } else {
                    0
                };
                iwrite = iwrite + 1;
                self.ctl.txdata_write(byte);
                proof {
                    assert(self@.tx_fifo =~= p.subrange(iread as int, iwrite as int));
                    assert(self@.log =~= m1.log + full_log.subrange(0, iwrite as int));
                }
            }

            if iread < iwrite {
                let d = self.ctl.rxdata_read();
                match d {
                    Some(b) => {
                        proof {
                            assert(b == pushed_byte(write@, iread as int));
                        }
                        if iread < read.len() {
                            read.set(iread, b);
                        }
                        iread = iread + 1;
                        proof {
                            assert(self@.tx_fifo =~= p.subrange(iread as int, iwrite as int));
                        }
                    },
                    None => {
                        proof {
                            assert(false);
                        }
                    },
                }
            }
        }
        proof {
            assert(self@ =~= spec_pump(
                old(self)@,
                transfer_len(r0.len() as int, write@.len() as int),
                write@,
            ));
            assert(read@ =~= pump_reads(write@, r0.len() as int));
        }
        Ok(())
    }

    /// Flushing is unnecessary: every pump leaves both FIFOs empty.
    pub fn flush(&mut self) -> (r: Result<(), ErrorKind>)
        ensures
            r == Ok::<(), ErrorKind>(()),
            final(self)@ == old(self)@,
    {
        Ok(())
    }

    /// Reads `words.len()` bytes: the byte pump with the write buffer's
    /// logical length reduced to zero, so only zero fillers are clocked
    /// out.
    pub fn read(&mut self, words: &mut Vec<u8>) -> (r: Result<(), ErrorKind>)
        ensures
            r == Ok::<(), ErrorKind>(()),
            final(self)@ == spec_pump(old(self)@, old(words)@.len() as int, Seq::<u8>::empty()),
            final(words)@ == pump_reads(Seq::<u8>::empty(), old(words)@.len() as int),
    {
        let empty: Vec<u8> = Vec::new();
        self.perform_transfer(words, &empty)
    }

    /// Writes every byte of `words`: the byte pump with the read
    /// buffer's logical length reduced to zero, so every received byte
    /// is discarded.
    pub fn write(&mut self, words: &Vec<u8>) -> (r: Result<(), ErrorKind>)
        ensures
            r == Ok::<(), ErrorKind>(()),
            final(self)@ == spec_pump(old(self)@, words@.len() as int, words@),
    {
        let mut sink: Vec<u8> = Vec::new();
        self.perform_transfer(&mut sink, words)
    }

    /// Full-duplex transfer: writes every byte of `write` while filling
    /// `read` with what comes back.
    pub fn transfer(&mut self, read: &mut Vec<u8>, write: &Vec<u8>) -> (r: Result<(), ErrorKind>)
        ensures
            r == Ok::<(), ErrorKind>(()),
            final(self)@ == spec_pump(
                old(self)@,
                transfer_len(old(read)@.len() as int, write@.len() as int),
                write@,
            ),
            final(read)@ == pump_reads(write@, old(read)@.len() as int),
    {
        self.perform_transfer(read, write)
    }

    /// Full-duplex transfer through a single buffer: each byte is
    /// written out and replaced by the byte received in its place. Over
    /// the loopback wire every byte is replaced by itself, so the buffer
    /// is unchanged.
    pub fn transfer_in_place(&mut self, words: &mut Vec<u8>) -> (r: Result<(), ErrorKind>)
        ensures
            r == Ok::<(), ErrorKind>(()),
            final(self)@ == spec_pump(old(self)@, old(words)@.len() as int, old(words)@),
            final(words)@ == old(words)@,
    {
        let mut iwrite: usize = 0;
        let mut iread: usize = 0;
        let bytes: usize = words.len();

        // Ensure that the receive FIFO is empty.
        self.wait_for_rxfifo();

        let ghost m1 = self@;
        let ghost w0 = words@;
        let ghost full_log = pump_log(w0, bytes as int);
        proof {
            assert(self@.tx_fifo =~= w0.subrange(0, 0));
            assert(self@.log =~= m1.log + full_log.subrange(0, 0));
        }

        while iwrite < bytes || iread < bytes
            invariant
                iread <= iwrite <= bytes,
                bytes == w0.len(),
                full_log == pump_log(w0, bytes as int),
                words@ == w0,
                self@.rx_fifo.len() == 0,
                self@.tx_fifo == w0.subrange(iread as int, iwrite as int),
                self@.log == m1.log + full_log.subrange(0, iwrite as int),
                same_regs(m1, self@),
            decreases (bytes - iwrite) + (bytes - iread),
        {
            if iwrite < bytes && !self.ctl.txdata_full() {
                let byte: u8 = words[iwrite];
                iwrite = iwrite + 1;
                self.ctl.txdata_write(byte);
                proof {
                    assert(self@.tx_fifo =~= w0.subrange(iread as int, iwrite as int));
                    assert(self@.log =~= m1.log + full_log.subrange(0, iwrite as int));
                }
            }

            if iread < iwrite {
                let d = self.ctl.rxdata_read();
                match d {
                    Some(b) => {
                        proof {
                            assert(b == w0[iread as int]);
                        }
                        words.set(iread, b);
                        iread = iread + 1;
                        proof {
                            assert(words@ =~= w0);
                            assert(self@.tx_fifo =~= w0.subrange(iread as int, iwrite as int));
                        }
                    },
                    None => {
                        proof {
                            assert(false);
                        }
                    },
                }
            }
        }
        proof {
            assert(self@ =~= spec_pump(old(self)@, w0.len() as int, w0));
        }
        Ok(())
    }
}

} // verus!
