//! Register-level model of one serial-peripheral-interface controller.
//!
//! The controller is modelled as plain data: the configuration registers,
//! the two fixed-depth hardware FIFOs, and a log that records every
//! register write in order. The simulated wire is a zero-latency loopback:
//! a byte taken from the transmit queue is available to the receive side
//! at once, so the receive queue only ever holds bytes left over from an
//! earlier session. Reads of the receive-data register are not logged;
//! the log is the record of everything the driver wrote.

use vstd::prelude::*;

use crate::spi::config::{CsMode, SpiConfig, Phase, Polarity};

verus! {

/// Number of entries in each hardware FIFO.
pub const FIFO_DEPTH: usize = 8;

/// One recorded write to a controller register.
#[derive(Clone, Copy, PartialEq, Eq, Structural, Debug)]
pub enum RegWrite {
    /// Serial clock divisor register.
    Sckdiv(u32),
    /// Chip-select line index register.
    Csid(u32),
    /// Chip-select mode register.
    Csmode(CsMode),
    /// Chip-select default-polarity register.
    Csdef(u32),
    /// Serial clock mode register: phase bit, polarity bit.
    Sckmode(bool, bool),
    /// Frame format register (always single lane, MSB first, eight bits,
    /// receive direction, so the entry carries no payload).
    Fmt,
    /// Transmit watermark register.
    Txmark(u8),
    /// Receive watermark register.
    Rxmark(u8),
    /// First delay register: assert-to-clock, clock-to-deassert.
    Delay0(u8, u8),
    /// Second delay register: between-assert, intra-frame.
    Delay1(u8, u8),
    /// Interrupt-enable register: transmit watermark, receive watermark.
    Ie(bool, bool),
    /// One byte pushed into the transmit FIFO.
    Txdata(u8),
}

/// Mathematical view of a controller: register values, FIFO contents and
/// the write log, all as plain values and sequences.
#[verifier::ext_equal]
pub ghost struct CtlView {
    /// Serial clock divisor.
    pub sckdiv: u32,
    /// Selected chip-select line.
    pub csid: u32,
    /// Chip-select default polarity mask.
    pub csdef: u32,
    /// Chip-select mode.
    pub csmode: CsMode,
    /// Serial clock phase bit.
    pub pha: bool,
    /// Serial clock polarity bit.
    pub pol: bool,
    /// Frame format: protocol (zero is single lane).
    pub fmt_proto: u8,
    /// Frame format: most-significant bit first.
    pub fmt_msb_first: bool,
    /// Frame format: receive direction enabled.
    pub fmt_dir_rx: bool,
    /// Frame format: bits per frame.
    pub fmt_len: u8,
    /// Transmit watermark.
    pub txmark: u8,
    /// Receive watermark.
    pub rxmark: u8,
    /// Delay between chip-select assert and first clock edge.
    pub cssck: u8,
    /// Delay between last clock edge and chip-select deassert.
    pub sckcs: u8,
    /// Minimum delay between chip-select assertions.
    pub intercs: u8,
    /// Intra-frame delay.
    pub interxfr: u8,
    /// Transmit-watermark interrupt enable.
    pub ie_txwm: bool,
    /// Receive-watermark interrupt enable.
    pub ie_rxwm: bool,
    /// Contents of the transmit FIFO, oldest byte first.
    pub tx_fifo: Seq<u8>,
    /// Contents of the receive FIFO, oldest byte first.
    pub rx_fifo: Seq<u8>,
    /// Every register write performed so far, in order.
    pub log: Seq<RegWrite>,
}

/// A simulated controller, as the driver sees it.
pub struct SpiController {
    /// Serial clock divisor register.
    pub sckdiv: u32,
    /// Chip-select line index register.
    pub csid: u32,
    /// Chip-select default-polarity register.
    pub csdef: u32,
    /// Chip-select mode register.
    pub csmode: CsMode,
    /// Serial clock phase bit.
    pub pha: bool,
    /// Serial clock polarity bit.
    pub pol: bool,
    /// Frame format: protocol.
    pub fmt_proto: u8,
    /// Frame format: most-significant bit first.
    pub fmt_msb_first: bool,
    /// Frame format: receive direction enabled.
    pub fmt_dir_rx: bool,
    /// Frame format: bits per frame.
    pub fmt_len: u8,
    /// Transmit watermark register.
    pub txmark: u8,
    /// Receive watermark register.
    pub rxmark: u8,
    /// Delay register: assert-to-clock.
    pub cssck: u8,
    /// Delay register: clock-to-deassert.
    pub sckcs: u8,
    /// Delay register: between chip-select assertions.
    pub intercs: u8,
    /// Delay register: intra-frame.
    pub interxfr: u8,
    /// Transmit-watermark interrupt enable.
    pub ie_txwm: bool,
    /// Receive-watermark interrupt enable.
    pub ie_rxwm: bool,
    /// Transmit FIFO, oldest byte first.
    pub tx_fifo: Vec<u8>,
    /// Receive FIFO, oldest byte first.
    pub rx_fifo: Vec<u8>,
    /// Record of every register write, in order.
    pub log: Vec<RegWrite>,
}

impl View for SpiController {
    type V = CtlView;

    open spec fn view(&self) -> CtlView {
        CtlView {
            sckdiv: self.sckdiv,
            csid: self.csid,
            csdef: self.csdef,
            csmode: self.csmode,
            pha: self.pha,
            pol: self.pol,
            fmt_proto: self.fmt_proto,
            fmt_msb_first: self.fmt_msb_first,
            fmt_dir_rx: self.fmt_dir_rx,
            fmt_len: self.fmt_len,
            txmark: self.txmark,
            rxmark: self.rxmark,
            cssck: self.cssck,
            sckcs: self.sckcs,
            intercs: self.intercs,
            interxfr: self.interxfr,
            ie_txwm: self.ie_txwm,
            ie_rxwm: self.ie_rxwm,
            tx_fifo: self.tx_fifo@,
            rx_fifo: self.rx_fifo@,
            log: self.log@,
        }
    }
}

/// The controller's power-on state: divisor three, line zero selected,
/// chip-select polarity mask one, automatic chip-select, mode zero,
/// single-lane MSB-first eight-bit format, watermarks and delays zero,
/// interrupts off, both FIFOs empty, nothing logged yet.
pub open spec fn reset_view() -> CtlView {
    CtlView {
        sckdiv: 3,
        csid: 0,
        csdef: 1,
        csmode: CsMode::Auto,
        pha: false,
        pol: false,
        fmt_proto: 0,
        fmt_msb_first: true,
        fmt_dir_rx: false,
        fmt_len: 8,
        txmark: 0,
        rxmark: 0,
        cssck: 0,
        sckcs: 0,
        intercs: 0,
        interxfr: 0,
        ie_txwm: false,
        ie_rxwm: false,
        tx_fifo: Seq::<u8>::empty(),
        rx_fifo: Seq::<u8>::empty(),
        log: Seq::<RegWrite>::empty(),
    }
}

impl SpiController {
    /// Builds a controller in its power-on state.
    pub fn new() -> (c: SpiController)
        ensures
            c@ == reset_view(),
    {
        let c = SpiController {
            sckdiv: 3,
            csid: 0,
            csdef: 1,
            csmode: CsMode::Auto,
            pha: false,
            pol: false,
            fmt_proto: 0,
            fmt_msb_first: true,
            fmt_dir_rx: false,
            fmt_len: 8,
            txmark: 0,
            rxmark: 0,
            cssck: 0,
            sckcs: 0,
            intercs: 0,
            interxfr: 0,
            ie_txwm: false,
            ie_rxwm: false,
            tx_fifo: Vec::new(),
            rx_fifo: Vec::new(),
            log: Vec::new(),
        };
        proof {
            assert(c@ =~= reset_view());
        }
        c
    }

    /// Writes the serial clock divisor register.
    pub fn write_sckdiv(&mut self, v: u32)
        ensures
            final(self)@ == (CtlView {
                sckdiv: v,
                log: old(self)@.log.push(RegWrite::Sckdiv(v)),
                ..old(self)@
            }),
    {
        self.sckdiv = v;
        self.log.push(RegWrite::Sckdiv(v));
    }

    /// Writes the chip-select index register.
    pub fn write_csid(&mut self, v: u32)
        ensures
            final(self)@ == (CtlView {
                csid: v,
                log: old(self)@.log.push(RegWrite::Csid(v)),
                ..old(self)@
            }),
    {
        self.csid = v;
        self.log.push(RegWrite::Csid(v));
    }

    /// Writes the chip-select mode register.
    pub fn write_csmode(&mut self, m: CsMode)
        ensures
            final(self)@ == (CtlView {
                csmode: m,
                log: old(self)@.log.push(RegWrite::Csmode(m)),
                ..old(self)@
            }),
    {
        self.csmode = m;
        self.log.push(RegWrite::Csmode(m));
    }

    /// Writes the chip-select default-polarity register.
    pub fn write_csdef(&mut self, v: u32)
        ensures
            final(self)@ == (CtlView {
                csdef: v,
                log: old(self)@.log.push(RegWrite::Csdef(v)),
                ..old(self)@
            }),
    {
        self.csdef = v;
        self.log.push(RegWrite::Csdef(v));
    }

    /// Writes the serial clock mode register.
    pub fn write_sckmode(&mut self, pha: bool, pol: bool)
        ensures
            final(self)@ == (CtlView {
                pha: pha,
                pol: pol,
                log: old(self)@.log.push(RegWrite::Sckmode(pha, pol)),
                ..old(self)@
            }),
    {
        self.pha = pha;
        self.pol = pol;
        self.log.push(RegWrite::Sckmode(pha, pol));
    }

    /// Writes the frame format register with the fixed wire format:
    /// single lane, most-significant bit first, receive direction,
    /// eight bits per frame.
    pub fn write_fmt(&mut self)
        ensures
            final(self)@ == (CtlView {
                fmt_proto: 0,
                fmt_msb_first: true,
                fmt_dir_rx: true,
                fmt_len: 8,
                log: old(self)@.log.push(RegWrite::Fmt),
                ..old(self)@
            }),
    {
        self.fmt_proto = 0;
        self.fmt_msb_first = true;
        self.fmt_dir_rx = true;
        self.fmt_len = 8;
        self.log.push(RegWrite::Fmt);
    }

    /// Writes the transmit watermark register.
    pub fn write_txmark(&mut self, v: u8)
        ensures
            final(self)@ == (CtlView {
                txmark: v,
                log: old(self)@.log.push(RegWrite::Txmark(v)),
                ..old(self)@
            }),
    {
        self.txmark = v;
        self.log.push(RegWrite::Txmark(v));
    }

    /// Writes the receive watermark register.
    pub fn write_rxmark(&mut self, v: u8)
        ensures
            final(self)@ == (CtlView {
                rxmark: v,
                log: old(self)@.log.push(RegWrite::Rxmark(v)),
                ..old(self)@
            }),
    {
        self.rxmark = v;
        self.log.push(RegWrite::Rxmark(v));
    }

    /// Writes the first delay register.
    pub fn write_delay0(&mut self, cssck: u8, sckcs: u8)
        ensures
            final(self)@ == (CtlView {
                cssck: cssck,
                sckcs: sckcs,
                log: old(self)@.log.push(RegWrite::Delay0(cssck, sckcs)),
                ..old(self)@
            }),
    {
        self.cssck = cssck;
        self.sckcs = sckcs;
        self.log.push(RegWrite::Delay0(cssck, sckcs));
    }

    /// Writes the second delay register.
    pub fn write_delay1(&mut self, intercs: u8, interxfr: u8)
        ensures
            final(self)@ == (CtlView {
                intercs: intercs,
                interxfr: interxfr,
                log: old(self)@.log.push(RegWrite::Delay1(intercs, interxfr)),
                ..old(self)@
            }),
    {
        self.intercs = intercs;
        self.interxfr = interxfr;
        self.log.push(RegWrite::Delay1(intercs, interxfr));
    }

    /// Writes the interrupt-enable register.
    pub fn write_ie(&mut self, txwm: bool, rxwm: bool)
        ensures
            final(self)@ == (CtlView {
                ie_txwm: txwm,
                ie_rxwm: rxwm,
                log: old(self)@.log.push(RegWrite::Ie(txwm, rxwm)),
                ..old(self)@
            }),
    {
        self.ie_txwm = txwm;
        self.ie_rxwm = rxwm;
        self.log.push(RegWrite::Ie(txwm, rxwm));
    }

    /// Reads the chip-select mode register.
    pub fn read_csmode(&self) -> (m: CsMode)
        ensures
            m == self@.csmode,
    {
        self.csmode
    }

    /// Reads the full flag of the transmit-data register.
    pub fn txdata_full(&self) -> (full: bool)
        ensures
            full == (self@.tx_fifo.len() >= FIFO_DEPTH),
    {
        self.tx_fifo.len() >= FIFO_DEPTH
    }

    /// Writes one byte to the transmit-data register. The byte enters the
    /// transmit FIFO when there is room; a write to a full FIFO is
    /// dropped by the hardware and leaves the controller unchanged.
    pub fn txdata_write(&mut self, b: u8)
        ensures
            old(self)@.tx_fifo.len() < FIFO_DEPTH ==> final(self)@ == (CtlView {
                tx_fifo: old(self)@.tx_fifo.push(b),
                log: old(self)@.log.push(RegWrite::Txdata(b)),
                ..old(self)@
            }),
            old(self)@.tx_fifo.len() >= FIFO_DEPTH ==> final(self)@ == old(self)@,
    {
        if self.tx_fifo.len() < FIFO_DEPTH {
            self.tx_fifo.push(b);
            self.log.push(RegWrite::Txdata(b));
        }
    }

    /// Reads the receive-data register: the oldest byte of the receive
    /// FIFO, if any. When the receive FIFO is empty but bytes are waiting
    /// in the transmit FIFO, the zero-latency loopback wire shifts the
    /// oldest such byte straight through and the read returns it. Only
    /// when both FIFOs are empty does the register report empty. Reads
    /// are not logged.
    pub fn rxdata_read(&mut self) -> (r: Option<u8>)
        ensures
            old(self)@.rx_fifo.len() > 0 ==> r == Some(old(self)@.rx_fifo[0]) && final(self)@
                == (CtlView { rx_fifo: old(self)@.rx_fifo.remove(0), ..old(self)@ }),
            old(self)@.rx_fifo.len() == 0 && old(self)@.tx_fifo.len() > 0 ==> r == Some(
                old(self)@.tx_fifo[0],
            ) && final(self)@ == (CtlView { tx_fifo: old(self)@.tx_fifo.remove(0), ..old(self)@ }),
            old(self)@.rx_fifo.len() == 0 && old(self)@.tx_fifo.len() == 0 ==> r == None::<u8>
                && final(self)@ == old(self)@,
    {
        if self.rx_fifo.len() > 0 {
            Some(self.rx_fifo.remove(0))
        } else if self.tx_fifo.len() > 0 {
            Some(self.tx_fifo.remove(0))
        } else {
            None
        }
    }

    /// Reads the transmit-watermark pending bit: set while the transmit
    /// FIFO holds fewer entries than the transmit watermark.
    pub fn ip_txwm(&self) -> (pending: bool)
        ensures
            pending == (self@.tx_fifo.len() < self@.txmark),
    {
        self.tx_fifo.len() < self.txmark as usize
    }

    /// Reads the receive-watermark pending bit: set while the receive
    /// FIFO holds more entries than the receive watermark.
    pub fn ip_rxwm(&self) -> (pending: bool)
        ensures
            pending == (self@.rx_fifo.len() > self@.rxmark),
    {
        self.rx_fifo.len() > self.rxmark as usize
    }
}

/// Length of the byte pump for a read buffer and a write buffer: the
/// longer of the two.
pub open spec fn transfer_len(rlen: int, wlen: int) -> int {
    if rlen > wlen {
        rlen
    } else {
        wlen
    }
}

/// The byte the pump pushes at position `i`: the write buffer's byte
/// while one remains, then the zero filler that keeps the clock running
/// for a read-only transfer.
pub open spec fn pushed_byte(w: Seq<u8>, i: int) -> u8 {
    if 0 <= i < w.len() {
        w[i]
    } else {
        0
    }
}

/// The register writes a pump of `n` bytes appends to the log: one
/// transmit-data write per byte, in order.
pub open spec fn pump_log(w: Seq<u8>, n: int) -> Seq<RegWrite> {
    Seq::new(n as nat, |i: int| RegWrite::Txdata(pushed_byte(w, i)))
}

/// The bytes a pump stores into a read buffer of length `rlen`: over the
/// loopback wire, each pushed byte comes straight back.
pub open spec fn pump_reads(w: Seq<u8>, rlen: int) -> Seq<u8> {
    Seq::new(rlen as nat, |i: int| pushed_byte(w, i))
}

/// Effect of emptying both FIFOs (polling the receive-data register
/// until it reports empty): registers and log are untouched.
pub open spec fn spec_drain(m: CtlView) -> CtlView {
    CtlView { tx_fifo: Seq::<u8>::empty(), rx_fifo: Seq::<u8>::empty(), ..m }
}

/// Effect of a complete byte pump of length `n` with write buffer `w`:
/// both FIFOs are first drained and end empty, and the log grows by one
/// transmit-data write per pumped byte. Registers are untouched.
pub open spec fn spec_pump(m: CtlView, n: int, w: Seq<u8>) -> CtlView {
    CtlView {
        tx_fifo: Seq::<u8>::empty(),
        rx_fifo: Seq::<u8>::empty(),
        log: m.log + pump_log(w, n),
        ..m
    }
}

/// Effect of starting a frame: unless hardware chip-select control is
/// off, the chip-select mode register is set to hold the line asserted.
pub open spec fn spec_start_frame(m: CtlView) -> CtlView {
    if m.csmode != CsMode::Off {
        CtlView { csmode: CsMode::Hold, log: m.log.push(RegWrite::Csmode(CsMode::Hold)), ..m }
    } else {
        m
    }
}

/// Effect of ending a frame: unless hardware chip-select control is off,
/// the chip-select mode register is set back to automatic per-frame
/// control, which deasserts the line.
pub open spec fn spec_end_frame(m: CtlView) -> CtlView {
    if m.csmode != CsMode::Off {
        CtlView { csmode: CsMode::Auto, log: m.log.push(RegWrite::Csmode(CsMode::Auto)), ..m }
    } else {
        m
    }
}

/// The register writes `configure` performs for a configuration and an
/// optional chip-select line, in order.
pub open spec fn configure_log(cfg: SpiConfig, cs_index: Option<u32>) -> Seq<RegWrite> {
    seq![RegWrite::Sckdiv(cfg.clock_divisor)] + (match cs_index {
        Some(i) => seq![RegWrite::Csid(i)],
        None => Seq::<RegWrite>::empty(),
    }) + seq![
        RegWrite::Csmode(cfg.cs_mode),
        RegWrite::Csdef(1),
        RegWrite::Sckmode(
            cfg.mode.phase == Phase::CaptureOnSecondTransition,
            cfg.mode.polarity == Polarity::IdleHigh,
        ),
        RegWrite::Fmt,
        RegWrite::Txmark(cfg.txmark),
        RegWrite::Rxmark(cfg.rxmark),
        RegWrite::Delay0(cfg.delays.cssck, cfg.delays.sckcs),
        RegWrite::Delay1(cfg.delays.intercs, cfg.delays.interxfr),
    ] + (if cfg.cs_mode != CsMode::Off {
        seq![RegWrite::Csmode(CsMode::Auto)]
    } else {
        Seq::<RegWrite>::empty()
    })
}

/// Effect of applying a configuration: every configuration register
/// takes the configured value, the chip-select index is rewritten only
/// when a line is given, the wire format is fixed, and the closing
/// frame-end leaves the chip-select mode register at automatic control
/// unless hardware control is off. FIFOs are untouched.
pub open spec fn spec_configure(m: CtlView, cfg: SpiConfig, cs_index: Option<u32>) -> CtlView {
    CtlView {
        sckdiv: cfg.clock_divisor,
        csid: match cs_index {
            Some(i) => i,
            None => m.csid,
        },
        csdef: 1,
        csmode: if cfg.cs_mode == CsMode::Off {
            CsMode::Off
        } else {
            CsMode::Auto
        },
        pha: cfg.mode.phase == Phase::CaptureOnSecondTransition,
        pol: cfg.mode.polarity == Polarity::IdleHigh,
        fmt_proto: 0,
        fmt_msb_first: true,
        fmt_dir_rx: true,
        fmt_len: 8,
        txmark: cfg.txmark,
        rxmark: cfg.rxmark,
        cssck: cfg.delays.cssck,
        sckcs: cfg.delays.sckcs,
        intercs: cfg.delays.intercs,
        interxfr: cfg.delays.interxfr,
        log: m.log + configure_log(cfg, cs_index),
        ..m
    }
}

/// The chip-select line reports deasserted whenever the mode register is
/// not holding it: automatic control deasserts between frames, and with
/// hardware control off the controller drives nothing.
pub open spec fn cs_deasserted(m: CtlView) -> bool {
    m.csmode != CsMode::Hold
}

} // verus!
