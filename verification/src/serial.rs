//! Serial interface, over a register-level model of one UART
//! controller.
//!
//! The transmit and receive paths of a UART are independent, so the
//! model keeps them as two halves: each half owns its FIFO and the
//! registers that govern it, and splitting the interface hands each
//! half to its own handle. The wire is scripted from outside: bytes
//! appear in the receive FIFO when `deliver` is called and leave the
//! transmit FIFO when `take` is called.

pub mod nonblock;

pub use nonblock::{
    AsyncFlushFuture, AsyncReadByteFuture, AsyncReadFuture, AsyncWriteByteFuture, AsyncWriteFuture,
};

use vstd::prelude::*;

use crate::status::Nb;

verus! {

/// Number of entries in each UART hardware FIFO.
pub const UART_FIFO_DEPTH: usize = 8;

/// The smaller of two values.
pub open spec fn min_of(a: int, b: int) -> int {
    if a < b {
        a
    } else {
        b
    }
}

/// Mathematical view of the transmit half.
#[verifier::ext_equal]
pub ghost struct TxView {
    /// Transmit FIFO contents, oldest byte first.
    pub fifo: Seq<u8>,
    /// Transmit watermark.
    pub watermark: u8,
    /// Whether the transmitter is enabled.
    pub enabled: bool,
}

/// Mathematical view of the receive half.
#[verifier::ext_equal]
pub ghost struct RxView {
    /// Receive FIFO contents, oldest byte first.
    pub fifo: Seq<u8>,
    /// Receive watermark.
    pub watermark: u8,
    /// Whether the receiver is enabled.
    pub enabled: bool,
}

/// Mathematical view of the whole controller.
#[verifier::ext_equal]
pub ghost struct UartView {
    /// Baud-rate divisor register.
    pub div: u32,
    /// Transmit-watermark interrupt enable.
    pub ie_txwm: bool,
    /// Receive-watermark interrupt enable.
    pub ie_rxwm: bool,
    /// The transmit half.
    pub tx: TxView,
    /// The receive half.
    pub rx: RxView,
}

/// Transmit half of the controller: FIFO, watermark, enable bit.
pub struct TxChannel {
    /// Transmit FIFO, oldest byte first.
    pub fifo: Vec<u8>,
    /// Transmit watermark register.
    pub watermark: u8,
    /// Transmit enable bit.
    pub enabled: bool,
}

impl View for TxChannel {
    type V = TxView;

    open spec fn view(&self) -> TxView {
        TxView { fifo: self.fifo@, watermark: self.watermark, enabled: self.enabled }
    }
}

/// Receive half of the controller: FIFO, watermark, enable bit.
pub struct RxChannel {
    /// Receive FIFO, oldest byte first.
    pub fifo: Vec<u8>,
    /// Receive watermark register.
    pub watermark: u8,
    /// Receive enable bit.
    pub enabled: bool,
}

impl View for RxChannel {
    type V = RxView;

    open spec fn view(&self) -> RxView {
        RxView { fifo: self.fifo@, watermark: self.watermark, enabled: self.enabled }
    }
}

/// A simulated UART controller.
pub struct UartController {
    /// Baud-rate divisor register.
    pub div: u32,
    /// Transmit-watermark interrupt enable.
    pub ie_txwm: bool,
    /// Receive-watermark interrupt enable.
    pub ie_rxwm: bool,
    /// The transmit half.
    pub tx: TxChannel,
    /// The receive half.
    pub rx: RxChannel,
}

impl View for UartController {
    type V = UartView;

    open spec fn view(&self) -> UartView {
        UartView {
            div: self.div,
            ie_txwm: self.ie_txwm,
            ie_rxwm: self.ie_rxwm,
            tx: self.tx@,
            rx: self.rx@,
        }
    }
}

impl UartController {
    /// Builds a controller in its power-on state: everything zero and
    /// disabled, both FIFOs empty.
    pub fn new() -> (u: UartController)
        ensures
            u@ == (UartView {
                div: 0,
                ie_txwm: false,
                ie_rxwm: false,
                tx: TxView { fifo: Seq::<u8>::empty(), watermark: 0, enabled: false },
                rx: RxView { fifo: Seq::<u8>::empty(), watermark: 0, enabled: false },
            }),
    {
        let u = UartController {
            div: 0,
            ie_txwm: false,
            ie_rxwm: false,
            tx: TxChannel { fifo: Vec::new(), watermark: 0, enabled: false },
            rx: RxChannel { fifo: Vec::new(), watermark: 0, enabled: false },
        };
        proof {
            assert(u@.tx.fifo =~= Seq::<u8>::empty());
            assert(u@.rx.fifo =~= Seq::<u8>::empty());
        }
        u
    }
}

impl TxChannel {
    /// Non-blocking write of one byte to the transmit-data register;
    /// reports that it would block while the transmit FIFO is full.
    pub fn write(&mut self, byte: u8) -> (r: Nb<()>)
        ensures
            old(self)@.fifo.len() < UART_FIFO_DEPTH ==> r == Nb::Ready(()) && final(self)@
                == (TxView { fifo: old(self)@.fifo.push(byte), ..old(self)@ }),
            old(self)@.fifo.len() >= UART_FIFO_DEPTH ==> r == Nb::WouldBlock::<()> && final(self)@
                == old(self)@,
    {
        if self.fifo.len() < UART_FIFO_DEPTH {
            self.fifo.push(byte);
            Nb::Ready(())
        } else {
            Nb::WouldBlock
        }
    }

    /// Non-blocking flush: ready once the transmit FIFO has sunk below
    /// the watermark.
    pub fn flush(&mut self) -> (r: Nb<()>)
        ensures
            final(self)@ == old(self)@,
            r == (if old(self)@.fifo.len() < old(self)@.watermark {
                Nb::Ready(())
            } else {
                Nb::WouldBlock::<()>
            }),
    {
        if self.fifo.len() < self.watermark as usize {
            Nb::Ready(())
        } else {
            Nb::WouldBlock
        }
    }

    /// The wire takes the oldest byte out of the transmit FIFO, if any:
    /// the scripted counterpart of a real transmitter shifting one byte
    /// out.
    pub fn take(&mut self) -> (r: Option<u8>)
        ensures
            old(self)@.fifo.len() > 0 ==> r == Some(old(self)@.fifo[0]) && final(self)@
                == (TxView { fifo: old(self)@.fifo.remove(0), ..old(self)@ }),
            old(self)@.fifo.len() == 0 ==> r == None::<u8> && final(self)@ == old(self)@,
    {
        if self.fifo.len() > 0 {
            Some(self.fifo.remove(0))
        } else {
            None
        }
    }
}

impl RxChannel {
    /// Non-blocking read of one byte from the receive-data register.
    pub fn read(&mut self) -> (r: Nb<u8>)
        ensures
            old(self)@.fifo.len() > 0 ==> r == Nb::Ready(old(self)@.fifo[0]) && final(self)@
                == (RxView { fifo: old(self)@.fifo.remove(0), ..old(self)@ }),
            old(self)@.fifo.len() == 0 ==> r == Nb::WouldBlock::<u8> && final(self)@ == old(self)@,
    {
        if self.fifo.len() > 0 {
            Nb::Ready(self.fifo.remove(0))
        } else {
            Nb::WouldBlock
        }
    }

    /// The wire delivers one byte into the receive FIFO: the scripted
    /// counterpart of a real receiver shifting one byte in. A byte
    /// arriving at a full FIFO is lost, as a hardware overrun loses it.
    pub fn deliver(&mut self, byte: u8)
        ensures
            old(self)@.fifo.len() < UART_FIFO_DEPTH ==> final(self)@ == (RxView {
                fifo: old(self)@.fifo.push(byte),
                ..old(self)@
            }),
            old(self)@.fifo.len() >= UART_FIFO_DEPTH ==> final(self)@ == old(self)@,
    {
        if self.fifo.len() < UART_FIFO_DEPTH {
            self.fifo.push(byte);
        }
    }
}

/// Serial abstraction over one controller.
pub struct Serial {
    /// The controller this abstraction drives.
    pub uart: UartController,
}

impl View for Serial {
    type V = UartView;

    open spec fn view(&self) -> UartView {
        self.uart@
    }
}

/// Serial receiver half.
pub struct Rx {
    /// The receive half of the controller.
    pub chan: RxChannel,
}

impl View for Rx {
    type V = RxView;

    open spec fn view(&self) -> RxView {
        self.chan@
    }
}

/// Serial transmitter half.
pub struct Tx {
    /// The transmit half of the controller.
    pub chan: TxChannel,
}

impl View for Tx {
    type V = TxView;

    open spec fn view(&self) -> TxView {
        self.chan@
    }
}

impl Serial {
    /// Configures a controller to provide serial communication: both
    /// watermark interrupts off, the divisor derived as
    /// `base_clock / baud_rate - 1`, the transmitter enabled with a
    /// watermark of one, and the receiver enabled with a watermark of
    /// zero. Keeping the divisor representable in the sixteen-bit
    /// divisor register is the caller's responsibility.
    pub fn new(uart: UartController, baud_rate: u32, base_clock: u32) -> (s: Serial)
        requires
            0 < baud_rate,
            1 <= base_clock / baud_rate,
            base_clock / baud_rate - 1 <= 0xffff,
        ensures
            s@ == (UartView {
                div: (base_clock / baud_rate - 1) as u32,
                ie_txwm: false,
                ie_rxwm: false,
                tx: TxView { watermark: 1, enabled: true, ..uart@.tx },
                rx: RxView { watermark: 0, enabled: true, ..uart@.rx },
            }),
    {
        let mut uart = uart;
        uart.ie_txwm = false;
        uart.ie_rxwm = false;
        uart.div = base_clock / baud_rate - 1;
        uart.tx.watermark = 1;
        uart.tx.enabled = true;
        uart.rx.watermark = 0;
        uart.rx.enabled = true;
        Serial { uart }
    }

    /// Starts listening for the receive-watermark interrupt event.
    pub fn listen(self) -> (s: Serial)
        ensures
            s@ == (UartView { ie_txwm: false, ie_rxwm: true, ..self@ }),
    {
        let mut s = self;
        s.uart.ie_txwm = false;
        s.uart.ie_rxwm = true;
        s
    }

    /// Stops listening for interrupt events.
    pub fn unlisten(self) -> (s: Serial)
        ensures
            s@ == (UartView { ie_txwm: false, ie_rxwm: false, ..self@ }),
    {
        let mut s = self;
        s.uart.ie_txwm = false;
        s.uart.ie_rxwm = false;
        s
    }

    /// Splits the abstraction into its transmitter and receiver halves.
    pub fn split(self) -> (pair: (Tx, Rx))
        ensures
            pair.0@ == self@.tx,
            pair.1@ == self@.rx,
    {
        let Serial { uart } = self;
        let UartController { tx, rx, .. } = uart;
        (Tx { chan: tx }, Rx { chan: rx })
    }

    /// Releases the controller.
    pub fn free(self) -> (uart: UartController)
        ensures
            uart@ == self@,
    {
        self.uart
    }
}

impl Rx {
    /// Non-blocking read of one byte from the receive-data register.
    pub fn read(&mut self) -> (r: Nb<u8>)
        ensures
            old(self)@.fifo.len() > 0 ==> r == Nb::Ready(old(self)@.fifo[0]) && final(self)@
                == (RxView { fifo: old(self)@.fifo.remove(0), ..old(self)@ }),
            old(self)@.fifo.len() == 0 ==> r == Nb::WouldBlock::<u8> && final(self)@ == old(self)@,
    {
        self.chan.read()
    }
}

impl Tx {
    /// Non-blocking write of one byte to the transmit-data register;
    /// reports that it would block while the transmit FIFO is full.
    pub fn write(&mut self, byte: u8) -> (r: Nb<()>)
        ensures
            old(self)@.fifo.len() < UART_FIFO_DEPTH ==> r == Nb::Ready(()) && final(self)@
                == (TxView { fifo: old(self)@.fifo.push(byte), ..old(self)@ }),
            old(self)@.fifo.len() >= UART_FIFO_DEPTH ==> r == Nb::WouldBlock::<()> && final(self)@
                == old(self)@,
    {
        self.chan.write(byte)
    }

    /// Non-blocking flush: ready once the transmit FIFO has sunk below
    /// the watermark.
    pub fn flush(&mut self) -> (r: Nb<()>)
        ensures
            final(self)@ == old(self)@,
            r == (if old(self)@.fifo.len() < old(self)@.watermark {
                Nb::Ready(())
            } else {
                Nb::WouldBlock::<()>
            }),
    {
        self.chan.flush()
    }
}

} // verus!
