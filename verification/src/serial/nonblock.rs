//! Cooperative serial transfers: suspend/resume objects over the UART
//! model, polled against the transmitter or receiver half they work on.

use vstd::prelude::*;

use crate::serial::{min_of, Rx, RxChannel, RxView, Serial, Tx, TxChannel, TxView, UART_FIFO_DEPTH};
use crate::status::{Nb, PollStatus};

verus! {

/// A pending single-byte read.
pub struct AsyncReadByteFuture {}

/// A pending buffered read.
pub struct AsyncReadFuture {
    /// Bytes of the buffer filled so far.
    pub offset: usize,
}

/// A pending single-byte write.
pub struct AsyncWriteByteFuture {
    /// The byte to write.
    pub byte: u8,
}

/// A pending buffered write.
pub struct AsyncWriteFuture {
    /// Bytes of the buffer pushed so far.
    pub offset: usize,
}

/// A pending flush.
pub struct AsyncFlushFuture {}

impl Serial {
    /// Begins a cooperative read of one byte; the returned object is
    /// polled against the controller's receive half.
    pub fn async_read_byte(&self) -> (fut: AsyncReadByteFuture) {
        AsyncReadByteFuture {  }
    }

    /// Begins a cooperative read into a buffer.
    pub fn async_read(&self) -> (fut: AsyncReadFuture)
        ensures
            fut.offset == 0,
    {
        AsyncReadFuture { offset: 0 }
    }

    /// Begins a cooperative write of one byte; the returned object is
    /// polled against the controller's transmit half.
    pub fn async_write_byte(&self, byte: u8) -> (fut: AsyncWriteByteFuture)
        ensures
            fut.byte == byte,
    {
        AsyncWriteByteFuture { byte }
    }

    /// Begins a cooperative write of a buffer.
    pub fn async_write(&self) -> (fut: AsyncWriteFuture)
        ensures
            fut.offset == 0,
    {
        AsyncWriteFuture { offset: 0 }
    }

    /// Begins a cooperative flush.
    pub fn async_flush(&self) -> (fut: AsyncFlushFuture) {
        AsyncFlushFuture {  }
    }
}

impl Rx {
    /// Begins a cooperative read of one byte.
    pub fn async_read_byte(&self) -> (fut: AsyncReadByteFuture) {
        AsyncReadByteFuture {  }
    }

    /// Begins a cooperative read into a buffer.
    pub fn async_read(&self) -> (fut: AsyncReadFuture)
        ensures
            fut.offset == 0,
    {
        AsyncReadFuture { offset: 0 }
    }
}

impl Tx {
    /// Begins a cooperative write of one byte.
    pub fn async_write_byte(&self, byte: u8) -> (fut: AsyncWriteByteFuture)
        ensures
            fut.byte == byte,
    {
        AsyncWriteByteFuture { byte }
    }

    /// Begins a cooperative write of a buffer.
    pub fn async_write(&self) -> (fut: AsyncWriteFuture)
        ensures
            fut.offset == 0,
    {
        AsyncWriteFuture { offset: 0 }
    }

    /// Begins a cooperative flush.
    pub fn async_flush(&self) -> (fut: AsyncFlushFuture) {
        AsyncFlushFuture {  }
    }
}

impl AsyncReadByteFuture {
    /// Reads one byte if one is waiting; otherwise reports that the
    /// caller must poll again.
    pub fn poll(&mut self, rx: &mut RxChannel) -> (r: Nb<u8>)
        ensures
            old(rx)@.fifo.len() > 0 ==> r == Nb::Ready(old(rx)@.fifo[0]) && final(rx)@ == (RxView {
                fifo: old(rx)@.fifo.remove(0),
                ..old(rx)@
            }),
            old(rx)@.fifo.len() == 0 ==> r == Nb::WouldBlock::<u8> && final(rx)@ == old(rx)@,
    {
        rx.read()
    }
}

impl AsyncReadFuture {
    /// Moves as many waiting bytes as fit into the buffer, then reports
    /// completion once the buffer is full, or that the caller must poll
    /// again once the receive FIFO runs empty first.
    pub fn poll(&mut self, rx: &mut RxChannel, data: &mut Vec<u8>) -> (status: PollStatus)
        requires
            old(self).offset <= old(data)@.len(),
        ensures
            ({
                let k = min_of(
                    old(data)@.len() - old(self).offset,
                    old(rx)@.fifo.len() as int,
                );
                &&& final(self).offset == old(self).offset + k
                &&& final(rx)@ == (RxView {
                    fifo: old(rx)@.fifo.subrange(k, old(rx)@.fifo.len() as int),
                    ..old(rx)@
                })
                &&& final(data)@.len() == old(data)@.len()
                &&& (forall|i: int|
                    0 <= i < old(data)@.len() ==> final(data)@[i] == (if old(self).offset <= i
                        < old(self).offset + k {
                        old(rx)@.fifo[i - old(self).offset]
                    } else {
                        old(data)@[i]
                    }))
                &&& (status == PollStatus::Complete <==> old(self).offset + k == old(
                    data,
                )@.len())
            }),
    {
        let ghost off0 = self.offset as int;
        let ghost d0 = data@;
        let ghost rx0 = rx@;
        while self.offset < data.len()
            invariant
                off0 == old(self).offset,
                d0 == old(data)@,
                rx0 == old(rx)@,
                0 <= off0 <= self.offset <= data@.len(),
                data@.len() == d0.len(),
                self.offset - off0 <= rx0.fifo.len(),
                rx@ == (RxView {
                    fifo: rx0.fifo.subrange(self.offset - off0, rx0.fifo.len() as int),
                    ..rx0
                }),
                forall|i: int|
                    0 <= i < d0.len() ==> data@[i] == (if off0 <= i < self.offset {
                        rx0.fifo[i - off0]
                    } else {
                        d0[i]
                    }),
            decreases data@.len() - self.offset,
        {
            match rx.read() {
                Nb::Ready(b) => {
                    data.set(self.offset, b);
                    self.offset = self.offset + 1;
                    proof {
                        assert(rx@.fifo =~= rx0.fifo.subrange(
                            self.offset - off0,
                            rx0.fifo.len() as int,
                        ));
                    }
                },
                Nb::WouldBlock => {
                    proof {
                        assert(self.offset - off0 == rx0.fifo.len());
                        assert(rx@.fifo =~= rx0.fifo.subrange(
                            min_of(d0.len() - off0, rx0.fifo.len() as int),
                            rx0.fifo.len() as int,
                        ));
                    }
                    return PollStatus::Pending;
                },
            }
        }
        proof {
            assert(rx@.fifo =~= rx0.fifo.subrange(
                min_of(d0.len() - off0, rx0.fifo.len() as int),
                rx0.fifo.len() as int,
            ));
        }
        PollStatus::Complete
    }
}

impl AsyncWriteByteFuture {
    /// Writes the byte if the transmit FIFO has room; otherwise reports
    /// that the caller must poll again.
    pub fn poll(&mut self, tx: &mut TxChannel) -> (r: Nb<()>)
        ensures
            old(tx)@.fifo.len() < UART_FIFO_DEPTH ==> r == Nb::Ready(()) && final(tx)@ == (TxView {
                fifo: old(tx)@.fifo.push(old(self).byte),
                ..old(tx)@
            }),
            old(tx)@.fifo.len() >= UART_FIFO_DEPTH ==> r == Nb::WouldBlock::<()> && final(tx)@
                == old(tx)@,
    {
        tx.write(self.byte)
    }
}

impl AsyncWriteFuture {
    /// Pushes as many remaining bytes as the transmit FIFO has room
    /// for, then reports completion once the whole buffer is pushed, or
    /// that the caller must poll again once the FIFO fills up first.
    pub fn poll(&mut self, tx: &mut TxChannel, data: &Vec<u8>) -> (status: PollStatus)
        requires
            old(self).offset <= data@.len(),
            old(tx)@.fifo.len() <= UART_FIFO_DEPTH,
        ensures
            ({
                let k = min_of(
                    data@.len() - old(self).offset,
                    UART_FIFO_DEPTH - old(tx)@.fifo.len(),
                );
                &&& final(self).offset == old(self).offset + k
                &&& final(tx)@ == (TxView {
                    fifo: old(tx)@.fifo + data@.subrange(
                        old(self).offset as int,
                        old(self).offset + k,
                    ),
                    ..old(tx)@
                })
                &&& (status == PollStatus::Complete <==> old(self).offset + k == data@.len())
            }),
    {
        let ghost off0 = self.offset as int;
        let ghost tx0 = tx@;
        proof {
            assert(tx@.fifo =~= tx0.fifo + data@.subrange(off0, off0));
        }
        while self.offset < data.len()
            invariant
                off0 == old(self).offset,
                tx0 == old(tx)@,
                0 <= off0 <= self.offset <= data@.len(),
                self.offset - off0 <= UART_FIFO_DEPTH - tx0.fifo.len(),
                tx@ == (TxView {
                    fifo: tx0.fifo + data@.subrange(off0, self.offset as int),
                    ..tx0
                }),
                tx@.fifo.len() == tx0.fifo.len() + self.offset - off0,
            decreases data@.len() - self.offset,
        {
            match tx.write(data[self.offset]) {
                Nb::Ready(_) => {
                    self.offset = self.offset + 1;
                    proof {
                        assert(tx@.fifo =~= tx0.fifo + data@.subrange(off0, self.offset as int));
                    }
                },
                Nb::WouldBlock => {
                    proof {
                        assert(self.offset - off0 == UART_FIFO_DEPTH - tx0.fifo.len());
                    }
                    return PollStatus::Pending;
                },
            }
        }
        PollStatus::Complete
    }
}

impl AsyncFlushFuture {
    /// Reports completion once the transmit FIFO has sunk below the
    /// watermark; until then the caller must poll again.
    pub fn poll(&mut self, tx: &mut TxChannel) -> (r: Nb<()>)
        ensures
            final(tx)@ == old(tx)@,
            r == (if old(tx)@.fifo.len() < old(tx)@.watermark {
                Nb::Ready(())
            } else {
                Nb::WouldBlock::<()>
            }),
    {
        tx.flush()
    }
}

} // verus!
