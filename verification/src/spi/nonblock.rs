//! Cooperative transfer objects: the byte pump as suspend/resume state
//! machines.
//!
//! Each object captures the pump's cursors; the controller and the
//! buffer are handed to every `poll` call. A poll never spins: it
//! attempts to advance the write cursor once, then the read cursor once,
//! and then reports either completion or that it must be polled again.
//! No forward progress is guaranteed without being polled again, and an
//! object dropped before completion simply abandons the pump with
//! whatever bytes have already been shifted onto the wire; if a frame
//! was started, the caller is responsible for ending it.

use vstd::prelude::*;

use crate::spi::bus::same_regs;
use crate::spi::controller::{
    pump_log, spec_drain, spec_end_frame, spec_pump, spec_start_frame, CtlView,
};
use crate::spi::Spi;
use crate::status::PollStatus;

verus! {

/// A suspended in-place transfer: what must hold of the object's
/// cursors, the controller, and the buffer between two polls.
pub open spec fn transfer_poll_inv(fut: AsyncTransferFuture, m: CtlView, data: Seq<u8>) -> bool {
    &&& fut.base@.tx_fifo.len() == 0
    &&& fut.base@.rx_fifo.len() == 0
    &&& fut.iread <= fut.iwrite <= data.len()
    &&& m.rx_fifo.len() == 0
    &&& m.tx_fifo == data.subrange(fut.iread as int, fut.iwrite as int)
    &&& m.log == fut.base@.log + pump_log(data, fut.iwrite as int)
    &&& same_regs(fut.base@, m)
}

/// Cooperative in-place transfer: pumps the buffer out byte by byte and
/// replaces each byte with the one received in its place.
pub struct AsyncTransferFuture {
    /// Write cursor: bytes pushed so far.
    pub iwrite: usize,
    /// Read cursor: bytes received so far; never outruns `iwrite`.
    pub iread: usize,
    /// Controller state right after the object was created: FIFOs
    /// drained, frame started.
    pub base: Ghost<CtlView>,
}

/// A suspended write-only transfer.
pub open spec fn write_poll_inv(fut: AsyncWriteFuture, m: CtlView, data: Seq<u8>) -> bool {
    &&& fut.base@.tx_fifo.len() == 0
    &&& fut.base@.rx_fifo.len() == 0
    &&& fut.iread <= fut.iwrite <= data.len()
    &&& m.rx_fifo.len() == 0
    &&& m.tx_fifo == data.subrange(fut.iread as int, fut.iwrite as int)
    &&& m.log == fut.base@.log + pump_log(data, fut.iwrite as int)
    &&& same_regs(fut.base@, m)
}

/// Cooperative write-only transfer: pumps the buffer out byte by byte
/// and discards everything received.
pub struct AsyncWriteFuture {
    /// Write cursor: bytes pushed so far.
    pub iwrite: usize,
    /// Read cursor: received bytes discarded so far.
    pub iread: usize,
    /// Controller state right after the object was created.
    pub base: Ghost<CtlView>,
}

/// A suspended streamed write.
pub open spec fn write_iter_poll_inv(
    fut: AsyncWriteIterFuture,
    m: CtlView,
    data: Seq<u8>,
) -> bool {
    &&& fut.base@.tx_fifo.len() == 0
    &&& fut.base@.rx_fifo.len() == 0
    &&& fut.index <= data.len()
    &&& (!fut.has_data ==> fut.index == data.len())
    &&& fut.read_count as int <= fut.index as int
    &&& m.rx_fifo.len() == 0
    &&& m.tx_fifo == data.subrange(fut.index - fut.read_count, fut.index as int)
    &&& m.log == fut.base@.log + pump_log(data, fut.index as int)
    &&& same_regs(fut.base@, m)
}

/// How much pump work a suspended streamed write still has: used to
/// state that every pending poll makes progress.
pub open spec fn write_iter_measure(fut: AsyncWriteIterFuture, len: int) -> int {
    2 * (len - fut.index) + fut.read_count + (if fut.has_data {
        1int
    } else {
        0int
    })
}

/// Cooperative streamed write: instead of a pair of cursors it keeps the
/// next byte to take and a count of outstanding bytes, as the blocking
/// streamed write does.
pub struct AsyncWriteIterFuture {
    /// Next byte of the stream to push.
    pub index: usize,
    /// Bytes pushed whose echo has not been discarded yet.
    pub read_count: u8,
    /// Whether the stream may still yield bytes.
    pub has_data: bool,
    /// Controller state right after the object was created.
    pub base: Ghost<CtlView>,
}

impl Spi {
    /// Begins a cooperative in-place transfer: drains stale receive
    /// bytes, starts the frame, and returns the suspended pump with both
    /// cursors at zero.
    pub fn async_transfer(&mut self) -> (fut: AsyncTransferFuture)
        ensures
            final(self)@ == spec_start_frame(spec_drain(old(self)@)),
            fut.iwrite == 0,
            fut.iread == 0,
            fut.base@ == final(self)@,
            forall|d: Seq<u8>| #[trigger] transfer_poll_inv(fut, final(self)@, d),
    {
        self.bus.wait_for_rxfifo();
        self.bus.start_frame();
        let fut = AsyncTransferFuture { iwrite: 0, iread: 0, base: Ghost(self@) };
        proof {
            assert forall|d: Seq<u8>| #[trigger] transfer_poll_inv(fut, self@, d) by {
                assert(self@.tx_fifo =~= d.subrange(0, 0));
                assert(self@.log =~= self@.log + pump_log(d, 0));
            }
        }
        fut
    }

    /// Begins a cooperative write-only transfer.
    pub fn async_write(&mut self) -> (fut: AsyncWriteFuture)
        ensures
            final(self)@ == spec_start_frame(spec_drain(old(self)@)),
            fut.iwrite == 0,
            fut.iread == 0,
            fut.base@ == final(self)@,
            forall|d: Seq<u8>| #[trigger] write_poll_inv(fut, final(self)@, d),
    {
        self.bus.wait_for_rxfifo();
        self.bus.start_frame();
        let fut = AsyncWriteFuture { iwrite: 0, iread: 0, base: Ghost(self@) };
        proof {
            assert forall|d: Seq<u8>| #[trigger] write_poll_inv(fut, self@, d) by {
                assert(self@.tx_fifo =~= d.subrange(0, 0));
                assert(self@.log =~= self@.log + pump_log(d, 0));
            }
        }
        fut
    }

    /// Begins a cooperative streamed write.
    pub fn async_write_iter(&mut self) -> (fut: AsyncWriteIterFuture)
        ensures
            final(self)@ == spec_start_frame(spec_drain(old(self)@)),
            fut.index == 0,
            fut.read_count == 0,
            fut.has_data,
            fut.base@ == final(self)@,
            forall|d: Seq<u8>| #[trigger] write_iter_poll_inv(fut, final(self)@, d),
    {
        self.bus.wait_for_rxfifo();
        self.bus.start_frame();
        let fut = AsyncWriteIterFuture { index: 0, read_count: 0, has_data: true, base: Ghost(
            self@,
        ) };
        proof {
            assert forall|d: Seq<u8>| #[trigger] write_iter_poll_inv(fut, self@, d) by {
                assert(self@.tx_fifo =~= d.subrange(0, 0));
                assert(self@.log =~= self@.log + pump_log(d, 0));
            }
        }
        fut
    }
}

impl AsyncTransferFuture {
    /// One pump step: attempts to advance the write cursor once, then
    /// the read cursor once, and reports completion once every byte has
    /// been pumped; completing ends the frame. A pending poll always
    /// makes progress on this controller, whose loopback wire is always
    /// eventually ready.
    pub fn poll(&mut self, spi: &mut Spi, data: &mut Vec<u8>) -> (status: PollStatus)
        requires
            transfer_poll_inv(*old(self), old(spi)@, old(data)@),
        ensures
            final(data)@ == old(data)@,
            final(self).base == old(self).base,
            status == PollStatus::Complete ==> final(self).iwrite == old(data)@.len()
                && final(self).iread == old(data)@.len() && final(spi)@ == spec_end_frame(
                spec_pump(old(self).base@, old(data)@.len() as int, old(data)@),
            ),
            status == PollStatus::Pending ==> transfer_poll_inv(
                *final(self),
                final(spi)@,
                final(data)@,
            ) && final(self).iwrite + final(self).iread > old(self).iwrite + old(self).iread,
    {
        let n = data.len();
        if self.iwrite < n && !spi.bus.ctl.txdata_full() {
            let byte: u8 = data[self.iwrite];
            spi.bus.ctl.txdata_write(byte);
            self.iwrite = self.iwrite + 1;
            proof {
                assert(spi@.tx_fifo =~= data@.subrange(self.iread as int, self.iwrite as int));
                assert(spi@.log =~= self.base@.log + pump_log(data@, self.iwrite as int));
            }
        }
        if self.iread < self.iwrite {
            match spi.bus.ctl.rxdata_read() {
                Some(b) => {
                    proof {
                        assert(b == data@[self.iread as int]);
                    }
                    data.set(self.iread, b);
                    self.iread = self.iread + 1;
                    proof {
                        assert(data@ =~= old(data)@);
                        assert(spi@.tx_fifo =~= data@.subrange(
                            self.iread as int,
                            self.iwrite as int,
                        ));
                    }
                },
                None => {
                    proof {
                        assert(false);
                    }
                },
            }
        }
        if self.iwrite == n && self.iread == n {
            proof {
                assert(spi@ =~= spec_pump(self.base@, n as int, data@));
            }
            spi.bus.end_frame();
            PollStatus::Complete
        } else {
            PollStatus::Pending
        }
    }
}

/// The cooperative pump driven to completion by a plain polling loop:
/// the simplest scheduler. It terminates, and it ends in exactly the
/// state the blocking in-place transfer's contract gives, with the
/// buffer unchanged — the cooperative and blocking paths are
/// equivalent, operationally.
pub fn transfer_by_polling(spi: &mut Spi, data: &mut Vec<u8>) -> (status: PollStatus)
    ensures
        status == PollStatus::Complete,
        final(spi)@ == spec_end_frame(
            spec_pump(spec_start_frame(old(spi)@), old(data)@.len() as int, old(data)@),
        ),
        final(data)@ == old(data)@,
{
    let mut fut = spi.async_transfer();
    loop
        invariant_except_break
            transfer_poll_inv(fut, spi@, data@),
            data@ == old(data)@,
            fut.base@ == spec_start_frame(spec_drain(old(spi)@)),
        ensures
            data@ == old(data)@,
            spi@ == spec_end_frame(
                spec_pump(
                    spec_start_frame(spec_drain(old(spi)@)),
                    old(data)@.len() as int,
                    old(data)@,
                ),
            ),
        decreases 2 * data@.len() - fut.iwrite - fut.iread,
    {
        match fut.poll(spi, data) {
            PollStatus::Complete => {
                break;
            },
            PollStatus::Pending => {
            },
        }
    }
    proof {
        assert(spec_pump(
            spec_start_frame(spec_drain(old(spi)@)),
            old(data)@.len() as int,
            old(data)@,
        ) =~= spec_pump(spec_start_frame(old(spi)@), old(data)@.len() as int, old(data)@));
    }
    PollStatus::Complete
}

impl AsyncWriteFuture {
    /// One pump step of the write-only transfer: received bytes are
    /// discarded instead of stored. Completing ends the frame.
    pub fn poll(&mut self, spi: &mut Spi, data: &Vec<u8>) -> (status: PollStatus)
        requires
            write_poll_inv(*old(self), old(spi)@, data@),
        ensures
            final(self).base == old(self).base,
            status == PollStatus::Complete ==> final(self).iwrite == data@.len()
                && final(self).iread == data@.len() && final(spi)@ == spec_end_frame(
                spec_pump(old(self).base@, data@.len() as int, data@),
            ),
            status == PollStatus::Pending ==> write_poll_inv(*final(self), final(spi)@, data@)
                && final(self).iwrite + final(self).iread > old(self).iwrite + old(self).iread,
    {
        let n = data.len();
        if self.iwrite < n && !spi.bus.ctl.txdata_full() {
            let byte: u8 = data[self.iwrite];
            spi.bus.ctl.txdata_write(byte);
            self.iwrite = self.iwrite + 1;
            proof {
                assert(spi@.tx_fifo =~= data@.subrange(self.iread as int, self.iwrite as int));
                assert(spi@.log =~= self.base@.log + pump_log(data@, self.iwrite as int));
            }
        }
        if self.iread < self.iwrite {
            match spi.bus.ctl.rxdata_read() {
                Some(_) => {
                    self.iread = self.iread + 1;
                    proof {
                        assert(spi@.tx_fifo =~= data@.subrange(
                            self.iread as int,
                            self.iwrite as int,
                        ));
                    }
                },
                None => {
                    proof {
                        assert(false);
                    }
                },
            }
        }
        if self.iwrite == n && self.iread == n {
            proof {
                assert(spi@ =~= spec_pump(self.base@, n as int, data@));
            }
            spi.bus.end_frame();
            PollStatus::Complete
        } else {
            PollStatus::Pending
        }
    }
}

impl AsyncWriteIterFuture {
    /// One pump step of the streamed write: takes the next byte while
    /// bytes and FIFO room remain, then discards one outstanding echo.
    /// Completing ends the frame.
    pub fn poll(&mut self, spi: &mut Spi, data: &Vec<u8>) -> (status: PollStatus)
        requires
            write_iter_poll_inv(*old(self), old(spi)@, data@),
        ensures
            final(self).base == old(self).base,
            status == PollStatus::Complete ==> final(self).index == data@.len()
                && final(self).read_count == 0 && final(spi)@ == spec_end_frame(
                spec_pump(old(self).base@, data@.len() as int, data@),
            ),
            status == PollStatus::Pending ==> write_iter_poll_inv(*final(self), final(spi)@, data@)
                && write_iter_measure(*final(self), data@.len() as int) < write_iter_measure(
                *old(self),
                data@.len() as int,
            ),
    {
        if self.has_data && !spi.bus.ctl.txdata_full() {
            if self.index < data.len() {
                let byte: u8 = data[self.index];
                spi.bus.ctl.txdata_write(byte);
                self.index = self.index + 1;
                self.read_count = self.read_count + 1;
                proof {
                    assert(spi@.tx_fifo =~= data@.subrange(
                        self.index - self.read_count,
                        self.index as int,
                    ));
                    assert(spi@.log =~= self.base@.log + pump_log(data@, self.index as int));
                }
            } else {
                self.has_data = false;
            }
        }
        if self.read_count > 0 {
            match spi.bus.ctl.rxdata_read() {
                Some(_) => {
                    self.read_count = self.read_count - 1;
                    proof {
                        assert(spi@.tx_fifo =~= data@.subrange(
                            self.index - self.read_count,
                            self.index as int,
                        ));
                    }
                },
                None => {
                    proof {
                        assert(false);
                    }
                },
            }
        }
        if !self.has_data && self.read_count == 0 {
            proof {
                assert(spi@ =~= spec_pump(self.base@, data@.len() as int, data@));
            }
            spi.bus.end_frame();
            PollStatus::Complete
        } else {
            PollStatus::Pending
        }
    }
}

} // verus!
