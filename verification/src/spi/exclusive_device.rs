//! SPI exclusive device: one configuration, one owner, no contention.
//!
//! The configuration is applied exactly once, at construction; since the
//! bus is unshared, register state can never be stale, so transactions
//! only bracket the byte pump in a frame.

use vstd::prelude::*;

use crate::spi::bus::{ErrorKind, SpiBus};
use crate::spi::config::SpiConfig;
use crate::spi::controller::{
    spec_configure, spec_end_frame, spec_pump, spec_start_frame, CtlView, RegWrite, SpiController,
    FIFO_DEPTH,
};
use crate::status::Nb;

verus! {

/// One operation of a batched transaction: write a buffer out, or
/// transfer one in place.
#[derive(PartialEq, Eq, Debug)]
pub enum Operation {
    /// Write these bytes, discarding everything received.
    Write(Vec<u8>),
    /// Transfer this buffer in place.
    TransferInPlace(Vec<u8>),
}

/// Mathematical view of one batched operation.
pub ghost enum OpView {
    /// A write of these bytes.
    Write(Seq<u8>),
    /// An in-place transfer of these bytes.
    TransferInPlace(Seq<u8>),
}

impl View for Operation {
    type V = OpView;

    open spec fn view(&self) -> OpView {
        match self {
            Operation::Write(v) => OpView::Write(v@),
            Operation::TransferInPlace(v) => OpView::TransferInPlace(v@),
        }
    }
}

/// The views of a sequence of operations.
pub open spec fn op_views(ops: Seq<Operation>) -> Seq<OpView> {
    ops.map_values(|op: Operation| op@)
}

/// Effect of one batched operation on the controller: either kind pumps
/// its bytes.
pub open spec fn op_effect(m: CtlView, op: OpView) -> CtlView {
    match op {
        OpView::Write(w) => spec_pump(m, w.len() as int, w),
        OpView::TransferInPlace(w) => spec_pump(m, w.len() as int, w),
    }
}

/// Effect of a sequence of batched operations, applied in order.
pub open spec fn exec_effect(m: CtlView, ops: Seq<OpView>) -> CtlView
    decreases ops.len(),
{
    if ops.len() == 0 {
        m
    } else {
        exec_effect(op_effect(m, ops[0]), ops.drop_first())
    }
}

/// Peeling one operation off the end of a prefix: running the first
/// `k + 1` operations is running the first `k` and then the next one.
proof fn lemma_exec_effect_snoc(m: CtlView, s: Seq<OpView>, k: int)
    requires
        0 <= k < s.len(),
    ensures
        exec_effect(m, s.take(k + 1)) == op_effect(exec_effect(m, s.take(k)), s[k]),
    decreases k,
{
    if k == 0 {
        assert(s.take(0) =~= Seq::<OpView>::empty());
        assert(exec_effect(m, s.take(0)) == m);
        assert(s.take(1).len() == 1);
        assert(s.take(1)[0] == s[0]);
        assert(s.take(1).drop_first() =~= Seq::<OpView>::empty());
        assert(exec_effect(m, s.take(1)) == exec_effect(
            op_effect(m, s.take(1)[0]),
            s.take(1).drop_first(),
        ));
        assert(exec_effect(op_effect(m, s[0]), s.take(1).drop_first()) == op_effect(m, s[0]));
    } else {
        let m0 = op_effect(m, s[0]);
        let t = s.drop_first();
        lemma_exec_effect_snoc(m0, t, k - 1);
        assert(s.take(k + 1).len() == k + 1);
        assert(s.take(k + 1)[0] == s[0]);
        assert(s.take(k + 1).drop_first() =~= t.take(k));
        assert(exec_effect(m, s.take(k + 1)) == exec_effect(
            op_effect(m, s.take(k + 1)[0]),
            s.take(k + 1).drop_first(),
        ));
        assert(exec_effect(m, s.take(k + 1)) == exec_effect(m0, t.take(k)));
        assert(s.take(k).len() == k);
        assert(s.take(k)[0] == s[0]);
        assert(s.take(k).drop_first() =~= t.take(k - 1));
        assert(exec_effect(m, s.take(k)) == exec_effect(
            op_effect(m, s.take(k)[0]),
            s.take(k).drop_first(),
        ));
        assert(exec_effect(m, s.take(k)) == exec_effect(m0, t.take(k - 1)));
        assert(t[k - 1] == s[k]);
    }
}

/// A device with sole ownership of a bus.
pub struct SpiExclusiveDevice {
    bus: SpiBus,
}

impl View for SpiExclusiveDevice {
    type V = CtlView;

    closed spec fn view(&self) -> CtlView {
        self.bus@
    }
}

impl SpiBus {
    /// Consumes the bus into an exclusive device configured for it.
    pub fn new_device(self, config: &SpiConfig, cs_index: Option<u32>) -> (dev:
        SpiExclusiveDevice)
        requires
            config.wf(),
        ensures
            dev@ == spec_configure(self@, *config, cs_index),
    {
        SpiExclusiveDevice::new(self, config, cs_index)
    }
}

impl SpiExclusiveDevice {
    /// Creates the device from an existing bus, applying the
    /// configuration exactly once. The bus is assumed never to be
    /// configured for anyone else.
    pub fn new(bus: SpiBus, config: &SpiConfig, cs_index: Option<u32>) -> (dev:
        SpiExclusiveDevice)
        requires
            config.wf(),
        ensures
            dev@ == spec_configure(bus@, *config, cs_index),
    {
        let mut bus = bus;
        bus.configure(config, cs_index);
        SpiExclusiveDevice { bus }
    }

    /// Releases the underlying controller, deconstructing the device.
    pub fn release(self) -> (ctl: SpiController)
        ensures
            ctl@ == self@,
    {
        self.bus.release()
    }

    /// Non-blocking read of one byte from the receive-data register.
    pub fn read(&mut self) -> (r: Nb<u8>)
        ensures
            old(self)@.rx_fifo.len() > 0 ==> r == Nb::Ready(old(self)@.rx_fifo[0]) && final(self)@
                == (CtlView { rx_fifo: old(self)@.rx_fifo.remove(0), ..old(self)@ }),
            old(self)@.rx_fifo.len() == 0 && old(self)@.tx_fifo.len() > 0 ==> r == Nb::Ready(
                old(self)@.tx_fifo[0],
            ) && final(self)@ == (CtlView { tx_fifo: old(self)@.tx_fifo.remove(0), ..old(self)@ }),
            old(self)@.rx_fifo.len() == 0 && old(self)@.tx_fifo.len() == 0 ==> r
                == Nb::WouldBlock::<u8> && final(self)@ == old(self)@,
    {
        match self.bus.ctl.rxdata_read() {
            Some(b) => Nb::Ready(b),
            None => Nb::WouldBlock,
        }
    }

    /// Non-blocking write of one byte to the transmit-data register;
    /// reports that it would block while the transmit FIFO is full.
    pub fn send(&mut self, byte: u8) -> (r: Nb<()>)
        ensures
            old(self)@.tx_fifo.len() < FIFO_DEPTH ==> r == Nb::Ready(()) && final(self)@
                == (CtlView {
                tx_fifo: old(self)@.tx_fifo.push(byte),
                log: old(self)@.log.push(RegWrite::Txdata(byte)),
                ..old(self)@
            }),
            old(self)@.tx_fifo.len() >= FIFO_DEPTH ==> r == Nb::WouldBlock::<()> && final(self)@
                == old(self)@,
    {
        if self.bus.ctl.txdata_full() {
            Nb::WouldBlock
        } else {
            self.bus.ctl.txdata_write(byte);
            Nb::Ready(())
        }
    }

    /// In-place transfer bracketed in one frame: start the frame, pump
    /// the buffer, end the frame.
    pub fn transfer(&mut self, words: &mut Vec<u8>) -> (r: Result<(), ErrorKind>)
        ensures
            r == Ok::<(), ErrorKind>(()),
            final(self)@ == spec_end_frame(
                spec_pump(
                    spec_start_frame(old(self)@),
                    old(words)@.len() as int,
                    old(words)@,
                ),
            ),
            final(words)@ == old(words)@,
    {
        self.bus.start_frame();
        let result = self.bus.transfer_in_place(words);
        self.bus.end_frame();
        result
    }

    /// Write bracketed in one frame.
    pub fn write(&mut self, words: &Vec<u8>) -> (r: Result<(), ErrorKind>)
        ensures
            r == Ok::<(), ErrorKind>(()),
            final(self)@ == spec_end_frame(
                spec_pump(spec_start_frame(old(self)@), words@.len() as int, words@),
            ),
    {
        self.bus.start_frame();
        let result = self.bus.write(words);
        self.bus.end_frame();
        result
    }

    /// Runs a batch of operations inside one frame: the frame is
    /// started once, every operation pumps its bytes in order, and the
    /// frame is ended once. In-place buffers come back holding what was
    /// received in their place (themselves, over the loopback wire).
    pub fn exec(&mut self, operations: &mut Vec<Operation>) -> (r: Result<(), ErrorKind>)
        ensures
            r == Ok::<(), ErrorKind>(()),
            final(self)@ == spec_end_frame(
                exec_effect(spec_start_frame(old(self)@), op_views(old(operations)@)),
            ),
            final(operations)@.len() == old(operations)@.len(),
            forall|i: int|
                0 <= i < old(operations)@.len() ==> (#[trigger] final(operations)@[i])@ == old(
                    operations,
                )@[i]@,
    {
        self.bus.start_frame();
        let ghost m1 = self@;
        let ghost ops0 = op_views(operations@);

        let mut done: Vec<Operation> = Vec::new();
        proof {
            assert(ops0.take(0) =~= Seq::<OpView>::empty());
        }
        while operations.len() > 0
            invariant
                ops0 == op_views(old(operations)@),
                m1 == spec_start_frame(old(self)@),
                done@.len() + operations@.len() == ops0.len(),
                forall|i: int|
                    0 <= i < done@.len() ==> (#[trigger] done@[i])@ == ops0[i],
                forall|i: int|
                    0 <= i < operations@.len() ==> (#[trigger] operations@[i])@ == ops0[done@.len()
                        + i],
                self@ == exec_effect(m1, ops0.take(done@.len() as int)),
            decreases operations@.len(),
        {
            let ghost k = done@.len() as int;
            let op = operations.remove(0);
            match op {
                Operation::Write(v) => {
                    let result = self.bus.write(&v);
                    proof {
                        lemma_exec_effect_snoc(m1, ops0, k);
                    }
                    done.push(Operation::Write(v));
                },
                Operation::TransferInPlace(v) => {
                    let mut v = v;
                    let result = self.bus.transfer_in_place(&mut v);
                    proof {
                        lemma_exec_effect_snoc(m1, ops0, k);
                    }
                    done.push(Operation::TransferInPlace(v));
                },
            }
        }
        proof {
            assert(ops0.take(done@.len() as int) =~= ops0);
        }
        core::mem::swap(operations, &mut done);
        self.bus.end_frame();
        Ok(())
    }

    /// Write of a streamed byte sequence bracketed in one frame. The
    /// bytes are taken in order from the vector; the register effect is
    /// the same as for `write`.
    pub fn write_iter(&mut self, words: &Vec<u8>) -> (r: Result<(), ErrorKind>)
        ensures
            r == Ok::<(), ErrorKind>(()),
            final(self)@ == spec_end_frame(
                spec_pump(spec_start_frame(old(self)@), words@.len() as int, words@),
            ),
    {
        self.bus.start_frame();
        let result = self.bus.write(words);
        self.bus.end_frame();
        result
    }
}

} // verus!
