//! The bus-sharing laws: what the contracts of the bus and the device
//! layers add up to, written down and proved.

use vstd::prelude::*;

use crate::spi::config::{CsMode, Phase, Polarity, SpiConfig};
use crate::spi::controller::{
    configure_log, cs_deasserted, pump_log, pump_reads, spec_configure, spec_drain,
    spec_end_frame, spec_pump, spec_start_frame, transfer_len, CtlView, RegWrite,
};
use crate::spi::shared_device::spec_shared_transfer;

verus! {

/// The register writes one whole shared-device transfer transaction
/// appends to the log: the reconfiguration writes, the frame start, one
/// transmit-data write per pumped byte, and the frame end. The two
/// frame writes are absent only when the device's configuration turns
/// hardware chip-select control off, in which case frame start and end
/// are no-ops.
pub open spec fn shared_transfer_log(
    cfg: SpiConfig,
    cs_index: u32,
    rlen: int,
    w: Seq<u8>,
) -> Seq<RegWrite> {
    configure_log(cfg, Some(cs_index)) + (if cfg.cs_mode != CsMode::Off {
        seq![RegWrite::Csmode(CsMode::Hold)]
    } else {
        Seq::<RegWrite>::empty()
    }) + pump_log(w, transfer_len(rlen, w.len() as int)) + (if cfg.cs_mode != CsMode::Off {
        seq![RegWrite::Csmode(CsMode::Auto)]
    } else {
        Seq::<RegWrite>::empty()
    })
}

/// One transaction appends exactly its own writes to the log, as one
/// contiguous block: everything that was in the log before it is still
/// there, unchanged and uninterrupted, in front of the block.
pub proof fn lemma_transaction_block(
    m: CtlView,
    cfg: SpiConfig,
    cs_index: u32,
    rlen: int,
    w: Seq<u8>,
)
    ensures
        spec_shared_transfer(m, cfg, cs_index, rlen, w).log == m.log + shared_transfer_log(
            cfg,
            cs_index,
            rlen,
            w,
        ),
{
    assert(spec_shared_transfer(m, cfg, cs_index, rlen, w).log =~= m.log + shared_transfer_log(
        cfg,
        cs_index,
        rlen,
        w,
    ));
}

/// Mutual exclusion: when two devices on one shared bus run their
/// transactions, the recorded register-write sequence is the first
/// device's block followed by the second device's block. Neither
/// transaction's writes are split by a write belonging to the other:
/// exclusive access to the shared bus totally orders them.
pub proof fn lemma_mutual_exclusion(
    m: CtlView,
    cfg1: SpiConfig,
    cs1: u32,
    rlen1: int,
    w1: Seq<u8>,
    cfg2: SpiConfig,
    cs2: u32,
    rlen2: int,
    w2: Seq<u8>,
)
    ensures
        spec_shared_transfer(
            spec_shared_transfer(m, cfg1, cs1, rlen1, w1),
            cfg2,
            cs2,
            rlen2,
            w2,
        ).log == m.log + shared_transfer_log(cfg1, cs1, rlen1, w1) + shared_transfer_log(
            cfg2,
            cs2,
            rlen2,
            w2,
        ),
{
    let mid = spec_shared_transfer(m, cfg1, cs1, rlen1, w1);
    lemma_transaction_block(m, cfg1, cs1, rlen1, w1);
    lemma_transaction_block(mid, cfg2, cs2, rlen2, w2);
    assert(mid.log + shared_transfer_log(cfg2, cs2, rlen2, w2) =~= m.log + shared_transfer_log(
        cfg1,
        cs1,
        rlen1,
        w1,
    ) + shared_transfer_log(cfg2, cs2, rlen2, w2));
}

/// True when the configuration registers reflect `cfg` with chip-select
/// line `cs_index` selected: the state invariant a device relies on
/// while its transaction's FIFO traffic runs. The chip-select mode
/// register sits at automatic control between frames (or off, when the
/// configuration turns hardware control off).
pub open spec fn reflects_config(m: CtlView, cfg: SpiConfig, cs_index: u32) -> bool {
    &&& m.sckdiv == cfg.clock_divisor
    &&& m.csid == cs_index
    &&& m.csdef == 1
    &&& m.csmode == (if cfg.cs_mode == CsMode::Off {
        CsMode::Off
    } else {
        CsMode::Auto
    })
    &&& m.pha == (cfg.mode.phase == Phase::CaptureOnSecondTransition)
    &&& m.pol == (cfg.mode.polarity == Polarity::IdleHigh)
    &&& m.fmt_proto == 0
    &&& m.fmt_msb_first
    &&& m.fmt_dir_rx
    &&& m.fmt_len == 8
    &&& m.txmark == cfg.txmark
    &&& m.rxmark == cfg.rxmark
    &&& m.cssck == cfg.delays.cssck
    &&& m.sckcs == cfg.delays.sckcs
    &&& m.intercs == cfg.delays.intercs
    &&& m.interxfr == cfg.delays.interxfr
}

/// Reconfiguration correctness: whatever configurations two devices
/// carry, after the first device's transaction, then the second's, then
/// the first's again, the bus registers match the first device's
/// configuration: the staleness left by the sibling's use is always
/// corrected, because every transaction reconfigures before it pumps.
pub proof fn lemma_reconfiguration(
    m: CtlView,
    cfg1: SpiConfig,
    cs1: u32,
    rlen1: int,
    w1: Seq<u8>,
    cfg2: SpiConfig,
    cs2: u32,
    rlen2: int,
    w2: Seq<u8>,
    rlen3: int,
    w3: Seq<u8>,
)
    ensures
        reflects_config(
            spec_shared_transfer(
                spec_shared_transfer(
                    spec_shared_transfer(m, cfg1, cs1, rlen1, w1),
                    cfg2,
                    cs2,
                    rlen2,
                    w2,
                ),
                cfg1,
                cs1,
                rlen3,
                w3,
            ),
            cfg1,
            cs1,
        ),
{
}

/// The configuration registers a transaction pumps under are those of
/// the device that issued it, whatever state the bus was left in.
pub proof fn lemma_transaction_pumps_configured(
    m: CtlView,
    cfg: SpiConfig,
    cs_index: u32,
    rlen: int,
    w: Seq<u8>,
)
    ensures
        reflects_config(spec_shared_transfer(m, cfg, cs_index, rlen, w), cfg, cs_index),
{
}

/// Frame symmetry: with hardware chip-select control on, every
/// transaction writes exactly one frame start (hold) and, after the
/// body's writes, exactly one matching frame end (automatic control);
/// the body contributes transmit-data writes only, so the bracket is
/// never split or skipped.
pub proof fn lemma_frame_symmetry(m: CtlView, cfg: SpiConfig, cs_index: u32, rlen: int, w: Seq<u8>)
    requires
        cfg.cs_mode != CsMode::Off,
    ensures
        spec_shared_transfer(m, cfg, cs_index, rlen, w).log == m.log + configure_log(
            cfg,
            Some(cs_index),
        ) + seq![RegWrite::Csmode(CsMode::Hold)] + pump_log(
            w,
            transfer_len(rlen, w.len() as int),
        ) + seq![RegWrite::Csmode(CsMode::Auto)],
        forall|i: int|
            0 <= i < transfer_len(rlen, w.len() as int) ==> (#[trigger] pump_log(
                w,
                transfer_len(rlen, w.len() as int),
            )[i]) is Txdata,
{
    assert(spec_shared_transfer(m, cfg, cs_index, rlen, w).log =~= m.log + configure_log(
        cfg,
        Some(cs_index),
    ) + seq![RegWrite::Csmode(CsMode::Hold)] + pump_log(w, transfer_len(rlen, w.len() as int))
        + seq![RegWrite::Csmode(CsMode::Auto)]);
}

/// Byte-pump round trip: over the loopback controller, a full-duplex
/// transfer whose read buffer is as long as its write buffer reads back
/// exactly the bytes written, for every length including zero.
pub proof fn lemma_transfer_round_trip(w: Seq<u8>)
    ensures
        pump_reads(w, w.len() as int) == w,
{
    assert(pump_reads(w, w.len() as int) =~= w);
}

/// Write-only reduction: a write produces the identical controller
/// effect — the same FIFO register sequence — as a transfer with the
/// read buffer's logical length reduced to zero.
pub proof fn lemma_write_only_reduction(m: CtlView, w: Seq<u8>)
    ensures
        spec_pump(m, w.len() as int, w) == spec_pump(m, transfer_len(0, w.len() as int), w),
{
}

/// Read-only reduction: a read produces the identical controller effect
/// as a transfer with the write buffer's logical length reduced to
/// zero; only zero fillers are clocked out.
pub proof fn lemma_read_only_reduction(m: CtlView, rlen: int)
    requires
        0 <= rlen,
    ensures
        spec_pump(m, rlen, Seq::<u8>::empty()) == spec_pump(
            m,
            transfer_len(rlen, 0),
            Seq::<u8>::empty(),
        ),
{
}

/// Cooperative/blocking equivalence: a cooperative in-place transfer
/// that has been polled to completion leaves the controller exactly
/// where the blocking in-place transfer leaves it. The left-hand side
/// is the state a completed transfer object reports (its creation
/// drains the FIFOs and starts the frame; completion ends it); the
/// right-hand side is the blocking transfer's contract. Both leave the
/// buffer itself unchanged, so the bytes read back agree byte for byte
/// as well.
pub proof fn lemma_cooperative_blocking_equivalence(m: CtlView, w: Seq<u8>)
    ensures
        spec_end_frame(spec_pump(spec_start_frame(spec_drain(m)), w.len() as int, w))
            == spec_end_frame(spec_pump(spec_start_frame(m), w.len() as int, w)),
{
    assert(spec_pump(spec_start_frame(spec_drain(m)), w.len() as int, w) =~= spec_pump(
        spec_start_frame(m),
        w.len() as int,
        w,
    ));
}

/// Idle-state guarantee: immediately after a configuration is applied,
/// the chip-select line reports deasserted, whatever chip-select mode
/// the configuration asks for.
pub proof fn lemma_idle_after_configure(m: CtlView, cfg: SpiConfig, cs_index: Option<u32>)
    ensures
        cs_deasserted(spec_configure(m, cfg, cs_index)),
{
}

} // verus!
