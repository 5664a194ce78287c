use e310x_hal::spi::{
    CsMode, Delays, ErrorKind, Mode, Operation, Phase, Polarity, RegWrite, SpiBus, SpiConfig,
    SpiController,
};
use e310x_hal::status::{Nb, PollStatus};

fn mode_0() -> Mode {
    Mode { polarity: Polarity::IdleLow, phase: Phase::CaptureOnFirstTransition }
}

fn mode_3() -> Mode {
    Mode { polarity: Polarity::IdleHigh, phase: Phase::CaptureOnSecondTransition }
}

fn config_auto() -> SpiConfig {
    SpiConfig::new(mode_0(), CsMode::Auto, 1_000_000, 16_000_000)
}

#[test]
fn config_divisor_formula() {
    let cfg = SpiConfig::new(mode_0(), CsMode::Auto, 1_000_000, 16_000_000);
    assert_eq!(cfg.clock_divisor, 15);
    assert_eq!(cfg.txmark, 1);
    assert_eq!(cfg.rxmark, 0);
    assert_eq!(cfg.delays, Delays { cssck: 0, sckcs: 0, intercs: 0, interxfr: 0 });
}

#[test]
fn config_divisor_at_equal_clocks_is_zero() {
    let cfg = SpiConfig::new(mode_0(), CsMode::Off, 8_000_000, 8_000_000);
    assert_eq!(cfg.clock_divisor, 0);
}

#[test]
fn controller_reset_state() {
    let ctl = SpiController::new();
    assert_eq!(ctl.sckdiv, 3);
    assert_eq!(ctl.csdef, 1);
    assert_eq!(ctl.csmode, CsMode::Auto);
    assert!(ctl.tx_fifo.is_empty());
    assert!(ctl.rx_fifo.is_empty());
    assert!(ctl.log.is_empty());
}

#[test]
fn configure_writes_all_registers() {
    let mut bus = SpiBus::new(SpiController::new());
    let cfg = SpiConfig::new(mode_3(), CsMode::Auto, 100_000, 1_600_000);
    bus.configure(&cfg, Some(2));
    assert_eq!(bus.ctl.sckdiv, 15);
    assert_eq!(bus.ctl.csid, 2);
    assert_eq!(bus.ctl.csdef, 1);
    assert!(bus.ctl.pha);
    assert!(bus.ctl.pol);
    assert_eq!(bus.ctl.fmt_proto, 0);
    assert!(bus.ctl.fmt_msb_first);
    assert!(bus.ctl.fmt_dir_rx);
    assert_eq!(bus.ctl.fmt_len, 8);
    assert_eq!(bus.ctl.txmark, 1);
    assert_eq!(bus.ctl.rxmark, 0);
}

#[test]
fn configure_leaves_chip_select_deasserted() {
    // The idle-state guarantee, for every chip-select behaviour.
    for cs_mode in [CsMode::Auto, CsMode::Hold, CsMode::Off] {
        let mut bus = SpiBus::new(SpiController::new());
        let cfg = SpiConfig::new(mode_0(), cs_mode, 1_000_000, 16_000_000);
        bus.configure(&cfg, Some(0));
        assert!(bus.cs_is_deasserted());
    }
}

#[test]
fn transfer_round_trip() {
    // Over the loopback wire a transfer reads back what it wrote.
    for n in [0usize, 1, 2, 7, 8, 9, 31] {
        let mut bus = SpiBus::new(SpiController::new());
        let write: Vec<u8> = (0..n as u8).map(|i| i.wrapping_mul(7).wrapping_add(1)).collect();
        let mut read: Vec<u8> = vec![0; n];
        bus.transfer(&mut read, &write).unwrap();
        assert_eq!(read, write);
        assert!(bus.ctl.tx_fifo.is_empty());
        assert!(bus.ctl.rx_fifo.is_empty());
    }
}

#[test]
fn read_only_clocks_zero_fillers() {
    let mut bus = SpiBus::new(SpiController::new());
    let mut buf: Vec<u8> = vec![0xaa, 0xbb, 0xcc];
    bus.read(&mut buf).unwrap();
    assert_eq!(buf, vec![0, 0, 0]);
    let txdata: Vec<RegWrite> = bus.ctl.log.clone();
    assert_eq!(txdata, vec![RegWrite::Txdata(0), RegWrite::Txdata(0), RegWrite::Txdata(0)]);
}

#[test]
fn read_longer_than_write_pads_with_fillers() {
    let mut bus = SpiBus::new(SpiController::new());
    let mut read: Vec<u8> = vec![9; 5];
    let write: Vec<u8> = vec![1, 2];
    bus.transfer(&mut read, &write).unwrap();
    assert_eq!(read, vec![1, 2, 0, 0, 0]);
}

#[test]
fn write_longer_than_read_discards_extra_bytes() {
    let mut bus = SpiBus::new(SpiController::new());
    let mut read: Vec<u8> = vec![0; 2];
    let write: Vec<u8> = vec![4, 5, 6, 7];
    bus.transfer(&mut read, &write).unwrap();
    assert_eq!(read, vec![4, 5]);
    assert!(bus.ctl.rx_fifo.is_empty());
}

#[test]
fn transfer_in_place_keeps_buffer() {
    let mut bus = SpiBus::new(SpiController::new());
    let mut words: Vec<u8> = vec![5, 6, 7, 8, 9, 10, 11, 12, 13];
    bus.transfer_in_place(&mut words).unwrap();
    assert_eq!(words, vec![5, 6, 7, 8, 9, 10, 11, 12, 13]);
}

#[test]
fn pump_drains_stale_transmit_bytes_too() {
    let mut ctl = SpiController::new();
    ctl.tx_fifo.push(0x77);
    let mut bus = SpiBus::new(ctl);
    let mut read: Vec<u8> = vec![0];
    let write: Vec<u8> = vec![0x12];
    bus.transfer(&mut read, &write).unwrap();
    assert_eq!(read, vec![0x12]);
    assert!(bus.ctl.tx_fifo.is_empty());
}

#[test]
fn hold_configuration_still_ends_deasserted() {
    // The transaction bracket, for a device that asks for hold
    // behaviour: after the transaction the line reports deasserted.
    let cfg = SpiConfig::new(mode_0(), CsMode::Hold, 1_000_000, 16_000_000);
    let mut shared = SpiBus::shared(SpiController::new());
    let dev = shared.new_device(0, &cfg);
    let buf: Vec<u8> = vec![1];
    dev.write(&mut shared, &buf).unwrap();
    assert!(shared.bus.cs_is_deasserted());
    assert_eq!(shared.bus.ctl.csmode, CsMode::Auto);
}

#[test]
fn exclusive_write_and_write_iter_record_the_same_traffic() {
    let cfg = config_auto();
    let words: Vec<u8> = vec![1, 2, 3, 4];
    let mut dev_a = SpiBus::new(SpiController::new()).new_device(&cfg, Some(0));
    dev_a.write(&words).unwrap();
    let mut dev_b = SpiBus::new(SpiController::new()).new_device(&cfg, Some(0));
    dev_b.write_iter(&words).unwrap();
    assert_eq!(dev_a.release().log, dev_b.release().log);
}

#[test]
fn pump_drains_stale_receive_bytes_first() {
    let mut ctl = SpiController::new();
    ctl.rx_fifo.push(0xde);
    ctl.rx_fifo.push(0xad);
    let mut bus = SpiBus::new(ctl);
    let mut read: Vec<u8> = vec![0; 2];
    let write: Vec<u8> = vec![1, 2];
    bus.transfer(&mut read, &write).unwrap();
    // The stale bytes never reach the read buffer.
    assert_eq!(read, vec![1, 2]);
}

#[test]
fn write_produces_identical_fifo_sequence_as_transfer_with_empty_read() {
    // Write-only reduction, on concrete values.
    let words: Vec<u8> = vec![3, 1, 4, 1, 5, 9, 2, 6, 5, 3];
    let mut bus_w = SpiBus::new(SpiController::new());
    bus_w.write(&words).unwrap();
    let mut bus_t = SpiBus::new(SpiController::new());
    let mut empty: Vec<u8> = Vec::new();
    bus_t.transfer(&mut empty, &words).unwrap();
    assert_eq!(bus_w.ctl.log, bus_t.ctl.log);
    assert_eq!(bus_w.ctl.tx_fifo, bus_t.ctl.tx_fifo);
    assert_eq!(bus_w.ctl.rx_fifo, bus_t.ctl.rx_fifo);
}

#[test]
fn read_produces_identical_fifo_sequence_as_transfer_with_empty_write() {
    // Read-only reduction, on concrete values.
    let mut bus_r = SpiBus::new(SpiController::new());
    let mut buf_r: Vec<u8> = vec![0; 6];
    bus_r.read(&mut buf_r).unwrap();
    let mut bus_t = SpiBus::new(SpiController::new());
    let mut buf_t: Vec<u8> = vec![0; 6];
    let empty: Vec<u8> = Vec::new();
    bus_t.transfer(&mut buf_t, &empty).unwrap();
    assert_eq!(bus_r.ctl.log, bus_t.ctl.log);
    assert_eq!(buf_r, buf_t);
}

#[test]
fn flush_changes_nothing() {
    let mut bus = SpiBus::new(SpiController::new());
    let before = bus.ctl.log.clone();
    bus.flush().unwrap();
    assert_eq!(bus.ctl.log, before);
}

#[test]
fn exclusive_device_applies_config_once_and_frames_transfers() {
    let bus = SpiBus::new(SpiController::new());
    let cfg = config_auto();
    let mut dev = bus.new_device(&cfg, Some(1));
    let mut words: Vec<u8> = vec![10, 20, 30];
    dev.transfer(&mut words).unwrap();
    assert_eq!(words, vec![10, 20, 30]);
    let ctl = dev.release();
    assert_eq!(ctl.sckdiv, 15);
    assert_eq!(ctl.csid, 1);
    // The frame was opened and closed around the pump.
    let hold_count =
        ctl.log.iter().filter(|w| matches!(w, RegWrite::Csmode(CsMode::Hold))).count();
    assert_eq!(hold_count, 1);
    assert_eq!(ctl.log.last(), Some(&RegWrite::Csmode(CsMode::Auto)));
    assert_eq!(ctl.csmode, CsMode::Auto);
}

#[test]
fn exec_runs_a_batch_inside_one_frame() {
    let cfg = config_auto();
    let mut dev = SpiBus::new(SpiController::new()).new_device(&cfg, Some(0));
    let log_before = {
        let mut probe = SpiBus::new(SpiController::new()).new_device(&cfg, Some(0));
        probe.release().log.len()
    };

    let mut ops = vec![
        Operation::Write(vec![1, 2]),
        Operation::TransferInPlace(vec![3, 4, 5]),
        Operation::Write(vec![]),
    ];
    dev.exec(&mut ops).unwrap();
    assert_eq!(
        ops,
        vec![
            Operation::Write(vec![1, 2]),
            Operation::TransferInPlace(vec![3, 4, 5]),
            Operation::Write(vec![]),
        ]
    );

    let ctl = dev.release();
    let segment = &ctl.log[log_before..];
    let hold_count =
        segment.iter().filter(|w| matches!(w, RegWrite::Csmode(CsMode::Hold))).count();
    assert_eq!(hold_count, 1);
    assert_eq!(segment.first(), Some(&RegWrite::Csmode(CsMode::Hold)));
    assert_eq!(segment.last(), Some(&RegWrite::Csmode(CsMode::Auto)));
    let txdata: Vec<u8> = segment
        .iter()
        .filter_map(|w| if let RegWrite::Txdata(b) = w { Some(*b) } else { None })
        .collect();
    assert_eq!(txdata, vec![1, 2, 3, 4, 5]);
}

#[test]
fn exclusive_device_send_and_read_loop_back() {
    let bus = SpiBus::new(SpiController::new());
    let cfg = config_auto();
    let mut dev = bus.new_device(&cfg, None);
    assert_eq!(dev.send(0x55), Nb::Ready(()));
    assert_eq!(dev.send(0x66), Nb::Ready(()));
    assert_eq!(dev.read(), Nb::Ready(0x55));
    assert_eq!(dev.read(), Nb::Ready(0x66));
    assert_eq!(dev.read(), Nb::WouldBlock);
}

#[test]
fn send_reports_would_block_when_fifo_full() {
    let bus = SpiBus::new(SpiController::new());
    let cfg = config_auto();
    let mut dev = bus.new_device(&cfg, None);
    for i in 0..8 {
        assert_eq!(dev.send(i), Nb::Ready(()));
    }
    assert_eq!(dev.send(99), Nb::WouldBlock);
}

#[test]
fn shared_devices_never_interleave_register_writes() {
    // Mutual exclusion: the log of (device one, then device two) is
    // device one's block followed, contiguously, by exactly the block
    // device two writes on a bus of its own.
    let cfg1 = SpiConfig::new(mode_0(), CsMode::Auto, 1_000_000, 16_000_000);
    let cfg2 = SpiConfig::new(mode_3(), CsMode::Auto, 2_000_000, 16_000_000);

    let mut shared = SpiBus::shared(SpiController::new());
    let d1 = shared.new_device(0, &cfg1);
    let d2 = shared.new_device(3, &cfg2);

    let w1: Vec<u8> = vec![1, 2, 3];
    let w2: Vec<u8> = vec![9, 8];

    d1.write(&mut shared, &w1).unwrap();
    let after_d1 = shared.bus.ctl.log.clone();
    d2.write(&mut shared, &w2).unwrap();
    let full = shared.bus.ctl.log.clone();

    // Device one's block is still a prefix, untouched.
    assert_eq!(&full[..after_d1.len()], &after_d1[..]);

    // The suffix is exactly device two's own block.
    let mut alone = SpiBus::shared(SpiController::new());
    let d2_alone = alone.new_device(3, &cfg2);
    d2_alone.write(&mut alone, &w2).unwrap();
    assert_eq!(&full[after_d1.len()..], &alone.bus.ctl.log[..]);
}

#[test]
fn reconfiguration_corrects_stale_registers() {
    // Reconfiguration correctness: after device one, device two, device
    // one again, the registers match device one's configuration.
    let cfg1 = SpiConfig::new(mode_0(), CsMode::Auto, 1_000_000, 16_000_000);
    let cfg2 = SpiConfig::new(mode_3(), CsMode::Auto, 4_000_000, 16_000_000);
    assert_ne!(cfg1, cfg2);

    let mut shared = SpiBus::shared(SpiController::new());
    let d1 = shared.new_device(0, &cfg1);
    let d2 = shared.new_device(1, &cfg2);

    let buf: Vec<u8> = vec![0x42];
    d1.write(&mut shared, &buf).unwrap();
    d2.write(&mut shared, &buf).unwrap();
    assert_eq!(shared.bus.ctl.sckdiv, 3);
    assert_eq!(shared.bus.ctl.csid, 1);
    d1.write(&mut shared, &buf).unwrap();

    assert_eq!(shared.bus.ctl.sckdiv, 15);
    assert_eq!(shared.bus.ctl.csid, 0);
    assert!(!shared.bus.ctl.pha);
    assert!(!shared.bus.ctl.pol);
    assert_eq!(shared.bus.ctl.txmark, 1);
    assert_eq!(shared.bus.ctl.rxmark, 0);
    assert_eq!(shared.bus.ctl.csmode, CsMode::Auto);
}

#[test]
fn transaction_brackets_body_in_one_frame_on_success() {
    let cfg = config_auto();
    let mut shared = SpiBus::shared(SpiController::new());
    let dev = shared.new_device(0, &cfg);

    let out = dev.transaction(&mut shared, |bus: SpiBus| {
        let mut bus = bus;
        let mut data: Vec<u8> = vec![7, 7, 7];
        let r = bus.transfer_in_place(&mut data);
        (bus, r.map(|_| data))
    });
    assert_eq!(out.unwrap(), vec![7, 7, 7]);

    let log = &shared.bus.ctl.log;
    let hold_count = log.iter().filter(|w| matches!(w, RegWrite::Csmode(CsMode::Hold))).count();
    assert_eq!(hold_count, 1);
    assert_eq!(log.last(), Some(&RegWrite::Csmode(CsMode::Auto)));
    assert!(shared.bus.cs_is_deasserted());
}

#[test]
fn transaction_ends_frame_when_body_fails() {
    // Frame symmetry on the failure path: the error comes back
    // unchanged and the frame end still ran.
    let cfg = config_auto();
    let mut shared = SpiBus::shared(SpiController::new());
    let dev = shared.new_device(0, &cfg);

    let out: Result<u8, ErrorKind> =
        dev.transaction(&mut shared, |bus: SpiBus| (bus, Err(ErrorKind::Other)));
    assert_eq!(out, Err(ErrorKind::Other));

    let log = &shared.bus.ctl.log;
    let hold_count = log.iter().filter(|w| matches!(w, RegWrite::Csmode(CsMode::Hold))).count();
    assert_eq!(hold_count, 1);
    assert_eq!(log.last(), Some(&RegWrite::Csmode(CsMode::Auto)));
    assert!(shared.bus.cs_is_deasserted());
}

#[test]
fn shared_transfer_round_trip() {
    let cfg = config_auto();
    let mut shared = SpiBus::shared(SpiController::new());
    let dev = shared.new_device(2, &cfg);
    let write: Vec<u8> = vec![11, 22, 33, 44];
    let mut read: Vec<u8> = vec![0; 4];
    dev.transfer(&mut shared, &mut read, &write).unwrap();
    assert_eq!(read, write);
    let cs = dev.release();
    assert_eq!(cs, 2);
}

#[test]
fn shared_read_fills_with_fillers() {
    let cfg = config_auto();
    let mut shared = SpiBus::shared(SpiController::new());
    let dev = shared.new_device(0, &cfg);
    let mut buf: Vec<u8> = vec![0xff; 3];
    dev.read(&mut shared, &mut buf).unwrap();
    assert_eq!(buf, vec![0, 0, 0]);
}

#[test]
fn shared_bus_frame_calls_reach_the_bus() {
    let cfg = SpiConfig::new(mode_0(), CsMode::Auto, 1_000_000, 16_000_000);
    let mut shared = SpiBus::shared(SpiController::new());
    shared.bus.configure(&cfg, Some(0));
    shared.start_frame();
    assert_eq!(shared.bus.ctl.csmode, CsMode::Hold);
    assert!(!shared.bus.cs_is_deasserted());
    shared.end_frame();
    assert_eq!(shared.bus.ctl.csmode, CsMode::Auto);
    assert!(shared.bus.cs_is_deasserted());
    let ctl = shared.release();
    assert_eq!(ctl.csid, 0);
}

#[test]
fn frame_calls_are_no_ops_with_chip_select_off() {
    let cfg = SpiConfig::new(mode_0(), CsMode::Off, 1_000_000, 16_000_000);
    let mut shared = SpiBus::shared(SpiController::new());
    shared.bus.configure(&cfg, None);
    let log_len = shared.bus.ctl.log.len();
    shared.start_frame();
    shared.end_frame();
    assert_eq!(shared.bus.ctl.log.len(), log_len);
    assert_eq!(shared.bus.ctl.csmode, CsMode::Off);
}
