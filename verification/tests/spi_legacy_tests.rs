use e310x_hal::spi::{CsMode, Mode, Phase, Polarity, RegWrite, Spi, SpiController};
use e310x_hal::status::{Nb, PollStatus};

fn mode_0() -> Mode {
    Mode { polarity: Polarity::IdleLow, phase: Phase::CaptureOnFirstTransition }
}

fn new_spi() -> Spi {
    Spi::new(SpiController::new(), Some(0), mode_0(), 1_000_000, 16_000_000)
}

#[test]
fn new_derives_divisor_and_selects_line() {
    let spi = Spi::new(SpiController::new(), Some(2), mode_0(), 100_000, 1_600_000);
    assert_eq!(spi.bus.ctl.sckdiv, 15);
    assert_eq!(spi.bus.ctl.csid, 2);
    assert_eq!(spi.bus.ctl.csmode, CsMode::Hold);
    assert_eq!(spi.bus.ctl.txmark, 1);
    assert_eq!(spi.bus.ctl.rxmark, 0);
}

#[test]
fn new_without_line_disables_chip_select() {
    let spi = Spi::new(SpiController::new(), None, mode_0(), 1_000_000, 16_000_000);
    assert_eq!(spi.bus.ctl.csmode, CsMode::Off);
}

#[test]
fn watermark_status_follows_fifo_level() {
    let mut spi = new_spi();
    spi.set_tx_watermark(4);
    spi.set_rx_watermark(1);
    // Empty transmit FIFO: below the watermark, so pending.
    assert!(spi.tx_wm_is_pending());
    for i in 0..4 {
        assert_eq!(spi.send(i), Nb::Ready(()));
    }
    assert!(!spi.tx_wm_is_pending());
    // Receive FIFO empty: not above the watermark.
    assert!(!spi.rx_wm_is_pending());
}

#[test]
fn listen_and_unlisten_rewrite_interrupt_enables() {
    let mut spi = new_spi();
    spi.listen_tx_wm();
    assert!(spi.bus.ctl.ie_txwm);
    assert!(!spi.bus.ctl.ie_rxwm);
    spi.listen_rx_wm();
    assert!(!spi.bus.ctl.ie_txwm);
    assert!(spi.bus.ctl.ie_rxwm);
    spi.unlisten_rx_wm();
    assert!(!spi.bus.ctl.ie_txwm);
    assert!(!spi.bus.ctl.ie_rxwm);
}

#[test]
fn cs_mode_helpers_toggle_the_frame() {
    let mut spi = new_spi();
    spi.cs_mode_frame();
    assert_eq!(spi.bus.ctl.csmode, CsMode::Hold);
    spi.cs_mode_word();
    assert_eq!(spi.bus.ctl.csmode, CsMode::Auto);
    spi.cs_mode_frame();
    spi.end_transfer();
    assert_eq!(spi.bus.ctl.csmode, CsMode::Auto);
}

#[test]
fn send_then_read_loops_back() {
    let mut spi = new_spi();
    assert_eq!(spi.read(), Nb::WouldBlock);
    assert_eq!(spi.send(0xa5), Nb::Ready(()));
    assert_eq!(spi.read(), Nb::Ready(0xa5));
}

#[test]
fn blocking_transfer_keeps_buffer_and_frames_pump() {
    let mut spi = new_spi();
    let mut words: Vec<u8> = vec![1, 2, 3, 4, 5];
    spi.transfer(&mut words).unwrap();
    assert_eq!(words, vec![1, 2, 3, 4, 5]);
    assert_eq!(spi.bus.ctl.csmode, CsMode::Auto);
    let txdata: Vec<u8> = spi
        .bus
        .ctl
        .log
        .iter()
        .filter_map(|w| if let RegWrite::Txdata(b) = w { Some(*b) } else { None })
        .collect();
    assert_eq!(txdata, vec![1, 2, 3, 4, 5]);
}

#[test]
fn write_iter_matches_write() {
    let words: Vec<u8> = vec![2, 4, 6, 8, 10, 12, 14, 16, 18, 20];
    let mut spi_a = new_spi();
    spi_a.write(&words).unwrap();
    let mut spi_b = new_spi();
    spi_b.write_iter(&words).unwrap();
    assert_eq!(spi_a.bus.ctl.log, spi_b.bus.ctl.log);
    assert_eq!(spi_a.bus.ctl.csmode, spi_b.bus.ctl.csmode);
}

#[test]
fn cooperative_transfer_matches_blocking_transfer() {
    // Same buffer, same controller model: the cooperative object must
    // reach completion with byte-for-byte the same read buffer and the
    // same register traffic as the blocking call.
    let data0: Vec<u8> = vec![3, 14, 15, 92, 65, 35, 89, 79, 32, 38];

    let mut blocking = new_spi();
    let mut data_blocking = data0.clone();
    blocking.transfer(&mut data_blocking).unwrap();

    let mut coop = new_spi();
    let mut data_coop = data0.clone();
    let mut fut = coop.async_transfer();
    let mut polls = 0usize;
    loop {
        match fut.poll(&mut coop, &mut data_coop) {
            PollStatus::Complete => break,
            PollStatus::Pending => {
                polls += 1;
                assert!(polls < 1000, "cooperative transfer made no progress");
            },
        }
    }

    assert_eq!(data_coop, data_blocking);
    assert_eq!(coop.bus.ctl.log, blocking.bus.ctl.log);
    assert_eq!(coop.bus.ctl.csmode, blocking.bus.ctl.csmode);
}

#[test]
fn cooperative_transfer_completes_immediately_on_empty_buffer() {
    let mut spi = new_spi();
    let mut data: Vec<u8> = Vec::new();
    let mut fut = spi.async_transfer();
    assert_eq!(fut.poll(&mut spi, &mut data), PollStatus::Complete);
}

#[test]
fn cooperative_write_matches_blocking_write() {
    let data: Vec<u8> = vec![0xde, 0xad, 0xbe, 0xef, 0x01, 0x02, 0x03, 0x04, 0x05];

    let mut blocking = new_spi();
    blocking.write(&data).unwrap();

    let mut coop = new_spi();
    let mut fut = coop.async_write();
    let mut polls = 0usize;
    loop {
        match fut.poll(&mut coop, &data) {
            PollStatus::Complete => break,
            PollStatus::Pending => {
                polls += 1;
                assert!(polls < 1000, "cooperative write made no progress");
            },
        }
    }

    assert_eq!(coop.bus.ctl.log, blocking.bus.ctl.log);
}

#[test]
fn cooperative_write_iter_matches_blocking_write_iter() {
    let data: Vec<u8> = vec![7, 6, 5, 4, 3, 2, 1];

    let mut blocking = new_spi();
    blocking.write_iter(&data).unwrap();

    let mut coop = new_spi();
    let mut fut = coop.async_write_iter();
    let mut polls = 0usize;
    loop {
        match fut.poll(&mut coop, &data) {
            PollStatus::Complete => break,
            PollStatus::Pending => {
                polls += 1;
                assert!(polls < 1000, "cooperative streamed write made no progress");
            },
        }
    }

    assert_eq!(coop.bus.ctl.log, blocking.bus.ctl.log);
    assert_eq!(coop.bus.ctl.csmode, blocking.bus.ctl.csmode);
}

#[test]
fn polling_driver_equals_blocking_transfer() {
    let data0: Vec<u8> = vec![1, 1, 2, 3, 5, 8, 13, 21, 34, 55, 89];

    let mut blocking = new_spi();
    let mut data_blocking = data0.clone();
    blocking.transfer(&mut data_blocking).unwrap();

    let mut coop = new_spi();
    let mut data_coop = data0.clone();
    let status = e310x_hal::spi::nonblock::transfer_by_polling(&mut coop, &mut data_coop);
    assert_eq!(status, PollStatus::Complete);

    assert_eq!(data_coop, data_blocking);
    assert_eq!(coop.bus.ctl.log, blocking.bus.ctl.log);
}

#[test]
fn free_returns_the_controller() {
    let spi = new_spi();
    let ctl = spi.free();
    assert_eq!(ctl.csid, 0);
    assert_eq!(ctl.sckdiv, 15);
}
