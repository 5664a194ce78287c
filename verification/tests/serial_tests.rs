use e310x_hal::serial::{Serial, UartController, UART_FIFO_DEPTH};
use e310x_hal::status::{Nb, PollStatus};

fn new_serial() -> Serial {
    Serial::new(UartController::new(), 115_200, 16_000_000)
}

#[test]
fn new_derives_divisor_and_enables_both_halves() {
    let s = new_serial();
    assert_eq!(s.uart.div, 16_000_000 / 115_200 - 1);
    assert!(!s.uart.ie_txwm);
    assert!(!s.uart.ie_rxwm);
    assert!(s.uart.tx.enabled);
    assert_eq!(s.uart.tx.watermark, 1);
    assert!(s.uart.rx.enabled);
    assert_eq!(s.uart.rx.watermark, 0);
}

#[test]
fn listen_and_unlisten_set_receive_interrupt() {
    let s = new_serial().listen();
    assert!(s.uart.ie_rxwm);
    assert!(!s.uart.ie_txwm);
    let s = s.unlisten();
    assert!(!s.uart.ie_rxwm);
    assert!(!s.uart.ie_txwm);
}

#[test]
fn free_returns_the_uart_controller() {
    let uart = new_serial().free();
    assert_eq!(uart.div, 16_000_000 / 115_200 - 1);
}

#[test]
fn split_hands_out_both_halves() {
    let (mut tx, mut rx) = new_serial().split();
    assert_eq!(rx.read(), Nb::WouldBlock);
    assert_eq!(tx.write(0x31), Nb::Ready(()));
    assert_eq!(tx.chan.take(), Some(0x31));
}

#[test]
fn read_pops_delivered_bytes_in_order() {
    let (_tx, mut rx) = new_serial().split();
    rx.chan.deliver(1);
    rx.chan.deliver(2);
    rx.chan.deliver(3);
    assert_eq!(rx.read(), Nb::Ready(1));
    assert_eq!(rx.read(), Nb::Ready(2));
    assert_eq!(rx.read(), Nb::Ready(3));
    assert_eq!(rx.read(), Nb::WouldBlock);
}

#[test]
fn write_blocks_when_fifo_full() {
    let (mut tx, _rx) = new_serial().split();
    for i in 0..UART_FIFO_DEPTH as u8 {
        assert_eq!(tx.write(i), Nb::Ready(()));
    }
    assert_eq!(tx.write(0xff), Nb::WouldBlock);
    // The wire takes one byte out; there is room again.
    assert_eq!(tx.chan.take(), Some(0));
    assert_eq!(tx.write(0xff), Nb::Ready(()));
}

#[test]
fn flush_is_ready_below_the_watermark() {
    let (mut tx, _rx) = new_serial().split();
    assert_eq!(tx.flush(), Nb::Ready(()));
    assert_eq!(tx.write(9), Nb::Ready(()));
    // One entry is not below the watermark of one.
    assert_eq!(tx.flush(), Nb::WouldBlock);
    assert_eq!(tx.chan.take(), Some(9));
    assert_eq!(tx.flush(), Nb::Ready(()));
}

#[test]
fn async_read_byte_mirrors_read() {
    let (_tx, mut rx) = new_serial().split();
    let mut fut = rx.async_read_byte();
    assert_eq!(fut.poll(&mut rx.chan), Nb::WouldBlock);
    rx.chan.deliver(0x7f);
    assert_eq!(fut.poll(&mut rx.chan), Nb::Ready(0x7f));
}

#[test]
fn async_read_fills_buffer_across_polls() {
    let (_tx, mut rx) = new_serial().split();
    let mut data: Vec<u8> = vec![0; 5];
    let mut fut = rx.async_read();

    rx.chan.deliver(10);
    rx.chan.deliver(11);
    assert_eq!(fut.poll(&mut rx.chan, &mut data), PollStatus::Pending);
    assert_eq!(data[..2], [10, 11]);

    rx.chan.deliver(12);
    rx.chan.deliver(13);
    rx.chan.deliver(14);
    rx.chan.deliver(15);
    assert_eq!(fut.poll(&mut rx.chan, &mut data), PollStatus::Complete);
    assert_eq!(data, vec![10, 11, 12, 13, 14]);
    // The byte beyond the buffer stays in the FIFO.
    assert_eq!(rx.read(), Nb::Ready(15));
}

#[test]
fn async_write_byte_mirrors_write() {
    let (mut tx, _rx) = new_serial().split();
    let mut fut = tx.async_write_byte(0x21);
    assert_eq!(fut.poll(&mut tx.chan), Nb::Ready(()));
    assert_eq!(tx.chan.take(), Some(0x21));
}

#[test]
fn async_write_pushes_until_full_then_resumes() {
    let (mut tx, _rx) = new_serial().split();
    let data: Vec<u8> = (0..12).collect();
    let mut fut = tx.async_write();

    // The FIFO holds eight entries, so the first poll cannot finish.
    assert_eq!(fut.poll(&mut tx.chan, &data), PollStatus::Pending);
    assert_eq!(tx.chan.fifo.len(), UART_FIFO_DEPTH);

    // The wire drains four bytes; the next poll completes the buffer.
    for i in 0..4 {
        assert_eq!(tx.chan.take(), Some(i));
    }
    assert_eq!(fut.poll(&mut tx.chan, &data), PollStatus::Complete);

    let mut sent: Vec<u8> = (0..4).collect();
    while let Some(b) = tx.chan.take() {
        sent.push(b);
    }
    assert_eq!(sent, data);
}

#[test]
fn async_flush_mirrors_flush() {
    let (mut tx, _rx) = new_serial().split();
    let mut fut = tx.async_flush();
    assert_eq!(fut.poll(&mut tx.chan), Nb::Ready(()));
    tx.write(1);
    assert_eq!(fut.poll(&mut tx.chan), Nb::WouldBlock);
}

#[test]
fn deliver_to_full_fifo_is_lost() {
    let (_tx, mut rx) = new_serial().split();
    for i in 0..UART_FIFO_DEPTH as u8 {
        rx.chan.deliver(i);
    }
    rx.chan.deliver(0xee);
    assert_eq!(rx.chan.fifo.len(), UART_FIFO_DEPTH);
    assert_eq!(rx.chan.fifo.last(), Some(&((UART_FIFO_DEPTH - 1) as u8)));
}

#[test]
fn serial_level_futures_poll_against_the_controller_halves() {
    let mut s = new_serial();
    let mut wfut = s.async_write_byte(0x42);
    assert_eq!(wfut.poll(&mut s.uart.tx), Nb::Ready(()));
    assert_eq!(s.uart.tx.take(), Some(0x42));

    s.uart.rx.deliver(0x24);
    let mut rfut = s.async_read_byte();
    assert_eq!(rfut.poll(&mut s.uart.rx), Nb::Ready(0x24));

    let mut data: Vec<u8> = vec![0; 2];
    s.uart.rx.deliver(1);
    s.uart.rx.deliver(2);
    let mut bfut = s.async_read();
    assert_eq!(bfut.poll(&mut s.uart.rx, &mut data), PollStatus::Complete);
    assert_eq!(data, vec![1, 2]);
}
