use coquelicot_hal::serial::{Port, Serial};
use coquelicot_hal::uart::SimUart;

#[test]
fn com1_self_test_match_initializes() {
    let mut uart = SimUart::new(0x3F8, true, 0);
    let serial = Serial::new(Port::COM1, &mut uart);
    assert!(serial.is_some());
    assert_eq!(serial.unwrap().port, Port::COM1);
    // 8N1 at divisor 3, FIFOs on, interrupts off, loopback left.
    assert_eq!(uart.lcr, 0x03);
    assert_eq!(uart.divisor_lo, 0x03);
    assert_eq!(uart.divisor_hi, 0x00);
    assert_eq!(uart.fcr, 0xC7);
    assert_eq!(uart.ier, 0x00);
    assert_eq!(uart.mcr, 0x0F);
    // The self-test byte never reached the line.
    assert!(uart.tx_log.is_empty());
}

#[test]
fn self_test_read_back_zero_fails() {
    // The chip does not echo: the read-back returns 0x00, not the sentinel.
    let mut uart = SimUart::new(0x3F8, false, 0);
    let serial = Serial::new(Port::COM1, &mut uart);
    assert!(serial.is_none());
    // Failed construction leaves the device in loopback mode: nothing
    // claims the hardware is ready.
    assert_eq!(uart.mcr, 0x1E);
    assert!(uart.tx_log.is_empty());
}

#[test]
fn each_com_port_has_its_address() {
    assert_eq!(Port::COM1.base(), 0x3F8);
    assert_eq!(Port::COM2.base(), 0x2F8);
    assert_eq!(Port::COM3.base(), 0x3E8);
    assert_eq!(Port::COM4.base(), 0x2E8);
}

#[test]
fn send_waits_for_tx_empty() {
    let mut uart = SimUart::new(0x2F8, true, 0);
    let serial = Serial::new(Port::COM2, &mut uart).unwrap();
    // The transmitter needs three polls before it first reports empty; a
    // byte written earlier would be lost.
    uart.tx_delay = 3;
    serial.send(&mut uart, 0x42);
    assert_eq!(uart.tx_log, vec![0x42]);
    assert_eq!(uart.tx_delay, 0);
}

#[test]
fn send_transmits_byte_unchanged() {
    let mut uart = SimUart::new(0x3F8, true, 0);
    let serial = Serial::new(Port::COM1, &mut uart).unwrap();
    serial.send(&mut uart, b'x');
    serial.send(&mut uart, 0x00);
    serial.send(&mut uart, 0xFF);
    assert_eq!(uart.tx_log, vec![b'x', 0x00, 0xFF]);
}

#[test]
fn try_send_not_ready_fails_after_one_check() {
    let mut uart = SimUart::new(0x3F8, true, 0);
    let serial = Serial::new(Port::COM1, &mut uart).unwrap();
    uart.tx_delay = 5;
    assert_eq!(serial.try_send(&mut uart, 0x42), Err(()));
    // Exactly one poll of the line status happened, and no byte went out.
    assert_eq!(uart.tx_delay, 4);
    assert!(uart.tx_log.is_empty());
}

#[test]
fn try_send_ready_sends() {
    let mut uart = SimUart::new(0x3F8, true, 0);
    let serial = Serial::new(Port::COM1, &mut uart).unwrap();
    assert_eq!(serial.try_send(&mut uart, 0x42), Ok(()));
    assert_eq!(uart.tx_log, vec![0x42]);
}

#[test]
fn try_recv_not_ready_fails_without_blocking() {
    let mut uart = SimUart::new(0x3F8, true, 0);
    let serial = Serial::new(Port::COM1, &mut uart).unwrap();
    assert_eq!(serial.try_recv(&mut uart), Err(()));
}

#[test]
fn try_recv_takes_pending_byte() {
    let mut uart = SimUart::new(0x3F8, true, 0);
    let serial = Serial::new(Port::COM1, &mut uart).unwrap();
    uart.rx = Some(0x5A);
    assert_eq!(serial.try_recv(&mut uart), Ok(0x5A));
    assert_eq!(uart.rx, None);
}

#[test]
fn recv_returns_pending_byte() {
    let mut uart = SimUart::new(0x3E8, true, 0);
    let serial = Serial::new(Port::COM3, &mut uart).unwrap();
    uart.rx = Some(0x99);
    assert_eq!(serial.recv(&mut uart), 0x99);
    assert_eq!(uart.rx, None);
}

#[test]
fn send_bytes_in_order() {
    let mut uart = SimUart::new(0x2E8, true, 2);
    let serial = Serial::new(Port::COM4, &mut uart).unwrap();
    serial.send_bytes(&mut uart, b"ok");
    assert_eq!(uart.tx_log, b"ok".to_vec());
}
