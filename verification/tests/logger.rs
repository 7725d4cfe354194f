use coquelicot_hal::logging::{print, Logger};
use coquelicot_hal::qemu::ExitCode;
use coquelicot_hal::panicking::{u32_decimal, SourceLocation};
use coquelicot_hal::uart::SimUart;

#[test]
fn print_forwards_every_byte() {
    let mut uart = SimUart::new(0x3F8, true, 0);
    let logger = Logger::new(&mut uart);
    assert!(logger.serial.is_some());
    print(&logger, &mut uart, b"boot ok\n");
    assert_eq!(uart.tx_log, b"boot ok\n".to_vec());
}

#[test]
fn print_without_uart_is_a_silent_no_op() {
    let mut uart = SimUart::new(0x3F8, false, 0);
    let logger = Logger::new(&mut uart);
    assert!(logger.serial.is_none());
    print(&logger, &mut uart, b"anything at all, \x00\xFF bytes included");
    print(&logger, &mut uart, b"");
    assert!(uart.tx_log.is_empty());
}

#[test]
fn messages_never_interleave() {
    let mut uart = SimUart::new(0x3F8, true, 0);
    let logger = Logger::new(&mut uart);
    print(&logger, &mut uart, b"first message\n");
    print(&logger, &mut uart, b"second message\n");
    // Each message occupies one contiguous stretch, in grant order.
    assert_eq!(&uart.tx_log[..14], b"first message\n");
    assert_eq!(&uart.tx_log[14..], b"second message\n");
}

#[test]
fn exit_codes_for_the_monitor() {
    assert_eq!(ExitCode::Success.code(), 1);
    assert_eq!(ExitCode::Failed.code(), 2);
}

#[test]
fn decimal_digits_are_exact() {
    assert_eq!(u32_decimal(0), b"0".to_vec());
    assert_eq!(u32_decimal(7), b"7".to_vec());
    assert_eq!(u32_decimal(10), b"10".to_vec());
    assert_eq!(u32_decimal(305), b"305".to_vec());
    assert_eq!(u32_decimal(u32::MAX), b"4294967295".to_vec());
}

#[test]
fn panic_reports_message_and_location() {
    let mut uart = SimUart::new(0x3F8, true, 0);
    let logger = Logger::new(&mut uart);
    let location = SourceLocation { file: b"main.rs".to_vec(), line: 12, column: 34 };
    let code = coquelicot_hal::panicking::panic(b"oops", Some(&location), &logger, &mut uart);
    assert_eq!(code, ExitCode::Failed);
    assert_eq!(uart.tx_log, b"Fatal error: oops at main.rs:12:34\n".to_vec());
}

#[test]
fn panic_reports_missing_location() {
    let mut uart = SimUart::new(0x3F8, true, 0);
    let logger = Logger::new(&mut uart);
    let code = coquelicot_hal::panicking::panic(b"oops", None, &logger, &mut uart);
    assert_eq!(code, ExitCode::Failed);
    assert_eq!(uart.tx_log, b"Fatal error: oops (no location information)\n".to_vec());
}

#[test]
fn panic_without_uart_stays_silent() {
    let mut uart = SimUart::new(0x3F8, false, 0);
    let logger = Logger::new(&mut uart);
    let code = coquelicot_hal::panicking::panic(b"oops", None, &logger, &mut uart);
    assert_eq!(code, ExitCode::Failed);
    assert!(uart.tx_log.is_empty());
}
