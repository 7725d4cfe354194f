//! The logging sink: an at-most-one serial driver behind a single point of
//! access, forwarding whole messages and degrading to silence when no UART
//! was detected.
//!
//! One caller at a time holds the logger while a message goes out; exclusive
//! access for the whole call is what the `&mut` borrow of the device stands
//! for here, and what a lock provides on real hardware. Because a `print`
//! holds that access for the full byte-by-byte transmission, the bytes of
//! two messages can never interleave on the line.

use vstd::prelude::*;
use crate::serial::{Port, Serial, operating};
use crate::uart::SimUart;

verus! {

/// The process-wide logging state: the serial driver found at first use, if
/// any. Once populated (or found empty) it is never replaced.
pub struct Logger {
    /// The driver over the detected UART, absent when detection failed.
    pub serial: Option<Serial>,
}

/// The logger may drive the given device: either it holds no driver at all,
/// or its driver's UART is this device, out of divisor-latch and loopback
/// mode.
pub open spec fn attached(logger: Logger, m: crate::uart::UartModel) -> bool {
    match logger.serial {
        Some(s) => operating(m, s.port),
        None => true,
    }
}

impl Logger {
    /// First-use initialization: try to detect and initialize the first
    /// UART. A missing or faulty chip leaves the logger empty — logging is
    /// then a no-op forever, never a fault.
    pub fn new(uart: &mut SimUart) -> (r: Logger)
        requires
            old(uart)@.base == Port::COM1.base_spec(),
        ensures
            r.serial is Some <==> old(uart)@.echo,
            r.serial matches Some(s) ==> s.port == Port::COM1,
            attached(r, final(uart)@),
            final(uart)@.tx_log == old(uart)@.tx_log,
            final(uart)@.echo == old(uart)@.echo,
            final(uart)@.tx_delay == old(uart)@.tx_delay,
            final(uart)@.rx is None,
    {
        Logger { serial: Serial::new(Port::COM1, uart) }
    }
}

/// Print a message: forward every byte of it to the serial driver, in
/// order, or do nothing at all if no UART was detected. The whole message
/// goes out in one stretch while the caller has exclusive access, so
/// messages never interleave.
pub fn print(logger: &Logger, uart: &mut SimUart, msg: &[u8])
    requires
        attached(*logger, old(uart)@),
    ensures
        logger.serial is Some && msg@.len() > 0 ==> final(uart)@ == (crate::uart::UartModel {
            tx_delay: 0,
            tx_log: old(uart)@.tx_log + msg@,
            ..old(uart)@
        }),
        logger.serial is Some && msg@.len() == 0 ==> final(uart)@ == old(uart)@,
        logger.serial is None ==> final(uart)@ == old(uart)@,
{
    match &logger.serial {
        Some(serial) => serial.send_bytes(uart, msg),
        None => (),
    }
}

/// Printed messages stay contiguous: when one message and then another are
/// appended whole to the transmit log, each occupies one contiguous stretch
/// of the final log, in the order the two appends were granted.
pub proof fn lemma_prints_never_interleave(log: Seq<u8>, first: Seq<u8>, second: Seq<u8>)
    ensures
        (log + first + second).subrange(log.len() as int, (log.len() + first.len()) as int)
            == first,
        (log + first + second).subrange(
            (log.len() + first.len()) as int,
            (log.len() + first.len() + second.len()) as int,
        ) == second,
{
    assert((log + first + second).subrange(log.len() as int, (log.len() + first.len()) as int)
        =~= first);
    assert((log + first + second).subrange(
        (log.len() + first.len()) as int,
        (log.len() + first.len() + second.len()) as int,
    ) =~= second);
}

} // verus!
