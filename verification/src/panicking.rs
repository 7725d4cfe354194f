//! Fatal-error reporting: composes the diagnostic text for a panic and
//! forwards it through the logger, then hands back the exit status the
//! caller must stop the machine with.
//!
//! The caller of `panic` performs the formatting of its own message and the
//! actual non-returning exit; what is decided here is the exact byte
//! sequence that reaches the line.

use vstd::prelude::*;
use crate::logging::{Logger, attached, print};
use crate::qemu::ExitCode;
use crate::uart::{SimUart, UartModel};

verus! {

/// A source position reported with a panic.
pub struct SourceLocation {
    /// The file name, as bytes.
    pub file: Vec<u8>,
    /// The line number.
    pub line: u32,
    /// The column number.
    pub column: u32,
}

/// The decimal digits of a number, most significant first.
pub open spec fn decimal_digits(n: nat) -> Seq<u8>
    decreases n,
{
    if n < 10 {
        seq![(48 + n) as u8]
    } else {
        decimal_digits(n / 10).push((48 + n % 10) as u8)
    }
}

/// The opening of every fatal-error report: `Fatal error: `.
pub open spec fn fatal_prefix() -> Seq<u8> {
    seq![
        'F' as u8,
        'a' as u8,
        't' as u8,
        'a' as u8,
        'l' as u8,
        ' ' as u8,
        'e' as u8,
        'r' as u8,
        'r' as u8,
        'o' as u8,
        'r' as u8,
        ':' as u8,
        ' ' as u8,
    ]
}

/// The tail of a report with a known source position:
/// `at <file>:<line>:<column>` and a newline.
pub open spec fn located_tail(file: Seq<u8>, line: u32, column: u32) -> Seq<u8> {
    seq!['a' as u8, 't' as u8, ' ' as u8] + file + seq![':' as u8] + decimal_digits(line as nat)
        + seq![':' as u8] + decimal_digits(column as nat) + seq!['\n' as u8]
}

/// The tail of a report without one: `(no location information)` and a
/// newline.
pub open spec fn no_location_tail() -> Seq<u8> {
    seq![
        '(' as u8,
        'n' as u8,
        'o' as u8,
        ' ' as u8,
        'l' as u8,
        'o' as u8,
        'c' as u8,
        'a' as u8,
        't' as u8,
        'i' as u8,
        'o' as u8,
        'n' as u8,
        ' ' as u8,
        'i' as u8,
        'n' as u8,
        'f' as u8,
        'o' as u8,
        'r' as u8,
        'm' as u8,
        'a' as u8,
        't' as u8,
        'i' as u8,
        'o' as u8,
        'n' as u8,
        ')' as u8,
        '\n' as u8,
    ]
}

/// The source position a report speaks of, as plain values.
pub open spec fn location_view(location: Option<&SourceLocation>) -> Option<(Seq<u8>, u32, u32)> {
    match location {
        Some(l) => Some((l.file@, l.line, l.column)),
        None => None,
    }
}

/// The full diagnostic text of a panic: the fatal-error opening, the
/// message, a space, and the source position or its absence.
pub open spec fn panic_text(msg: Seq<u8>, location: Option<(Seq<u8>, u32, u32)>) -> Seq<u8> {
    fatal_prefix() + msg + seq![' ' as u8] + (match location {
        Some(l) => located_tail(l.0, l.1, l.2),
        None => no_location_tail(),
    })
}

/// Append every byte of a slice to a vector.
fn extend_bytes(dst: &mut Vec<u8>, src: &[u8])
    ensures
        final(dst)@ == old(dst)@ + src@,
{
    let mut i: usize = 0;
    proof {
        assert(old(dst)@ + src@.subrange(0, 0) =~= old(dst)@);
    }
    while i < src.len()
        invariant
            i <= src@.len(),
            dst@ == old(dst)@ + src@.subrange(0, i as int),
        decreases src@.len() - i,
    {
        dst.push(src[i]);
        proof {
            assert(src@.subrange(0, i + 1) =~= src@.subrange(0, i as int).push(src@[i as int]));
        }
        i = i + 1;
    }
    proof {
        assert(src@.subrange(0, src@.len() as int) =~= src@);
    }
}

/// The decimal digits of a number, most significant first.
pub fn u32_decimal(n: u32) -> (r: Vec<u8>)
    ensures
        r@ == decimal_digits(n as nat),
    decreases n,
{
    if n < 10 {
        let mut v: Vec<u8> = Vec::new();
        v.push(48 + n as u8);
        proof {
            assert(v@ =~= decimal_digits(n as nat));
        }
        v
    } else {
        proof {
            assert(n / 10 < n) by (nonlinear_arith)
                requires
                    n >= 10,
            ;
        }
        let mut v = u32_decimal(n / 10);
        v.push(48 + (n % 10) as u8);
        v
    }
}

/// The full diagnostic text of a panic, as the logger will transmit it.
pub fn panic_report(msg: &[u8], location: Option<&SourceLocation>) -> (r: Vec<u8>)
    ensures
        r@ == panic_text(msg@, location_view(location)),
{
    let mut out: Vec<u8> = Vec::new();
    out.push('F' as u8);
    out.push('a' as u8);
    out.push('t' as u8);
    out.push('a' as u8);
    out.push('l' as u8);
    out.push(' ' as u8);
    out.push('e' as u8);
    out.push('r' as u8);
    out.push('r' as u8);
    out.push('o' as u8);
    out.push('r' as u8);
    out.push(':' as u8);
    out.push(' ' as u8);
    proof {
        assert(out@ =~= fatal_prefix());
    }
    extend_bytes(&mut out, msg);
    out.push(' ' as u8);
    match location {
        Some(l) => {
            out.push('a' as u8);
            out.push('t' as u8);
            out.push(' ' as u8);
            extend_bytes(&mut out, l.file.as_slice());
            out.push(':' as u8);
            let line = u32_decimal(l.line);
            extend_bytes(&mut out, line.as_slice());
            out.push(':' as u8);
            let column = u32_decimal(l.column);
            extend_bytes(&mut out, column.as_slice());
            out.push('\n' as u8);
            proof {
                assert(out@ =~= panic_text(msg@, location_view(location)));
            }
        },
        None => {
            out.push('(' as u8);
            out.push('n' as u8);
            out.push('o' as u8);
            out.push(' ' as u8);
            out.push('l' as u8);
            out.push('o' as u8);
            out.push('c' as u8);
            out.push('a' as u8);
            out.push('t' as u8);
            out.push('i' as u8);
            out.push('o' as u8);
            out.push('n' as u8);
            out.push(' ' as u8);
            out.push('i' as u8);
            out.push('n' as u8);
            out.push('f' as u8);
            out.push('o' as u8);
            out.push('r' as u8);
            out.push('m' as u8);
            out.push('a' as u8);
            out.push('t' as u8);
            out.push('i' as u8);
            out.push('o' as u8);
            out.push('n' as u8);
            out.push(')' as u8);
            out.push('\n' as u8);
            proof {
                assert(out@ =~= panic_text(msg@, location_view(location)));
            }
        },
    }
    out
}

/// Reacts to a fatal error: the diagnostic text — the message, then the
/// source position if one is known — goes out through the logger in one
/// stretch (or nowhere, if no UART was detected), and the failed exit
/// status is handed back for the caller to stop the machine with. Never a
/// fault itself, whatever the message.
pub fn panic(msg: &[u8], location: Option<&SourceLocation>, logger: &Logger, uart: &mut SimUart)
    -> (r: ExitCode)
    requires
        attached(*logger, old(uart)@),
    ensures
        r is Failed,
        logger.serial is Some ==> final(uart)@ == (UartModel {
            tx_delay: 0,
            tx_log: old(uart)@.tx_log + panic_text(msg@, location_view(location)),
            ..old(uart)@
        }),
        logger.serial is None ==> final(uart)@ == old(uart)@,
{
    let report = panic_report(msg, location);
    proof {
        assert(panic_text(msg@, location_view(location)).len() >= fatal_prefix().len());
    }
    print(logger, uart, report.as_slice());
    ExitCode::Failed
}

} // verus!
