//! The UART serial driver: loopback chip detection, readiness polling, and
//! blocking and non-blocking byte transfer, verified against the simulated
//! UART device.

use vstd::prelude::*;
use crate::uart::{lemma_line_status_bits, LSR_DATA_READY, LSR_TX_EMPTY, SimUart, UartModel};

verus! {

/// Interrupt-enable value: all line interrupts off.
pub const IER_DISABLE: u8 = 0x00;

/// Line-control value that opens the divisor latch.
pub const LCR_OPEN_DIVISOR: u8 = 0x80;

/// Low byte of the baud-rate divisor: 3, i.e. 38400 baud against the
/// standard UART clock.
pub const DIVISOR_LO: u8 = 0x03;

/// High byte of the baud-rate divisor.
pub const DIVISOR_HI: u8 = 0x00;

/// Line-control value for 8 data bits, no parity, one stop bit.
pub const LCR_8N1: u8 = 0x03;

/// FIFO-control value: FIFOs enabled and cleared, 14-byte threshold.
pub const FCR_ENABLE_CLEAR_14: u8 = 0xC7;

/// Modem-control value: interrupts enabled, RTS/DSR set.
pub const MCR_FLOW: u8 = 0x0B;

/// Modem-control value for the loopback self-test.
pub const MCR_SELF_TEST: u8 = 0x1E;

/// Modem-control value for normal operation after a passed self-test.
pub const MCR_NORMAL: u8 = 0x0F;

/// The byte transmitted during the loopback self-test; construction succeeds
/// only if the chip echoes it back.
pub const SELF_TEST_BYTE: u8 = 0xAE;

/// One of the four well-known legacy UART base addresses. The addresses are
/// the same on every machine of this architecture, but nothing guarantees a
/// chip is actually present behind any of them.
#[derive(Clone, Copy, Debug, PartialEq, Eq, Structural)]
pub enum Port {
    COM1,
    COM2,
    COM3,
    COM4,
}

impl Port {
    /// The base address of this UART.
    pub open spec fn base_spec(self) -> u16 {
        match self {
            Port::COM1 => 0x3F8,
            Port::COM2 => 0x2F8,
            Port::COM3 => 0x3E8,
            Port::COM4 => 0x2E8,
        }
    }

    /// The base address of this UART.
    pub fn base(self) -> (r: u16)
        ensures
            r == self.base_spec(),
    {
        match self {
            Port::COM1 => 0x3F8,
            Port::COM2 => 0x2F8,
            Port::COM3 => 0x3E8,
            Port::COM4 => 0x2E8,
        }
    }
}

/// A verified-present, initialized UART. A value of this type exists only if
/// the loopback self-test of `Serial::new` succeeded; the device is then in
/// 8N1 mode at divisor 3 with FIFOs enabled, loopback off.
#[derive(Clone, Copy, Debug, PartialEq, Eq, Structural)]
pub struct Serial {
    /// The UART this driver wraps.
    pub port: Port,
}

/// The driver may operate the device only once it is out of divisor-latch
/// and loopback mode: data-register transfers then move real line traffic.
pub open spec fn operating(m: UartModel, port: Port) -> bool {
    &&& m.base == port.base_spec()
    &&& !m.dlab()
    &&& !m.loopback()
}

impl Serial {
    /// Runs the initialization protocol against the device: interrupts off,
    /// divisor programmed, 8N1 line protocol, FIFOs enabled, flow control
    /// raised, then the loopback self-test. Returns the driver only if the
    /// device echoed the self-test byte; a failed self-test leaves the
    /// device in loopback mode, claiming nothing about its readiness.
    pub fn new(port: Port, uart: &mut SimUart) -> (r: Option<Serial>)
        requires
            old(uart)@.base == port.base_spec(),
        ensures
            r is Some <==> old(uart)@.echo,
            r matches Some(s) ==> s.port == port,
            final(uart)@.base == old(uart)@.base,
            final(uart)@.echo == old(uart)@.echo,
            final(uart)@.tx_delay == old(uart)@.tx_delay,
            final(uart)@.tx_log == old(uart)@.tx_log,
            final(uart)@.divisor_lo == DIVISOR_LO,
            final(uart)@.divisor_hi == DIVISOR_HI,
            final(uart)@.lcr == LCR_8N1,
            final(uart)@.fcr == FCR_ENABLE_CLEAR_14,
            final(uart)@.ier == (if old(uart)@.dlab() {
                old(uart)@.ier
            } else {
                IER_DISABLE
            }),
            final(uart)@.rx is None,
            r is Some ==> final(uart)@.mcr == MCR_NORMAL,
            r is None ==> final(uart)@.mcr == MCR_SELF_TEST,
            r is Some ==> operating(final(uart)@, port),
    {
        proof {
            assert(LCR_OPEN_DIVISOR & 0x80u8 != 0 && LCR_8N1 & 0x80u8 == 0 && MCR_FLOW & 0x10u8
                == 0 && MCR_SELF_TEST & 0x10u8 != 0 && MCR_NORMAL & 0x10u8 == 0)
                by (bit_vector);
        }
        let base = port.base();

        // Disable interrupts on the line.
        uart.write8(base + 1, IER_DISABLE);

        // Open the divisor latch and program the baud-rate divisor.
        uart.write8(base + 3, LCR_OPEN_DIVISOR);
        uart.write8(base, DIVISOR_LO);
        uart.write8(base + 1, DIVISOR_HI);

        // 8 data bits, no parity, one stop bit.
        uart.write8(base + 3, LCR_8N1);

        // Enable and clear the FIFOs with a 14-byte threshold.
        uart.write8(base + 2, FCR_ENABLE_CLEAR_14);

        // Raise the hardware flow-control lines.
        uart.write8(base + 4, MCR_FLOW);

        // Loopback self-test: transmit the sentinel and read it back.
        uart.write8(base + 4, MCR_SELF_TEST);
        uart.write8(base, SELF_TEST_BYTE);
        if uart.read8(base) != SELF_TEST_BYTE {
            // The chip is absent or faulty; nothing here is ready to use.
            return None;
        }

        // Leave loopback for normal operation.
        uart.write8(base + 4, MCR_NORMAL);
        Some(Serial { port })
    }

    /// Sends a byte, busy-polling the line status until the transmitter
    /// reports empty; only then is the byte handed to the data register, so
    /// it reaches the line exactly as passed.
    pub fn send(&self, uart: &mut SimUart, byte: u8)
        requires
            operating(old(uart)@, self.port),
        ensures
            final(uart)@ == (UartModel {
                tx_delay: 0,
                tx_log: old(uart)@.tx_log.push(byte),
                ..old(uart)@
            }),
    {
        let base = self.port.base();
        loop
            invariant
                uart@ == (UartModel { tx_delay: uart@.tx_delay, ..old(uart)@ }),
                operating(old(uart)@, self.port),
                base == self.port.base_spec(),
            ensures
                uart@ == (UartModel { tx_delay: 0, ..old(uart)@ }),
            decreases uart@.tx_delay,
        {
            let ghost pre = uart@;
            let status = uart.read8(base + 5);
            proof {
                lemma_line_status_bits(pre);
            }
            if status & LSR_TX_EMPTY != 0 {
                break;
            }
        }
        uart.write8(base, byte);
    }

    /// Receives a byte, busy-polling the line status until a byte is ready,
    /// then taking it from the data register.
    pub fn recv(&self, uart: &mut SimUart) -> (r: u8)
        requires
            operating(old(uart)@, self.port),
            old(uart)@.rx is Some,
        ensures
            Some(r) == old(uart)@.rx,
            final(uart)@ == (UartModel { rx: None, ..old(uart)@.drained() }),
    {
        let base = self.port.base();
        loop
            invariant_except_break
                uart@ == old(uart)@,
            invariant
                operating(old(uart)@, self.port),
                old(uart)@.rx is Some,
                base == self.port.base_spec(),
            ensures
                uart@ == old(uart)@.drained(),
            decreases uart@.tx_delay,
        {
            let ghost pre = uart@;
            let status = uart.read8(base + 5);
            proof {
                lemma_line_status_bits(pre);
            }
            if status & LSR_DATA_READY != 0 {
                break;
            }
        }
        uart.read8(base)
    }

    /// Tries to send a byte without blocking: one single check of the
    /// transmit-empty bit. Sends and reports success if it was set, and
    /// otherwise fails immediately without retrying.
    pub fn try_send(&self, uart: &mut SimUart, byte: u8) -> (r: Result<(), ()>)
        requires
            operating(old(uart)@, self.port),
        ensures
            r is Ok <==> old(uart)@.tx_delay == 0,
            r is Ok ==> final(uart)@ == (UartModel {
                tx_log: old(uart)@.tx_log.push(byte),
                ..old(uart)@
            }),
            r is Err ==> final(uart)@ == old(uart)@.drained(),
    {
        proof {
            lemma_line_status_bits(old(uart)@);
        }
        let base = self.port.base();
        let status = uart.read8(base + 5);
        if status & LSR_TX_EMPTY != 0 {
            uart.write8(base, byte);
            Ok(())
        } else {
            Err(())
        }
    }

    /// Tries to receive a byte without blocking: one single check of the
    /// data-ready bit. Takes and returns the pending byte if it was set, and
    /// otherwise fails immediately without retrying.
    pub fn try_recv(&self, uart: &mut SimUart) -> (r: Result<u8, ()>)
        requires
            operating(old(uart)@, self.port),
        ensures
            r is Ok <==> old(uart)@.rx is Some,
            r matches Ok(b) ==> Some(b) == old(uart)@.rx,
            r is Ok ==> final(uart)@ == (UartModel { rx: None, ..old(uart)@.drained() }),
            r is Err ==> final(uart)@ == old(uart)@.drained(),
    {
        proof {
            lemma_line_status_bits(old(uart)@);
        }
        let base = self.port.base();
        let status = uart.read8(base + 5);
        if status & LSR_DATA_READY != 0 {
            Ok(uart.read8(base))
        } else {
            Err(())
        }
    }

    /// Sends every byte of a message in order, blocking on each.
    pub fn send_bytes(&self, uart: &mut SimUart, msg: &[u8])
        requires
            operating(old(uart)@, self.port),
        ensures
            msg@.len() > 0 ==> final(uart)@ == (UartModel {
                tx_delay: 0,
                tx_log: old(uart)@.tx_log + msg@,
                ..old(uart)@
            }),
            msg@.len() == 0 ==> final(uart)@ == old(uart)@,
    {
        let mut i: usize = 0;
        proof {
            assert(old(uart)@.tx_log + msg@.subrange(0, 0) =~= old(uart)@.tx_log);
        }
        while i < msg.len()
            invariant
                i <= msg@.len(),
                operating(old(uart)@, self.port),
                uart@.tx_log == old(uart)@.tx_log + msg@.subrange(0, i as int),
                uart@ == (UartModel {
                    tx_delay: uart@.tx_delay,
                    tx_log: uart@.tx_log,
                    ..old(uart)@
                }),
                i == 0 ==> uart@ == old(uart)@,
                i > 0 ==> uart@.tx_delay == 0,
            decreases msg@.len() - i,
        {
            self.send(uart, msg[i]);
            proof {
                assert(msg@.subrange(0, i + 1) =~= msg@.subrange(0, i as int).push(msg@[i as int]));
            }
            i = i + 1;
        }
        proof {
            if msg@.len() > 0 {
                assert(msg@.subrange(0, msg@.len() as int) =~= msg@);
            }
        }
    }
}

} // verus!
