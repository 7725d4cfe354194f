//! A simulated 8250/16550 UART, the hardware model the serial driver is
//! verified against.
//!
//! The device occupies six register addresses starting at its base: data /
//! divisor-low at +0, interrupt-enable / divisor-high at +1, FIFO control at
//! +2, line control at +3, modem control at +4 and line status at +5. The
//! model keeps the standard register semantics the driver's protocol relies
//! on:
//! - bit 7 of the line-control register (divisor latch) redirects the +0 and
//!   +1 registers to the baud-rate divisor;
//! - bit 4 of the modem-control register (loopback) routes a transmitted
//!   byte back to the receive path instead of the line — but only if the
//!   simulated chip is present and functional (`echo`); a faulty or absent
//!   chip loses the byte;
//! - bit 5 of the line status (transmit empty) becomes set only after the
//!   transmitter has been polled `tx_delay` times, modelling a line that
//!   drains after a finite wait; a data byte written while the bit is clear
//!   is lost;
//! - bit 0 of the line status (data ready) is set while a received byte is
//!   pending; reading the data register consumes it.

use vstd::prelude::*;

verus! {

/// Divisor-latch access bit in the line-control register.
pub const LCR_DLAB: u8 = 0x80;

/// Loopback bit in the modem-control register.
pub const MCR_LOOPBACK: u8 = 0x10;

/// Transmit-empty bit in the line-status register.
pub const LSR_TX_EMPTY: u8 = 0x20;

/// Data-ready bit in the line-status register.
pub const LSR_DATA_READY: u8 = 0x01;

/// The mathematical state of the simulated UART.
pub struct UartModel {
    /// First of the six register addresses the device answers to.
    pub base: u16,
    /// Low byte of the programmed baud-rate divisor.
    pub divisor_lo: u8,
    /// High byte of the programmed baud-rate divisor.
    pub divisor_hi: u8,
    /// Interrupt-enable register.
    pub ier: u8,
    /// FIFO-control register (write-only on the real chip).
    pub fcr: u8,
    /// Line-control register.
    pub lcr: u8,
    /// Modem-control register.
    pub mcr: u8,
    /// Whether the simulated chip is present and functional: only then does
    /// loopback mode echo a transmitted byte back to the receive path.
    pub echo: bool,
    /// How many line-status polls remain before the transmitter reports
    /// empty.
    pub tx_delay: u8,
    /// The received byte waiting in the data register, if any.
    pub rx: Option<u8>,
    /// Every byte the device has transmitted onto the line, in order.
    pub tx_log: Seq<u8>,
}

impl UartModel {
    /// Divisor-latch mode: the +0/+1 registers address the divisor.
    pub open spec fn dlab(self) -> bool {
        self.lcr & LCR_DLAB != 0
    }

    /// Loopback (self-test) mode.
    pub open spec fn loopback(self) -> bool {
        self.mcr & MCR_LOOPBACK != 0
    }

    /// The transmitter reports empty.
    pub open spec fn tx_ready(self) -> bool {
        self.tx_delay == 0
    }

    /// The byte the line-status register reads as right now.
    pub open spec fn line_status(self) -> u8 {
        ((if self.tx_ready() { LSR_TX_EMPTY } else { 0 }) | (if self.rx is Some {
            LSR_DATA_READY
        } else {
            0
        })) as u8
    }

    /// One line-status poll elapses: the transmitter drains one step.
    pub open spec fn drained(self) -> UartModel {
        UartModel {
            tx_delay: if self.tx_delay == 0 { 0 } else { (self.tx_delay - 1) as u8 },
            ..self
        }
    }

    /// The state after a one-byte write to the register at the given offset
    /// from the base address.
    pub open spec fn write_reg(self, offset: int, value: u8) -> UartModel {
        if offset == 0 {
            if self.dlab() {
                UartModel { divisor_lo: value, ..self }
            } else if self.loopback() {
                // Self-test: the byte is routed back to the receive path if
                // the chip works, and lost otherwise.
                UartModel { rx: if self.echo { Some(value) } else { None }, ..self }
            } else if self.tx_ready() {
                UartModel { tx_log: self.tx_log.push(value), ..self }
            } else {
                // A byte handed to a busy transmitter is lost.
                self
            }
        } else if offset == 1 {
            if self.dlab() {
                UartModel { divisor_hi: value, ..self }
            } else {
                UartModel { ier: value, ..self }
            }
        } else if offset == 2 {
            UartModel { fcr: value, ..self }
        } else if offset == 3 {
            UartModel { lcr: value, ..self }
        } else if offset == 4 {
            UartModel { mcr: value, ..self }
        } else {
            // The line-status register is read-only.
            self
        }
    }

    /// The state after a one-byte read of the register at the given offset,
    /// together with the byte read.
    pub open spec fn read_reg(self, offset: int) -> (UartModel, u8) {
        if offset == 0 {
            if self.dlab() {
                (self, self.divisor_lo)
            } else {
                match self.rx {
                    Some(b) => (UartModel { rx: None, ..self }, b),
                    None => (self, 0),
                }
            }
        } else if offset == 1 {
            if self.dlab() {
                (self, self.divisor_hi)
            } else {
                (self, self.ier)
            }
        } else if offset == 2 {
            // Write-only register.
            (self, 0)
        } else if offset == 3 {
            (self, self.lcr)
        } else if offset == 4 {
            (self, self.mcr)
        } else {
            (self.drained(), self.line_status())
        }
    }
}

/// What the two readiness bits of the line-status byte say: the
/// transmit-empty bit is set exactly when the transmitter is drained, and
/// the data-ready bit exactly when a received byte is pending.
pub proof fn lemma_line_status_bits(m: UartModel)
    ensures
        m.line_status() & LSR_TX_EMPTY != 0 <==> m.tx_ready(),
        m.line_status() & LSR_DATA_READY != 0 <==> m.rx is Some,
{
    assert(((0x20u8 | 0x01u8) & 0x20u8) != 0 && ((0x20u8 | 0x00u8) & 0x20u8) != 0
        && ((0x00u8 | 0x01u8) & 0x20u8) == 0 && ((0x00u8 | 0x00u8) & 0x20u8) == 0
        && ((0x20u8 | 0x01u8) & 0x01u8) != 0 && ((0x00u8 | 0x01u8) & 0x01u8) != 0
        && ((0x20u8 | 0x00u8) & 0x01u8) == 0 && ((0x00u8 | 0x00u8) & 0x01u8) == 0)
        by (bit_vector);
}

/// The simulated UART device itself.
pub struct SimUart {
    /// First of the six register addresses the device answers to.
    pub base: u16,
    /// Low byte of the programmed baud-rate divisor.
    pub divisor_lo: u8,
    /// High byte of the programmed baud-rate divisor.
    pub divisor_hi: u8,
    /// Interrupt-enable register.
    pub ier: u8,
    /// FIFO-control register.
    pub fcr: u8,
    /// Line-control register.
    pub lcr: u8,
    /// Modem-control register.
    pub mcr: u8,
    /// Whether the simulated chip is present and functional.
    pub echo: bool,
    /// Line-status polls left before the transmitter reports empty.
    pub tx_delay: u8,
    /// The received byte waiting in the data register, if any.
    pub rx: Option<u8>,
    /// Every byte transmitted onto the line, in order.
    pub tx_log: Vec<u8>,
}

impl View for SimUart {
    type V = UartModel;

    open spec fn view(&self) -> UartModel {
        UartModel {
            base: self.base,
            divisor_lo: self.divisor_lo,
            divisor_hi: self.divisor_hi,
            ier: self.ier,
            fcr: self.fcr,
            lcr: self.lcr,
            mcr: self.mcr,
            echo: self.echo,
            tx_delay: self.tx_delay,
            rx: self.rx,
            tx_log: self.tx_log@,
        }
    }
}

impl SimUart {
    /// A powered-on device at the given base address: registers zero, no
    /// pending byte, nothing transmitted yet. `echo` says whether the chip
    /// is present and functional; `tx_delay` how many polls the transmitter
    /// needs before it first reports empty.
    pub fn new(base: u16, echo: bool, tx_delay: u8) -> (r: SimUart)
        ensures
            r@ == (UartModel {
                base,
                divisor_lo: 0,
                divisor_hi: 0,
                ier: 0,
                fcr: 0,
                lcr: 0,
                mcr: 0,
                echo,
                tx_delay,
                rx: None,
                tx_log: Seq::<u8>::empty(),
            }),
    {
        let r = SimUart {
            base,
            divisor_lo: 0,
            divisor_hi: 0,
            ier: 0,
            fcr: 0,
            lcr: 0,
            mcr: 0,
            echo,
            tx_delay,
            rx: None,
            tx_log: Vec::new(),
        };
        assert(r@.tx_log =~= Seq::<u8>::empty());
        r
    }

    /// Write one byte to the device register at the given address.
    pub fn write8(&mut self, addr: u16, value: u8)
        requires
            old(self)@.base <= addr < old(self)@.base + 6,
        ensures
            final(self)@ == old(self)@.write_reg(addr - old(self)@.base, value),
    {
        let offset = addr - self.base;
        if offset == 0 {
            if self.lcr & LCR_DLAB != 0 {
                self.divisor_lo = value;
            } else if self.mcr & MCR_LOOPBACK != 0 {
                self.rx = if self.echo {
                    Some(value)
                } else {
                    None
                };
            } else if self.tx_delay == 0 {
                self.tx_log.push(value);
            }
        } else if offset == 1 {
            if self.lcr & LCR_DLAB != 0 {
                self.divisor_hi = value;
            } else {
                self.ier = value;
            }
        } else if offset == 2 {
            self.fcr = value;
        } else if offset == 3 {
            self.lcr = value;
        } else if offset == 4 {
            self.mcr = value;
        }
    }

    /// Read one byte from the device register at the given address.
    pub fn read8(&mut self, addr: u16) -> (r: u8)
        requires
            old(self)@.base <= addr < old(self)@.base + 6,
        ensures
            final(self)@ == old(self)@.read_reg(addr - old(self)@.base).0,
            r == old(self)@.read_reg(addr - old(self)@.base).1,
    {
        let offset = addr - self.base;
        if offset == 0 {
            if self.lcr & LCR_DLAB != 0 {
                self.divisor_lo
            } else {
                match self.rx {
                    Some(b) => {
                        self.rx = None;
                        b
                    },
                    None => 0,
                }
            }
        } else if offset == 1 {
            if self.lcr & LCR_DLAB != 0 {
                self.divisor_hi
            } else {
                self.ier
            }
        } else if offset == 2 {
            0
        } else if offset == 3 {
            self.lcr
        } else if offset == 4 {
            self.mcr
        } else {
            let status = (if self.tx_delay == 0 {
                LSR_TX_EMPTY
            } else {
                0
            }) | (if self.rx.is_some() {
                LSR_DATA_READY
            } else {
                0
            });
            if self.tx_delay > 0 {
                self.tx_delay = self.tx_delay - 1;
            }
            status
        }
    }
}

} // verus!
