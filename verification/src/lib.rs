//! Hardware-access core of a minimal bare-metal kernel, verified against a
//! simulated machine: a width-typed port I/O abstraction, a 8250/16550 UART
//! serial driver with loopback chip detection, and a logging sink that
//! degrades to silence when no UART is present.

pub mod io;
pub mod logging;
pub mod panicking;
pub mod uart;
pub mod qemu;
pub mod serial;
