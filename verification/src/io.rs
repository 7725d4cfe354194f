//! Width-typed port I/O against a simulated port space.
//!
//! The simulated port space is a loopback-capable device: every address
//! latches the last word written to it, and a read returns that latch. A
//! `Port` binds an address to one of the three transfer widths at
//! construction, so a caller can never issue a transfer of the wrong width
//! against it.

use vstd::prelude::*;

verus! {

/// A simulated I/O port space: one 32-bit latch per 16-bit address, all
/// initially zero. A write stores the transferred word in the latch of its
/// address; a read returns the latch (loopback).
pub struct PortSpace {
    cells: Vec<u32>,
}

impl View for PortSpace {
    type V = Seq<u32>;

    closed spec fn view(&self) -> Seq<u32> {
        self.cells@
    }
}

impl PortSpace {
    /// Every address has a latch: the port space covers all 2^16 addresses.
    pub open spec fn wf(self) -> bool {
        self@.len() == 0x10000
    }

    /// A fresh port space with every latch zero.
    pub fn new() -> (r: PortSpace)
        ensures
            r.wf(),
            forall|i: int| 0 <= i < 0x10000 ==> r@[i] == 0,
    {
        let mut cells: Vec<u32> = Vec::new();
        let mut n: usize = 0;
        while n < 0x10000
            invariant
                n == cells@.len(),
                n <= 0x10000,
                forall|i: int| 0 <= i < n ==> cells@[i] == 0,
            decreases 0x10000 - n,
        {
            cells.push(0);
            n = n + 1;
        }
        PortSpace { cells }
    }

    /// Latch the given word at the given address.
    pub fn store(&mut self, port: u16, word: u32)
        requires
            old(self).wf(),
        ensures
            final(self).wf(),
            final(self)@ == old(self)@.update(port as int, word),
    {
        self.cells[port as usize] = word;
    }

    /// Read back the latch of the given address.
    pub fn load(&self, port: u16) -> (r: u32)
        requires
            self.wf(),
        ensures
            r == self@[port as int],
    {
        self.cells[port as usize]
    }
}

/// One of the three supported transfer widths. A width knows how its values
/// embed into the 32-bit latch word of the simulated port space, and that
/// this embedding loses nothing.
pub trait IO: Sized + Copy {
    /// The latch word a transfer of this value stores.
    spec fn to_word(self) -> u32;

    /// The value a transfer reads out of a latch word.
    spec fn of_word(w: u32) -> Self;

    /// Reading back the word a value stored yields the value unchanged.
    proof fn lemma_word_round_trip(self)
        ensures
            Self::of_word(self.to_word()) == self,
    ;

    /// Transfer a value of this width to the given address.
    fn write(bus: &mut PortSpace, port: u16, value: Self)
        requires
            old(bus).wf(),
        ensures
            final(bus).wf(),
            final(bus)@ == old(bus)@.update(port as int, value.to_word()),
    ;

    /// Transfer a value of this width from the given address.
    fn read(bus: &PortSpace, port: u16) -> (r: Self)
        requires
            bus.wf(),
        ensures
            r == Self::of_word(bus@[port as int]),
    ;
}

impl IO for u8 {
    open spec fn to_word(self) -> u32 {
        self as u32
    }

    open spec fn of_word(w: u32) -> u8 {
        w as u8
    }

    proof fn lemma_word_round_trip(self)
    {
        assert(((self as u32) as u8) == self) by (bit_vector);
    }

    fn write(bus: &mut PortSpace, port: u16, value: u8) {
        bus.store(port, value as u32);
    }

    fn read(bus: &PortSpace, port: u16) -> (r: u8) {
        bus.load(port) as u8
    }
}

impl IO for u16 {
    open spec fn to_word(self) -> u32 {
        self as u32
    }

    open spec fn of_word(w: u32) -> u16 {
        w as u16
    }

    proof fn lemma_word_round_trip(self)
    {
        assert(((self as u32) as u16) == self) by (bit_vector);
    }

    fn write(bus: &mut PortSpace, port: u16, value: u16) {
        bus.store(port, value as u32);
    }

    fn read(bus: &PortSpace, port: u16) -> (r: u16) {
        bus.load(port) as u16
    }
}

impl IO for u32 {
    open spec fn to_word(self) -> u32 {
        self
    }

    open spec fn of_word(w: u32) -> u32 {
        w
    }

    proof fn lemma_word_round_trip(self)
    {
    }

    fn write(bus: &mut PortSpace, port: u16, value: u32) {
        bus.store(port, value);
    }

    fn read(bus: &PortSpace, port: u16) -> (r: u32) {
        bus.load(port)
    }
}

/// An I/O port: an address paired, at the type level, with the one transfer
/// width every access through it uses. Constructing one touches no hardware.
pub struct Port<T> {
    port: u16,
    width: core::marker::PhantomData<T>,
}

impl<T: IO> Port<T> {
    /// The address this port is bound to.
    pub closed spec fn addr(self) -> u16 {
        self.port
    }

    /// Bind an address to a transfer width. Safe: this stores a value and
    /// performs no transfer.
    pub fn new(port: u16) -> (r: Port<T>)
        ensures
            r.addr() == port,
    {
        Port { port, width: core::marker::PhantomData }
    }

    /// Read a value of this port's width from its address.
    pub fn read(&self, bus: &PortSpace) -> (r: T)
        requires
            bus.wf(),
        ensures
            r == T::of_word(bus@[self.addr() as int]),
    {
        T::read(bus, self.port)
    }

    /// Write a value of this port's width to its address.
    pub fn write(&self, bus: &mut PortSpace, value: T)
        requires
            old(bus).wf(),
        ensures
            final(bus).wf(),
            final(bus)@ == old(bus)@.update(self.addr() as int, value.to_word()),
    {
        T::write(bus, self.port, value);
    }
}

/// Round-trip law: for every transfer width, a write followed immediately by
/// a read-back through the loopback-capable simulated port space returns the
/// written value unchanged.
pub proof fn lemma_port_round_trip<T: IO>(space: Seq<u32>, addr: u16, value: T)
    requires
        space.len() == 0x10000,
    ensures
        T::of_word(space.update(addr as int, value.to_word())[addr as int]) == value,
{
    value.lemma_word_round_trip();
}

} // verus!
