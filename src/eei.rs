//! The execution environment interface: the memory and system-call boundary
//! that the core runs through.
use crate::error::Error;
use crate::memory::{
    load_bytes, load_of, read32_of, read_word, write16_of, write32_of, write8_of, write_byte,
    write_half, write_word, zeroed, MEM_SIZE,
};
use vstd::prelude::*;

verus! {

/// Byte-addressable reads and writes of 8, 16 and 32 bits, and the two
/// environment notifications. An implementation states its behaviour through
/// the spec functions over its view; the core is verified against them alone.
pub trait EEI: View + Sized {
    /// What `read32` returns at `addr`.
    spec fn read32_spec(mem: Self::V, addr: u32) -> Result<u32, Error>;

    /// The view after `write32`, and what it returns.
    spec fn write32_spec(mem: Self::V, val: u32, addr: u32) -> (Self::V, Result<(), Error>);

    /// The view after `write16`, and what it returns.
    spec fn write16_spec(mem: Self::V, val: u16, addr: u32) -> (Self::V, Result<(), Error>);

    /// The view after `write8`, and what it returns.
    spec fn write8_spec(mem: Self::V, val: u8, addr: u32) -> (Self::V, Result<(), Error>);

    fn read32(&self, addr: u32) -> (r: Result<u32, Error>)
        ensures
            r == Self::read32_spec(self@, addr),
    ;

    fn write32(&mut self, val: u32, addr: u32) -> (r: Result<(), Error>)
        ensures
            (final(self)@, r) == Self::write32_spec(old(self)@, val, addr),
    ;

    fn write16(&mut self, val: u16, addr: u32) -> (r: Result<(), Error>)
        ensures
            (final(self)@, r) == Self::write16_spec(old(self)@, val, addr),
    ;

    fn write8(&mut self, val: u8, addr: u32) -> (r: Result<(), Error>)
        ensures
            (final(self)@, r) == Self::write8_spec(old(self)@, val, addr),
    ;

    /// A breakpoint was reached.
    fn ebreak(&self);

    /// The program asks the environment for a service.
    fn ecall(&self);
}

/// A flat, zero-initialised byte array of `MEM_SIZE` bytes. Accesses that
/// run past its end fail with `MemoryFault`. The notifications do nothing.
pub struct SoftwareInterface {
    ram: Vec<u8>,
}

impl View for SoftwareInterface {
    type V = Seq<u8>;

    closed spec fn view(&self) -> Seq<u8> {
        self.ram@
    }
}

impl SoftwareInterface {
    pub fn new() -> (r: Self)
        ensures
            r@ == Seq::new(MEM_SIZE as nat, |i: int| 0u8),
    {
        SoftwareInterface { ram: zeroed() }
    }

    /// Copies `data` into the address space from `addr` on. Fails with
    /// `MemoryFault(addr)`, writing nothing, when it would run past the end.
    pub fn load(&mut self, data: &Vec<u8>, addr: u32) -> (r: Result<(), Error>)
        ensures
            (final(self)@, r) == load_of(old(self)@, data@, addr),
    {
        load_bytes(&mut self.ram, data, addr)
    }
}

impl EEI for SoftwareInterface {
    open spec fn read32_spec(mem: Seq<u8>, addr: u32) -> Result<u32, Error> {
        read32_of(mem, addr)
    }

    open spec fn write32_spec(mem: Seq<u8>, val: u32, addr: u32) -> (Seq<u8>, Result<(), Error>) {
        write32_of(mem, val, addr)
    }

    open spec fn write16_spec(mem: Seq<u8>, val: u16, addr: u32) -> (Seq<u8>, Result<(), Error>) {
        write16_of(mem, val, addr)
    }

    open spec fn write8_spec(mem: Seq<u8>, val: u8, addr: u32) -> (Seq<u8>, Result<(), Error>) {
        write8_of(mem, val, addr)
    }

    fn read32(&self, addr: u32) -> (r: Result<u32, Error>) {
        read_word(&self.ram, addr)
    }

    fn write32(&mut self, val: u32, addr: u32) -> (r: Result<(), Error>) {
        write_word(&mut self.ram, val, addr)
    }

    fn write16(&mut self, val: u16, addr: u32) -> (r: Result<(), Error>) {
        write_half(&mut self.ram, val, addr)
    }

    fn write8(&mut self, val: u8, addr: u32) -> (r: Result<(), Error>) {
        write_byte(&mut self.ram, val, addr)
    }

    fn ebreak(&self) {
    }

    fn ecall(&self) {
    }
}

} // verus!
