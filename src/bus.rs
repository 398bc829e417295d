//! A word-wide bus: 32-bit reads and writes only.
use crate::error::Error;
use crate::memory::{
    load_bytes, load_of, read32_of, read_word, write32_of, write_word, zeroed, MEM_SIZE,
};
use vstd::prelude::*;

verus! {

/// 32-bit reads and writes, stated through spec functions over the view.
pub trait BusInterface: View + Sized {
    /// What `read32` returns at `addr`.
    spec fn read32_spec(mem: Self::V, addr: u32) -> Result<u32, Error>;

    /// The view after `write32`, and what it returns.
    spec fn write32_spec(mem: Self::V, val: u32, addr: u32) -> (Self::V, Result<(), Error>);

    fn read32(&self, addr: u32) -> (r: Result<u32, Error>)
        ensures
            r == Self::read32_spec(self@, addr),
    ;

    fn write32(&mut self, val: u32, addr: u32) -> (r: Result<(), Error>)
        ensures
            (final(self)@, r) == Self::write32_spec(old(self)@, val, addr),
    ;
}

/// A flat, zero-initialised byte array of `MEM_SIZE` bytes behind a bus.
/// Accesses that run past its end fail with `MemoryFault`.
pub struct SystemBus {
    ram: Vec<u8>,
}

impl View for SystemBus {
    type V = Seq<u8>;

    closed spec fn view(&self) -> Seq<u8> {
        self.ram@
    }
}

impl SystemBus {
    pub fn new() -> (r: Self)
        ensures
            r@ == Seq::new(MEM_SIZE as nat, |i: int| 0u8),
    {
        SystemBus { ram: zeroed() }
    }

    /// Copies `data` onto the bus from `addr` on. Fails with
    /// `MemoryFault(addr)`, writing nothing, when it would run past the end.
    pub fn load(&mut self, data: &Vec<u8>, addr: u32) -> (r: Result<(), Error>)
        ensures
            (final(self)@, r) == load_of(old(self)@, data@, addr),
    {
        load_bytes(&mut self.ram, data, addr)
    }
}

impl BusInterface for SystemBus {
    open spec fn read32_spec(mem: Seq<u8>, addr: u32) -> Result<u32, Error> {
        read32_of(mem, addr)
    }

    open spec fn write32_spec(mem: Seq<u8>, val: u32, addr: u32) -> (Seq<u8>, Result<(), Error>) {
        write32_of(mem, val, addr)
    }

    fn read32(&self, addr: u32) -> (r: Result<u32, Error>) {
        read_word(&self.ram, addr)
    }

    fn write32(&mut self, val: u32, addr: u32) -> (r: Result<(), Error>) {
        write_word(&mut self.ram, val, addr)
    }
}

} // verus!
