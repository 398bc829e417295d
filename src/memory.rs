//! A flat byte array as an address space. Multi-byte values are little-endian
//! (least significant byte at the lowest address) for fetch, load and store.
use crate::error::Error;
use vstd::prelude::*;

verus! {

/// Capacity of a backing store, in bytes (1 MiB).
pub const MEM_SIZE: usize = 1024 * 1024;

/// Whether the `n` bytes from `addr` on lie inside `m`.
pub open spec fn fits(m: Seq<u8>, addr: u32, n: nat) -> bool {
    addr as int + n <= m.len()
}

/// The little-endian word in the four bytes from `a` on.
pub open spec fn le32(m: Seq<u8>, a: int) -> u32 {
    (m[a] as u32) | ((m[a + 1] as u32) << 8u32) | ((m[a + 2] as u32) << 16u32) | ((m[a + 3] as u32)
        << 24u32)
}

pub open spec fn read32_of(m: Seq<u8>, addr: u32) -> Result<u32, Error> {
    if fits(m, addr, 4) {
        Ok(le32(m, addr as int))
    } else {
        Err(Error::MemoryFault(addr))
    }
}

pub open spec fn write8_of(m: Seq<u8>, val: u8, addr: u32) -> (Seq<u8>, Result<(), Error>) {
    if fits(m, addr, 1) {
        (m.update(addr as int, val), Ok(()))
    } else {
        (m, Err(Error::MemoryFault(addr)))
    }
}

pub open spec fn write16_of(m: Seq<u8>, val: u16, addr: u32) -> (Seq<u8>, Result<(), Error>) {
    if fits(m, addr, 2) {
        let a = addr as int;
        (m.update(a, val as u8).update(a + 1, (val >> 8u16) as u8), Ok(()))
    } else {
        (m, Err(Error::MemoryFault(addr)))
    }
}

pub open spec fn write32_of(m: Seq<u8>, val: u32, addr: u32) -> (Seq<u8>, Result<(), Error>) {
    if fits(m, addr, 4) {
        let a = addr as int;
        (
            m.update(a, val as u8).update(a + 1, (val >> 8u32) as u8).update(
                a + 2,
                (val >> 16u32) as u8,
            ).update(a + 3, (val >> 24u32) as u8),
            Ok(()),
        )
    } else {
        (m, Err(Error::MemoryFault(addr)))
    }
}

/// `m` with the bytes of `d` copied over it from `a` on.
pub open spec fn overwrite(m: Seq<u8>, a: int, d: Seq<u8>) -> Seq<u8> {
    Seq::new(m.len(), |i: int| if a <= i < a + d.len() { d[i - a] } else { m[i] })
}

pub open spec fn load_of(m: Seq<u8>, data: Seq<u8>, addr: u32) -> (Seq<u8>, Result<(), Error>) {
    if fits(m, addr, data.len()) {
        (overwrite(m, addr as int, data), Ok(()))
    } else {
        (m, Err(Error::MemoryFault(addr)))
    }
}

/// A word written at `addr` reads back unchanged.
pub proof fn lemma_write32_read32(m: Seq<u8>, val: u32, addr: u32)
    requires
        fits(m, addr, 4),
    ensures
        read32_of(write32_of(m, val, addr).0, addr) == Ok::<u32, Error>(val),
{
    let m2 = write32_of(m, val, addr).0;
    let a = addr as int;
    assert(m2[a] == val as u8 && m2[a + 1] == (val >> 8u32) as u8 && m2[a + 2] == (val >> 16u32) as u8
        && m2[a + 3] == (val >> 24u32) as u8);
    let (b0, b1, b2, b3) = (m2[a], m2[a + 1], m2[a + 2], m2[a + 3]);
    assert((b0 as u32) | ((b1 as u32) << 8u32) | ((b2 as u32) << 16u32) | ((b3 as u32) << 24u32)
        == val) by (bit_vector)
        requires
            b0 == val as u8,
            b1 == (val >> 8u32) as u8,
            b2 == (val >> 16u32) as u8,
            b3 == (val >> 24u32) as u8,
    ;
}

/// A half-word written at `addr` is the low half of the word read back there.
pub proof fn lemma_write16_read32(m: Seq<u8>, val: u16, addr: u32)
    requires
        fits(m, addr, 4),
    ensures
        read32_of(write16_of(m, val, addr).0, addr) is Ok,
        read32_of(write16_of(m, val, addr).0, addr)->Ok_0 & 0xffff == val as u32,
{
    let m2 = write16_of(m, val, addr).0;
    let a = addr as int;
    assert(m2[a] == val as u8 && m2[a + 1] == (val >> 8u16) as u8);
    let (b0, b1, b2, b3) = (m2[a], m2[a + 1], m2[a + 2], m2[a + 3]);
    assert(((b0 as u32) | ((b1 as u32) << 8u32) | ((b2 as u32) << 16u32) | ((b3 as u32) << 24u32))
        & 0xffff == val as u32) by (bit_vector)
        requires
            b0 == val as u8,
            b1 == (val >> 8u16) as u8,
    ;
}

/// A byte written at `addr` is the low byte of the word read back there.
pub proof fn lemma_write8_read32(m: Seq<u8>, val: u8, addr: u32)
    requires
        fits(m, addr, 4),
    ensures
        read32_of(write8_of(m, val, addr).0, addr) is Ok,
        read32_of(write8_of(m, val, addr).0, addr)->Ok_0 & 0xff == val as u32,
{
    let m2 = write8_of(m, val, addr).0;
    let a = addr as int;
    assert(m2[a] == val);
    let (b0, b1, b2, b3) = (m2[a], m2[a + 1], m2[a + 2], m2[a + 3]);
    assert(((b0 as u32) | ((b1 as u32) << 8u32) | ((b2 as u32) << 16u32) | ((b3 as u32) << 24u32))
        & 0xff == val as u32) by (bit_vector)
        requires
            b0 == val,
    ;
}

/// A zero-filled store of `MEM_SIZE` bytes.
pub fn zeroed() -> (r: Vec<u8>)
    ensures
        r@ == Seq::new(MEM_SIZE as nat, |i: int| 0u8),
{
    let mut v: Vec<u8> = Vec::new();
    while v.len() < MEM_SIZE
        invariant
            v.len() <= MEM_SIZE,
            v@ == Seq::new(v.len() as nat, |i: int| 0u8),
        decreases MEM_SIZE - v.len(),
    {
        v.push(0);
    }
    v
}

fn fits_exec(len: usize, addr: u32, n: usize) -> (r: bool)
    ensures
        r == (addr as int + n <= len),
{
    let a = addr as usize;
    a <= len && len - a >= n
}

pub fn read_word(ram: &Vec<u8>, addr: u32) -> (r: Result<u32, Error>)
    ensures
        r == read32_of(ram@, addr),
{
    if fits_exec(ram.len(), addr, 4) {
        let a = addr as usize;
        Ok((ram[a] as u32) | ((ram[a + 1] as u32) << 8) | ((ram[a + 2] as u32) << 16) | ((ram[a
            + 3] as u32) << 24))
    } else {
        Err(Error::MemoryFault(addr))
    }
}

pub fn write_byte(ram: &mut Vec<u8>, val: u8, addr: u32) -> (r: Result<(), Error>)
    ensures
        (final(ram)@, r) == write8_of(old(ram)@, val, addr),
{
    if fits_exec(ram.len(), addr, 1) {
        ram.set(addr as usize, val);
        Ok(())
    } else {
        Err(Error::MemoryFault(addr))
    }
}

pub fn write_half(ram: &mut Vec<u8>, val: u16, addr: u32) -> (r: Result<(), Error>)
    ensures
        (final(ram)@, r) == write16_of(old(ram)@, val, addr),
{
    if fits_exec(ram.len(), addr, 2) {
        let a = addr as usize;
        ram.set(a, val as u8);
        ram.set(a + 1, (val >> 8) as u8);
        Ok(())
    } else {
        Err(Error::MemoryFault(addr))
    }
}

pub fn write_word(ram: &mut Vec<u8>, val: u32, addr: u32) -> (r: Result<(), Error>)
    ensures
        (final(ram)@, r) == write32_of(old(ram)@, val, addr),
{
    if fits_exec(ram.len(), addr, 4) {
        let a = addr as usize;
        ram.set(a, val as u8);
        ram.set(a + 1, (val >> 8) as u8);
        ram.set(a + 2, (val >> 16) as u8);
        ram.set(a + 3, (val >> 24) as u8);
        Ok(())
    } else {
        Err(Error::MemoryFault(addr))
    }
}

/// Copies `data` into `ram` from `addr` on, or fails with nothing written when
/// it would run past the end.
pub fn load_bytes(ram: &mut Vec<u8>, data: &Vec<u8>, addr: u32) -> (r: Result<(), Error>)
    ensures
        (final(ram)@, r) == load_of(old(ram)@, data@, addr),
{
    if !fits_exec(ram.len(), addr, data.len()) {
        return Err(Error::MemoryFault(addr));
    }
    let a = addr as usize;
    let ghost before = ram@;
    let n = ram.len();
    let mut i: usize = 0;
    while i < data.len()
        invariant
            a == addr,
            a + data.len() <= before.len(),
            i <= data.len(),
            ram@.len() == before.len(),
            before.len() == n,
            forall|j: int|
                0 <= j < before.len() ==> #[trigger] ram@[j] == if a <= j < a + i {
                    data@[j - a]
                } else {
                    before[j]
                },
        decreases data.len() - i,
    {
        ram.set(a + i, data[i]);
        i = i + 1;
    }
    assert(ram@ =~= overwrite(before, a as int, data@));
    Ok(())
}

} // verus!
