//! Faults raised while fetching, decoding or executing an instruction.
use vstd::prelude::*;

verus! {

/// A fault of one step. None of them stops the simulator: the caller decides.
#[derive(PartialEq, Eq, Structural, Clone, Copy, Debug)]
pub enum Error {
    /// The opcode field names no RV32I instruction class.
    InvalidOpcode(u8),
    /// The funct3 field (with funct7, for register ALU operations) names no
    /// operation of its class.
    InvalidFunct3(u8),
    /// A SYSTEM instruction whose 12-bit field is neither ECALL nor EBREAK.
    InvalidFunct12(u16),
    /// A jump or taken branch whose target is not a multiple of 4.
    InstructionAddressMisaligned(u32),
    /// An access that does not fit inside the address space.
    MemoryFault(u32),
}

} // verus!
