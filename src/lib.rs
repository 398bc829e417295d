//! An instruction-set simulator for the RV32I base integer instruction set.
use vstd::prelude::*;

pub mod bus;
pub mod decode;
pub mod eei;
pub mod error;
pub mod hex;
pub mod instr;
pub mod memory;
pub mod rv32i;

pub use bus::{BusInterface, SystemBus};
pub use eei::{SoftwareInterface, EEI};
pub use error::Error;
pub use hex::hexstring_to_u32;
pub use rv32i::Rv32I;

verus! {

} // verus!
