//! Instructions as tagged variants, and the decoder that builds them.
use crate::decode::{
    funct12, funct12_of, funct3, funct3_of, funct7, funct7_of, imm_b, imm_b_of, imm_i, imm_i_of,
    imm_j, imm_j_of, imm_s, imm_s_of, imm_u, imm_u_of, opcode, opcode_of, rd, rd_of, rs1, rs1_of,
    rs2, rs2_of,
};
use crate::error::Error;
use vstd::prelude::*;

verus! {

pub const LOAD: u8 = 0x03;

pub const MISC_MEM: u8 = 0x0f;

pub const OP_IMM: u8 = 0x13;

pub const AUIPC: u8 = 0x17;

pub const STORE: u8 = 0x23;

pub const OP: u8 = 0x33;

pub const LUI: u8 = 0x37;

pub const BRANCH: u8 = 0x63;

pub const JALR: u8 = 0x67;

pub const JAL: u8 = 0x6f;

pub const SYSTEM: u8 = 0x73;

#[derive(PartialEq, Eq, Structural, Clone, Copy, Debug)]
pub enum LoadOp {
    Lb,
    Lh,
    Lw,
    Lbu,
    Lhu,
}

#[derive(PartialEq, Eq, Structural, Clone, Copy, Debug)]
pub enum StoreOp {
    Sb,
    Sh,
    Sw,
}

/// The operations shared by the immediate and register ALU instructions.
#[derive(PartialEq, Eq, Structural, Clone, Copy, Debug)]
pub enum AluOp {
    Add,
    Sub,
    Sll,
    Slt,
    Sltu,
    Xor,
    Srl,
    Sra,
    Or,
    And,
}

#[derive(PartialEq, Eq, Structural, Clone, Copy, Debug)]
pub enum BranchOp {
    Beq,
    Bne,
    Blt,
    Bge,
    Bltu,
    Bgeu,
}

/// A decoded instruction. Every immediate is already sign-extended (U: placed
/// in bits 31:12); register fields are below 32.
#[derive(PartialEq, Eq, Structural, Clone, Copy, Debug)]
pub enum Instr {
    Load { op: LoadOp, rd: u8, rs1: u8, imm: u32 },
    Store { op: StoreOp, rs1: u8, rs2: u8, imm: u32 },
    OpImm { op: AluOp, rd: u8, rs1: u8, imm: u32 },
    Op { op: AluOp, rd: u8, rs1: u8, rs2: u8 },
    Lui { rd: u8, imm: u32 },
    Auipc { rd: u8, imm: u32 },
    Jal { rd: u8, imm: u32 },
    Jalr { rd: u8, rs1: u8, imm: u32 },
    Branch { op: BranchOp, rs1: u8, rs2: u8, imm: u32 },
    Fence,
    Ecall,
    Ebreak,
}

pub open spec fn load_op_of(funct3: u32) -> Option<LoadOp> {
    if funct3 == 0 {
        Some(LoadOp::Lb)
    } else if funct3 == 1 {
        Some(LoadOp::Lh)
    } else if funct3 == 2 {
        Some(LoadOp::Lw)
    } else if funct3 == 4 {
        Some(LoadOp::Lbu)
    } else if funct3 == 5 {
        Some(LoadOp::Lhu)
    } else {
        None
    }
}

pub open spec fn store_op_of(funct3: u32) -> Option<StoreOp> {
    if funct3 == 0 {
        Some(StoreOp::Sb)
    } else if funct3 == 1 {
        Some(StoreOp::Sh)
    } else if funct3 == 2 {
        Some(StoreOp::Sw)
    } else {
        None
    }
}

/// OP-IMM: every funct3 names an operation; bit 5 of funct7 (bit 10 of the
/// immediate) picks the arithmetic right shift.
pub open spec fn imm_alu_op_of(funct3: u32, funct7: u32) -> AluOp {
    if funct3 == 0 {
        AluOp::Add
    } else if funct3 == 1 {
        AluOp::Sll
    } else if funct3 == 2 {
        AluOp::Slt
    } else if funct3 == 3 {
        AluOp::Sltu
    } else if funct3 == 4 {
        AluOp::Xor
    } else if funct3 == 5 {
        if funct7 & 0x20 == 0 {
            AluOp::Srl
        } else {
            AluOp::Sra
        }
    } else if funct3 == 6 {
        AluOp::Or
    } else {
        AluOp::And
    }
}

/// OP: funct7 is 0, or 0x20 for SUB and SRA.
pub open spec fn reg_alu_op_of(funct3: u32, funct7: u32) -> Option<AluOp> {
    if funct7 == 0 {
        Some(imm_alu_op_of(funct3, 0))
    } else if funct7 == 0x20 && funct3 == 0 {
        Some(AluOp::Sub)
    } else if funct7 == 0x20 && funct3 == 5 {
        Some(AluOp::Sra)
    } else {
        None
    }
}

pub open spec fn branch_op_of(funct3: u32) -> Option<BranchOp> {
    if funct3 == 0 {
        Some(BranchOp::Beq)
    } else if funct3 == 1 {
        Some(BranchOp::Bne)
    } else if funct3 == 4 {
        Some(BranchOp::Blt)
    } else if funct3 == 5 {
        Some(BranchOp::Bge)
    } else if funct3 == 6 {
        Some(BranchOp::Bltu)
    } else if funct3 == 7 {
        Some(BranchOp::Bgeu)
    } else {
        None
    }
}

/// What an instruction word decodes to.
pub open spec fn decode_spec(w: u32) -> Result<Instr, Error> {
    let op = opcode_of(w);
    let f3 = funct3_of(w);
    let rd = rd_of(w) as u8;
    let rs1 = rs1_of(w) as u8;
    let rs2 = rs2_of(w) as u8;
    let bad_funct3 = Err(Error::InvalidFunct3(f3 as u8));
    if op == LOAD {
        match load_op_of(f3) {
            Some(lop) => Ok(Instr::Load { op: lop, rd, rs1, imm: imm_i_of(w) }),
            None => bad_funct3,
        }
    } else if op == STORE {
        match store_op_of(f3) {
            Some(sop) => Ok(Instr::Store { op: sop, rs1, rs2, imm: imm_s_of(w) }),
            None => bad_funct3,
        }
    } else if op == OP_IMM {
        Ok(Instr::OpImm { op: imm_alu_op_of(f3, funct7_of(w)), rd, rs1, imm: imm_i_of(w) })
    } else if op == OP {
        match reg_alu_op_of(f3, funct7_of(w)) {
            Some(aop) => Ok(Instr::Op { op: aop, rd, rs1, rs2 }),
            None => bad_funct3,
        }
    } else if op == LUI {
        Ok(Instr::Lui { rd, imm: imm_u_of(w) })
    } else if op == AUIPC {
        Ok(Instr::Auipc { rd, imm: imm_u_of(w) })
    } else if op == JAL {
        Ok(Instr::Jal { rd, imm: imm_j_of(w) })
    } else if op == JALR {
        Ok(Instr::Jalr { rd, rs1, imm: imm_i_of(w) })
    } else if op == BRANCH {
        match branch_op_of(f3) {
            Some(bop) => Ok(Instr::Branch { op: bop, rs1, rs2, imm: imm_b_of(w) }),
            None => bad_funct3,
        }
    } else if op == MISC_MEM {
        Ok(Instr::Fence)
    } else if op == SYSTEM {
        if f3 != 0 {
            bad_funct3
        } else if funct12_of(w) == 0 {
            Ok(Instr::Ecall)
        } else if funct12_of(w) == 1 {
            Ok(Instr::Ebreak)
        } else {
            Err(Error::InvalidFunct12(funct12_of(w) as u16))
        }
    } else {
        Err(Error::InvalidOpcode(op as u8))
    }
}

fn load_op(funct3: u8) -> (r: Option<LoadOp>)
    ensures
        r == load_op_of(funct3 as u32),
{
    match funct3 {
        0 => Some(LoadOp::Lb),
        1 => Some(LoadOp::Lh),
        2 => Some(LoadOp::Lw),
        4 => Some(LoadOp::Lbu),
        5 => Some(LoadOp::Lhu),
        _ => None,
    }
}

fn store_op(funct3: u8) -> (r: Option<StoreOp>)
    ensures
        r == store_op_of(funct3 as u32),
{
    match funct3 {
        0 => Some(StoreOp::Sb),
        1 => Some(StoreOp::Sh),
        2 => Some(StoreOp::Sw),
        _ => None,
    }
}

fn imm_alu_op(funct3: u8, funct7: u8) -> (r: AluOp)
    requires
        funct3 < 8,
    ensures
        r == imm_alu_op_of(funct3 as u32, funct7 as u32),
{
    assert((funct7 as u32) & 0x20 == 0 <==> funct7 & 0x20 == 0) by (bit_vector);
    match funct3 {
        0 => AluOp::Add,
        1 => AluOp::Sll,
        2 => AluOp::Slt,
        3 => AluOp::Sltu,
        4 => AluOp::Xor,
        5 => if funct7 & 0x20 == 0 {
            AluOp::Srl
        } else {
            AluOp::Sra
        },
        6 => AluOp::Or,
        _ => AluOp::And,
    }
}

fn reg_alu_op(funct3: u8, funct7: u8) -> (r: Option<AluOp>)
    requires
        funct3 < 8,
    ensures
        r == reg_alu_op_of(funct3 as u32, funct7 as u32),
{
    if funct7 == 0 {
        Some(imm_alu_op(funct3, 0))
    } else if funct7 == 0x20 && funct3 == 0 {
        Some(AluOp::Sub)
    } else if funct7 == 0x20 && funct3 == 5 {
        Some(AluOp::Sra)
    } else {
        None
    }
}

fn branch_op(funct3: u8) -> (r: Option<BranchOp>)
    ensures
        r == branch_op_of(funct3 as u32),
{
    match funct3 {
        0 => Some(BranchOp::Beq),
        1 => Some(BranchOp::Bne),
        4 => Some(BranchOp::Blt),
        5 => Some(BranchOp::Bge),
        6 => Some(BranchOp::Bltu),
        7 => Some(BranchOp::Bgeu),
        _ => None,
    }
}

/// Decodes one instruction word: dispatch on the opcode, then on funct3 (and
/// funct7, for register ALU operations) where the class has variants.
pub fn decode(instr: u32) -> (r: Result<Instr, Error>)
    ensures
        r == decode_spec(instr),
{
    let op = opcode(instr);
    let f3 = funct3(instr);
    let rd = rd(instr);
    let rs1 = rs1(instr);
    let rs2 = rs2(instr);
    if op == LOAD {
        match load_op(f3) {
            Some(lop) => Ok(Instr::Load { op: lop, rd, rs1, imm: imm_i(instr) }),
            None => Err(Error::InvalidFunct3(f3)),
        }
    } else if op == STORE {
        match store_op(f3) {
            Some(sop) => Ok(Instr::Store { op: sop, rs1, rs2, imm: imm_s(instr) }),
            None => Err(Error::InvalidFunct3(f3)),
        }
    } else if op == OP_IMM {
        Ok(Instr::OpImm { op: imm_alu_op(f3, funct7(instr)), rd, rs1, imm: imm_i(instr) })
    } else if op == OP {
        match reg_alu_op(f3, funct7(instr)) {
            Some(aop) => Ok(Instr::Op { op: aop, rd, rs1, rs2 }),
            None => Err(Error::InvalidFunct3(f3)),
        }
    } else if op == LUI {
        Ok(Instr::Lui { rd, imm: imm_u(instr) })
    } else if op == AUIPC {
        Ok(Instr::Auipc { rd, imm: imm_u(instr) })
    } else if op == JAL {
        Ok(Instr::Jal { rd, imm: imm_j(instr) })
    } else if op == JALR {
        Ok(Instr::Jalr { rd, rs1, imm: imm_i(instr) })
    } else if op == BRANCH {
        match branch_op(f3) {
            Some(bop) => Ok(Instr::Branch { op: bop, rs1, rs2, imm: imm_b(instr) }),
            None => Err(Error::InvalidFunct3(f3)),
        }
    } else if op == MISC_MEM {
        Ok(Instr::Fence)
    } else if op == SYSTEM {
        let f12 = funct12(instr);
        if f3 != 0 {
            Err(Error::InvalidFunct3(f3))
        } else if f12 == 0 {
            Ok(Instr::Ecall)
        } else if f12 == 1 {
            Ok(Instr::Ebreak)
        } else {
            Err(Error::InvalidFunct12(f12))
        }
    } else {
        Err(Error::InvalidOpcode(op))
    }
}

} // verus!
