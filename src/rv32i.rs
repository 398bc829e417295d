//! The RV32I hart: register file, program counter, and the fetch-decode-execute
//! step, stated against a spec-level model of the architectural state.
use crate::decode::{
    low_mask, opcode_of, sign_extend, sign_extend_spec, signed, zero_extend_spec, zero_extend_to,
};
use crate::eei::{SoftwareInterface, EEI};
use crate::error::Error;
use crate::instr::{
    decode, decode_spec, AluOp, BranchOp, Instr, LoadOp, StoreOp, AUIPC, BRANCH, JAL, JALR, LOAD,
    LUI, MISC_MEM, OP, OP_IMM, STORE, SYSTEM,
};
use crate::memory::{
    fits, lemma_write16_read32, lemma_write32_read32, lemma_write8_read32, read32_of, write16_of,
    write8_of,
};
use vstd::arithmetic::div_mod::{lemma_fundamental_div_mod, lemma_fundamental_div_mod_converse};
use vstd::arithmetic::power2::{lemma_pow2_pos, pow2};
use vstd::bits::lemma_u32_shr_is_div;
use vstd::prelude::*;

verus! {

/// The architectural state of a hart: the program counter, the 32 registers,
/// and the view of the memory behind it.
pub struct HartState<M> {
    pub pc: u32,
    pub x: Seq<u32>,
    pub mem: M,
}

impl<M> HartState<M> {
    /// This state with its program counter replaced.
    pub open spec fn with_pc(self, pc: u32) -> HartState<M> {
        HartState { pc, x: self.x, mem: self.mem }
    }
}

/// The register file after writing `v` to `rd`; a write to register 0 is dropped.
pub open spec fn set_reg(x: Seq<u32>, rd: u8, v: u32) -> Seq<u32> {
    if rd == 0 {
        x
    } else {
        x.update(rd as int, v)
    }
}

/// The address of the next instruction in sequence.
pub open spec fn next_pc(pc: u32) -> u32 {
    pc.wrapping_add(4)
}

/// `s` with the program counter moved on by one instruction and nothing else changed.
pub open spec fn advance<M>(s: HartState<M>) -> HartState<M> {
    HartState { pc: next_pc(s.pc), x: s.x, mem: s.mem }
}

/// `s` after an instruction that writes `v` to `rd` and falls through.
pub open spec fn retire<M>(s: HartState<M>, rd: u8, v: u32) -> HartState<M> {
    HartState { pc: next_pc(s.pc), x: set_reg(s.x, rd, v), mem: s.mem }
}

/// Arithmetic right shift: the vacated high bits copy bit 31.
pub open spec fn sra_spec(a: u32, s: u32) -> u32 {
    if a >> 31u32 == 0 {
        a >> s
    } else {
        !((!a) >> s)
    }
}

/// The result of an ALU operation on two operands; shifts use the low 5 bits
/// of `b`, and all arithmetic wraps modulo 2^32.
pub open spec fn alu_spec(op: AluOp, a: u32, b: u32) -> u32 {
    match op {
        AluOp::Add => a.wrapping_add(b),
        AluOp::Sub => a.wrapping_sub(b),
        AluOp::Sll => a << (b & 0x1f),
        AluOp::Slt => if signed(a) < signed(b) {
            1
        } else {
            0
        },
        AluOp::Sltu => if a < b {
            1
        } else {
            0
        },
        AluOp::Xor => a ^ b,
        AluOp::Srl => a >> (b & 0x1f),
        AluOp::Sra => sra_spec(a, b & 0x1f),
        AluOp::Or => a | b,
        AluOp::And => a & b,
    }
}

/// The register value a load produces from the word read at its address.
pub open spec fn load_value(op: LoadOp, v: u32) -> u32 {
    match op {
        LoadOp::Lb => sign_extend_spec(zero_extend_spec(v, 8), 8),
        LoadOp::Lh => sign_extend_spec(zero_extend_spec(v, 16), 16),
        LoadOp::Lw => v,
        LoadOp::Lbu => zero_extend_spec(v, 8),
        LoadOp::Lhu => zero_extend_spec(v, 16),
    }
}

pub open spec fn branch_taken(op: BranchOp, a: u32, b: u32) -> bool {
    match op {
        BranchOp::Beq => a == b,
        BranchOp::Bne => a != b,
        BranchOp::Blt => signed(a) < signed(b),
        BranchOp::Bge => signed(a) >= signed(b),
        BranchOp::Bltu => a < b,
        BranchOp::Bgeu => a >= b,
    }
}

/// The memory view after a store of the low bytes of `v`, and its outcome.
pub open spec fn store_spec<E: EEI>(mem: E::V, op: StoreOp, v: u32, addr: u32) -> (
    E::V,
    Result<(), Error>,
) {
    match op {
        StoreOp::Sb => E::write8_spec(mem, v as u8, addr),
        StoreOp::Sh => E::write16_spec(mem, v as u16, addr),
        StoreOp::Sw => E::write32_spec(mem, v, addr),
    }
}

/// A control transfer to `target` that links `rd`: refused, with the program
/// counter moved on, when the target is not a multiple of 4.
pub open spec fn transfer<M>(s: HartState<M>, rd: u8, target: u32) -> (
    HartState<M>,
    Result<(), Error>,
) {
    if target % 4 != 0 {
        (advance(s), Err(Error::InstructionAddressMisaligned(target)))
    } else {
        (HartState { pc: target, x: set_reg(s.x, rd, next_pc(s.pc)), mem: s.mem }, Ok(()))
    }
}

/// Whether every register field of `i` names one of the 32 registers.
pub open spec fn regs_ok(i: Instr) -> bool {
    match i {
        Instr::Load { rd, rs1, .. } => rd < 32 && rs1 < 32,
        Instr::Store { rs1, rs2, .. } => rs1 < 32 && rs2 < 32,
        Instr::OpImm { rd, rs1, .. } => rd < 32 && rs1 < 32,
        Instr::Op { rd, rs1, rs2, .. } => rd < 32 && rs1 < 32 && rs2 < 32,
        Instr::Lui { rd, .. } => rd < 32,
        Instr::Auipc { rd, .. } => rd < 32,
        Instr::Jal { rd, .. } => rd < 32,
        Instr::Jalr { rd, rs1, .. } => rd < 32 && rs1 < 32,
        Instr::Branch { rs1, rs2, .. } => rs1 < 32 && rs2 < 32,
        _ => true,
    }
}

/// The state after executing `i` in `s`, and the fault it raised if any.
/// Jumps and taken branches set the program counter to their target; every
/// other outcome, faults included, moves it on by 4.
pub open spec fn execute_spec<E: EEI>(s: HartState<E::V>, i: Instr) -> (
    HartState<E::V>,
    Result<(), Error>,
) {
    match i {
        Instr::Load { op, rd, rs1, imm } => match E::read32_spec(
            s.mem,
            s.x[rs1 as int].wrapping_add(imm),
        ) {
            Ok(v) => (retire(s, rd, load_value(op, v)), Ok(())),
            Err(e) => (advance(s), Err(e)),
        },
        Instr::Store { op, rs1, rs2, imm } => {
            let (m, r) = store_spec::<E>(
                s.mem,
                op,
                s.x[rs2 as int],
                s.x[rs1 as int].wrapping_add(imm),
            );
            (HartState { pc: next_pc(s.pc), x: s.x, mem: m }, r)
        },
        Instr::OpImm { op, rd, rs1, imm } => (
            retire(s, rd, alu_spec(op, s.x[rs1 as int], imm)),
            Ok(()),
        ),
        Instr::Op { op, rd, rs1, rs2 } => (
            retire(s, rd, alu_spec(op, s.x[rs1 as int], s.x[rs2 as int])),
            Ok(()),
        ),
        Instr::Lui { rd, imm } => (retire(s, rd, imm), Ok(())),
        Instr::Auipc { rd, imm } => (retire(s, rd, s.pc.wrapping_add(imm)), Ok(())),
        Instr::Jal { rd, imm } => transfer(s, rd, s.pc.wrapping_add(imm)),
        Instr::Jalr { rd, rs1, imm } => transfer(
            s,
            rd,
            s.x[rs1 as int].wrapping_add(imm) & 0xffff_fffe,
        ),
        Instr::Branch { op, rs1, rs2, imm } => if branch_taken(
            op,
            s.x[rs1 as int],
            s.x[rs2 as int],
        ) {
            transfer(s, 0, s.pc.wrapping_add(imm))
        } else {
            (advance(s), Ok(()))
        },
        Instr::Fence => (advance(s), Ok(())),
        Instr::Ecall => (advance(s), Ok(())),
        Instr::Ebreak => (advance(s), Ok(())),
    }
}

/// One fetch-decode-execute cycle from `s`.
pub open spec fn step_spec<E: EEI>(s: HartState<E::V>) -> (HartState<E::V>, Result<(), Error>) {
    match E::read32_spec(s.mem, s.pc) {
        Ok(w) => match decode_spec(w) {
            Ok(i) => execute_spec::<E>(s, i),
            Err(e) => (advance(s), Err(e)),
        },
        Err(e) => (advance(s), Err(e)),
    }
}

/// Every instruction that decodes names registers below 32.
pub proof fn lemma_decoded_regs(w: u32)
    ensures
        decode_spec(w) is Ok ==> regs_ok(decode_spec(w)->Ok_0),
{
    assert((w >> 7u32) & 0x1f < 32 && (w >> 15u32) & 0x1f < 32 && (w >> 20u32) & 0x1f < 32)
        by (bit_vector);
}

/// Register 0 is unwritable: no instruction, whatever its destination field,
/// changes it.
pub proof fn lemma_execute_keeps_x0<E: EEI>(s: HartState<E::V>, i: Instr)
    requires
        s.x.len() == 32,
        regs_ok(i),
    ensures
        execute_spec::<E>(s, i).0.x[0] == s.x[0],
        execute_spec::<E>(s, i).0.x.len() == 32,
{
}

/// A step never changes register 0.
pub proof fn lemma_step_keeps_x0<E: EEI>(s: HartState<E::V>)
    requires
        s.x.len() == 32,
    ensures
        step_spec::<E>(s).0.x[0] == s.x[0],
        step_spec::<E>(s).0.x.len() == 32,
{
    if let Ok(w) = E::read32_spec(s.mem, s.pc) {
        lemma_decoded_regs(w);
        if let Ok(i) = decode_spec(w) {
            lemma_execute_keeps_x0::<E>(s, i);
        }
    }
}

/// Whether a store kind and a load kind move the same bytes: SW with LW, SB
/// with LBU, SH with LH.
pub open spec fn round_trip_pair(sop: StoreOp, lop: LoadOp) -> bool {
    ||| sop == StoreOp::Sw && lop == LoadOp::Lw
    ||| sop == StoreOp::Sb && lop == LoadOp::Lbu
    ||| sop == StoreOp::Sh && lop == LoadOp::Lh
}

/// A store followed by a load from the same address hands the stored register
/// back: SW then LW gives the word unchanged, SB then LBU its low byte, SH then
/// LH its low half-word sign-extended. A load reads a whole word, so the
/// address leaves room for four bytes.
pub proof fn lemma_store_then_load(
    s: HartState<Seq<u8>>,
    sop: StoreOp,
    lop: LoadOp,
    base: u8,
    src: u8,
    dst: u8,
    imm: u32,
)
    requires
        s.x.len() == 32,
        base < 32,
        src < 32,
        dst < 32,
        round_trip_pair(sop, lop),
        fits(s.mem, s.x[base as int].wrapping_add(imm), 4),
    ensures
        ({
            let (s1, r1) = execute_spec::<SoftwareInterface>(
                s,
                Instr::Store { op: sop, rs1: base, rs2: src, imm },
            );
            let (s2, r2) = execute_spec::<SoftwareInterface>(
                s1,
                Instr::Load { op: lop, rd: dst, rs1: base, imm },
            );
            &&& r1 is Ok
            &&& r2 is Ok
            &&& s2.x == set_reg(s.x, dst, load_value(lop, s.x[src as int]))
        }),
{
    let a = s.x[base as int].wrapping_add(imm);
    let v = s.x[src as int];
    match sop {
        StoreOp::Sw => {
            lemma_write32_read32(s.mem, v, a);
        },
        StoreOp::Sb => {
            lemma_write8_read32(s.mem, v as u8, a);
            let w = read32_of(write8_of(s.mem, v as u8, a).0, a)->Ok_0;
            assert(w & low_mask(8) == v & low_mask(8)) by (bit_vector)
                requires
                    w & 0xff == (v as u8) as u32,
            ;
        },
        StoreOp::Sh => {
            lemma_write16_read32(s.mem, v as u16, a);
            let w = read32_of(write16_of(s.mem, v as u16, a).0, a)->Ok_0;
            assert(w & low_mask(16) == v & low_mask(16)) by (bit_vector)
                requires
                    w & 0xffff == (v as u16) as u32,
            ;
        },
    }
}

/// Whether `op` is the opcode of an RV32I instruction class.
pub open spec fn is_known_opcode(op: u32) -> bool {
    op == LOAD || op == STORE || op == OP_IMM || op == OP || op == LUI || op == AUIPC || op == JAL
        || op == JALR || op == BRANCH || op == MISC_MEM || op == SYSTEM
}

/// A fetched word whose opcode names no instruction class is reported as
/// `InvalidOpcode` and skipped: the program counter moves on by 4 and nothing
/// else changes.
pub proof fn lemma_unknown_opcode_skipped<E: EEI>(s: HartState<E::V>, w: u32)
    requires
        E::read32_spec(s.mem, s.pc) == Ok::<u32, Error>(w),
        !is_known_opcode(opcode_of(w)),
    ensures
        step_spec::<E>(s) == (advance(s), Err::<(), Error>(Error::InvalidOpcode(opcode_of(w) as u8))),
        advance(s).pc == s.pc.wrapping_add(4),
{
}

/// Every instruction but a jump or a branch moves the program counter on by
/// exactly 4, whether it succeeds or faults.
pub proof fn lemma_sequential_pc<E: EEI>(s: HartState<E::V>, i: Instr)
    requires
        !(i is Jal || i is Jalr || i is Branch),
    ensures
        execute_spec::<E>(s, i).0.pc == s.pc.wrapping_add(4),
{
}

/// Arithmetic right shift by `s` divides the signed value by 2^s, rounding
/// towards negative infinity.
pub proof fn lemma_sra_divides(a: u32, s: u32)
    requires
        s < 32,
    ensures
        signed(sra_spec(a, s)) == signed(a) / (pow2(s as nat) as int),
{
    let d = pow2(s as nat) as int;
    lemma_pow2_pos(s as nat);
    if a >> 31u32 == 0 {
        assert(a >> 31u32 == 0 ==> a < 0x8000_0000) by (bit_vector);
        lemma_u32_shr_is_div(a, s);
        assert(a as int / d <= a) by (nonlinear_arith)
            requires
                d > 0,
                a >= 0,
        ;
    } else {
        assert(a >> 31u32 != 0 ==> a >= 0x8000_0000 && !a == 0xffff_ffff - a) by (bit_vector);
        let na = !a;
        lemma_u32_shr_is_div(na, s);
        let q = na >> s;
        assert(!q == 0xffff_ffff - q) by (bit_vector);
        assert(q <= na) by (nonlinear_arith)
            requires
                q == na as int / d,
                d > 0,
                na >= 0,
        ;
        lemma_fundamental_div_mod(na as int, d);
        let m = na as int % d;
        assert(-(na as int) - 1 == (-(q as int) - 1) * d + (d - m - 1)) by (nonlinear_arith)
            requires
                na as int == d * q + m,
        ;
        lemma_fundamental_div_mod_converse(-(na as int) - 1, d, -(q as int) - 1, d - m - 1);
    }
}

/// Signed less-than on two's-complement words.
fn signed_lt(a: u32, b: u32) -> (r: bool)
    ensures
        r == (signed(a) < signed(b)),
{
    assert(a < 0x8000_0000 ==> a ^ 0x8000_0000 == a + 0x8000_0000) by (bit_vector);
    assert(a >= 0x8000_0000 ==> a ^ 0x8000_0000 == a - 0x8000_0000) by (bit_vector);
    assert(b < 0x8000_0000 ==> b ^ 0x8000_0000 == b + 0x8000_0000) by (bit_vector);
    assert(b >= 0x8000_0000 ==> b ^ 0x8000_0000 == b - 0x8000_0000) by (bit_vector);
    (a ^ 0x8000_0000) < (b ^ 0x8000_0000)
}

/// Computes an ALU operation; shifts use the low 5 bits of `b`.
pub fn alu(op: AluOp, a: u32, b: u32) -> (r: u32)
    ensures
        r == alu_spec(op, a, b),
{
    let shamt = b & 0x1f;
    assert(b & 0x1f < 32) by (bit_vector);
    match op {
        AluOp::Add => a.wrapping_add(b),
        AluOp::Sub => a.wrapping_sub(b),
        AluOp::Sll => a << shamt,
        AluOp::Slt => if signed_lt(a, b) {
            1
        } else {
            0
        },
        AluOp::Sltu => if a < b {
            1
        } else {
            0
        },
        AluOp::Xor => a ^ b,
        AluOp::Srl => a >> shamt,
        AluOp::Sra => if a >> 31 == 0 {
            a >> shamt
        } else {
            !((!a) >> shamt)
        },
        AluOp::Or => a | b,
        AluOp::And => a & b,
    }
}

/// Whether a branch of kind `op` is taken on operands `a` and `b`.
fn taken(op: BranchOp, a: u32, b: u32) -> (r: bool)
    ensures
        r == branch_taken(op, a, b),
{
    match op {
        BranchOp::Beq => a == b,
        BranchOp::Bne => a != b,
        BranchOp::Blt => signed_lt(a, b),
        BranchOp::Bge => !signed_lt(a, b),
        BranchOp::Bltu => a < b,
        BranchOp::Bgeu => a >= b,
    }
}

/// A single RV32I hart over an execution environment `E`.
pub struct Rv32I<E: EEI> {
    eei: E,
    pc: u32,
    x: [u32; 32],
}

impl<E: EEI> View for Rv32I<E> {
    type V = HartState<E::V>;

    closed spec fn view(&self) -> HartState<E::V> {
        HartState { pc: self.pc, x: self.x@, mem: self.eei@ }
    }
}

impl<E: EEI> Rv32I<E> {
    /// A hart over `eei` with every register and the program counter at zero.
    pub fn new(eei: E) -> (r: Self)
        ensures
            r@.pc == 0,
            r@.x == Seq::new(32, |i: int| 0u32),
            r@.mem == eei@,
    {
        let r = Rv32I { eei, pc: 0, x: [0u32; 32] };
        assert(r.x@ =~= Seq::new(32, |i: int| 0u32));
        r
    }

    /// Zeroes the register file and the program counter; memory is kept.
    pub fn reset(&mut self)
        ensures
            final(self)@.pc == 0,
            final(self)@.x == Seq::new(32, |i: int| 0u32),
            final(self)@.mem == old(self)@.mem,
    {
        self.x = [0u32; 32];
        assert(self.x@ =~= Seq::new(32, |i: int| 0u32));
        self.pc = 0;
    }

    /// Sets the address of the next instruction to fetch.
    pub fn set_pc(&mut self, pc: u32)
        ensures
            final(self)@ == (HartState { pc, x: old(self)@.x, mem: old(self)@.mem }),
    {
        self.pc = pc;
    }

    /// Writes `v` to register `rd`, unless `rd` is register 0.
    fn write_reg(&mut self, rd: u8, v: u32)
        requires
            rd < 32,
        ensures
            final(self)@ == retire(old(self)@, rd, v).with_pc(old(self)@.pc),
    {
        if rd != 0 {
            self.x[rd as usize] = v;
        }
        assert(self.x@ =~= set_reg(old(self)@.x, rd, v));
    }
    /// Moves the program counter on by one instruction.
    fn advance_pc(&mut self)
        ensures
            final(self)@ == advance(old(self)@),
    {
        let next = self.pc.wrapping_add(4);
        self.set_pc(next);
    }

    /// The effective address `x[rs1] + imm`, wrapping.
    fn imm_addr(&self, rs1: u8, imm: u32) -> (r: u32)
        requires
            rs1 < 32,
        ensures
            r == self@.x[rs1 as int].wrapping_add(imm),
    {
        self.x[rs1 as usize].wrapping_add(imm)
    }

    fn load(&mut self, op: LoadOp, rd: u8, rs1: u8, imm: u32) -> (r: Result<(), Error>)
        requires
            rd < 32,
            rs1 < 32,
        ensures
            (final(self)@, r) == execute_spec::<E>(old(self)@, Instr::Load { op, rd, rs1, imm }),
    {
        let addr = self.imm_addr(rs1, imm);
        match self.eei.read32(addr) {
            Ok(v) => {
                let value = match op {
                    LoadOp::Lb => sign_extend(zero_extend_to(v, 8), 8),
                    LoadOp::Lh => sign_extend(zero_extend_to(v, 16), 16),
                    LoadOp::Lw => v,
                    LoadOp::Lbu => zero_extend_to(v, 8),
                    LoadOp::Lhu => zero_extend_to(v, 16),
                };
                self.write_reg(rd, value);
                self.advance_pc();
                Ok(())
            },
            Err(e) => {
                self.advance_pc();
                Err(e)
            },
        }
    }

    fn store(&mut self, op: StoreOp, rs1: u8, rs2: u8, imm: u32) -> (r: Result<(), Error>)
        requires
            rs1 < 32,
            rs2 < 32,
        ensures
            (final(self)@, r) == execute_spec::<E>(old(self)@, Instr::Store { op, rs1, rs2, imm }),
    {
        let addr = self.imm_addr(rs1, imm);
        let v = self.x[rs2 as usize];
        let r = match op {
            StoreOp::Sb => self.eei.write8(v as u8, addr),
            StoreOp::Sh => self.eei.write16(v as u16, addr),
            StoreOp::Sw => self.eei.write32(v, addr),
        };
        self.advance_pc();
        r
    }

    fn op_imm(&mut self, op: AluOp, rd: u8, rs1: u8, imm: u32) -> (r: Result<(), Error>)
        requires
            rd < 32,
            rs1 < 32,
        ensures
            (final(self)@, r) == execute_spec::<E>(old(self)@, Instr::OpImm { op, rd, rs1, imm }),
    {
        let v = alu(op, self.x[rs1 as usize], imm);
        self.write_reg(rd, v);
        self.advance_pc();
        Ok(())
    }

    fn op(&mut self, op: AluOp, rd: u8, rs1: u8, rs2: u8) -> (r: Result<(), Error>)
        requires
            rd < 32,
            rs1 < 32,
            rs2 < 32,
        ensures
            (final(self)@, r) == execute_spec::<E>(old(self)@, Instr::Op { op, rd, rs1, rs2 }),
    {
        let v = alu(op, self.x[rs1 as usize], self.x[rs2 as usize]);
        self.write_reg(rd, v);
        self.advance_pc();
        Ok(())
    }

    fn lui(&mut self, rd: u8, imm: u32) -> (r: Result<(), Error>)
        requires
            rd < 32,
        ensures
            (final(self)@, r) == execute_spec::<E>(old(self)@, Instr::Lui { rd, imm }),
    {
        self.write_reg(rd, imm);
        self.advance_pc();
        Ok(())
    }

    fn auipc(&mut self, rd: u8, imm: u32) -> (r: Result<(), Error>)
        requires
            rd < 32,
        ensures
            (final(self)@, r) == execute_spec::<E>(old(self)@, Instr::Auipc { rd, imm }),
    {
        let v = self.pc.wrapping_add(imm);
        self.write_reg(rd, v);
        self.advance_pc();
        Ok(())
    }

    /// Jumps to `target`, linking `rd`, unless the target is misaligned.
    fn jump(&mut self, rd: u8, target: u32) -> (r: Result<(), Error>)
        requires
            rd < 32,
        ensures
            (final(self)@, r) == transfer(old(self)@, rd, target),
    {
        if target % 4 != 0 {
            self.advance_pc();
            Err(Error::InstructionAddressMisaligned(target))
        } else {
            let link = self.pc.wrapping_add(4);
            self.write_reg(rd, link);
            self.set_pc(target);
            Ok(())
        }
    }

    fn branch(&mut self, op: BranchOp, rs1: u8, rs2: u8, imm: u32) -> (r: Result<(), Error>)
        requires
            rs1 < 32,
            rs2 < 32,
        ensures
            (final(self)@, r) == execute_spec::<E>(
                old(self)@,
                Instr::Branch { op, rs1, rs2, imm },
            ),
    {
        if taken(op, self.x[rs1 as usize], self.x[rs2 as usize]) {
            let target = self.pc.wrapping_add(imm);
            self.jump(0, target)
        } else {
            self.advance_pc();
            Ok(())
        }
    }

    /// Decodes `instr` and executes it; a word that does not decode only
    /// moves the program counter on.
    fn decode_and_execute(&mut self, instr: u32) -> (r: Result<(), Error>)
        ensures
            (final(self)@, r) == match decode_spec(instr) {
                Ok(i) => execute_spec::<E>(old(self)@, i),
                Err(e) => (advance(old(self)@), Err(e)),
            },
    {
        proof {
            lemma_decoded_regs(instr);
        }
        match decode(instr) {
            Ok(i) => match i {
                Instr::Load { op, rd, rs1, imm } => self.load(op, rd, rs1, imm),
                Instr::Store { op, rs1, rs2, imm } => self.store(op, rs1, rs2, imm),
                Instr::OpImm { op, rd, rs1, imm } => self.op_imm(op, rd, rs1, imm),
                Instr::Op { op, rd, rs1, rs2 } => self.op(op, rd, rs1, rs2),
                Instr::Lui { rd, imm } => self.lui(rd, imm),
                Instr::Auipc { rd, imm } => self.auipc(rd, imm),
                Instr::Jal { rd, imm } => {
                    let target = self.pc.wrapping_add(imm);
                    self.jump(rd, target)
                },
                Instr::Jalr { rd, rs1, imm } => {
                    let target = self.imm_addr(rs1, imm) & 0xffff_fffe;
                    self.jump(rd, target)
                },
                Instr::Branch { op, rs1, rs2, imm } => self.branch(op, rs1, rs2, imm),
                Instr::Fence => {
                    self.advance_pc();
                    Ok(())
                },
                Instr::Ecall => {
                    self.eei.ecall();
                    self.advance_pc();
                    Ok(())
                },
                Instr::Ebreak => {
                    self.eei.ebreak();
                    self.advance_pc();
                    Ok(())
                },
            },
            Err(e) => {
                self.advance_pc();
                Err(e)
            },
        }
    }

    /// Executes exactly one instruction: fetch at the program counter, decode,
    /// execute. A fault is returned and the program counter still moves on by
    /// 4, so the caller may keep stepping. Register 0 keeps its value, which
    /// `new` and `reset` set to zero.
    pub fn step(&mut self) -> (r: Result<(), Error>)
        ensures
            (final(self)@, r) == step_spec::<E>(old(self)@),
            final(self)@.x[0] == old(self)@.x[0],
    {
        proof {
            lemma_step_keeps_x0::<E>(self@);
        }
        let r = match self.eei.read32(self.pc) {
            Ok(instr) => self.decode_and_execute(instr),
            Err(e) => {
                self.advance_pc();
                Err(e)
            },
        };
        r
    }

    /// The address of the next instruction to fetch.
    pub fn pc(&self) -> (r: u32)
        ensures
            r == self@.pc,
    {
        self.pc
    }

    /// The value of register `i`.
    pub fn reg(&self, i: u8) -> (r: u32)
        requires
            i < 32,
        ensures
            r == self@.x[i as int],
    {
        self.x[i as usize]
    }

    /// The execution environment the hart runs in.
    pub fn eei(&self) -> (r: &E)
        ensures
            r@ == self@.mem,
    {
        &self.eei
    }
}

} // verus!
