use rv32i::memory::MEM_SIZE;
use rv32i::{Error, Rv32I, SoftwareInterface, EEI};

fn r_type(funct7: u32, rs2: u32, rs1: u32, funct3: u32, rd: u32) -> u32 {
    funct7 << 25 | rs2 << 20 | rs1 << 15 | funct3 << 12 | rd << 7 | 0x33
}

fn i_type(imm: i32, rs1: u32, funct3: u32, rd: u32, opcode: u32) -> u32 {
    ((imm as u32) & 0xfff) << 20 | rs1 << 15 | funct3 << 12 | rd << 7 | opcode
}

fn addi(rd: u32, rs1: u32, imm: i32) -> u32 {
    i_type(imm, rs1, 0, rd, 0x13)
}

fn s_type(imm: i32, rs2: u32, rs1: u32, funct3: u32) -> u32 {
    let i = imm as u32;
    ((i >> 5) & 0x7f) << 25 | rs2 << 20 | rs1 << 15 | funct3 << 12 | (i & 0x1f) << 7 | 0x23
}

fn b_type(imm: i32, rs2: u32, rs1: u32, funct3: u32) -> u32 {
    let i = imm as u32;
    ((i >> 12) & 1) << 31
        | ((i >> 5) & 0x3f) << 25
        | rs2 << 20
        | rs1 << 15
        | funct3 << 12
        | ((i >> 1) & 0xf) << 8
        | ((i >> 11) & 1) << 7
        | 0x63
}

fn jal(rd: u32, imm: i32) -> u32 {
    let i = imm as u32;
    ((i >> 20) & 1) << 31
        | ((i >> 1) & 0x3ff) << 21
        | ((i >> 11) & 1) << 20
        | ((i >> 12) & 0xff) << 12
        | rd << 7
        | 0x6f
}

fn lui(rd: u32, imm20: u32) -> u32 {
    imm20 << 12 | rd << 7 | 0x37
}

fn le_bytes(words: &[u32]) -> Vec<u8> {
    words.iter().flat_map(|w| w.to_le_bytes()).collect()
}

fn hart_at(program: &[u32], at: u32) -> Rv32I<SoftwareInterface> {
    let mut mem = SoftwareInterface::new();
    mem.load(&le_bytes(program), at).unwrap();
    let mut cpu = Rv32I::new(mem);
    cpu.set_pc(at);
    cpu
}

fn run(cpu: &mut Rv32I<SoftwareInterface>, steps: usize) {
    for _ in 0..steps {
        assert_eq!(cpu.step(), Ok(()));
    }
}

#[test]
fn encoders_match_known_words() {
    assert_eq!(addi(1, 0, 5), 0x0050_0093);
    assert_eq!(r_type(0, 2, 1, 0, 3), 0x0020_81b3);
    assert_eq!(s_type(-4, 2, 1, 2), 0xfe20_ae23);
    assert_eq!(b_type(-8, 0, 0, 0), 0xfe00_0ce3);
    assert_eq!(jal(1, 8), 0x0080_00ef);
    assert_eq!(jal(0, -4), 0xffdf_f06f);
    assert_eq!(lui(1, 0x12345), 0x1234_50b7);
}

#[test]
fn three_instruction_program() {
    let bytes: Vec<u8> = vec![
        0x93, 0x00, 0x50, 0x00, // addi x1, x0, 5
        0x13, 0x01, 0x70, 0x00, // addi x2, x0, 7
        0xb3, 0x81, 0x20, 0x00, // add x3, x1, x2
    ];
    let mut mem = SoftwareInterface::new();
    assert_eq!(mem.load(&bytes, 0), Ok(()));
    let mut cpu = Rv32I::new(mem);
    cpu.set_pc(0);
    run(&mut cpu, 3);
    assert_eq!(cpu.reg(1), 5);
    assert_eq!(cpu.reg(2), 7);
    assert_eq!(cpu.reg(3), 12);
    assert_eq!(cpu.pc(), 12);
}

#[test]
fn register_zero_is_unwritable() {
    let mut cpu = hart_at(&[addi(1, 0, 10), addi(0, 1, 5), lui(0, 0x12345), jal(0, 8)], 0);
    run(&mut cpu, 2);
    assert_eq!(cpu.reg(1), 10);
    assert_eq!(cpu.reg(0), 0);
    run(&mut cpu, 2);
    assert_eq!(cpu.reg(0), 0);
    assert_eq!(cpu.pc(), 20);
}

#[test]
fn store_word_then_load_word() {
    let mut cpu = hart_at(
        &[
            addi(1, 0, 0x100),
            lui(2, 0x12345),
            addi(2, 2, 0x678),
            s_type(0, 2, 1, 2),     // sw x2, 0(x1)
            i_type(0, 1, 2, 3, 3), // lw x3, 0(x1)
        ],
        0x400,
    );
    run(&mut cpu, 5);
    assert_eq!(cpu.reg(2), 0x1234_5678);
    assert_eq!(cpu.reg(3), 0x1234_5678);
    assert_eq!(cpu.eei().read32(0x100), Ok(0x1234_5678));
}

#[test]
fn store_byte_then_load_byte_unsigned() {
    let mut cpu = hart_at(
        &[
            addi(1, 0, 0x100),
            addi(4, 0, -1),
            s_type(8, 4, 1, 0),     // sb x4, 8(x1)
            i_type(8, 1, 4, 5, 3), // lbu x5, 8(x1)
            i_type(8, 1, 0, 6, 3), // lb x6, 8(x1)
        ],
        0x400,
    );
    run(&mut cpu, 5);
    assert_eq!(cpu.reg(5), 0xff);
    assert_eq!(cpu.reg(6), 0xffff_ffff);
    assert_eq!(cpu.eei().read32(0x108), Ok(0xff));
}

#[test]
fn store_half_then_load_half_sign_extends() {
    let mut cpu = hart_at(
        &[
            addi(1, 0, 0x100),
            lui(6, 0x8),
            addi(6, 6, 0x123),        // x6 = 0x8123
            s_type(16, 6, 1, 1),       // sh x6, 16(x1)
            i_type(16, 1, 1, 7, 3),   // lh x7, 16(x1)
            i_type(16, 1, 5, 8, 3),   // lhu x8, 16(x1)
            addi(9, 0, 0x7ff),
            s_type(20, 9, 1, 1),       // sh x9, 20(x1)
            i_type(20, 1, 1, 10, 3),  // lh x10, 20(x1)
        ],
        0x400,
    );
    run(&mut cpu, 9);
    assert_eq!(cpu.reg(7), 0xffff_8123);
    assert_eq!(cpu.reg(8), 0x8123);
    assert_eq!(cpu.reg(10), 0x7ff);
}

#[test]
fn memory_is_little_endian() {
    let mut cpu = hart_at(
        &[
            lui(2, 0xa1b2c),
            addi(2, 2, 0x3d4), // x2 = 0xa1b2c3d4
            s_type(0, 2, 0, 2), // sw x2, 0(x0)
        ],
        0x400,
    );
    run(&mut cpu, 3);
    assert_eq!(cpu.eei().read32(0), Ok(0xa1b2_c3d4));
    let mut mem = SoftwareInterface::new();
    mem.load(&vec![0xd4, 0xc3, 0xb2, 0xa1], 0x10).unwrap();
    assert_eq!(mem.read32(0x10), Ok(0xa1b2_c3d4));
    assert_eq!(mem.write16(0xbeef, 0x20), Ok(()));
    assert_eq!(mem.read32(0x20), Ok(0x0000_beef));
    assert_eq!(mem.write8(0x7a, 0x23), Ok(()));
    assert_eq!(mem.read32(0x20), Ok(0x7a00_beef));
}

#[test]
fn jal_links_and_jumps() {
    let mut cpu = hart_at(&[jal(1, 8)], 0x100);
    assert_eq!(cpu.step(), Ok(()));
    assert_eq!(cpu.pc(), 0x108);
    assert_eq!(cpu.reg(1), 0x104);
}

#[test]
fn jal_backwards() {
    let mut cpu = hart_at(&[addi(0, 0, 0), jal(5, -4)], 0x100);
    run(&mut cpu, 2);
    assert_eq!(cpu.pc(), 0x100);
    assert_eq!(cpu.reg(5), 0x108);
}

#[test]
fn jalr_misaligned_target_is_rejected() {
    // x1 = 0x103; jalr x2, 0(x1) targets 0x102 once bit 0 is cleared.
    let mut cpu = hart_at(&[addi(1, 0, 0x103), i_type(0, 1, 0, 2, 0x67)], 0x100);
    run(&mut cpu, 1);
    assert_eq!(cpu.step(), Err(Error::InstructionAddressMisaligned(0x102)));
    assert_eq!(cpu.pc(), 0x108);
    assert_eq!(cpu.reg(2), 0);
}

#[test]
fn jalr_clears_bit_zero() {
    // x1 = 0x201; jalr x2, 3(x1) targets 0x204.
    let mut cpu = hart_at(&[addi(1, 0, 0x201), i_type(3, 1, 0, 2, 0x67)], 0x100);
    run(&mut cpu, 2);
    assert_eq!(cpu.pc(), 0x204);
    assert_eq!(cpu.reg(2), 0x108);
}

#[test]
fn jalr_to_rs1_plus_offset_when_rd_is_rs1() {
    let mut cpu = hart_at(&[addi(1, 0, 0x200), i_type(-0x100, 1, 0, 1, 0x67)], 0x100);
    run(&mut cpu, 2);
    assert_eq!(cpu.pc(), 0x100);
    assert_eq!(cpu.reg(1), 0x108);
}

#[test]
fn blt_and_bltu_disagree() {
    let setup = [addi(1, 0, -1), addi(2, 0, 1)];
    let mut signed = hart_at(&[setup[0], setup[1], b_type(8, 2, 1, 4)], 0x100);
    run(&mut signed, 3);
    assert_eq!(signed.reg(1), 0xffff_ffff);
    assert_eq!(signed.pc(), 0x108 + 8);

    let mut unsigned = hart_at(&[setup[0], setup[1], b_type(8, 2, 1, 6)], 0x100);
    run(&mut unsigned, 3);
    assert_eq!(unsigned.pc(), 0x108 + 4);
}

#[test]
fn branch_table() {
    // (funct3, a, b, taken)
    let cases: [(u32, i32, i32, bool); 12] = [
        (0, 3, 3, true),
        (0, 3, 4, false),
        (1, 3, 4, true),
        (1, 3, 3, false),
        (4, -2, 1, true),
        (4, 1, -2, false),
        (5, 1, -2, true),
        (5, -2, -2, true),
        (5, -2, 1, false),
        (6, 1, -2, true),
        (7, -2, 1, true),
        (7, 1, -2, false),
    ];
    for (funct3, a, b, taken) in cases {
        let mut cpu = hart_at(&[addi(1, 0, a), addi(2, 0, b), b_type(-8, 2, 1, funct3)], 0x100);
        run(&mut cpu, 3);
        let expected = if taken { 0x100 } else { 0x10c };
        assert_eq!(cpu.pc(), expected, "funct3={funct3} a={a} b={b}");
    }
}

#[test]
fn taken_branch_to_misaligned_target_is_rejected() {
    let mut cpu = hart_at(&[b_type(6, 0, 0, 0)], 0x100);
    assert_eq!(cpu.step(), Err(Error::InstructionAddressMisaligned(0x106)));
    assert_eq!(cpu.pc(), 0x104);
}

fn alu(funct7: u32, funct3: u32, a: u32, b: u32) -> u32 {
    let mut mem = SoftwareInterface::new();
    mem.load(&le_bytes(&[a, b]), 0x800).unwrap();
    // x4 = 0x800, then x1 and x2 are loaded from there.
    let program = [
        lui(4, 0x1),
        addi(4, 4, -0x800), // x4 = 0x800
        i_type(0, 4, 2, 1, 3),
        i_type(4, 4, 2, 2, 3),
        r_type(funct7, 2, 1, funct3, 3),
    ];
    mem.load(&le_bytes(&program), 0x100).unwrap();
    let mut cpu = Rv32I::new(mem);
    cpu.set_pc(0x100);
    run(&mut cpu, 5);
    assert_eq!(cpu.pc(), 0x114);
    cpu.reg(3)
}

#[test]
fn alu_register_table() {
    assert_eq!(alu(0x00, 0, 5, 7), 12); // ADD
    assert_eq!(alu(0x00, 0, 0xffff_ffff, 1), 0); // ADD wraps
    assert_eq!(alu(0x20, 0, 5, 7), 0xffff_fffe); // SUB
    assert_eq!(alu(0x00, 1, 1, 4), 16); // SLL
    assert_eq!(alu(0x00, 1, 1, 33), 2); // SLL uses the low 5 bits
    assert_eq!(alu(0x00, 2, 0xffff_ffff, 1), 1); // SLT: -1 < 1
    assert_eq!(alu(0x00, 2, 1, 0xffff_ffff), 0);
    assert_eq!(alu(0x00, 3, 0xffff_ffff, 1), 0); // SLTU
    assert_eq!(alu(0x00, 3, 1, 0xffff_ffff), 1);
    assert_eq!(alu(0x00, 3, 5, 0), 0); // SLTU against zero
    assert_eq!(alu(0x00, 4, 0b1100, 0b1010), 0b0110); // XOR
    assert_eq!(alu(0x00, 5, 0x8000_0000, 4), 0x0800_0000); // SRL
    assert_eq!(alu(0x20, 5, 0x8000_0000, 4), 0xf800_0000); // SRA keeps the sign
    assert_eq!(alu(0x20, 5, 0x4000_0000, 4), 0x0400_0000);
    assert_eq!(alu(0x00, 6, 0b1100, 0b1010), 0b1110); // OR
    assert_eq!(alu(0x00, 7, 0b1100, 0b1010), 0b1000); // AND
}

#[test]
fn alu_immediate_table() {
    let program = [
        addi(1, 0, -16),               // x1 = 0xfffffff0
        i_type(4, 1, 1, 2, 0x13),      // slli x2, x1, 4
        i_type(-15, 1, 2, 3, 0x13),    // slti x3, x1, -15
        i_type(-1, 1, 3, 4, 0x13),     // sltiu x4, x1, -1
        i_type(0xff, 1, 4, 5, 0x13),   // xori x5, x1, 0xff
        i_type(4, 1, 5, 6, 0x13),      // srli x6, x1, 4
        i_type(0x404, 1, 5, 7, 0x13),  // srai x7, x1, 4
        i_type(0x0f, 1, 6, 8, 0x13),   // ori x8, x1, 0xf
        i_type(0x3c, 1, 7, 9, 0x13),   // andi x9, x1, 0x3c
        addi(10, 1, 32),               // x10 = 16
    ];
    let mut cpu = hart_at(&program, 0x100);
    run(&mut cpu, program.len());
    assert_eq!(cpu.reg(1), 0xffff_fff0);
    assert_eq!(cpu.reg(2), 0xffff_ff00);
    assert_eq!(cpu.reg(3), 1);
    assert_eq!(cpu.reg(4), 1);
    assert_eq!(cpu.reg(5), 0xffff_ff0f);
    assert_eq!(cpu.reg(6), 0x0fff_ffff);
    assert_eq!(cpu.reg(7), 0xffff_ffff);
    assert_eq!(cpu.reg(8), 0xffff_ffff);
    assert_eq!(cpu.reg(9), 0x30);
    assert_eq!(cpu.reg(10), 16);
}

#[test]
fn sltu_against_register_zero() {
    let program = [
        addi(1, 0, 5),
        r_type(0, 0, 1, 3, 3), // sltu x3, x1, x0
        r_type(0, 1, 0, 3, 4), // sltu x4, x0, x1
        r_type(0, 0, 0, 3, 5), // sltu x5, x0, x0
    ];
    let mut cpu = hart_at(&program, 0x100);
    run(&mut cpu, program.len());
    assert_eq!(cpu.reg(3), 0);
    assert_eq!(cpu.reg(4), 1);
    assert_eq!(cpu.reg(5), 0);
}

#[test]
fn upper_immediates() {
    let mut cpu = hart_at(&[lui(1, 0xfffff), 0x0000_1117], 0x100); // auipc x2, 1
    run(&mut cpu, 2);
    assert_eq!(cpu.reg(1), 0xffff_f000);
    assert_eq!(cpu.reg(2), 0x1104);
}

#[test]
fn unknown_opcode_is_reported_and_skipped() {
    let mut cpu = hart_at(&[0x0000_007f, addi(1, 0, 1)], 0);
    assert_eq!(cpu.step(), Err(Error::InvalidOpcode(0x7f)));
    assert_eq!(cpu.pc(), 4);
    assert_eq!(cpu.step(), Ok(()));
    assert_eq!(cpu.reg(1), 1);
    assert_eq!(cpu.pc(), 8);
}

#[test]
fn invalid_funct_fields_are_reported() {
    let mut cpu = hart_at(&[0x0000_3003, 0x0020_0073, 0x0000_1073], 0);
    assert_eq!(cpu.step(), Err(Error::InvalidFunct3(3)));
    assert_eq!(cpu.step(), Err(Error::InvalidFunct12(2)));
    assert_eq!(cpu.step(), Err(Error::InvalidFunct3(1)));
    assert_eq!(cpu.pc(), 12);
}

#[test]
fn system_calls_and_fence_only_advance() {
    let mut cpu = hart_at(&[0x0000_0073, 0x0010_0073, 0x0ff0_000f], 0);
    run(&mut cpu, 3);
    assert_eq!(cpu.pc(), 12);
    for i in 0..32 {
        assert_eq!(cpu.reg(i), 0);
    }
}

#[test]
fn memory_faults_are_reported() {
    let mut cpu = hart_at(
        &[
            addi(1, 0, 7),
            i_type(-4, 0, 2, 1, 3), // lw x1, -4(x0)
            s_type(-4, 1, 0, 2),     // sw x1, -4(x0)
            s_type(-1, 1, 0, 0),     // sb x1, -1(x0)
        ],
        0,
    );
    run(&mut cpu, 1);
    assert_eq!(cpu.step(), Err(Error::MemoryFault(0xffff_fffc)));
    assert_eq!(cpu.reg(1), 7);
    assert_eq!(cpu.step(), Err(Error::MemoryFault(0xffff_fffc)));
    assert_eq!(cpu.step(), Err(Error::MemoryFault(0xffff_ffff)));
    assert_eq!(cpu.pc(), 16);
}

#[test]
fn fetch_past_the_end_faults() {
    let mut cpu = Rv32I::new(SoftwareInterface::new());
    cpu.set_pc(MEM_SIZE as u32);
    assert_eq!(cpu.step(), Err(Error::MemoryFault(MEM_SIZE as u32)));
    assert_eq!(cpu.pc(), MEM_SIZE as u32 + 4);
    cpu.set_pc(MEM_SIZE as u32 - 2);
    assert_eq!(cpu.step(), Err(Error::MemoryFault(MEM_SIZE as u32 - 2)));
}

#[test]
fn pc_wraps_around() {
    let mut cpu = Rv32I::new(SoftwareInterface::new());
    cpu.set_pc(0xffff_fffc);
    assert_eq!(cpu.step(), Err(Error::MemoryFault(0xffff_fffc)));
    assert_eq!(cpu.pc(), 0);
}

#[test]
fn reset_clears_registers_and_pc() {
    let mut cpu = hart_at(&[addi(1, 0, 5), addi(2, 0, 6)], 0x100);
    run(&mut cpu, 2);
    cpu.reset();
    assert_eq!(cpu.pc(), 0);
    assert_eq!(cpu.reg(1), 0);
    assert_eq!(cpu.reg(2), 0);
    assert_eq!(cpu.eei().read32(0x100), Ok(addi(1, 0, 5)));
}
