//! Bit-field extraction from 32-bit instruction words.
use vstd::arithmetic::power2::{lemma2_to64, lemma2_to64_rest, pow2};
use vstd::bits::lemma_u32_shl_is_mul;
use vstd::prelude::*;

verus! {

/// The mask of the low `w` bits of a word.
pub open spec fn low_mask(w: u32) -> u32 {
    if w >= 32 {
        0xffff_ffffu32
    } else {
        ((1u32 << w) - 1) as u32
    }
}

/// The bits `end..=start` of `val`, moved down to bit 0.
pub open spec fn bits_spec(val: u32, end: u32, start: u32) -> u32 {
    (val >> start) & low_mask((end - start + 1) as u32)
}

/// The low `w` bits of `v`, with all higher bits cleared.
pub open spec fn zero_extend_spec(v: u32, w: u32) -> u32 {
    v & low_mask(w)
}

/// A value held in the low `w` bits, widened to 32 bits by copying bit `w - 1`
/// into every higher bit.
pub open spec fn sign_extend_spec(v: u32, w: u32) -> u32 {
    if (v >> ((w - 1) as u32)) & 1 == 1 {
        v | !low_mask(w)
    } else {
        v
    }
}

/// The two's-complement value of a 32-bit word.
pub open spec fn signed(v: u32) -> int {
    if v < 0x8000_0000 {
        v as int
    } else {
        v as int - 0x1_0000_0000
    }
}

/// The two's-complement value of a `w`-bit field `u` (`u < 2^w`).
pub open spec fn field_signed(u: u32, w: nat) -> int {
    if u < pow2((w - 1) as nat) {
        u as int
    } else {
        u as int - pow2(w)
    }
}

pub open spec fn opcode_of(w: u32) -> u32 {
    w & 0x7f
}

pub open spec fn rd_of(w: u32) -> u32 {
    (w >> 7) & 0x1f
}

pub open spec fn funct3_of(w: u32) -> u32 {
    (w >> 12) & 0x7
}

pub open spec fn rs1_of(w: u32) -> u32 {
    (w >> 15) & 0x1f
}

pub open spec fn rs2_of(w: u32) -> u32 {
    (w >> 20) & 0x1f
}

pub open spec fn funct7_of(w: u32) -> u32 {
    w >> 25
}

/// The 12-bit field in bits 31:20 (the I immediate before sign extension).
pub open spec fn funct12_of(w: u32) -> u32 {
    w >> 20
}

/// I format: bits 31:20.
pub open spec fn imm_i_of(w: u32) -> u32 {
    sign_extend_spec(w >> 20, 12)
}

/// S format: bits 31:25 above bits 11:7.
pub open spec fn imm_s_of(w: u32) -> u32 {
    sign_extend_spec(((w >> 25) << 5) | ((w >> 7) & 0x1f), 12)
}

/// B format: imm[12] = bit 31, imm[11] = bit 7, imm[10:5] = bits 30:25,
/// imm[4:1] = bits 11:8, imm[0] = 0.
pub open spec fn imm_b_of(w: u32) -> u32 {
    sign_extend_spec(
        (((w >> 8) & 0xf) << 1) | (((w >> 25) & 0x3f) << 5) | (((w >> 7) & 1) << 11) | ((w
            >> 31) << 12),
        13,
    )
}

/// U format: bits 31:12 in place, low 12 bits zero.
pub open spec fn imm_u_of(w: u32) -> u32 {
    w & 0xffff_f000
}

/// J format: imm[20] = bit 31, imm[19:12] = bits 19:12, imm[11] = bit 20,
/// imm[10:1] = bits 30:21, imm[0] = 0.
pub open spec fn imm_j_of(w: u32) -> u32 {
    sign_extend_spec(
        (((w >> 21) & 0x3ff) << 1) | (((w >> 20) & 1) << 11) | (((w >> 12) & 0xff) << 12) | ((w
            >> 31) << 20),
        21,
    )
}

proof fn lemma_masks()
    ensures
        low_mask(1) == 1,
        low_mask(3) == 7,
        low_mask(4) == 0xf,
        low_mask(5) == 0x1f,
        low_mask(6) == 0x3f,
        low_mask(7) == 0x7f,
        low_mask(8) == 0xff,
        low_mask(10) == 0x3ff,
        low_mask(12) == 0xfff,
        low_mask(16) == 0xffff,
        low_mask(20) == 0xfffff,
{
    assert(low_mask(1) == 1) by (bit_vector);
    assert(low_mask(3) == 7) by (bit_vector);
    assert(low_mask(4) == 0xf) by (bit_vector);
    assert(low_mask(5) == 0x1f) by (bit_vector);
    assert(low_mask(6) == 0x3f) by (bit_vector);
    assert(low_mask(7) == 0x7f) by (bit_vector);
    assert(low_mask(8) == 0xff) by (bit_vector);
    assert(low_mask(10) == 0x3ff) by (bit_vector);
    assert(low_mask(12) == 0xfff) by (bit_vector);
    assert(low_mask(16) == 0xffff) by (bit_vector);
    assert(low_mask(20) == 0xfffff) by (bit_vector);
}

/// Extracts the bit field `end..=start` (inclusive, `end >= start`) of `val`.
pub fn bits(val: u32, end: u8, start: u8) -> (r: u32)
    requires
        start <= end < 32,
    ensures
        r == bits_spec(val, end as u32, start as u32),
{
    let mut mask: u32 = 1;
    let mut k: u8 = 0;
    assert(low_mask(1) == 1) by (bit_vector);
    while k < end - start
        invariant
            start <= end < 32,
            k <= end - start,
            mask == low_mask((k + 1) as u32),
        decreases end - start - k,
    {
        let m = mask;
        let n: u32 = (k + 1) as u32;
        assert((m << 1u32) | 1u32 == low_mask((n + 1) as u32)) by (bit_vector)
            requires
                m == low_mask(n),
                1 <= n < 32,
        ;
        mask = (mask << 1u32) | 1u32;
        k = k + 1;
    }
    (val >> start as u32) & mask
}

/// Keeps the low `w` bits of `v` and clears the rest.
pub fn zero_extend_to(v: u32, w: u32) -> (r: u32)
    requires
        1 <= w <= 32,
    ensures
        r == zero_extend_spec(v, w),
{
    if w == 32 {
        assert(v & 0xffff_ffffu32 == v) by (bit_vector);
        v
    } else {
        assert(1u32 << w >= 1) by (bit_vector)
            requires
                w < 32,
        ;
        v & ((1u32 << w) - 1)
    }
}

/// Widens the `w`-bit value in the low bits of `v` to 32 bits: when bit `w - 1`
/// is set every higher bit is set, otherwise `v` is returned unchanged.
pub fn sign_extend(v: u32, w: u32) -> (r: u32)
    requires
        1 <= w <= 32,
    ensures
        r == sign_extend_spec(v, w),
{
    let mask: u32 = if w == 32 {
        0xffff_ffff
    } else {
        assert(1u32 << w >= 1) by (bit_vector)
            requires
                w < 32,
        ;
        (1u32 << w) - 1
    };
    assert(mask == low_mask(w));
    if (v >> (w - 1)) & 1 == 1 {
        v | !mask
    } else {
        v
    }
}

/// The opcode, bits 6:0.
pub fn opcode(instr: u32) -> (r: u8)
    ensures
        r == opcode_of(instr),
{
    proof {
        lemma_masks();
    }
    assert(instr & 0x7f < 128 && (instr >> 0u32) & 0x7f == instr & 0x7f) by (bit_vector);
    bits(instr, 6, 0) as u8
}

/// The destination register, bits 11:7.
pub fn rd(instr: u32) -> (r: u8)
    ensures
        r == rd_of(instr),
        r < 32,
{
    proof {
        lemma_masks();
    }
    assert((instr >> 7u32) & 0x1f < 32) by (bit_vector);
    bits(instr, 11, 7) as u8
}

/// The secondary operation selector, bits 14:12.
pub fn funct3(instr: u32) -> (r: u8)
    ensures
        r == funct3_of(instr),
        r < 8,
{
    proof {
        lemma_masks();
    }
    assert((instr >> 12u32) & 7 < 8) by (bit_vector);
    bits(instr, 14, 12) as u8
}

/// The first source register, bits 19:15.
pub fn rs1(instr: u32) -> (r: u8)
    ensures
        r == rs1_of(instr),
        r < 32,
{
    proof {
        lemma_masks();
    }
    assert((instr >> 15u32) & 0x1f < 32) by (bit_vector);
    bits(instr, 19, 15) as u8
}

/// The second source register, bits 24:20.
pub fn rs2(instr: u32) -> (r: u8)
    ensures
        r == rs2_of(instr),
        r < 32,
{
    proof {
        lemma_masks();
    }
    assert((instr >> 20u32) & 0x1f < 32) by (bit_vector);
    bits(instr, 24, 20) as u8
}

/// The operation variant selector, bits 31:25.
pub fn funct7(instr: u32) -> (r: u8)
    ensures
        r == funct7_of(instr),
{
    proof {
        lemma_masks();
    }
    assert((instr >> 25u32) & 0x7f == instr >> 25u32 && instr >> 25u32 < 128) by (bit_vector);
    bits(instr, 31, 25) as u8
}

/// The 12-bit field of bits 31:20, which tells the system calls apart.
pub fn funct12(instr: u32) -> (r: u16)
    ensures
        r == funct12_of(instr),
{
    proof {
        lemma_masks();
    }
    assert((instr >> 20u32) & 0xfff == instr >> 20u32 && instr >> 20u32 < 4096) by (bit_vector);
    bits(instr, 31, 20) as u16
}

/// The sign-extended I-format immediate.
pub fn imm_i(instr: u32) -> (r: u32)
    ensures
        r == imm_i_of(instr),
{
    proof {
        lemma_masks();
    }
    assert((instr >> 20u32) & 0xfff == instr >> 20u32) by (bit_vector);
    sign_extend(bits(instr, 31, 20), 12)
}

/// The sign-extended S-format immediate.
pub fn imm_s(instr: u32) -> (r: u32)
    ensures
        r == imm_s_of(instr),
{
    proof {
        lemma_masks();
    }
    assert((instr >> 25u32) & 0x7f == instr >> 25u32) by (bit_vector);
    let hi = bits(instr, 31, 25);
    let lo = bits(instr, 11, 7);
    assert(hi << 5u32 == (instr >> 25u32) << 5u32);
    sign_extend((hi << 5) | lo, 12)
}

/// The sign-extended B-format immediate (always even).
pub fn imm_b(instr: u32) -> (r: u32)
    ensures
        r == imm_b_of(instr),
{
    proof {
        lemma_masks();
    }
    assert((instr >> 31u32) & 1 == instr >> 31u32) by (bit_vector);
    let v = bits(instr, 11, 8) << 1 | bits(instr, 30, 25) << 5 | bits(instr, 7, 7) << 11 | bits(
        instr,
        31,
        31,
    ) << 12;
    sign_extend(v, 13)
}

/// The U-format immediate: bits 31:12 in place, low 12 bits zero.
pub fn imm_u(instr: u32) -> (r: u32)
    ensures
        r == imm_u_of(instr),
{
    proof {
        lemma_masks();
    }
    let v = bits(instr, 31, 12);
    assert(((instr >> 12u32) & 0xfffff) << 12u32 == instr & 0xffff_f000) by (bit_vector);
    v << 12
}

/// The sign-extended J-format immediate (always even).
pub fn imm_j(instr: u32) -> (r: u32)
    ensures
        r == imm_j_of(instr),
{
    proof {
        lemma_masks();
    }
    assert((instr >> 31u32) & 1 == instr >> 31u32) by (bit_vector);
    let v = bits(instr, 30, 21) << 1 | bits(instr, 20, 20) << 11 | bits(instr, 19, 12) << 12
        | bits(instr, 31, 31) << 20;
    sign_extend(v, 21)
}

/// Sign extension recovers the signed value of a `w`-bit field: for every word
/// `v` and width `w`, extending the low `w` bits of `v` gives the word whose
/// two's-complement value is the field's own two's-complement value.
pub proof fn lemma_sign_extend_signed(v: u32, w: u32)
    requires
        1 <= w <= 32,
    ensures
        signed(sign_extend_spec(zero_extend_spec(v, w), w)) == field_signed(
            zero_extend_spec(v, w),
            w as nat,
        ),
{
    let u = zero_extend_spec(v, w);
    let r = sign_extend_spec(u, w);
    let h: u32 = (1u32 << ((w - 1) as u32)) as u32;
    lemma2_to64();
    lemma2_to64_rest();
    lemma_u32_shl_is_mul(1u32, (w - 1) as u32);
    assert(h == pow2((w - 1) as nat));
    vstd::arithmetic::power2::lemma_pow2_unfold(w as nat);
    assert(pow2(w as nat) == 2 * pow2((w - 1) as nat));
    assert(u < h ==> r == u && u < 0x8000_0000) by (bit_vector)
        requires
            1 <= w <= 32,
            h == 1u32 << ((w - 1) as u32),
            u == v & low_mask(w),
            r == sign_extend_spec(u, w),
    ;
    assert(u >= h ==> r as int == u as int + 0x1_0000_0000 - 2 * (h as int) && r >= 0x8000_0000)
        by (bit_vector)
        requires
            1 <= w <= 32,
            h == 1u32 << ((w - 1) as u32),
            u == v & low_mask(w),
            r == sign_extend_spec(u, w),
    ;
}

} // verus!
