use vstd::prelude::*;
use crate::inst::binary::{
    decode16, decode32, decode_adiw, decode_fixed, decode_io_ab, decode_k16, decode_movw,
    decode_rd, decode_rda, decode_rdk, decode_rdrr, decode_rdz, decode_relcondbr, decode_sbrs,
    decode_st_ld, decode_std_ldd, double_word_of, word_of,
};
use crate::inst::Instruction;

verus! {

/// Whether `bits` is a fixed word without operands.
#[verifier::inline]
pub open spec fn fixed_word(bits: u16) -> bool {
    bits == 0 || bits == 0x9508 || bits == 0x9518 || bits == 0x95C8 || bits == 0x9478 ||
        bits == 0x94F8
}

/// Whether `bits` is of the one-register family.
#[verifier::inline]
pub open spec fn rd_word(bits: u16) -> bool {
    bits & 0xFE0F == 0x9403 || bits & 0xFE0F == 0x940A || bits & 0xFE0F == 0x9400 || bits &
        0xFE0F == 0x9401 || bits & 0xFE0F == 0x920F || bits & 0xFE0F == 0x900F || bits & 0xFE0F
        == 0x9402
}

/// Whether `bits` is of the register-and-immediate family.
#[verifier::inline]
pub open spec fn rdk_word(bits: u16) -> bool {
    bits & 0xF000 == 0x5000 || bits & 0xF000 == 0x4000 || bits & 0xF000 == 0x7000 || bits &
        0xF000 == 0x6000 || bits & 0xF000 == 0x3000 || bits & 0xF000 == 0xE000
}

/// Whether `bits` is of the two-register family.
#[verifier::inline]
pub open spec fn rdrr_word(bits: u16) -> bool {
    bits & 0xFC00 == 0x0C00 || bits & 0xFC00 == 0x1C00 || bits & 0xFC00 == 0x1800 || bits &
        0xFC00 == 0x0800 || bits & 0xFC00 == 0x9C00 || bits & 0xFC00 == 0x2000 || bits & 0xFC00
        == 0x2800 || bits & 0xFC00 == 0x2400 || bits & 0xFC00 == 0x1000 || bits & 0xFC00 ==
        0x1400 || bits & 0xFC00 == 0x0400 || bits & 0xFC00 == 0x2C00
}

/// Whether `bits` is `in` or `out`.
#[verifier::inline]
pub open spec fn rda_word(bits: u16) -> bool {
    bits & 0xF800 == 0xB000 || bits & 0xF800 == 0xB800
}

/// Whether `bits` is an I/O bit instruction.
#[verifier::inline]
pub open spec fn io_ab_word(bits: u16) -> bool {
    bits & 0xFF00 == 0x9A00 || bits & 0xFF00 == 0x9B00 || bits & 0xFF00 == 0x9800
}

/// Whether `bits` is `lpm` with a destination.
#[verifier::inline]
pub open spec fn rdz_word(bits: u16) -> bool {
    bits & 0xFE0F == 0x9004 || bits & 0xFE0F == 0x9005
}

/// Whether `bits` is a relative jump or call.
#[verifier::inline]
pub open spec fn k16_word(bits: u16) -> bool {
    bits & 0xF000 == 0xC000 || bits & 0xF000 == 0xD000
}

/// Whether `bits` is an indirect `st` or `ld`.
#[verifier::inline]
pub open spec fn st_ld_word(bits: u16) -> bool {
    bits & 0xFE0F == 0x920C || bits & 0xFE0F == 0x920D || bits & 0xFE0F == 0x920E || bits &
        0xFE0F == 0x8208 || bits & 0xFE0F == 0x9209 || bits & 0xFE0F == 0x920A || bits & 0xFE0F
        == 0x8200 || bits & 0xFE0F == 0x9201 || bits & 0xFE0F == 0x9202 || bits & 0xFE0F ==
        0x900C || bits & 0xFE0F == 0x900D || bits & 0xFE0F == 0x900E || bits & 0xFE0F == 0x8008
        || bits & 0xFE0F == 0x9009 || bits & 0xFE0F == 0x900A || bits & 0xFE0F == 0x8000 || bits
        & 0xFE0F == 0x9001 || bits & 0xFE0F == 0x9002
}

/// Whether `bits` is of the displacement forms `std` and `ldd`.
#[verifier::inline]
pub open spec fn std_ldd_word(bits: u16) -> bool {
    bits & 0xD200 == 0x8000 || bits & 0xD200 == 0x8200
}

/// Whether `bits` is `movw`.
#[verifier::inline]
pub open spec fn movw_word(bits: u16) -> bool {
    bits & 0xFF00 == 0x0100
}

/// Whether `bits` is a conditional relative branch.
#[verifier::inline]
pub open spec fn relcondbr_word(bits: u16) -> bool {
    bits & 0xFC07 == 0xF401 || bits & 0xFC07 == 0xF001 || bits & 0xFC07 == 0xF000 || bits &
        0xFC07 == 0xF400 || bits & 0xFC07 == 0xF404 || bits & 0xFC07 == 0xF005 || bits & 0xFC07
        == 0xF405 || bits & 0xFC07 == 0xF007 || bits & 0xFC07 == 0xF407 || bits & 0xFC07 ==
        0xF004 || bits & 0xFC07 == 0xF002 || bits & 0xFC07 == 0xF402 || bits & 0xFC07 == 0xF006
        || bits & 0xFC07 == 0xF406 || bits & 0xFC07 == 0xF003 || bits & 0xFC07 == 0xF403
}

/// Whether `bits` is `adiw` or `sbiw`.
#[verifier::inline]
pub open spec fn adiw_word(bits: u16) -> bool {
    bits & 0xFF00 == 0x9600 || bits & 0xFF00 == 0x9700
}

/// Whether `bits` is `sbrs`.
#[verifier::inline]
pub open spec fn sbrs_word(bits: u16) -> bool {
    bits & 0xFE08 == 0xFE00
}

/// Whether `word` is the first word of a two-word instruction.
#[verifier::inline]
pub open spec fn wide_first_word(word: u16) -> bool {
    word & 0xFE0C == 0x940C || word & 0xFE0F == 0x9000 || word & 0xFE0F == 0x9200
}

/// A word that matches a pattern of one family decodes as that family says,
/// whichever families are tried before it: no pattern hides another. The one
/// overlap is the displacement form with a displacement of 0, which is the
/// plain indirect form through `Y` or `Z` and decodes as that.
pub proof fn known_pattern_decides(bits: u16)
    ensures
        decode_fixed(bits) is Some ==> decode16(bits) == decode_fixed(bits),
        decode_rd(bits) is Some ==> decode16(bits) == decode_rd(bits),
        decode_rdk(bits) is Some ==> decode16(bits) == decode_rdk(bits),
        decode_rdrr(bits) is Some ==> decode16(bits) == decode_rdrr(bits),
        decode_rda(bits) is Some ==> decode16(bits) == decode_rda(bits),
        decode_io_ab(bits) is Some ==> decode16(bits) == decode_io_ab(bits),
        decode_rdz(bits) is Some ==> decode16(bits) == decode_rdz(bits),
        decode_k16(bits) is Some ==> decode16(bits) == decode_k16(bits),
        decode_st_ld(bits) is Some ==> decode16(bits) == decode_st_ld(bits),
        decode_std_ldd(bits) is Some && decode_st_ld(bits) is None ==> decode16(bits)
            == decode_std_ldd(bits),
        decode_movw(bits) is Some ==> decode16(bits) == decode_movw(bits),
        decode_relcondbr(bits) is Some ==> decode16(bits) == decode_relcondbr(bits),
        decode_adiw(bits) is Some ==> decode16(bits) == decode_adiw(bits),
        decode_sbrs(bits) is Some ==> decode16(bits) == decode_sbrs(bits),
{
    assert(
        (rd_word(bits) ==> !(fixed_word(bits)))
        && (rdk_word(bits) ==> !(fixed_word(bits) || rd_word(bits)))
        && (rdrr_word(bits) ==> !(fixed_word(bits) || rd_word(bits) || rdk_word(bits)))
        && (rda_word(bits) ==> !(fixed_word(bits) || rd_word(bits) || rdk_word(bits) ||
            rdrr_word(bits)))
        && (io_ab_word(bits) ==> !(fixed_word(bits) || rd_word(bits) || rdk_word(bits) ||
            rdrr_word(bits) || rda_word(bits)))
        && (rdz_word(bits) ==> !(fixed_word(bits) || rd_word(bits) || rdk_word(bits) ||
            rdrr_word(bits) || rda_word(bits) || io_ab_word(bits)))
        && (k16_word(bits) ==> !(fixed_word(bits) || rd_word(bits) || rdk_word(bits) ||
            rdrr_word(bits) || rda_word(bits) || io_ab_word(bits) || rdz_word(bits)))
        && (st_ld_word(bits) ==> !(fixed_word(bits) || rd_word(bits) || rdk_word(bits) ||
            rdrr_word(bits) || rda_word(bits) || io_ab_word(bits) || rdz_word(bits) ||
            k16_word(bits)))
        && (std_ldd_word(bits) ==> !(fixed_word(bits) || rd_word(bits) || rdk_word(bits) ||
            rdrr_word(bits) || rda_word(bits) || io_ab_word(bits) || rdz_word(bits) ||
            k16_word(bits)))
        && (movw_word(bits) ==> !(fixed_word(bits) || rd_word(bits) || rdk_word(bits) ||
            rdrr_word(bits) || rda_word(bits) || io_ab_word(bits) || rdz_word(bits) ||
            k16_word(bits) || st_ld_word(bits) || std_ldd_word(bits)))
        && (relcondbr_word(bits) ==> !(fixed_word(bits) || rd_word(bits) || rdk_word(bits) ||
            rdrr_word(bits) || rda_word(bits) || io_ab_word(bits) || rdz_word(bits) ||
            k16_word(bits) || st_ld_word(bits) || std_ldd_word(bits) || movw_word(bits)))
        && (adiw_word(bits) ==> !(fixed_word(bits) || rd_word(bits) || rdk_word(bits) ||
            rdrr_word(bits) || rda_word(bits) || io_ab_word(bits) || rdz_word(bits) ||
            k16_word(bits) || st_ld_word(bits) || std_ldd_word(bits) || movw_word(bits) ||
            relcondbr_word(bits)))
        && (sbrs_word(bits) ==> !(fixed_word(bits) || rd_word(bits) || rdk_word(bits) ||
            rdrr_word(bits) || rda_word(bits) || io_ab_word(bits) || rdz_word(bits) ||
            k16_word(bits) || st_ld_word(bits) || std_ldd_word(bits) || movw_word(bits) ||
            relcondbr_word(bits) || adiw_word(bits)))
    ) by (bit_vector);
}

/// Every decoded instruction has its operands in the decoder's range, and
/// with that in the range in which the execution engine defines it.
pub proof fn decoded_operands_in_range(word: u16, bits: u32)
    ensures
        decode16(word) matches Some(inst) ==> inst.in_range() && inst.well_formed(),
        decode32(bits) matches Some(inst) ==> inst.in_range() && inst.well_formed(),
{
    let w = word;
    assert((w & 0b0000000111110000) >> 4 < 32 && (w & 0b0000000011110000) >> 4 <= 15 && ((w
        & 0b0000001000000000) >> 5) | (w & 0b0000000000001111) < 32 && (0b111110000 & w) >> 4 < 32
        && ((0b11000000000 & w) >> 5) | (0b1111 & w) < 64 && (w & 0b0000000011111000) >> 3 < 32 && w
        & 0b111 < 8 && (w >> 4) & 0b11111 < 32 && w & 0x0fff <= 4095 && (w & 0x1f0) >> 4 < 32 && ((w
        & 0x2000) >> 7) | ((w & 0x0C00) >> 6) | (w & 0x0007) < 128 && (w & 0b1_1111_0000) >> 4 < 32)
        by (bit_vector);
    assert(((w & 0x00f0) >> 4) << 1 < 32 && (((w & 0x00f0) >> 4) << 1) % 2 == 0 && (w & 0x000f) << 1
        < 32 && ((w & 0x000f) << 1) % 2 == 0 && (0b0000_0011_1111_1000 & w) >> 3 <= 127 && ((w >> 6)
        & 0b11) | (w & 0b1111) < 16 && ((w >> 3) & 0b110 == 0 || (w >> 3) & 0b110 == 2 || (w >> 3)
        & 0b110 == 4 || (w >> 3) & 0b110 == 6) && (w & 0x01f0) >> 4 < 32 && w & 0x7 < 8)
        by (bit_vector);
    assert(((((bits & 0x1f00000) >> 20) | (bits & 0x1ffff)) << 1) % 2 == 0 && (((bits & 0x1f00000)
        >> 20) | (bits & 0x1ffff)) << 1 < 0x4_0000 && (bits >> 20) & 0b11111 < 32) by (bit_vector);
}

/// The first word of a two-word instruction is no instruction by itself, and
/// with any second word it decodes to the instruction that it starts: a jump
/// or a call, or a load or store whose data address is the second word.
pub proof fn wide_pattern_decides(word: u16, third: u8, fourth: u8)
    requires
        wide_first_word(word),
    ensures
        decode16(word) is None,
        decode32(double_word_of(word, third, fourth)) is Some,
        word & 0xFE0E == 0x940C <==> decode32(double_word_of(word, third, fourth))->Some_0 is Jmp,
        word & 0xFE0E == 0x940E <==> decode32(double_word_of(word, third, fourth))->Some_0 is Call,
        word & 0xFE0F == 0x9000 ==> decode32(double_word_of(word, third, fourth)) == Some(
            Instruction::Lds(((word >> 4) & 0b11111) as u8, word_of(third, fourth)),
        ),
        word & 0xFE0F == 0x9200 ==> decode32(double_word_of(word, third, fourth)) == Some(
            Instruction::Sts(((word >> 4) & 0b11111) as u8, word_of(third, fourth)),
        ),
{
    assert(wide_first_word(word) ==> !(fixed_word(word) || rd_word(word) || rdk_word(word)
        || rdrr_word(word) || rda_word(word) || io_ab_word(word) || rdz_word(word) || k16_word(word)
        || st_ld_word(word) || std_ldd_word(word) || movw_word(word) || relcondbr_word(word)
        || adiw_word(word) || sbrs_word(word))) by (bit_vector);
    let bits = (((word as u32) << 16) | ((fourth as u32) << 8)) | (third as u32);
    assert(bits == (((word as u32) << 16) | ((fourth as u32) << 8)) | (third as u32) ==> (bits
        & 0xFE0E0000 == 0x940C0000) == (word & 0xFE0E == 0x940C) && (bits & 0xFE0E0000
        == 0x940E0000) == (word & 0xFE0E == 0x940E) && (bits & 0xFE0F0000 == 0x90000000) == (word
        & 0xFE0F == 0x9000) && (bits & 0xFE0F0000 == 0x92000000) == (word & 0xFE0F == 0x9200)
        && (bits & 0xFFFF) as u16 == ((fourth as u16) << 8) | (third as u16) && ((bits >> 20)
        & 0b11111) as u8 == ((word >> 4) & 0b11111) as u8 && (word & 0xFE0C == 0x940C) == (word
        & 0xFE0E == 0x940C || word & 0xFE0E == 0x940E) && (word & 0xFE0F == 0x9000 || word & 0xFE0F
        == 0x9200 ==> word & 0xFE0C != 0x940C)) by (bit_vector);
}

} // verus!
