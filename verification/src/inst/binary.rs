use vstd::prelude::*;
use crate::error::Error;
use crate::inst::patterns::decoded_operands_in_range;
use crate::inst::{Instruction, Variant};

verus! {

/// The first of two decoding attempts that succeeded.
pub open spec fn first_of(a: Option<Instruction>, b: Option<Instruction>) -> Option<Instruction> {
    if a is Some {
        a
    } else {
        b
    }
}

/// The instructions without operands, each a single fixed word.
pub open spec fn decode_fixed(bits: u16) -> Option<Instruction> {
    if bits == 0 {
        Some(Instruction::Nop)
    } else if bits == 0x9508 {
        Some(Instruction::Ret)
    } else if bits == 0x9518 {
        Some(Instruction::Reti)
    } else if bits == 0x95C8 {
        Some(Instruction::Lpm(0, 30, false))
    } else if bits == 0x9478 {
        Some(Instruction::Sei)
    } else if bits == 0x94F8 {
        Some(Instruction::Cli)
    } else {
        None
    }
}

/// One register: `1001 0ffd dddd ffff`.
pub open spec fn decode_rd(bits: u16) -> Option<Instruction> {
    let rd: u8 = ((bits & 0b0000000111110000) >> 4) as u8;
    if bits & 0xFE0F == 0x9403 {
        Some(Instruction::Inc(rd))
    } else if bits & 0xFE0F == 0x940A {
        Some(Instruction::Dec(rd))
    } else if bits & 0xFE0F == 0x9400 {
        Some(Instruction::Com(rd))
    } else if bits & 0xFE0F == 0x9401 {
        Some(Instruction::Neg(rd))
    } else if bits & 0xFE0F == 0x920F {
        Some(Instruction::Push(rd))
    } else if bits & 0xFE0F == 0x900F {
        Some(Instruction::Pop(rd))
    } else if bits & 0xFE0F == 0x9402 {
        Some(Instruction::Swap(rd))
    } else {
        None
    }
}

/// Register and immediate: `ffff KKKK dddd KKKK`. The register field is
/// biased by 16: these instructions reach `r16` to `r31` only.
pub open spec fn decode_rdk(bits: u16) -> Option<Instruction> {
    let rd: u8 = ((((bits & 0b0000000011110000) >> 4) as u8) + 16) as u8;
    let k: u8 = (((bits & 0b0000111100000000) >> 4) | (bits & 0b0000000000001111)) as u8;
    if bits & 0xF000 == 0x5000 {
        Some(Instruction::Subi(rd, k))
    } else if bits & 0xF000 == 0x4000 {
        Some(Instruction::Sbci(rd, k))
    } else if bits & 0xF000 == 0x7000 {
        Some(Instruction::Andi(rd, k))
    } else if bits & 0xF000 == 0x6000 {
        Some(Instruction::Ori(rd, k))
    } else if bits & 0xF000 == 0x3000 {
        Some(Instruction::Cpi(rd, k))
    } else if bits & 0xF000 == 0xE000 {
        Some(Instruction::Ldi(rd, k))
    } else {
        None
    }
}

/// Two registers: `ffff ffrd dddd rrrr`.
pub open spec fn decode_rdrr(bits: u16) -> Option<Instruction> {
    let rd: u8 = ((bits & 0b0000000111110000) >> 4) as u8;
    let rr: u8 = (((bits & 0b0000001000000000) >> 5) | (bits & 0b0000000000001111)) as u8;
    if bits & 0xFC00 == 0x0C00 {
        Some(Instruction::Add(rd, rr))
    } else if bits & 0xFC00 == 0x1C00 {
        Some(Instruction::Adc(rd, rr))
    } else if bits & 0xFC00 == 0x1800 {
        Some(Instruction::Sub(rd, rr))
    } else if bits & 0xFC00 == 0x0800 {
        Some(Instruction::Sbc(rd, rr))
    } else if bits & 0xFC00 == 0x9C00 {
        Some(Instruction::Mul(rd, rr))
    } else if bits & 0xFC00 == 0x2000 {
        Some(Instruction::And(rd, rr))
    } else if bits & 0xFC00 == 0x2800 {
        Some(Instruction::Or(rd, rr))
    } else if bits & 0xFC00 == 0x2400 {
        Some(Instruction::Eor(rd, rr))
    } else if bits & 0xFC00 == 0x1000 {
        Some(Instruction::Cpse(rd, rr))
    } else if bits & 0xFC00 == 0x1400 {
        Some(Instruction::Cp(rd, rr))
    } else if bits & 0xFC00 == 0x0400 {
        Some(Instruction::Cpc(rd, rr))
    } else if bits & 0xFC00 == 0x2C00 {
        Some(Instruction::Mov(rd, rr))
    } else {
        None
    }
}

/// `in` is `1011 0AAd dddd AAAA`, `out` is `1011 1AAr rrrr AAAA`.
pub open spec fn decode_rda(bits: u16) -> Option<Instruction> {
    let reg: u8 = ((0b111110000 & bits) >> 4) as u8;
    let a: u8 = (((0b11000000000 & bits) >> 5) | (0b1111 & bits)) as u8;
    if bits & 0xF800 == 0xB000 {
        Some(Instruction::In(reg, a))
    } else if bits & 0xF800 == 0xB800 {
        Some(Instruction::Out(a, reg))
    } else {
        None
    }
}

/// I/O bit instructions: `cbi` is `1001 1000 AAAA Abbb`, `sbi` is
/// `1001 1010 AAAA Abbb`, `sbis` is `1001 1011 AAAA Abbb`.
pub open spec fn decode_io_ab(bits: u16) -> Option<Instruction> {
    let a: u8 = ((bits & 0b0000000011111000) >> 3) as u8;
    let b: u8 = (bits & 0b111) as u8;
    if bits & 0xFF00 == 0x9A00 {
        Some(Instruction::Sbi(a, b))
    } else if bits & 0xFF00 == 0x9B00 {
        Some(Instruction::Sbis(a, b))
    } else if bits & 0xFF00 == 0x9800 {
        Some(Instruction::Cbi(a, b))
    } else {
        None
    }
}

/// `lpm` with a destination: `1001 000d dddd 010f`, where `f` is the
/// post-increment bit.
pub open spec fn decode_rdz(bits: u16) -> Option<Instruction> {
    let register: u8 = ((bits >> 4) & 0b11111) as u8;
    if bits & 0xFE0F == 0x9004 {
        Some(Instruction::Lpm(register, 30, false))
    } else if bits & 0xFE0F == 0x9005 {
        Some(Instruction::Lpm(register, 30, true))
    } else {
        None
    }
}

/// Relative jump and call: `110f kkkk kkkk kkkk`, a signed 12-bit word
/// offset, held in the instruction as a byte offset.
pub open spec fn decode_k16(bits: u16) -> Option<Instruction> {
    let field: u16 = bits & 0x0fff;
    let k: i16 = if field >= 2048 {
        ((field as i32) * 2 - 8192) as i16
    } else {
        ((field as i32) * 2) as i16
    };
    if bits & 0xF000 == 0xC000 {
        Some(Instruction::Rjmp(k))
    } else if bits & 0xF000 == 0xD000 {
        Some(Instruction::Rcall(k))
    } else {
        None
    }
}

/// Indirect `st` (`1001 001r rrrr mmmm`) and `ld` (`1001 000d dddd mmmm`)
/// through `X`, `Y` or `Z`, where `mmmm` selects the pair and whether it is
/// post-incremented or pre-decremented; the plain forms through `Y` and `Z`
/// are `1000 00fr rrrr p000`.
pub open spec fn decode_st_ld(bits: u16) -> Option<Instruction> {
    let reg: u8 = ((bits & 0x1f0) >> 4) as u8;
    if bits & 0xFE0F == 0x920C {
        Some(Instruction::St(26, reg, Variant::Normal))
    } else if bits & 0xFE0F == 0x920D {
        Some(Instruction::St(26, reg, Variant::Postincrement))
    } else if bits & 0xFE0F == 0x920E {
        Some(Instruction::St(26, reg, Variant::Predecrement))
    } else if bits & 0xFE0F == 0x8208 {
        Some(Instruction::St(28, reg, Variant::Normal))
    } else if bits & 0xFE0F == 0x9209 {
        Some(Instruction::St(28, reg, Variant::Postincrement))
    } else if bits & 0xFE0F == 0x920A {
        Some(Instruction::St(28, reg, Variant::Predecrement))
    } else if bits & 0xFE0F == 0x8200 {
        Some(Instruction::St(30, reg, Variant::Normal))
    } else if bits & 0xFE0F == 0x9201 {
        Some(Instruction::St(30, reg, Variant::Postincrement))
    } else if bits & 0xFE0F == 0x9202 {
        Some(Instruction::St(30, reg, Variant::Predecrement))
    } else if bits & 0xFE0F == 0x900C {
        Some(Instruction::Ld(reg, 26, Variant::Normal))
    } else if bits & 0xFE0F == 0x900D {
        Some(Instruction::Ld(reg, 26, Variant::Postincrement))
    } else if bits & 0xFE0F == 0x900E {
        Some(Instruction::Ld(reg, 26, Variant::Predecrement))
    } else if bits & 0xFE0F == 0x8008 {
        Some(Instruction::Ld(reg, 28, Variant::Normal))
    } else if bits & 0xFE0F == 0x9009 {
        Some(Instruction::Ld(reg, 28, Variant::Postincrement))
    } else if bits & 0xFE0F == 0x900A {
        Some(Instruction::Ld(reg, 28, Variant::Predecrement))
    } else if bits & 0xFE0F == 0x8000 {
        Some(Instruction::Ld(reg, 30, Variant::Normal))
    } else if bits & 0xFE0F == 0x9001 {
        Some(Instruction::Ld(reg, 30, Variant::Postincrement))
    } else if bits & 0xFE0F == 0x9002 {
        Some(Instruction::Ld(reg, 30, Variant::Predecrement))
    } else {
        None
    }
}

/// `ldd` and `std` with displacement: `10q0 qqfr rrrr pqqq`, where `f`
/// selects `std` and `p` selects `Y` over `Z`.
pub open spec fn decode_std_ldd(bits: u16) -> Option<Instruction> {
    let q: u16 = (((bits & 0x2000) >> 7) | ((bits & 0x0C00) >> 6)) | (bits & 0x0007);
    let reg: u8 = ((bits & 0b1_1111_0000) >> 4) as u8;
    let imm: u8 = q as u8;
    let ptrreg: u8 = if bits & 0b1000 == 0 {
        30
    } else {
        28
    };
    if bits & 0xD200 == 0x8000 {
        Some(Instruction::Ldd(reg, ptrreg, imm))
    } else if bits & 0xD200 == 0x8200 {
        Some(Instruction::Std(ptrreg, imm, reg))
    } else {
        None
    }
}

/// `movw`: `0000 0001 dddd rrrr`, each field a pair number, half the
/// register number.
pub open spec fn decode_movw(bits: u16) -> Option<Instruction> {
    let rd: u16 = ((bits & 0x00f0) >> 4) << 1;
    let rr: u16 = (bits & 0x000f) << 1;
    if bits & 0xFF00 == 0x0100 {
        Some(Instruction::Movw(rd as u8, rr as u8))
    } else {
        None
    }
}

/// Conditional relative branches: `1111 0fkk kkkk ksss`, where `sss` numbers
/// the status bit and `f` asks for it clear; `k` is a signed 7-bit word
/// offset, held in the instruction as a byte offset.
pub open spec fn decode_relcondbr(bits: u16) -> Option<Instruction> {
    let field: u16 = (0b0000_0011_1111_1000 & bits) >> 3;
    let k: i8 = if field >= 64 {
        ((field as i16) * 2 - 256) as i8
    } else {
        ((field as i16) * 2) as i8
    };
    if bits & 0xFC07 == 0xF401 {
        Some(Instruction::Brne(k))
    } else if bits & 0xFC07 == 0xF001 {
        Some(Instruction::Breq(k))
    } else if bits & 0xFC07 == 0xF000 {
        Some(Instruction::Brcs(k))
    } else if bits & 0xFC07 == 0xF400 {
        Some(Instruction::Brcc(k))
    } else if bits & 0xFC07 == 0xF404 {
        Some(Instruction::Brge(k))
    } else if bits & 0xFC07 == 0xF005 {
        Some(Instruction::Brhs(k))
    } else if bits & 0xFC07 == 0xF405 {
        Some(Instruction::Brhc(k))
    } else if bits & 0xFC07 == 0xF007 {
        Some(Instruction::Brie(k))
    } else if bits & 0xFC07 == 0xF407 {
        Some(Instruction::Brid(k))
    } else if bits & 0xFC07 == 0xF004 {
        Some(Instruction::Brlt(k))
    } else if bits & 0xFC07 == 0xF002 {
        Some(Instruction::Brmi(k))
    } else if bits & 0xFC07 == 0xF402 {
        Some(Instruction::Brpl(k))
    } else if bits & 0xFC07 == 0xF006 {
        Some(Instruction::Brts(k))
    } else if bits & 0xFC07 == 0xF406 {
        Some(Instruction::Brtc(k))
    } else if bits & 0xFC07 == 0xF003 {
        Some(Instruction::Brvs(k))
    } else if bits & 0xFC07 == 0xF403 {
        Some(Instruction::Brvc(k))
    } else {
        None
    }
}

/// Word adjust: `adiw` is `1001 0110 KKdd KKKK`, `sbiw` is
/// `1001 0111 KKdd KKKK`; the pair is one of `r24`, `r26`, `r28`, `r30`.
pub open spec fn decode_adiw(bits: u16) -> Option<Instruction> {
    let k: u8 = (((bits >> 6) & 0b11) | (bits & 0b1111)) as u8;
    let d: u8 = ((((bits >> 3) & 0b110) as u8) + 24) as u8;
    if bits & 0xFF00 == 0x9600 {
        Some(Instruction::Adiw(d, k))
    } else if bits & 0xFF00 == 0x9700 {
        Some(Instruction::Sbiw(d, k))
    } else {
        None
    }
}

/// `sbrs`: `1111 111r rrrr 0bbb`.
pub open spec fn decode_sbrs(bits: u16) -> Option<Instruction> {
    let r: u8 = ((bits & 0x01f0) >> 4) as u8;
    let b: u8 = (bits & 0x7) as u8;
    if bits & 0xFE08 == 0xFE00 {
        Some(Instruction::Sbrs(r, b))
    } else {
        None
    }
}

/// Absolute jump and call: `1001 010k kkkk 11fk kkkk kkkk kkkk kkkk`, a word
/// address in two bit groups, held in the instruction as a byte address.
pub open spec fn decode_k32(bits: u32) -> Option<Instruction> {
    let k: u32 = (((bits & 0x1f00000) >> 20) | (bits & 0x1ffff)) << 1;
    if bits & 0xFE0E0000 == 0x940C0000 {
        Some(Instruction::Jmp(k))
    } else if bits & 0xFE0E0000 == 0x940E0000 {
        Some(Instruction::Call(k))
    } else {
        None
    }
}

/// `lds` is `1001 000d dddd 0000` and `sts` is `1001 001r rrrr 0000`, each
/// followed by a word that is the data address.
pub open spec fn decode_lds_sts(bits: u32) -> Option<Instruction> {
    let immediate: u16 = (bits & 0xFFFF) as u16;
    let register: u8 = ((bits >> 20) & 0b11111) as u8;
    if bits & 0xFE0F0000 == 0x90000000 {
        Some(Instruction::Lds(register, immediate))
    } else if bits & 0xFE0F0000 == 0x92000000 {
        Some(Instruction::Sts(register, immediate))
    } else {
        None
    }
}

/// The instruction that a single 16-bit word encodes, if any. The families
/// are tried in a fixed order and the first that matches wins.
pub open spec fn decode16(bits: u16) -> Option<Instruction> {
    first_of(
        decode_fixed(bits),
        first_of(
            decode_rd(bits),
            first_of(
                decode_rdk(bits),
                first_of(
                    decode_rdrr(bits),
                    first_of(
                        decode_rda(bits),
                        first_of(
                            decode_io_ab(bits),
                            first_of(
                                decode_rdz(bits),
                                first_of(
                                    decode_k16(bits),
                                    first_of(
                                        decode_st_ld(bits),
                                        first_of(
                                            decode_std_ldd(bits),
                                            first_of(
                                                decode_movw(bits),
                                                first_of(
                                                    decode_relcondbr(bits),
                                                    first_of(decode_adiw(bits), decode_sbrs(bits)),
                                                ),
                                            ),
                                        ),
                                    ),
                                ),
                            ),
                        ),
                    ),
                ),
            ),
        ),
    )
}

/// The instruction that a pair of 16-bit words encodes, if any; the first
/// word is the upper half of `bits`.
pub open spec fn decode32(bits: u32) -> Option<Instruction> {
    first_of(decode_k32(bits), decode_lds_sts(bits))
}

/// The 16-bit word whose low byte comes first in the stream.
pub open spec fn word_of(first: u8, second: u8) -> u16 {
    ((second as u16) << 8) | (first as u16)
}

/// The 32-bit pattern of a first word and the two stream bytes after it.
pub open spec fn double_word_of(word: u16, third: u8, fourth: u8) -> u32 {
    (((word as u32) << 16) | ((fourth as u32) << 8)) | (third as u32)
}

/// The result of decoding the instruction that starts at index `at` of
/// `bytes`: the instruction, `UnknownInstruction` with the 32-bit pattern
/// when no encoding matches, or `SegmentationFault` with the index of the
/// first byte that is needed and missing.
pub open spec fn decode_at(bytes: Seq<u8>, at: usize) -> Result<Instruction, Error> {
    if at + 1 >= bytes.len() {
        Err(Error::SegmentationFault { address: missing(bytes, at, 0) })
    } else {
        let word = word_of(bytes[at as int], bytes[at + 1]);
        if decode16(word) is Some {
            Ok(decode16(word)->Some_0)
        } else if at + 3 >= bytes.len() {
            Err(Error::SegmentationFault { address: missing(bytes, at, 2) })
        } else {
            let bits = double_word_of(word, bytes[at + 2], bytes[at + 3]);
            if decode32(bits) is Some {
                Ok(decode32(bits)->Some_0)
            } else {
                Err(Error::UnknownInstruction(bits))
            }
        }
    }
}

/// The index of the first missing byte of the two at `at + k` and `at + k + 1`.
pub open spec fn missing(bytes: Seq<u8>, at: usize, k: int) -> usize {
    if at + k >= bytes.len() {
        (at + k) as usize
    } else {
        (at + k + 1) as usize
    }
}

/// Reads an instruction without operands.
fn try_read_fixed(bits: u16) -> (r: Option<Instruction>)
    ensures
        r == decode_fixed(bits),
{
    if bits == 0 {
        Some(Instruction::Nop)
    } else if bits == 0x9508 {
        Some(Instruction::Ret)
    } else if bits == 0x9518 {
        Some(Instruction::Reti)
    } else if bits == 0x95C8 {
        Some(Instruction::Lpm(0, 30, false))
    } else if bits == 0x9478 {
        Some(Instruction::Sei)
    } else if bits == 0x94F8 {
        Some(Instruction::Cli)
    } else {
        None
    }
}

/// Reads an instruction of the one-register family.
fn try_read_rd(bits: u16) -> (r: Option<Instruction>)
    ensures
        r == decode_rd(bits),
{
    let opcode: u16 = ((bits & 0b1111111000000000) >> 5) | (bits & 0b0000000000001111);
    proof {
        assert((((((bits & 0b1111111000000000) >> 5) | (bits & 0b0000000000001111)) ==
            0b10010100011) == (bits & 0xFE0F == 0x9403)) && (((((bits & 0b1111111000000000) >>
            5) | (bits & 0b0000000000001111)) == 0b10010101010) == (bits & 0xFE0F == 0x940A)) &&
            (((((bits & 0b1111111000000000) >> 5) | (bits & 0b0000000000001111)) ==
            0b10010100000) == (bits & 0xFE0F == 0x9400)) && (((((bits & 0b1111111000000000) >>
            5) | (bits & 0b0000000000001111)) == 0b10010100001) == (bits & 0xFE0F == 0x9401)) &&
            (((((bits & 0b1111111000000000) >> 5) | (bits & 0b0000000000001111)) ==
            0b10010011111) == (bits & 0xFE0F == 0x920F)) && (((((bits & 0b1111111000000000) >>
            5) | (bits & 0b0000000000001111)) == 0b10010001111) == (bits & 0xFE0F == 0x900F)) &&
            (((((bits & 0b1111111000000000) >> 5) | (bits & 0b0000000000001111)) ==
            0b10010100010) == (bits & 0xFE0F == 0x9402))) by (bit_vector);
    }
    let rd: u8 = ((bits & 0b0000000111110000) >> 4) as u8;
    if opcode == 0b10010100011 {
        Some(Instruction::Inc(rd))
    } else if opcode == 0b10010101010 {
        Some(Instruction::Dec(rd))
    } else if opcode == 0b10010100000 {
        Some(Instruction::Com(rd))
    } else if opcode == 0b10010100001 {
        Some(Instruction::Neg(rd))
    } else if opcode == 0b10010011111 {
        Some(Instruction::Push(rd))
    } else if opcode == 0b10010001111 {
        Some(Instruction::Pop(rd))
    } else if opcode == 0b10010100010 {
        Some(Instruction::Swap(rd))
    } else {
        None
    }
}

/// Reads an instruction of the register-and-immediate family.
fn try_read_rdk(bits: u16) -> (r: Option<Instruction>)
    ensures
        r == decode_rdk(bits),
{
    let opcode: u16 = (bits & 0b1111000000000000) >> 12;
    proof {
        assert(((((bits & 0b1111000000000000) >> 12) == 0b0101) == (bits & 0xF000 == 0x5000)) &&
            ((((bits & 0b1111000000000000) >> 12) == 0b0100) == (bits & 0xF000 == 0x4000)) &&
            ((((bits & 0b1111000000000000) >> 12) == 0b0111) == (bits & 0xF000 == 0x7000)) &&
            ((((bits & 0b1111000000000000) >> 12) == 0b0110) == (bits & 0xF000 == 0x6000)) &&
            ((((bits & 0b1111000000000000) >> 12) == 0b0011) == (bits & 0xF000 == 0x3000)) &&
            ((((bits & 0b1111000000000000) >> 12) == 0b1110) == (bits & 0xF000 == 0xE000)) &&
            ((bits & 0b0000000011110000) >> 4 <= 15)) by (bit_vector);
    }
    let rd: u8 = ((((bits & 0b0000000011110000) >> 4) as u8) + 16) as u8;
    let k: u8 = (((bits & 0b0000111100000000) >> 4) | (bits & 0b0000000000001111)) as u8;
    if opcode == 0b0101 {
        Some(Instruction::Subi(rd, k))
    } else if opcode == 0b0100 {
        Some(Instruction::Sbci(rd, k))
    } else if opcode == 0b0111 {
        Some(Instruction::Andi(rd, k))
    } else if opcode == 0b0110 {
        Some(Instruction::Ori(rd, k))
    } else if opcode == 0b0011 {
        Some(Instruction::Cpi(rd, k))
    } else if opcode == 0b1110 {
        Some(Instruction::Ldi(rd, k))
    } else {
        None
    }
}

/// Reads an instruction of the two-register family.
fn try_read_rdrr(bits: u16) -> (r: Option<Instruction>)
    ensures
        r == decode_rdrr(bits),
{
    let opcode: u16 = (bits & 0b1111110000000000) >> 10;
    proof {
        assert(((((bits & 0b1111110000000000) >> 10) == 0b000011) == (bits & 0xFC00 == 0x0C00))
            && ((((bits & 0b1111110000000000) >> 10) == 0b000111) == (bits & 0xFC00 == 0x1C00))
            && ((((bits & 0b1111110000000000) >> 10) == 0b000110) == (bits & 0xFC00 == 0x1800))
            && ((((bits & 0b1111110000000000) >> 10) == 0b000010) == (bits & 0xFC00 == 0x0800))
            && ((((bits & 0b1111110000000000) >> 10) == 0b100111) == (bits & 0xFC00 == 0x9C00))
            && ((((bits & 0b1111110000000000) >> 10) == 0b001000) == (bits & 0xFC00 == 0x2000))
            && ((((bits & 0b1111110000000000) >> 10) == 0b001010) == (bits & 0xFC00 == 0x2800))
            && ((((bits & 0b1111110000000000) >> 10) == 0b001001) == (bits & 0xFC00 == 0x2400))
            && ((((bits & 0b1111110000000000) >> 10) == 0b000100) == (bits & 0xFC00 == 0x1000))
            && ((((bits & 0b1111110000000000) >> 10) == 0b000101) == (bits & 0xFC00 == 0x1400))
            && ((((bits & 0b1111110000000000) >> 10) == 0b000001) == (bits & 0xFC00 == 0x0400))
            && ((((bits & 0b1111110000000000) >> 10) == 0b001011) == (bits & 0xFC00 == 0x2C00)))
            by (bit_vector);
    }
    let rd: u8 = ((bits & 0b0000000111110000) >> 4) as u8;
    let rr: u8 = (((bits & 0b0000001000000000) >> 5) | (bits & 0b0000000000001111)) as u8;
    if opcode == 0b000011 {
        Some(Instruction::Add(rd, rr))
    } else if opcode == 0b000111 {
        Some(Instruction::Adc(rd, rr))
    } else if opcode == 0b000110 {
        Some(Instruction::Sub(rd, rr))
    } else if opcode == 0b000010 {
        Some(Instruction::Sbc(rd, rr))
    } else if opcode == 0b100111 {
        Some(Instruction::Mul(rd, rr))
    } else if opcode == 0b001000 {
        Some(Instruction::And(rd, rr))
    } else if opcode == 0b001010 {
        Some(Instruction::Or(rd, rr))
    } else if opcode == 0b001001 {
        Some(Instruction::Eor(rd, rr))
    } else if opcode == 0b000100 {
        Some(Instruction::Cpse(rd, rr))
    } else if opcode == 0b000101 {
        Some(Instruction::Cp(rd, rr))
    } else if opcode == 0b000001 {
        Some(Instruction::Cpc(rd, rr))
    } else if opcode == 0b001011 {
        Some(Instruction::Mov(rd, rr))
    } else {
        None
    }
}

/// Reads `in` or `out`.
fn try_read_rda(bits: u16) -> (r: Option<Instruction>)
    ensures
        r == decode_rda(bits),
{
    let opcode: u16 = (bits & 0xf000) >> 12;
    let subopcode: u16 = (bits & 0b100000000000) >> 11;
    proof {
        assert((((bits & 0xf000) >> 12 == 0b1011 && (bits & 0b100000000000) >> 11 == 0) == (bits
            & 0xF800 == 0xB000)) && (((bits & 0xf000) >> 12 == 0b1011 && (bits & 0b100000000000)
            >> 11 == 1) == (bits & 0xF800 == 0xB800))) by (bit_vector);
    }
    let reg: u8 = ((0b111110000 & bits) >> 4) as u8;
    let a: u8 = (((0b11000000000 & bits) >> 5) | (0b1111 & bits)) as u8;
    if opcode == 0b1011 && subopcode == 0 {
        Some(Instruction::In(reg, a))
    } else if opcode == 0b1011 && subopcode == 1 {
        Some(Instruction::Out(a, reg))
    } else {
        None
    }
}

/// Reads `sbi`, `sbis` or `cbi`.
fn try_read_io_ab(bits: u16) -> (r: Option<Instruction>)
    ensures
        r == decode_io_ab(bits),
{
    let opcode: u16 = (bits & 0xff00) >> 8;
    proof {
        assert(((((bits & 0xff00) >> 8) == 0b10011010) == (bits & 0xFF00 == 0x9A00)) && ((((bits
            & 0xff00) >> 8) == 0b10011011) == (bits & 0xFF00 == 0x9B00)) && ((((bits & 0xff00)
            >> 8) == 0b10011000) == (bits & 0xFF00 == 0x9800))) by (bit_vector);
    }
    let a: u8 = ((bits & 0b0000000011111000) >> 3) as u8;
    let b: u8 = (bits & 0b111) as u8;
    if opcode == 0b10011010 {
        Some(Instruction::Sbi(a, b))
    } else if opcode == 0b10011011 {
        Some(Instruction::Sbis(a, b))
    } else if opcode == 0b10011000 {
        Some(Instruction::Cbi(a, b))
    } else {
        None
    }
}

/// Reads `lpm` with a destination.
fn try_read_rdz(bits: u16) -> (r: Option<Instruction>)
    ensures
        r == decode_rdz(bits),
{
    let opcode: u16 = ((bits >> 5) & 0b11111110000) | (bits & 0b1111);
    proof {
        assert((((((bits >> 5) & 0b11111110000) | (bits & 0b1111)) == 0b10010000100) == (bits &
            0xFE0F == 0x9004)) && (((((bits >> 5) & 0b11111110000) | (bits & 0b1111)) ==
            0b10010000101) == (bits & 0xFE0F == 0x9005))) by (bit_vector);
    }
    let register: u8 = ((bits >> 4) & 0b11111) as u8;
    if opcode == 0b10010000100 {
        Some(Instruction::Lpm(register, 30, false))
    } else if opcode == 0b10010000101 {
        Some(Instruction::Lpm(register, 30, true))
    } else {
        None
    }
}

/// Reads `rjmp` or `rcall`.
fn try_read_k16(bits: u16) -> (r: Option<Instruction>)
    ensures
        r == decode_k16(bits),
{
    let opcode: u16 = (bits & 0xf000) >> 12;
    proof {
        assert(((((bits & 0xf000) >> 12) == 0b1100) == (bits & 0xF000 == 0xC000)) && ((((bits &
            0xf000) >> 12) == 0b1101) == (bits & 0xF000 == 0xD000)) && (bits & 0x0fff <= 4095))
            by (bit_vector);
    }
    let field: u16 = bits & 0x0fff;
    let k: i16 = if field >= 2048 {
        ((field as i32) * 2 - 8192) as i16
    } else {
        ((field as i32) * 2) as i16
    };
    if opcode == 0b1100 {
        Some(Instruction::Rjmp(k))
    } else if opcode == 0b1101 {
        Some(Instruction::Rcall(k))
    } else {
        None
    }
}

/// Reads an indirect `st` or `ld`.
fn try_read_st_ld(bits: u16) -> (r: Option<Instruction>)
    ensures
        r == decode_st_ld(bits),
{
    let opcode: u16 = (bits & 0b1111111000000000) >> 9;
    let subop: u16 = bits & 0xf;
    proof {
        assert((((bits & 0b1111111000000000) >> 9 == 0b1001001 && bits & 0xf == 0b1100) == (bits
            & 0xFE0F == 0x920C)) && (((bits & 0b1111111000000000) >> 9 == 0b1001001 && bits &
            0xf == 0b1101) == (bits & 0xFE0F == 0x920D)) && (((bits & 0b1111111000000000) >> 9
            == 0b1001001 && bits & 0xf == 0b1110) == (bits & 0xFE0F == 0x920E)) && (((bits &
            0b1111111000000000) >> 9 == 0b1000001 && bits & 0xf == 0b1000) == (bits & 0xFE0F ==
            0x8208)) && (((bits & 0b1111111000000000) >> 9 == 0b1001001 && bits & 0xf == 0b1001)
            == (bits & 0xFE0F == 0x9209)) && (((bits & 0b1111111000000000) >> 9 == 0b1001001 &&
            bits & 0xf == 0b1010) == (bits & 0xFE0F == 0x920A)) && (((bits & 0b1111111000000000)
            >> 9 == 0b1000001 && bits & 0xf == 0b0000) == (bits & 0xFE0F == 0x8200)) && (((bits
            & 0b1111111000000000) >> 9 == 0b1001001 && bits & 0xf == 0b0001) == (bits & 0xFE0F
            == 0x9201)) && (((bits & 0b1111111000000000) >> 9 == 0b1001001 && bits & 0xf ==
            0b0010) == (bits & 0xFE0F == 0x9202)) && (((bits & 0b1111111000000000) >> 9 ==
            0b1001000 && bits & 0xf == 0b1100) == (bits & 0xFE0F == 0x900C)) && (((bits &
            0b1111111000000000) >> 9 == 0b1001000 && bits & 0xf == 0b1101) == (bits & 0xFE0F ==
            0x900D)) && (((bits & 0b1111111000000000) >> 9 == 0b1001000 && bits & 0xf == 0b1110)
            == (bits & 0xFE0F == 0x900E)) && (((bits & 0b1111111000000000) >> 9 == 0b1000000 &&
            bits & 0xf == 0b1000) == (bits & 0xFE0F == 0x8008)) && (((bits & 0b1111111000000000)
            >> 9 == 0b1001000 && bits & 0xf == 0b1001) == (bits & 0xFE0F == 0x9009)) && (((bits
            & 0b1111111000000000) >> 9 == 0b1001000 && bits & 0xf == 0b1010) == (bits & 0xFE0F
            == 0x900A)) && (((bits & 0b1111111000000000) >> 9 == 0b1000000 && bits & 0xf ==
            0b0000) == (bits & 0xFE0F == 0x8000)) && (((bits & 0b1111111000000000) >> 9 ==
            0b1001000 && bits & 0xf == 0b0001) == (bits & 0xFE0F == 0x9001)) && (((bits &
            0b1111111000000000) >> 9 == 0b1001000 && bits & 0xf == 0b0010) == (bits & 0xFE0F ==
            0x9002))) by (bit_vector);
    }
    let reg: u8 = ((bits & 0x1f0) >> 4) as u8;
    if opcode == 0b1001001 && subop == 0b1100 {
        Some(Instruction::St(26, reg, Variant::Normal))
    } else if opcode == 0b1001001 && subop == 0b1101 {
        Some(Instruction::St(26, reg, Variant::Postincrement))
    } else if opcode == 0b1001001 && subop == 0b1110 {
        Some(Instruction::St(26, reg, Variant::Predecrement))
    } else if opcode == 0b1000001 && subop == 0b1000 {
        Some(Instruction::St(28, reg, Variant::Normal))
    } else if opcode == 0b1001001 && subop == 0b1001 {
        Some(Instruction::St(28, reg, Variant::Postincrement))
    } else if opcode == 0b1001001 && subop == 0b1010 {
        Some(Instruction::St(28, reg, Variant::Predecrement))
    } else if opcode == 0b1000001 && subop == 0b0000 {
        Some(Instruction::St(30, reg, Variant::Normal))
    } else if opcode == 0b1001001 && subop == 0b0001 {
        Some(Instruction::St(30, reg, Variant::Postincrement))
    } else if opcode == 0b1001001 && subop == 0b0010 {
        Some(Instruction::St(30, reg, Variant::Predecrement))
    } else if opcode == 0b1001000 && subop == 0b1100 {
        Some(Instruction::Ld(reg, 26, Variant::Normal))
    } else if opcode == 0b1001000 && subop == 0b1101 {
        Some(Instruction::Ld(reg, 26, Variant::Postincrement))
    } else if opcode == 0b1001000 && subop == 0b1110 {
        Some(Instruction::Ld(reg, 26, Variant::Predecrement))
    } else if opcode == 0b1000000 && subop == 0b1000 {
        Some(Instruction::Ld(reg, 28, Variant::Normal))
    } else if opcode == 0b1001000 && subop == 0b1001 {
        Some(Instruction::Ld(reg, 28, Variant::Postincrement))
    } else if opcode == 0b1001000 && subop == 0b1010 {
        Some(Instruction::Ld(reg, 28, Variant::Predecrement))
    } else if opcode == 0b1000000 && subop == 0b0000 {
        Some(Instruction::Ld(reg, 30, Variant::Normal))
    } else if opcode == 0b1001000 && subop == 0b0001 {
        Some(Instruction::Ld(reg, 30, Variant::Postincrement))
    } else if opcode == 0b1001000 && subop == 0b0010 {
        Some(Instruction::Ld(reg, 30, Variant::Predecrement))
    } else {
        None
    }
}

/// Reads `std` or `ldd`.
fn try_read_std_ldd(bits: u16) -> (r: Option<Instruction>)
    ensures
        r == decode_std_ldd(bits),
{
    let opcode: u16 = (bits & 0b1101_0000_0000_0000) >> 12;
    let f: u16 = (bits & 0b0000_0010_0000_0000) >> 9;
    proof {
        assert((((bits & 0b1101_0000_0000_0000) >> 12 == 0b1000 && (bits &
            0b0000_0010_0000_0000) >> 9 == 0) == (bits & 0xD200 == 0x8000)) && (((bits &
            0b1101_0000_0000_0000) >> 12 == 0b1000 && (bits & 0b0000_0010_0000_0000) >> 9 == 1)
            == (bits & 0xD200 == 0x8200))) by (bit_vector);
    }
    let q: u16 = (((bits & 0x2000) >> 7) | ((bits & 0x0C00) >> 6)) | (bits & 0x0007);
    let reg: u8 = ((bits & 0b1_1111_0000) >> 4) as u8;
    let imm: u8 = q as u8;
    let ptrreg: u8 = if bits & 0b1000 == 0 {
        30
    } else {
        28
    };
    if opcode == 0b1000 && f == 0 {
        Some(Instruction::Ldd(reg, ptrreg, imm))
    } else if opcode == 0b1000 && f == 1 {
        Some(Instruction::Std(ptrreg, imm, reg))
    } else {
        None
    }
}

/// Reads `movw`.
fn try_read_movw(bits: u16) -> (r: Option<Instruction>)
    ensures
        r == decode_movw(bits),
{
    let opcode: u16 = (bits & 0xff00) >> 8;
    proof {
        assert((((bits & 0xff00) >> 8 == 0b00000001) == (bits & 0xFF00 == 0x0100))) by (bit_vector);
    }
    let rd: u16 = ((bits & 0x00f0) >> 4) << 1;
    let rr: u16 = (bits & 0x000f) << 1;
    if opcode == 0b00000001 {
        Some(Instruction::Movw(rd as u8, rr as u8))
    } else {
        None
    }
}

/// Reads a conditional relative branch.
fn try_read_relcondbr(bits: u16) -> (r: Option<Instruction>)
    ensures
        r == decode_relcondbr(bits),
{
    proof {
        assert(((0b0000_0011_1111_1000 & bits) >> 3 <= 127)) by (bit_vector);
    }
    let field: u16 = (0b0000_0011_1111_1000 & bits) >> 3;
    let k: i8 = if field >= 64 {
        ((field as i16) * 2 - 256) as i8
    } else {
        ((field as i16) * 2) as i8
    };
    if bits & 0xFC07 == 0xF401 {
        Some(Instruction::Brne(k))
    } else if bits & 0xFC07 == 0xF001 {
        Some(Instruction::Breq(k))
    } else if bits & 0xFC07 == 0xF000 {
        Some(Instruction::Brcs(k))
    } else if bits & 0xFC07 == 0xF400 {
        Some(Instruction::Brcc(k))
    } else if bits & 0xFC07 == 0xF404 {
        Some(Instruction::Brge(k))
    } else if bits & 0xFC07 == 0xF005 {
        Some(Instruction::Brhs(k))
    } else if bits & 0xFC07 == 0xF405 {
        Some(Instruction::Brhc(k))
    } else if bits & 0xFC07 == 0xF007 {
        Some(Instruction::Brie(k))
    } else if bits & 0xFC07 == 0xF407 {
        Some(Instruction::Brid(k))
    } else if bits & 0xFC07 == 0xF004 {
        Some(Instruction::Brlt(k))
    } else if bits & 0xFC07 == 0xF002 {
        Some(Instruction::Brmi(k))
    } else if bits & 0xFC07 == 0xF402 {
        Some(Instruction::Brpl(k))
    } else if bits & 0xFC07 == 0xF006 {
        Some(Instruction::Brts(k))
    } else if bits & 0xFC07 == 0xF406 {
        Some(Instruction::Brtc(k))
    } else if bits & 0xFC07 == 0xF003 {
        Some(Instruction::Brvs(k))
    } else if bits & 0xFC07 == 0xF403 {
        Some(Instruction::Brvc(k))
    } else {
        None
    }
}

/// Reads `adiw` or `sbiw`.
fn try_read_adiw(bits: u16) -> (r: Option<Instruction>)
    ensures
        r == decode_adiw(bits),
{
    let opcode: u16 = bits >> 8;
    proof {
        assert((((bits >> 8) == 0b1001_0110) == (bits & 0xFF00 == 0x9600)) && (((bits >> 8) ==
            0b1001_0111) == (bits & 0xFF00 == 0x9700)) && ((bits >> 3) & 0b110 <= 6))
            by (bit_vector);
    }
    let k: u8 = (((bits >> 6) & 0b11) | (bits & 0b1111)) as u8;
    let d: u8 = ((((bits >> 3) & 0b110) as u8) + 24) as u8;
    if opcode == 0b1001_0110 {
        Some(Instruction::Adiw(d, k))
    } else if opcode == 0b1001_0111 {
        Some(Instruction::Sbiw(d, k))
    } else {
        None
    }
}

/// Reads `sbrs`.
fn try_read_sbrs(bits: u16) -> (r: Option<Instruction>)
    ensures
        r == decode_sbrs(bits),
{
    let opcode: u16 = ((bits & 0xfe00) >> 8) | ((bits & 0x8) >> 3);
    proof {
        assert((((((bits & 0xfe00) >> 8) | ((bits & 0x8) >> 3)) == 0b11111110) == (bits & 0xFE08
            == 0xFE00))) by (bit_vector);
    }
    let r: u8 = ((bits & 0x01f0) >> 4) as u8;
    let b: u8 = (bits & 0x7) as u8;
    if opcode == 0b11111110 {
        Some(Instruction::Sbrs(r, b))
    } else {
        None
    }
}

/// Reads `jmp` or `call`.
fn try_read_k32(bits: u32) -> (r: Option<Instruction>)
    ensures
        r == decode_k32(bits),
{
    let opcode: u32 = (bits & 0xfe000000) >> 25;
    let subopcode: u32 = (bits & 0xe0000) >> 17;
    proof {
        assert((((bits & 0xfe000000) >> 25 == 0b1001010 && (bits & 0xe0000) >> 17 == 0b110) ==
            (bits & 0xFE0E0000 == 0x940C0000)) && (((bits & 0xfe000000) >> 25 == 0b1001010 &&
            (bits & 0xe0000) >> 17 == 0b111) == (bits & 0xFE0E0000 == 0x940E0000))) by (bit_vector);
    }
    let k: u32 = (((bits & 0x1f00000) >> 20) | (bits & 0x1ffff)) << 1;
    if opcode == 0b1001010 && subopcode == 0b110 {
        Some(Instruction::Jmp(k))
    } else if opcode == 0b1001010 && subopcode == 0b111 {
        Some(Instruction::Call(k))
    } else {
        None
    }
}

/// Reads `lds` or `sts`.
fn try_read_lds_sts(bits: u32) -> (r: Option<Instruction>)
    ensures
        r == decode_lds_sts(bits),
{
    let opcode: u32 = ((bits >> 21) & 0b11111110000) | ((bits >> 16) & 0b1111);
    proof {
        assert((((((bits >> 21) & 0b11111110000) | ((bits >> 16) & 0b1111)) == 0b10010000000) ==
            (bits & 0xFE0F0000 == 0x90000000)) && (((((bits >> 21) & 0b11111110000) | ((bits >>
            16) & 0b1111)) == 0b10010010000) == (bits & 0xFE0F0000 == 0x92000000))) by (bit_vector);
    }
    let immediate: u16 = (bits & 0xFFFF) as u16;
    let register: u8 = ((bits >> 20) & 0b11111) as u8;
    if opcode == 0b10010000000 {
        Some(Instruction::Lds(register, immediate))
    } else if opcode == 0b10010010000 {
        Some(Instruction::Sts(register, immediate))
    } else {
        None
    }
}

/// Decodes a single 16-bit word.
pub fn try_read16(bits: u16) -> (r: Option<Instruction>)
    ensures
        r == decode16(bits),
{
    let r = try_read_fixed(bits);
    if r.is_some() {
        return r;
    }
    let r = try_read_rd(bits);
    if r.is_some() {
        return r;
    }
    let r = try_read_rdk(bits);
    if r.is_some() {
        return r;
    }
    let r = try_read_rdrr(bits);
    if r.is_some() {
        return r;
    }
    let r = try_read_rda(bits);
    if r.is_some() {
        return r;
    }
    let r = try_read_io_ab(bits);
    if r.is_some() {
        return r;
    }
    let r = try_read_rdz(bits);
    if r.is_some() {
        return r;
    }
    let r = try_read_k16(bits);
    if r.is_some() {
        return r;
    }
    let r = try_read_st_ld(bits);
    if r.is_some() {
        return r;
    }
    let r = try_read_std_ldd(bits);
    if r.is_some() {
        return r;
    }
    let r = try_read_movw(bits);
    if r.is_some() {
        return r;
    }
    let r = try_read_relcondbr(bits);
    if r.is_some() {
        return r;
    }
    let r = try_read_adiw(bits);
    if r.is_some() {
        return r;
    }
    try_read_sbrs(bits)
}

/// Decodes a pair of 16-bit words; the first word is the upper half of `bits`.
pub fn try_read32(bits: u32) -> (r: Option<Instruction>)
    ensures
        r == decode32(bits),
{
    let r = try_read_k32(bits);
    if r.is_some() {
        return r;
    }
    try_read_lds_sts(bits)
}

/// Decodes the instruction that starts at index `at` of `bytes`.
pub fn read_at(bytes: &[u8], at: usize) -> (r: Result<Instruction, Error>)
    ensures
        r == decode_at(bytes@, at),
        r matches Ok(inst) ==> inst.in_range() && inst.well_formed() && at + inst.spec_size()
            <= bytes@.len(),
{
    if at >= bytes.len() {
        return Err(Error::SegmentationFault { address: at });
    }
    if at + 1 >= bytes.len() {
        return Err(Error::SegmentationFault { address: at + 1 });
    }
    let b1 = bytes[at];
    let b2 = bytes[at + 1];
    // The low byte of a word comes first in the stream.
    let bits16: u16 = ((b2 as u16) << 8) | (b1 as u16);
    proof {
        decoded_operands_in_range(bits16, 0);
        decoded_size_matches_width(bits16, 0);
    }
    match try_read16(bits16) {
        Some(inst) => {
            return Ok(inst);
        },
        None => {},
    }
    if at + 2 >= bytes.len() {
        return Err(Error::SegmentationFault { address: at + 2 });
    }
    if at + 3 >= bytes.len() {
        return Err(Error::SegmentationFault { address: at + 3 });
    }
    let b3 = bytes[at + 2] as u32;
    let b4 = bytes[at + 3] as u32;
    let bits32: u32 = (((bits16 as u32) << 16) | (b4 << 8)) | b3;
    proof {
        decoded_operands_in_range(bits16, bits32);
        decoded_size_matches_width(bits16, bits32);
    }
    match try_read32(bits32) {
        Some(inst) => Ok(inst),
        None => Err(Error::UnknownInstruction(bits32)),
    }
}

/// Decodes the instruction at the start of `bytes`.
pub fn read(bytes: &[u8]) -> (r: Result<Instruction, Error>)
    ensures
        r == decode_at(bytes@, 0),
        r matches Ok(inst) ==> inst.in_range() && inst.well_formed(),
{
    read_at(bytes, 0)
}

/// Every instruction that a single word decodes to is two bytes long, and
/// every instruction that a pair of words decodes to is four bytes long.
pub proof fn decoded_size_matches_width(word: u16, bits: u32)
    ensures
        decode16(word) matches Some(inst) ==> inst.spec_size() == 2,
        decode32(bits) matches Some(inst) ==> inst.spec_size() == 4,
{
}

} // verus!
