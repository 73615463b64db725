use vstd::prelude::*;

pub mod binary;
pub mod patterns;

verus! {

/// How an indirect load or store adjusts its pointer register pair.
#[derive(Clone, Copy, Debug, PartialEq, Eq, Structural)]
pub enum Variant {
    Normal,
    Predecrement,
    Postincrement,
}

/// A decoded instruction with its operands.
#[derive(Clone, Copy, Debug, PartialEq, Eq, Structural)]
pub enum Instruction {
    Inc(u8),
    Dec(u8),
    Com(u8),
    Neg(u8),
    Push(u8),
    Pop(u8),
    Swap(u8),
    Subi(u8, u8),
    Sbci(u8, u8),
    Andi(u8, u8),
    Ori(u8, u8),
    Cpi(u8, u8),
    Ldi(u8, u8),
    Add(u8, u8),
    Adc(u8, u8),
    Adiw(u8, u8),
    Sub(u8, u8),
    Sbc(u8, u8),
    Sbiw(u8, u8),
    Mul(u8, u8),
    And(u8, u8),
    Or(u8, u8),
    Eor(u8, u8),
    Cpse(u8, u8),
    Cp(u8, u8),
    Cpc(u8, u8),
    Mov(u8, u8),
    Movw(u8, u8),
    Nop,
    Ret,
    Reti,
    Sei,
    Cli,
    Sbrs(u8, u8),
    In(u8, u8),
    Out(u8, u8),
    Sbi(u8, u8),
    Sbis(u8, u8),
    Cbi(u8, u8),
    Jmp(u32),
    Call(u32),
    Rjmp(i16),
    Rcall(i16),
    Brbs(u8, i8),
    Brbc(u8, i8),
    Breq(i8),
    Brne(i8),
    Brcs(i8),
    Brcc(i8),
    Brsh(i8),
    Brlo(i8),
    Brmi(i8),
    Brpl(i8),
    Brge(i8),
    Brlt(i8),
    Brhs(i8),
    Brhc(i8),
    Brts(i8),
    Brtc(i8),
    Brvs(i8),
    Brvc(i8),
    Brie(i8),
    Brid(i8),
    /// Store a register at a 16-bit data address.
    Sts(u8, u16),
    /// Load a register from a 16-bit data address.
    Lds(u8, u16),
    /// Load from program memory: destination, pointer pair, post-increment.
    Lpm(u8, u8, bool),
    /// Store indirect: pointer pair, source register, pointer adjustment.
    St(u8, u8, Variant),
    /// Store with displacement: pointer pair, displacement, source register.
    Std(u8, u8, u8),
    /// Load indirect: destination register, pointer pair, pointer adjustment.
    Ld(u8, u8, Variant),
    /// Load with displacement: destination register, pointer pair, displacement.
    Ldd(u8, u8, u8),
}

impl Instruction {
    /// Whether the instruction is encoded in two 16-bit words.
    pub open spec fn is_wide(self) -> bool {
        self is Jmp || self is Call || self is Sts || self is Lds
    }

    /// The encoded length in bytes.
    pub open spec fn spec_size(&self) -> u8 {
        if self.is_wide() {
            4
        } else {
            2
        }
    }

    /// Whether the operands are in the range in which the execution engine
    /// defines the instruction: bit numbers below 8, I/O addresses of `in` and
    /// `out` within 6 bits, and `Z` as the pointer of a program-memory load.
    pub open spec fn well_formed(self) -> bool {
        match self {
            Instruction::Sbrs(_, b) => b < 8,
            Instruction::Sbi(_, b) => b < 8,
            Instruction::Sbis(_, b) => b < 8,
            Instruction::Cbi(_, b) => b < 8,
            Instruction::In(_, a) => a <= 0x3f,
            Instruction::Out(a, _) => a <= 0x3f,
            Instruction::Lpm(_, z, _) => z == 30,
            _ => true,
        }
    }

    /// Whether the operands are such as the decoder gives: registers `r0` to
    /// `r31` (`r16` to `r31` beside an immediate), even pairs, `X`, `Y` or
    /// `Z` as pointers, bit numbers below 8, I/O addresses within their
    /// fields, and even byte offsets and addresses. The three branch forms
    /// that no encoding decodes to are in no range.
    pub open spec fn in_range(self) -> bool {
        match self {
            Instruction::Inc(d) | Instruction::Dec(d) | Instruction::Com(d) | Instruction::Neg(d)
            | Instruction::Push(d) | Instruction::Pop(d) | Instruction::Swap(d) => d < 32,
            Instruction::Subi(d, _) | Instruction::Sbci(d, _) | Instruction::Andi(d, _)
            | Instruction::Ori(d, _) | Instruction::Cpi(d, _) | Instruction::Ldi(d, _) => 16 <= d
                < 32,
            Instruction::Add(d, r) | Instruction::Adc(d, r) | Instruction::Sub(d, r)
            | Instruction::Sbc(d, r) | Instruction::Mul(d, r) | Instruction::And(d, r)
            | Instruction::Or(d, r) | Instruction::Eor(d, r) | Instruction::Cpse(d, r)
            | Instruction::Cp(d, r) | Instruction::Cpc(d, r) | Instruction::Mov(d, r) => d < 32
                && r < 32,
            Instruction::Adiw(d, k) | Instruction::Sbiw(d, k) => (d == 24 || d == 26 || d == 28
                || d == 30) && k < 16,
            Instruction::Movw(d, r) => d < 32 && r < 32 && d % 2 == 0 && r % 2 == 0,
            Instruction::Nop | Instruction::Ret | Instruction::Reti | Instruction::Sei
            | Instruction::Cli => true,
            Instruction::Sbrs(r, b) => r < 32 && b < 8,
            Instruction::In(d, a) => d < 32 && a < 64,
            Instruction::Out(a, r) => r < 32 && a < 64,
            Instruction::Sbi(a, b) | Instruction::Sbis(a, b) | Instruction::Cbi(a, b) => a < 32
                && b < 8,
            Instruction::Jmp(k) | Instruction::Call(k) => k % 2 == 0 && k < 0x4_0000,
            Instruction::Rjmp(k) | Instruction::Rcall(k) => k % 2 == 0 && -4096 <= k <= 4094,
            Instruction::Brbs(_, _) | Instruction::Brbc(_, _) | Instruction::Brsh(_)
            | Instruction::Brlo(_) => false,
            Instruction::Breq(k) | Instruction::Brne(k) | Instruction::Brcs(k)
            | Instruction::Brcc(k) | Instruction::Brmi(k) | Instruction::Brpl(k)
            | Instruction::Brge(k) | Instruction::Brlt(k) | Instruction::Brhs(k)
            | Instruction::Brhc(k) | Instruction::Brts(k) | Instruction::Brtc(k)
            | Instruction::Brvs(k) | Instruction::Brvc(k) | Instruction::Brie(k)
            | Instruction::Brid(k) => k % 2 == 0,
            Instruction::Sts(r, _) | Instruction::Lds(r, _) => r < 32,
            Instruction::Lpm(d, z, _) => d < 32 && z == 30,
            Instruction::St(p, r, _) | Instruction::Ld(r, p, _) => r < 32 && (p == 26 || p == 28
                || p == 30),
            Instruction::Std(p, q, r) | Instruction::Ldd(r, p, q) => r < 32 && (p == 28 || p == 30)
                && q < 128,
        }
    }

    /// Whether the execution engine defines the instruction: what a caller
    /// tests before it hands over an instruction that no decoder made.
    pub fn is_well_formed(&self) -> (ok: bool)
        ensures
            ok == self.well_formed(),
    {
        match *self {
            Instruction::Sbrs(_, b) => b < 8,
            Instruction::Sbi(_, b) => b < 8,
            Instruction::Sbis(_, b) => b < 8,
            Instruction::Cbi(_, b) => b < 8,
            Instruction::In(_, a) => a <= 0x3f,
            Instruction::Out(a, _) => a <= 0x3f,
            Instruction::Lpm(_, z, _) => z == 30,
            _ => true,
        }
    }

    /// The encoded length in bytes: 2, or 4 for the two-word instructions.
    #[verifier::when_used_as_spec(spec_size)]
    pub fn size(&self) -> (n: u8)
        ensures
            n == self.spec_size(),
    {
        match self {
            Instruction::Jmp(_) | Instruction::Call(_) | Instruction::Sts(_, _) | Instruction::Lds(
                _,
                _,
            ) => 4,
            _ => 2,
        }
    }
}

} // verus!
