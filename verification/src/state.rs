use vstd::prelude::*;
use crate::error::Error;
use crate::inst::binary::decode_at;
use crate::inst::{Instruction, Variant};
use crate::math::{wrap16, wrap32, wrap8};
use crate::mem::{read_u16, read_u8, write_u16, write_u8};
use crate::regs::{low_byte, pair_value, RegisterFile, SP_LO_NUM};
use crate::sreg::{
    flag_on, with_flag, CARRY_FLAG, HALF_CARRY_FLAG, INTERRUPT_FLAG, NEGATIVE_FLAG, OVERFLOW_FLAG,
    S_FLAG, TRANSFER_FLAG, ZERO_FLAG,
};

verus! {

/// The address that register space is mapped to in SRAM.
pub const SRAM_REGISTER_OFFSET: u16 = 0;

/// The address that IO space is mapped to in SRAM.
pub const SRAM_IO_OFFSET: u16 = 0x20;

/// The address that data space is mapped to in SRAM.
pub const SRAM_DATA_OFFSET: u16 = 0x60;

/// The step by which a pre-decrementing or post-incrementing access moves
/// its pointer pair.
pub const PTR_SIZE: u16 = 2;

/// The status byte after the negative flag is taken from bit 7 of `val` and
/// the sign flag is set to its complement.
pub open spec fn negative_flags(sreg: u8, val: u16) -> u8 {
    let negative = (val & 0b10000000) > 0;
    with_flag(with_flag(sreg, NEGATIVE_FLAG, negative), S_FLAG, !negative)
}

/// The status byte after an arithmetic result `val`, widened to 16 bits:
/// overflow if it exceeds `0xff`, carry from bit 8, half-carry from bit 3,
/// negative from bit 7 with sign as its complement, zero if the low byte is 0.
pub open spec fn arithmetic_flags(sreg: u8, val: u16) -> u8 {
    let v = with_flag(sreg, OVERFLOW_FLAG, val > 0xff);
    let c = with_flag(v, CARRY_FLAG, (val & 0b100000000) > 0);
    let h = with_flag(c, HALF_CARRY_FLAG, (val & 0b1000) > 0);
    let n = negative_flags(h, val);
    with_flag(n, ZERO_FLAG, val & 0x00ff == 0)
}

/// The status byte after a logical result: zero and negative (with sign)
/// only, and overflow cleared where `clear_overflow` is set.
pub open spec fn logic_flags(sreg: u8, val: u8, clear_overflow: bool) -> u8 {
    let z = with_flag(sreg, ZERO_FLAG, val == 0);
    let n = negative_flags(z, val as u16);
    if clear_overflow {
        n & !OVERFLOW_FLAG
    } else {
        n
    }
}

/// The status byte after comparing `rd` with `rr`: overflow, negative (with
/// sign) and zero from the 16-bit difference, carry if `rr` is the larger.
pub open spec fn compare_flags(sreg: u8, rd: u8, rr: u8) -> u8 {
    let val = wrap16(rd - rr);
    let v = with_flag(sreg, OVERFLOW_FLAG, val > 0xff);
    let n = negative_flags(v, val);
    let z = with_flag(n, ZERO_FLAG, val == 0);
    with_flag(z, CARRY_FLAG, rr > rd)
}

/// The pointer value after an indirect access in addressing mode `variant`.
pub open spec fn adjusted(ptr: u16, variant: Variant) -> u16 {
    match variant {
        Variant::Normal => ptr,
        Variant::Predecrement => wrap16(ptr - PTR_SIZE),
        Variant::Postincrement => wrap16(ptr + PTR_SIZE),
    }
}

/// The data address of I/O port `a`.
pub open spec fn io_address(a: u8) -> usize {
    (SRAM_IO_OFFSET + a) as usize
}

/// The pattern reported for `mul`, which the engine does not execute:
/// `1001 11rd dddd rrrr`.
pub open spec fn mul_bits(rd: u8, rr: u8) -> u32 {
    ((0x9C00u32 | ((rr as u32 & 0x10) << 5)) | ((rd as u32 & 0x1f) << 4)) | (rr as u32 & 0x0f)
}

/// The pattern reported for a branch on a numbered status bit, which the
/// engine does not execute: `1111 0fkk kkkk ksss`, where `base` holds the
/// bits `1111 0f`.
pub open spec fn flag_branch_bits(base: u32, flag: u8, k: i8) -> u32 {
    (base | ((((k as u8) as u32 >> 1) & 0x7f) << 3)) | (flag as u32 & 0x7)
}

/// Data memory after one tick of the clock kept in it: the 16-bit value at
/// `0x107`, shifted up by 8 bits, joined with the one at `0x105`, is counted
/// up by one; its low 8 bits go back to `0x105` and the rest to `0x107`.
pub open spec fn clock_ticked(memory: Seq<u8>) -> Result<Seq<u8>, Error> {
    match (read_u16(memory, 0x105), read_u16(memory, 0x107)) {
        (Err(e), _) => Err(e),
        (Ok(_), Err(e)) => Err(e),
        (Ok(lo), Ok(hi)) => {
            let clk: u32 = ((((hi as u32) << 8) | (lo as u32)) + 1) as u32;
            match write_u16(memory, 0x105, (clk & 0xff) as u16) {
                Err(e) => Err(e),
                Ok(first) => write_u16(first, 0x107, (clk >> 8) as u16),
            }
        },
    }
}

/// The machine state: what an instruction reads and changes.
pub struct State {
    /// The registers by index: `r0` to `r31`, then the stack pointer's low
    /// and high byte.
    pub regs: Seq<u8>,
    /// The status byte.
    pub sreg: u8,
    /// Program space.
    pub program: Seq<u8>,
    /// Data space.
    pub memory: Seq<u8>,
    /// The program counter, a byte offset into program space.
    pub pc: u32,
    /// The encoded size of the instruction after the one being executed.
    pub next_size: u8,
}

/// A state after an instruction, and whether the instruction succeeded.
pub type Outcome = (State, Result<(), Error>);

impl State {
    /// Whether the register file holds a register with index `i`.
    pub open spec fn has(self, i: u8) -> bool {
        (i as int) < self.regs.len()
    }

    /// The value of register `i`.
    pub open spec fn reg(self, i: u8) -> u8 {
        self.regs[i as int]
    }

    /// The incoming carry as a number.
    pub open spec fn carry(self) -> int {
        if flag_on(self.sreg, CARRY_FLAG) {
            1
        } else {
            0
        }
    }

    /// The 16-bit value of the pair whose low register is `lo`.
    pub open spec fn pair(self, lo: u8) -> Result<u16, Error> {
        match RegisterFile::pair_of(self.regs, lo) {
            Ok((l, h)) => Ok(pair_value(l, h)),
            Err(e) => Err(e),
        }
    }

    /// The state with `v` in register `i`.
    pub open spec fn put(self, i: u8, v: u8) -> State {
        State { regs: self.regs.update(i as int, v), ..self }
    }

    /// The state with `v` in the pair whose low register is `lo`.
    pub open spec fn put_pair(self, lo: u8, v: u16) -> State {
        State { regs: RegisterFile::with_pair(self.regs, lo, v), ..self }
    }

    /// The state with the status byte `sreg`.
    pub open spec fn flags(self, sreg: u8) -> State {
        State { sreg, ..self }
    }

    /// The state with the program counter at `pc`.
    pub open spec fn jump(self, pc: u32) -> State {
        State { pc, ..self }
    }

    /// The state with data space `memory`.
    pub open spec fn store(self, memory: Seq<u8>) -> State {
        State { memory, ..self }
    }

    /// The state with the program counter moved past the next instruction.
    pub open spec fn skip(self) -> State {
        self.jump(wrap32(self.pc + self.next_size))
    }

    /// This state as the outcome of an instruction that succeeded.
    pub open spec fn done(self) -> Outcome {
        (self, Ok(()))
    }

    /// This state, unchanged, as the outcome of an instruction that failed.
    pub open spec fn fault(self, e: Error) -> Outcome {
        (self, Err(e))
    }

    /// The first missing register of `rr`, then `rd`.
    pub open spec fn missing_operand(self, rd: u8, rr: u8) -> Option<Error> {
        if !self.has(rr) {
            Some(Error::RegisterDoesNotExist(rr))
        } else if !self.has(rd) {
            Some(Error::RegisterDoesNotExist(rd))
        } else {
            None
        }
    }

    /// The first missing register of `rd`, then `rr`.
    pub open spec fn missing_compared(self, rd: u8, rr: u8) -> Option<Error> {
        if !self.has(rd) {
            Some(Error::RegisterDoesNotExist(rd))
        } else if !self.has(rr) {
            Some(Error::RegisterDoesNotExist(rr))
        } else {
            None
        }
    }

    /// `rd` receives `val`; no flag changes.
    pub open spec fn unary(self, rd: u8, val: u8) -> Outcome {
        if !self.has(rd) {
            self.fault(Error::RegisterDoesNotExist(rd))
        } else {
            self.put(rd, val).done()
        }
    }

    /// `rd` receives the low byte of `val`, and the flags follow `val`.
    pub open spec fn arith1(self, rd: u8, val: u16) -> Outcome {
        if !self.has(rd) {
            self.fault(Error::RegisterDoesNotExist(rd))
        } else {
            self.put(rd, low_byte(val)).flags(arithmetic_flags(self.sreg, val)).done()
        }
    }

    /// As `arith1`, for an instruction that also reads `rr`.
    pub open spec fn arith2(self, rd: u8, rr: u8, val: u16) -> Outcome {
        match self.missing_operand(rd, rr) {
            Some(e) => self.fault(e),
            None => self.arith1(rd, val),
        }
    }

    /// `rd` receives `val`, and the zero and negative flags follow it.
    pub open spec fn logic1(self, rd: u8, val: u8, clear_overflow: bool) -> Outcome {
        if !self.has(rd) {
            self.fault(Error::RegisterDoesNotExist(rd))
        } else {
            self.put(rd, val).flags(logic_flags(self.sreg, val, clear_overflow)).done()
        }
    }

    /// As `logic1`, for an instruction that also reads `rr`.
    pub open spec fn logic2(self, rd: u8, rr: u8, val: u8, clear_overflow: bool) -> Outcome {
        match self.missing_operand(rd, rr) {
            Some(e) => self.fault(e),
            None => self.logic1(rd, val, clear_overflow),
        }
    }

    /// The pair at `rd` moves by `delta`, and the flags follow the new value.
    pub open spec fn word(self, rd: u8, delta: int) -> Outcome {
        match self.pair(rd) {
            Err(e) => self.fault(e),
            Ok(p) => self.put_pair(rd, wrap16(p + delta)).flags(
                arithmetic_flags(self.sreg, wrap16(p + delta)),
            ).done(),
        }
    }

    /// A comparison of `rd` with `rr`: the status byte becomes `sreg`, and
    /// nothing is stored.
    pub open spec fn compared(self, rd: u8, rr: u8, sreg: u8) -> Outcome {
        match self.missing_compared(rd, rr) {
            Some(e) => self.fault(e),
            None => self.flags(sreg).done(),
        }
    }

    /// The next instruction is skipped if `condition` holds.
    pub open spec fn skip_if(self, condition: bool) -> Outcome {
        if condition {
            self.skip().done()
        } else {
            self.done()
        }
    }

    /// A relative jump by `k` bytes if `taken`.
    pub open spec fn branch(self, taken: bool, k: int) -> Outcome {
        if taken {
            self.jump(wrap32(self.pc + k)).done()
        } else {
            self.done()
        }
    }

    /// Whether the status bit `flag` is set.
    pub open spec fn set(self, flag: u8) -> bool {
        flag_on(self.sreg, flag)
    }

    /// `push`: the register is written at the stack pointer, which then moves
    /// down by one. A stack pointer of 0 is an overflow.
    pub open spec fn push(self, rd: u8) -> Outcome {
        if !self.has(rd) {
            self.fault(Error::RegisterDoesNotExist(rd))
        } else {
            match self.pair(SP_LO_NUM) {
                Err(e) => self.fault(e),
                Ok(sp) => if sp == 0 {
                    self.fault(Error::StackOverflow)
                } else {
                    match write_u8(self.memory, sp as usize, self.reg(rd)) {
                        Err(e) => self.fault(e),
                        Ok(memory) => self.store(memory).put_pair(
                            SP_LO_NUM,
                            (sp - 1) as u16,
                        ).done(),
                    }
                },
            }
        }
    }

    /// `pop`: the stack pointer moves up by one, then the register is read
    /// from it. A stack pointer that wraps to 0 is an overflow.
    pub open spec fn pop(self, rd: u8) -> Outcome {
        if !self.has(rd) {
            self.fault(Error::RegisterDoesNotExist(rd))
        } else {
            match self.pair(SP_LO_NUM) {
                Err(e) => self.fault(e),
                Ok(sp) => if wrap16(sp + 1) == 0 {
                    self.fault(Error::StackOverflow)
                } else {
                    match read_u8(self.memory, wrap16(sp + 1) as usize) {
                        Err(e) => self.fault(e),
                        Ok(val) => self.put_pair(SP_LO_NUM, wrap16(sp + 1)).put(rd, val).done(),
                    }
                },
            }
        }
    }

    /// `call`: the low 16 bits of the program counter are written at
    /// `SP - 1`, the stack pointer moves down by two, and control goes to `k`.
    /// A stack pointer below 2 is an overflow.
    pub open spec fn call(self, k: u32) -> Outcome {
        match self.pair(SP_LO_NUM) {
            Err(e) => self.fault(e),
            Ok(sp) => if sp < 2 {
                self.fault(Error::StackOverflow)
            } else {
                match write_u16(self.memory, (sp - 1) as usize, (self.pc & 0xffff) as u16) {
                    Err(e) => self.fault(e),
                    Ok(memory) => self.store(memory).put_pair(SP_LO_NUM, (sp - 2) as u16).jump(
                        k,
                    ).done(),
                }
            },
        }
    }

    /// `ret`: the stack pointer moves up by two, and control goes to the
    /// address read at `SP - 1`. A stack pointer above `0xfffd` is an overflow.
    pub open spec fn ret(self) -> Outcome {
        match self.pair(SP_LO_NUM) {
            Err(e) => self.fault(e),
            Ok(sp) => if sp > 0xfffd {
                self.fault(Error::StackOverflow)
            } else {
                match read_u16(self.memory, (sp + 1) as usize) {
                    Err(e) => self.fault(e),
                    Ok(addr) => self.put_pair(SP_LO_NUM, (sp + 2) as u16).jump(addr as u32).done(),
                }
            },
        }
    }

    /// `reti`: `ret`, then the interrupt flag is set.
    pub open spec fn reti(self) -> Outcome {
        match self.ret() {
            (s, Ok(())) => s.flags(s.sreg | INTERRUPT_FLAG).done(),
            (s, Err(e)) => (s, Err(e)),
        }
    }

    /// `movw`: the pair at `rd` receives the pair at `rr`.
    pub open spec fn movw(self, rd: u8, rr: u8) -> Outcome {
        if rd % 2 != 0 {
            self.fault(Error::RegisterPairOdd(rd))
        } else {
            match self.pair(rr) {
                Err(e) => self.fault(e),
                Ok(v) => match self.pair(rd) {
                    Err(e) => self.fault(e),
                    Ok(_) => self.put_pair(rd, v).done(),
                },
            }
        }
    }

    /// A register receives the byte at data address `addr`.
    pub open spec fn load(self, rd: u8, addr: usize) -> Outcome {
        match read_u8(self.memory, addr) {
            Err(e) => self.fault(e),
            Ok(val) => self.unary(rd, val),
        }
    }

    /// The byte at data address `addr` receives a register.
    pub open spec fn save(self, rd: u8, addr: usize) -> Outcome {
        if !self.has(rd) {
            self.fault(Error::RegisterDoesNotExist(rd))
        } else {
            match write_u8(self.memory, addr, self.reg(rd)) {
                Err(e) => self.fault(e),
                Ok(memory) => self.store(memory).done(),
            }
        }
    }

    /// `lpm`: a register receives the byte of program space at `Z`, which
    /// then moves up by one if `postinc`.
    pub open spec fn lpm(self, rd: u8, rz: u8, postinc: bool) -> Outcome {
        match self.pair(rz) {
            Err(e) => self.fault(e),
            Ok(z) => match read_u8(self.program, z as usize) {
                Err(e) => self.fault(e),
                Ok(val) => if !self.has(rd) {
                    self.fault(Error::RegisterDoesNotExist(rd))
                } else if postinc {
                    self.put(rd, val).put_pair(rz, wrap16(z + 1)).done()
                } else {
                    self.put(rd, val).done()
                },
            },
        }
    }

    /// The pair at `ptr` after an access in mode `variant`.
    pub open spec fn moved(self, ptr: u8, variant: Variant) -> State {
        match variant {
            Variant::Normal => self,
            _ => match self.pair(ptr) {
                Ok(p) => self.put_pair(ptr, adjusted(p, variant)),
                Err(_) => self,
            },
        }
    }

    /// `st`: the byte at the address in the pair `ptr` receives `reg`; the
    /// pair is adjusted after the write.
    pub open spec fn store_indirect(self, ptr: u8, reg: u8, variant: Variant) -> Outcome {
        match self.pair(ptr) {
            Err(e) => self.fault(e),
            Ok(addr) => if !self.has(reg) {
                self.fault(Error::RegisterDoesNotExist(reg))
            } else {
                match write_u8(self.memory, addr as usize, self.reg(reg)) {
                    Err(e) => self.fault(e),
                    Ok(memory) => self.store(memory).moved(ptr, variant).done(),
                }
            },
        }
    }

    /// `ld`: `reg` receives the byte at the address in the pair `ptr`; the
    /// pair, as it stands after the load, is then adjusted.
    pub open spec fn load_indirect(self, reg: u8, ptr: u8, variant: Variant) -> Outcome {
        match self.pair(ptr) {
            Err(e) => self.fault(e),
            Ok(addr) => match read_u8(self.memory, addr as usize) {
                Err(e) => self.fault(e),
                Ok(val) => if !self.has(reg) {
                    self.fault(Error::RegisterDoesNotExist(reg))
                } else {
                    self.put(reg, val).moved(ptr, variant).done()
                },
            },
        }
    }

    /// `std`: as `st`, at the pointer plus `imm`; the pair stays.
    pub open spec fn store_displaced(self, ptr: u8, imm: u8, reg: u8) -> Outcome {
        match self.pair(ptr) {
            Err(e) => self.fault(e),
            Ok(p) => self.save(reg, wrap16(p + imm) as usize),
        }
    }

    /// `ldd`: as `ld`, at the pointer plus `imm`; the pair stays.
    pub open spec fn load_displaced(self, reg: u8, ptr: u8, imm: u8) -> Outcome {
        match self.pair(ptr) {
            Err(e) => self.fault(e),
            Ok(p) => self.load(reg, wrap16(p + imm) as usize),
        }
    }

    /// `sbi` and `cbi`: bit `b` of I/O port `a` is set or cleared.
    pub open spec fn io_bit(self, a: u8, set: bool, b: u8) -> Outcome {
        match read_u8(self.memory, io_address(a)) {
            Err(e) => self.fault(e),
            Ok(cur) => self.store(
                self.memory.update(
                    io_address(a) as int,
                    if set {
                        cur | (1u8 << b)
                    } else {
                        cur & !(1u8 << b)
                    },
                ),
            ).done(),
        }
    }

    /// `sbis`: the next instruction is skipped if bit `b` of port `a` is set.
    pub open spec fn sbis(self, a: u8, b: u8) -> Outcome {
        match read_u8(self.memory, io_address(a)) {
            Err(e) => self.fault(e),
            Ok(cur) => self.skip_if(cur & (1u8 << b) != 0),
        }
    }

    /// `sbrs`: the next instruction is skipped if bit `b` of `r` is set.
    pub open spec fn sbrs(self, r: u8, b: u8) -> Outcome {
        if !self.has(r) {
            self.fault(Error::RegisterDoesNotExist(r))
        } else {
            self.skip_if(self.reg(r) & (1u8 << b) != 0)
        }
    }

    /// `cpse`: the next instruction is skipped if the registers are equal.
    pub open spec fn cpse(self, rd: u8, rr: u8) -> Outcome {
        match self.missing_compared(rd, rr) {
            Some(e) => self.fault(e),
            None => self.skip_if(self.reg(rd) == self.reg(rr)),
        }
    }

    /// `mov`: `rd` receives `rr`.
    pub open spec fn mov(self, rd: u8, rr: u8) -> Outcome {
        match self.missing_operand(rd, rr) {
            Some(e) => self.fault(e),
            None => self.put(rd, self.reg(rr)).done(),
        }
    }

    /// What one instruction does to the state, the program counter already
    /// standing behind it.
    pub open spec fn effect(self, inst: Instruction) -> Outcome {
        match inst {
            Instruction::Inc(rd) => self.unary(rd, wrap8(self.reg(rd) + 1)),
            Instruction::Dec(rd) => self.unary(rd, wrap8(self.reg(rd) - 1)),
            Instruction::Com(rd) => self.unary(rd, (0xff - self.reg(rd)) as u8),
            Instruction::Neg(rd) => self.unary(rd, wrap8(-self.reg(rd))),
            Instruction::Push(rd) => self.push(rd),
            Instruction::Pop(rd) => self.pop(rd),
            Instruction::Swap(rd) => self.unary(
                rd,
                ((self.reg(rd) & 0x0f) << 4) | ((self.reg(rd) & 0xf0) >> 4),
            ),
            Instruction::Subi(rd, k) => self.arith1(rd, wrap16(self.reg(rd) - k)),
            Instruction::Sbci(rd, k) => self.arith1(rd, wrap16(self.reg(rd) - k - self.carry())),
            Instruction::Andi(rd, k) => self.logic1(rd, self.reg(rd) & k, true),
            Instruction::Ori(rd, k) => self.logic1(rd, self.reg(rd) | k, false),
            Instruction::Cpi(_, _) => self.done(),
            Instruction::Ldi(rd, k) => self.unary(rd, k),
            Instruction::Add(rd, rr) => self.arith2(rd, rr, (self.reg(rd) + self.reg(rr)) as u16),
            Instruction::Adc(rd, rr) => self.arith2(
                rd,
                rr,
                (self.reg(rd) + self.reg(rr) + self.carry()) as u16,
            ),
            Instruction::Adiw(rd, k) => self.word(rd, k as int),
            Instruction::Sub(rd, rr) => self.arith2(rd, rr, wrap16(self.reg(rd) - self.reg(rr))),
            Instruction::Sbc(rd, rr) => self.arith2(
                rd,
                rr,
                wrap16(self.reg(rd) - self.reg(rr) - self.carry()),
            ),
            Instruction::Sbiw(rd, k) => self.word(rd, -(k as int)),
            Instruction::Mul(rd, rr) => self.fault(Error::UnknownInstruction(mul_bits(rd, rr))),
            Instruction::And(rd, rr) => self.logic2(rd, rr, self.reg(rd) & self.reg(rr), true),
            Instruction::Or(rd, rr) => self.logic2(rd, rr, self.reg(rd) | self.reg(rr), false),
            Instruction::Eor(rd, rr) => self.logic2(rd, rr, self.reg(rd) ^ self.reg(rr), false),
            Instruction::Cpse(rd, rr) => self.cpse(rd, rr),
            Instruction::Cp(rd, rr) => self.compared(
                rd,
                rr,
                compare_flags(self.sreg, self.reg(rd), self.reg(rr)),
            ),
            Instruction::Cpc(rd, rr) => self.compared(
                rd,
                rr,
                arithmetic_flags(self.sreg, wrap16(self.reg(rd) - self.reg(rr) - self.carry())),
            ),
            Instruction::Mov(rd, rr) => self.mov(rd, rr),
            Instruction::Movw(rd, rr) => self.movw(rd, rr),
            Instruction::Nop => self.done(),
            Instruction::Ret => self.ret(),
            Instruction::Reti => self.reti(),
            Instruction::Sei => self.flags(self.sreg | INTERRUPT_FLAG).done(),
            Instruction::Cli => self.flags(self.sreg & !INTERRUPT_FLAG).done(),
            Instruction::Sbrs(r, b) => self.sbrs(r, b),
            Instruction::In(rd, a) => self.load(rd, io_address(a)),
            Instruction::Out(a, rd) => self.save(rd, io_address(a)),
            Instruction::Sbi(a, b) => self.io_bit(a, true, b),
            Instruction::Sbis(a, b) => self.sbis(a, b),
            Instruction::Cbi(a, b) => self.io_bit(a, false, b),
            Instruction::Jmp(k) => self.jump(k).done(),
            Instruction::Call(k) => self.call(k),
            Instruction::Rjmp(k) => self.branch(true, k as int),
            Instruction::Rcall(_) => self.done(),
            Instruction::Brbs(s, k) => self.fault(
                Error::UnknownInstruction(flag_branch_bits(0xF000, s, k)),
            ),
            Instruction::Brbc(s, k) => self.fault(
                Error::UnknownInstruction(flag_branch_bits(0xF400, s, k)),
            ),
            Instruction::Breq(k) => self.branch(self.set(ZERO_FLAG), k as int),
            Instruction::Brne(k) => self.branch(!self.set(ZERO_FLAG), k as int),
            Instruction::Brcs(k) => self.branch(self.set(CARRY_FLAG), k as int),
            Instruction::Brcc(k) => self.branch(!self.set(CARRY_FLAG), k as int),
            Instruction::Brsh(k) => self.branch(!self.set(CARRY_FLAG), k as int),
            Instruction::Brlo(k) => self.branch(self.set(CARRY_FLAG), k as int),
            Instruction::Brmi(k) => self.branch(self.set(NEGATIVE_FLAG), k as int),
            Instruction::Brpl(k) => self.branch(!self.set(NEGATIVE_FLAG), k as int),
            Instruction::Brge(k) => self.branch(!self.set(S_FLAG), k as int),
            Instruction::Brlt(k) => self.branch(self.set(S_FLAG), k as int),
            Instruction::Brhs(k) => self.branch(self.set(HALF_CARRY_FLAG), k as int),
            Instruction::Brhc(k) => self.branch(!self.set(HALF_CARRY_FLAG), k as int),
            Instruction::Brts(k) => self.branch(self.set(TRANSFER_FLAG), k as int),
            Instruction::Brtc(k) => self.branch(!self.set(TRANSFER_FLAG), k as int),
            Instruction::Brvs(k) => self.branch(self.set(OVERFLOW_FLAG), k as int),
            Instruction::Brvc(k) => self.branch(!self.set(OVERFLOW_FLAG), k as int),
            Instruction::Brie(k) => self.branch(self.set(INTERRUPT_FLAG), k as int),
            Instruction::Brid(k) => self.branch(!self.set(INTERRUPT_FLAG), k as int),
            Instruction::Sts(rd, k) => self.save(rd, k as usize),
            Instruction::Lds(rd, k) => self.load(rd, k as usize),
            Instruction::Lpm(rd, z, postinc) => self.lpm(rd, z, postinc),
            Instruction::St(ptr, reg, variant) => self.store_indirect(ptr, reg, variant),
            Instruction::Std(ptr, imm, reg) => self.store_displaced(ptr, imm, reg),
            Instruction::Ld(reg, ptr, variant) => self.load_indirect(reg, ptr, variant),
            Instruction::Ldd(reg, ptr, imm) => self.load_displaced(reg, ptr, imm),
        }
    }

    /// The instruction at the program counter and the size of the one behind
    /// it, or the fault of the first of the two that cannot be read.
    pub open spec fn fetched(self) -> Result<(Instruction, u8), Error> {
        match decode_at(self.program, self.pc as usize) {
            Err(e) => Err(e),
            Ok(inst) => match decode_at(self.program, (self.pc + inst.spec_size()) as usize) {
                Err(e) => Err(e),
                Ok(next) => Ok((inst, next.spec_size())),
            },
        }
    }

    /// The program counter moves past `inst`, then `inst` takes effect.
    pub open spec fn execute(self, inst: Instruction) -> Outcome {
        self.jump(wrap32(self.pc + inst.spec_size())).effect(inst)
    }

    /// One step of the machine: fetch, advance, execute. A failed fetch
    /// leaves the state as it was; a failed instruction leaves what it had
    /// changed, the advanced program counter included. On success the result
    /// is the instruction and the address it was fetched from.
    pub open spec fn step(self) -> (State, Result<(Instruction, u32), Error>) {
        match self.fetched() {
            Err(e) => (self, Err(e)),
            Ok((inst, next_size)) => {
                let after = (State { next_size, ..self }).execute(inst);
                match after.1 {
                    Ok(()) => (after.0, Ok((inst, self.pc))),
                    Err(e) => (after.0, Err(e)),
                }
            },
        }
    }
}

} // verus!
