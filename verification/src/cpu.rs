use vstd::prelude::*;
use crate::chips::Chip;
use crate::error::Error;
use crate::inst::binary::read_at;
use crate::inst::{Instruction, Variant};
use crate::math::{offset16, offset32, offset8};
use crate::mem::Space;
use crate::regs::{RegisterFile, SP_LO_NUM};
use crate::sreg::{
    CARRY_FLAG, HALF_CARRY_FLAG, INTERRUPT_FLAG, NEGATIVE_FLAG, OVERFLOW_FLAG, S_FLAG,
    TRANSFER_FLAG, ZERO_FLAG,
};
use crate::state::{State, PTR_SIZE, SRAM_IO_OFFSET};

verus! {

/// The AVR CPU.
pub struct Core {
    register_file: RegisterFile,
    program_space: Space,
    memory: Space,
    /// The program counter.
    pub pc: u32,
    size_of_next_instruction: u8,
}

impl View for Core {
    type V = State;

    closed spec fn view(&self) -> State {
        State {
            regs: self.register_file.values(),
            sreg: self.register_file.sreg.bits(),
            program: self.program_space@,
            memory: self.memory@,
            pc: self.pc,
            next_size: self.size_of_next_instruction,
        }
    }
}

impl Core {
    /// A core with the register file and the sizes of program and data space
    /// that the chip `M` gives, both spaces zeroed, at address 0.
    pub fn new<M>() -> (core: Self) where M: Chip
        ensures
            core@.pc == 0,
            core@.next_size == 0,
            forall|i: int| 0 <= i < core@.program.len() ==> core@.program[i] == 0,
            forall|i: int| 0 <= i < core@.memory.len() ==> core@.memory[i] == 0,
    {
        Core::from_parts(M::register_file(), M::flash_size(), M::memory_size())
    }

    /// A core with the given register file, a program space of `flash_size`
    /// zero bytes and a data space of `memory_size` zero bytes, at address 0.
    pub fn from_parts(register_file: RegisterFile, flash_size: usize, memory_size: usize) -> (core:
        Self)
        ensures
            core@.regs == register_file.values(),
            core@.sreg == register_file.sreg.bits(),
            core@.program.len() == flash_size,
            forall|i: int| 0 <= i < flash_size ==> core@.program[i] == 0,
            core@.memory.len() == memory_size,
            forall|i: int| 0 <= i < memory_size ==> core@.memory[i] == 0,
            core@.pc == 0,
            core@.next_size == 0,
    {
        Core {
            register_file,
            program_space: Space::new(flash_size),
            memory: Space::new(memory_size),
            pc: 0,
            size_of_next_instruction: 0,
        }
    }

    /// Writes a program image to program space, starting at address 0. An
    /// image larger than program space is refused and nothing is written.
    pub fn load_program_space(&mut self, bytes: &[u8]) -> (r: Result<(), Error>)
        ensures
            bytes@.len() <= old(self)@.program.len() ==> r == Ok::<(), Error>(()) && final(self)@
                == (State {
                program: crate::mem::loaded(old(self)@.program, bytes@),
                ..old(self)@
            }),
            bytes@.len() > old(self)@.program.len() ==> r == Err::<(), Error>(
                Error::SegmentationFault { address: old(self)@.program.len() as usize },
            ) && final(self)@ == old(self)@,
    {
        self.program_space.load(bytes)
    }

    /// Advances the machine by one instruction.
    pub fn tick(&mut self) -> (r: Result<(Instruction, u32), Error>)
        ensures
            (final(self)@, r) == old(self)@.step(),
    {
        let inst = self.fetch()?;
        let pc = self.pc;
        self.execute(inst)?;
        Ok((inst, pc))
    }

    /// The program counter.
    pub fn pc(&self) -> (pc: u32)
        ensures
            pc == self@.pc,
    {
        self.pc
    }

    /// The encoded size of the instruction behind the one fetched last.
    pub fn size_of_next_instruction(&self) -> (n: u8)
        ensures
            n == self@.next_size,
    {
        self.size_of_next_instruction
    }

    /// The register file.
    pub fn register_file(&self) -> (file: &RegisterFile)
        ensures
            file.values() == self@.regs,
            file.sreg.bits() == self@.sreg,
    {
        &self.register_file
    }

    /// The register file, for writing.
    pub fn register_file_mut(&mut self) -> (file: &mut RegisterFile)
        ensures
            file.values() == old(self)@.regs,
            file.sreg.bits() == old(self)@.sreg,
            final(self)@ == (State {
                regs: final(file).values(),
                sreg: final(file).sreg.bits(),
                ..old(self)@
            }),
    {
        &mut self.register_file
    }

    /// Program space.
    pub fn program_space(&self) -> (space: &Space)
        ensures
            space@ == self@.program,
    {
        &self.program_space
    }

    /// Program space, for writing.
    pub fn program_space_mut(&mut self) -> (space: &mut Space)
        ensures
            space@ == old(self)@.program,
            final(self)@ == (State { program: final(space)@, ..old(self)@ }),
    {
        &mut self.program_space
    }

    /// Data space.
    pub fn memory(&self) -> (space: &Space)
        ensures
            space@ == self@.memory,
    {
        &self.memory
    }

    /// Data space, for writing.
    pub fn memory_mut(&mut self) -> (space: &mut Space)
        ensures
            space@ == old(self)@.memory,
            final(self)@ == (State { memory: final(space)@, ..old(self)@ }),
    {
        &mut self.memory
    }

    /// lhs = lhs + rhs
    pub fn add(&mut self, lhs: u8, rhs: u8) -> (res: Result<(), Error>)
        ensures
            (final(self)@, res) == old(self)@.effect(Instruction::Add(lhs, rhs)),
    {
        let (d, s) = self.operands(lhs, rhs)?;
        self.write_arith(lhs, d as u16 + s as u16)
    }

    /// lhs = lhs + rhs + carry
    pub fn adc(&mut self, lhs: u8, rhs: u8) -> (res: Result<(), Error>)
        ensures
            (final(self)@, res) == old(self)@.effect(Instruction::Adc(lhs, rhs)),
    {
        let c: u16 = if self.register_file.sreg_flag(CARRY_FLAG) {
            1
        } else {
            0
        };
        let (d, s) = self.operands(lhs, rhs)?;
        self.write_arith(lhs, d as u16 + s as u16 + c)
    }

    /// The pair at `rd` grows by `imm`.
    pub fn adiw(&mut self, rd: u8, imm: u8) -> (res: Result<(), Error>)
        ensures
            (final(self)@, res) == old(self)@.effect(Instruction::Adiw(rd, imm)),
    {
        self.adjust_word(rd, imm as i32)
    }

    /// lhs = lhs - rhs
    pub fn sub(&mut self, lhs: u8, rhs: u8) -> (res: Result<(), Error>)
        ensures
            (final(self)@, res) == old(self)@.effect(Instruction::Sub(lhs, rhs)),
    {
        let (d, s) = self.operands(lhs, rhs)?;
        self.write_arith(lhs, offset16(d as u16, -(s as i32)))
    }

    /// lhs = lhs - rhs - carry
    pub fn sbc(&mut self, lhs: u8, rhs: u8) -> (res: Result<(), Error>)
        ensures
            (final(self)@, res) == old(self)@.effect(Instruction::Sbc(lhs, rhs)),
    {
        let c: i32 = if self.register_file.sreg_flag(CARRY_FLAG) {
            1
        } else {
            0
        };
        let (d, s) = self.operands(lhs, rhs)?;
        self.write_arith(lhs, offset16(d as u16, -(s as i32) - c))
    }

    /// rd = rd - imm
    pub fn subi(&mut self, rd: u8, imm: u8) -> (res: Result<(), Error>)
        ensures
            (final(self)@, res) == old(self)@.effect(Instruction::Subi(rd, imm)),
    {
        let d = self.register_file.gpr(rd)?;
        self.write_arith(rd, offset16(d as u16, -(imm as i32)))
    }

    /// rd = rd - imm - carry
    pub fn sbci(&mut self, rd: u8, imm: u8) -> (res: Result<(), Error>)
        ensures
            (final(self)@, res) == old(self)@.effect(Instruction::Sbci(rd, imm)),
    {
        let c: i32 = if self.register_file.sreg_flag(CARRY_FLAG) {
            1
        } else {
            0
        };
        let d = self.register_file.gpr(rd)?;
        self.write_arith(rd, offset16(d as u16, -(imm as i32) - c))
    }

    /// The pair at `rd` shrinks by `imm`.
    pub fn sbiw(&mut self, rd: u8, imm: u8) -> (res: Result<(), Error>)
        ensures
            (final(self)@, res) == old(self)@.effect(Instruction::Sbiw(rd, imm)),
    {
        self.adjust_word(rd, -(imm as i32))
    }

    /// Not executed: always fails, with the instruction's own bit pattern.
    pub fn mul(&mut self, rd: u8, rr: u8) -> (res: Result<(), Error>)
        ensures
            (final(self)@, res) == old(self)@.effect(Instruction::Mul(rd, rr)),
    {
        let bits: u32 = ((0x9C00u32 | ((rr as u32 & 0x10) << 5)) | ((rd as u32 & 0x1f) << 4))
            | (rr as u32 & 0x0f);
        Err(Error::UnknownInstruction(bits))
    }

    /// lhs = lhs & rhs; overflow is cleared.
    pub fn and(&mut self, lhs: u8, rhs: u8) -> (res: Result<(), Error>)
        ensures
            (final(self)@, res) == old(self)@.effect(Instruction::And(lhs, rhs)),
    {
        let (d, s) = self.operands(lhs, rhs)?;
        self.write_logic(lhs, d & s, true)
    }

    /// rd = rd & imm; overflow is cleared.
    pub fn andi(&mut self, rd: u8, imm: u8) -> (res: Result<(), Error>)
        ensures
            (final(self)@, res) == old(self)@.effect(Instruction::Andi(rd, imm)),
    {
        let d = self.register_file.gpr(rd)?;
        self.write_logic(rd, d & imm, true)
    }

    /// lhs = lhs | rhs
    pub fn or(&mut self, lhs: u8, rhs: u8) -> (res: Result<(), Error>)
        ensures
            (final(self)@, res) == old(self)@.effect(Instruction::Or(lhs, rhs)),
    {
        let (d, s) = self.operands(lhs, rhs)?;
        self.write_logic(lhs, d | s, false)
    }

    /// rd = rd | imm
    pub fn ori(&mut self, rd: u8, imm: u8) -> (res: Result<(), Error>)
        ensures
            (final(self)@, res) == old(self)@.effect(Instruction::Ori(rd, imm)),
    {
        let d = self.register_file.gpr(rd)?;
        self.write_logic(rd, d | imm, false)
    }

    /// lhs = lhs ^ rhs
    pub fn eor(&mut self, lhs: u8, rhs: u8) -> (res: Result<(), Error>)
        ensures
            (final(self)@, res) == old(self)@.effect(Instruction::Eor(lhs, rhs)),
    {
        let (d, s) = self.operands(lhs, rhs)?;
        self.write_logic(lhs, d ^ s, false)
    }

    /// rd = 0xff - rd; no flag changes.
    pub fn com(&mut self, rd: u8) -> (res: Result<(), Error>)
        ensures
            (final(self)@, res) == old(self)@.effect(Instruction::Com(rd)),
    {
        let d = self.register_file.gpr(rd)?;
        self.do_rd(rd, 0xff - d)
    }

    /// rd = -rd, modulo 256; no flag changes.
    pub fn neg(&mut self, rd: u8) -> (res: Result<(), Error>)
        ensures
            (final(self)@, res) == old(self)@.effect(Instruction::Neg(rd)),
    {
        let d = self.register_file.gpr(rd)?;
        self.do_rd(rd, offset8(0, -(d as i16)))
    }

    /// lhs = rhs
    pub fn mov(&mut self, lhs: u8, rhs: u8) -> (res: Result<(), Error>)
        ensures
            (final(self)@, res) == old(self)@.effect(Instruction::Mov(lhs, rhs)),
    {
        let (_, s) = self.operands(lhs, rhs)?;
        self.do_rd(lhs, s)
    }

    /// The pair at `lhs` receives the pair at `rhs`.
    pub fn movw(&mut self, lhs: u8, rhs: u8) -> (res: Result<(), Error>)
        ensures
            (final(self)@, res) == old(self)@.effect(Instruction::Movw(lhs, rhs)),
    {
        self.do_rdrr16(lhs, rhs)
    }

    /// Shifts `rd` left by one bit; the top bit is lost and no flag changes.
    pub fn lsl(&mut self, rd: u8) -> (res: Result<(), Error>)
        ensures
            (final(self)@, res) == old(self)@.unary(rd, old(self)@.reg(rd) << 1),
    {
        let d = self.register_file.gpr(rd)?;
        self.do_rd(rd, d << 1)
    }

    /// Shifts `rd` right by one bit; the low bit is lost and no flag changes.
    pub fn lsr(&mut self, rd: u8) -> (res: Result<(), Error>)
        ensures
            (final(self)@, res) == old(self)@.unary(rd, old(self)@.reg(rd) >> 1),
    {
        let d = self.register_file.gpr(rd)?;
        self.do_rd(rd, d >> 1)
    }

    /// rd = rd + 1, modulo 256; no flag changes.
    pub fn inc(&mut self, rd: u8) -> (res: Result<(), Error>)
        ensures
            (final(self)@, res) == old(self)@.effect(Instruction::Inc(rd)),
    {
        let d = self.register_file.gpr(rd)?;
        self.do_rd(rd, offset8(d, 1))
    }

    /// rd = rd - 1, modulo 256; no flag changes.
    pub fn dec(&mut self, rd: u8) -> (res: Result<(), Error>)
        ensures
            (final(self)@, res) == old(self)@.effect(Instruction::Dec(rd)),
    {
        let d = self.register_file.gpr(rd)?;
        self.do_rd(rd, offset8(d, -1))
    }

    /// Writes `rd` at the stack pointer, then moves the stack pointer down by one.
    pub fn push(&mut self, rd: u8) -> (res: Result<(), Error>)
        ensures
            (final(self)@, res) == old(self)@.effect(Instruction::Push(rd)),
    {
        let val = self.register_file.gpr(rd)?;
        let sp = self.register_file.gpr_pair_val(SP_LO_NUM)?;
        if sp == 0 {
            return Err(Error::StackOverflow);
        }
        self.memory.set_u8(sp as usize, val)?;
        self.register_file.set_gpr_pair(SP_LO_NUM, sp - 1)
    }

    /// Moves the stack pointer up by one, then reads `rd` from it.
    pub fn pop(&mut self, rd: u8) -> (res: Result<(), Error>)
        ensures
            (final(self)@, res) == old(self)@.effect(Instruction::Pop(rd)),
    {
        self.register_file.gpr(rd)?;
        let sp = offset16(self.register_file.gpr_pair_val(SP_LO_NUM)?, 1);
        if sp == 0 {
            return Err(Error::StackOverflow);
        }
        let val = self.memory.get_u8(sp as usize)?;
        self.register_file.set_gpr_pair(SP_LO_NUM, sp)?;
        self.register_file.set_gpr(rd, val)
    }

    /// Swaps the two nibbles of `rd`.
    pub fn swap(&mut self, rd: u8) -> (res: Result<(), Error>)
        ensures
            (final(self)@, res) == old(self)@.effect(Instruction::Swap(rd)),
    {
        let d = self.register_file.gpr(rd)?;
        self.do_rd(rd, ((d & 0x0f) << 4) | ((d & 0xf0) >> 4))
    }

    /// Compares `rd` with `rr`: sets the flags and stores nothing.
    pub fn cp(&mut self, rd: u8, rr: u8) -> (res: Result<(), Error>)
        ensures
            (final(self)@, res) == old(self)@.effect(Instruction::Cp(rd, rr)),
    {
        let (d, s) = self.compared_operands(rd, rr)?;
        self.update_sreg_cp(d, s);
        Ok(())
    }

    /// Compares `rd` with `rr` and the incoming carry: sets the flags and stores nothing.
    pub fn cpc(&mut self, rd: u8, rr: u8) -> (res: Result<(), Error>)
        ensures
            (final(self)@, res) == old(self)@.effect(Instruction::Cpc(rd, rr)),
    {
        let c: i32 = if self.register_file.sreg_flag(CARRY_FLAG) {
            1
        } else {
            0
        };
        let (d, s) = self.compared_operands(rd, rr)?;
        self.update_sreg_arithmetic(offset16(d as u16, -(s as i32) - c));
        Ok(())
    }

    /// Skips the next instruction if `rd` and `rr` are equal.
    pub fn cpse(&mut self, rd: u8, rr: u8) -> (res: Result<(), Error>)
        ensures
            (final(self)@, res) == old(self)@.effect(Instruction::Cpse(rd, rr)),
    {
        let (d, s) = self.compared_operands(rd, rr)?;
        if d == s {
            self.skip_next();
        }
        Ok(())
    }

    /// Has no effect.
    pub fn cpi(&mut self, _rd: u8, _imm: u8) -> (res: Result<(), Error>)
        ensures
            (final(self)@, res) == old(self)@.effect(Instruction::Cpi(_rd, _imm)),
    {
        Ok(())
    }

    /// rd = imm
    pub fn ldi(&mut self, rd: u8, imm: u8) -> (res: Result<(), Error>)
        ensures
            (final(self)@, res) == old(self)@.effect(Instruction::Ldi(rd, imm)),
    {
        self.do_rd(rd, imm)
    }

    /// Jumps to the byte address `k`.
    pub fn jmp(&mut self, k: u32) -> (res: Result<(), Error>)
        ensures
            (final(self)@, res) == old(self)@.effect(Instruction::Jmp(k)),
    {
        self.pc = k;
        Ok(())
    }

    /// Writes the return address at `SP - 1`, moves the stack pointer down by two and jumps to `k`.
    pub fn call(&mut self, k: u32) -> (res: Result<(), Error>)
        ensures
            (final(self)@, res) == old(self)@.effect(Instruction::Call(k)),
    {
        let return_addr = (self.pc & 0xffff) as u16;
        let sp = self.register_file.gpr_pair_val(SP_LO_NUM)?;
        if sp < 2 {
            return Err(Error::StackOverflow);
        }
        self.memory.set_u16((sp - 1) as usize, return_addr)?;
        self.register_file.set_gpr_pair(SP_LO_NUM, sp - 2)?;
        self.pc = k;
        Ok(())
    }

    /// Jumps by `k` bytes, modulo 2^32.
    pub fn rjmp(&mut self, k: i16) -> (res: Result<(), Error>)
        ensures
            (final(self)@, res) == old(self)@.effect(Instruction::Rjmp(k)),
    {
        self.pc = offset32(self.pc, k as i64);
        Ok(())
    }

    /// Has no effect.
    pub fn rcall(&mut self, _k: i16) -> (res: Result<(), Error>)
        ensures
            (final(self)@, res) == old(self)@.effect(Instruction::Rcall(_k)),
    {
        Ok(())
    }

    /// Branches if the zero flag is clear.
    pub fn brne(&mut self, k: i8) -> (res: Result<(), Error>)
        ensures
            (final(self)@, res) == old(self)@.effect(Instruction::Brne(k)),
    {
        let taken = self.register_file.sreg.is_clear(ZERO_FLAG);
        self.do_sreg_branch(k, taken);
        Ok(())
    }

    /// Branches if the zero flag is set.
    pub fn breq(&mut self, k: i8) -> (res: Result<(), Error>)
        ensures
            (final(self)@, res) == old(self)@.effect(Instruction::Breq(k)),
    {
        let taken = self.register_file.sreg.is_set(ZERO_FLAG);
        self.do_sreg_branch(k, taken);
        Ok(())
    }

    /// Not executed: always fails, with the instruction's own bit pattern.
    pub fn brbs(&mut self, flag: u8, k: i8) -> (res: Result<(), Error>)
        ensures
            (final(self)@, res) == old(self)@.effect(Instruction::Brbs(flag, k)),
    {
        let bits: u32 = (0xF000u32 | ((((k as u8) as u32 >> 1) & 0x7f) << 3)) | (flag as u32 & 0x7);
        Err(Error::UnknownInstruction(bits))
    }

    /// Not executed: always fails, with the instruction's own bit pattern.
    pub fn brbc(&mut self, flag: u8, k: i8) -> (res: Result<(), Error>)
        ensures
            (final(self)@, res) == old(self)@.effect(Instruction::Brbc(flag, k)),
    {
        let bits: u32 = (0xF400u32 | ((((k as u8) as u32 >> 1) & 0x7f) << 3)) | (flag as u32 & 0x7);
        Err(Error::UnknownInstruction(bits))
    }

    /// Branches if the carry flag is set.
    pub fn brcs(&mut self, k: i8) -> (res: Result<(), Error>)
        ensures
            (final(self)@, res) == old(self)@.effect(Instruction::Brcs(k)),
    {
        let taken = self.register_file.sreg.is_set(CARRY_FLAG);
        self.do_sreg_branch(k, taken);
        Ok(())
    }

    /// Branches if the carry flag is clear.
    pub fn brcc(&mut self, k: i8) -> (res: Result<(), Error>)
        ensures
            (final(self)@, res) == old(self)@.effect(Instruction::Brcc(k)),
    {
        let taken = self.register_file.sreg.is_clear(CARRY_FLAG);
        self.do_sreg_branch(k, taken);
        Ok(())
    }

    /// Branches if the carry flag is clear.
    pub fn brsh(&mut self, k: i8) -> (res: Result<(), Error>)
        ensures
            (final(self)@, res) == old(self)@.effect(Instruction::Brsh(k)),
    {
        let taken = self.register_file.sreg.is_clear(CARRY_FLAG);
        self.do_sreg_branch(k, taken);
        Ok(())
    }

    /// Branches if the carry flag is set.
    pub fn brlo(&mut self, k: i8) -> (res: Result<(), Error>)
        ensures
            (final(self)@, res) == old(self)@.effect(Instruction::Brlo(k)),
    {
        let taken = self.register_file.sreg.is_set(CARRY_FLAG);
        self.do_sreg_branch(k, taken);
        Ok(())
    }

    /// Branches if the negative flag is set.
    pub fn brmi(&mut self, k: i8) -> (res: Result<(), Error>)
        ensures
            (final(self)@, res) == old(self)@.effect(Instruction::Brmi(k)),
    {
        let taken = self.register_file.sreg.is_set(NEGATIVE_FLAG);
        self.do_sreg_branch(k, taken);
        Ok(())
    }

    /// Branches if the negative flag is clear.
    pub fn brpl(&mut self, k: i8) -> (res: Result<(), Error>)
        ensures
            (final(self)@, res) == old(self)@.effect(Instruction::Brpl(k)),
    {
        let taken = self.register_file.sreg.is_clear(NEGATIVE_FLAG);
        self.do_sreg_branch(k, taken);
        Ok(())
    }

    /// Branches if the sign flag is clear.
    pub fn brge(&mut self, k: i8) -> (res: Result<(), Error>)
        ensures
            (final(self)@, res) == old(self)@.effect(Instruction::Brge(k)),
    {
        let taken = self.register_file.sreg.is_clear(S_FLAG);
        self.do_sreg_branch(k, taken);
        Ok(())
    }

    /// Branches if the sign flag is set.
    pub fn brlt(&mut self, k: i8) -> (res: Result<(), Error>)
        ensures
            (final(self)@, res) == old(self)@.effect(Instruction::Brlt(k)),
    {
        let taken = self.register_file.sreg.is_set(S_FLAG);
        self.do_sreg_branch(k, taken);
        Ok(())
    }

    /// Branches if the half-carry flag is set.
    pub fn brhs(&mut self, k: i8) -> (res: Result<(), Error>)
        ensures
            (final(self)@, res) == old(self)@.effect(Instruction::Brhs(k)),
    {
        let taken = self.register_file.sreg.is_set(HALF_CARRY_FLAG);
        self.do_sreg_branch(k, taken);
        Ok(())
    }

    /// Branches if the half-carry flag is clear.
    pub fn brhc(&mut self, k: i8) -> (res: Result<(), Error>)
        ensures
            (final(self)@, res) == old(self)@.effect(Instruction::Brhc(k)),
    {
        let taken = self.register_file.sreg.is_clear(HALF_CARRY_FLAG);
        self.do_sreg_branch(k, taken);
        Ok(())
    }

    /// Branches if the transfer flag is set.
    pub fn brts(&mut self, k: i8) -> (res: Result<(), Error>)
        ensures
            (final(self)@, res) == old(self)@.effect(Instruction::Brts(k)),
    {
        let taken = self.register_file.sreg.is_set(TRANSFER_FLAG);
        self.do_sreg_branch(k, taken);
        Ok(())
    }

    /// Branches if the transfer flag is clear.
    pub fn brtc(&mut self, k: i8) -> (res: Result<(), Error>)
        ensures
            (final(self)@, res) == old(self)@.effect(Instruction::Brtc(k)),
    {
        let taken = self.register_file.sreg.is_clear(TRANSFER_FLAG);
        self.do_sreg_branch(k, taken);
        Ok(())
    }

    /// Branches if the overflow flag is set.
    pub fn brvs(&mut self, k: i8) -> (res: Result<(), Error>)
        ensures
            (final(self)@, res) == old(self)@.effect(Instruction::Brvs(k)),
    {
        let taken = self.register_file.sreg.is_set(OVERFLOW_FLAG);
        self.do_sreg_branch(k, taken);
        Ok(())
    }

    /// Branches if the overflow flag is clear.
    pub fn brvc(&mut self, k: i8) -> (res: Result<(), Error>)
        ensures
            (final(self)@, res) == old(self)@.effect(Instruction::Brvc(k)),
    {
        let taken = self.register_file.sreg.is_clear(OVERFLOW_FLAG);
        self.do_sreg_branch(k, taken);
        Ok(())
    }

    /// Branches if the interrupt flag is set.
    pub fn brie(&mut self, k: i8) -> (res: Result<(), Error>)
        ensures
            (final(self)@, res) == old(self)@.effect(Instruction::Brie(k)),
    {
        let taken = self.register_file.sreg.is_set(INTERRUPT_FLAG);
        self.do_sreg_branch(k, taken);
        Ok(())
    }

    /// Branches if the interrupt flag is clear.
    pub fn brid(&mut self, k: i8) -> (res: Result<(), Error>)
        ensures
            (final(self)@, res) == old(self)@.effect(Instruction::Brid(k)),
    {
        let taken = self.register_file.sreg.is_clear(INTERRUPT_FLAG);
        self.do_sreg_branch(k, taken);
        Ok(())
    }

    /// Moves the stack pointer up by two and jumps to the address read at `SP - 1`.
    pub fn ret(&mut self) -> (res: Result<(), Error>)
        ensures
            (final(self)@, res) == old(self)@.effect(Instruction::Ret),
    {
        let sp = self.register_file.gpr_pair_val(SP_LO_NUM)?;
        if sp > 0xfffd {
            return Err(Error::StackOverflow);
        }
        let return_addr = self.memory.get_u16((sp + 1) as usize)?;
        self.register_file.set_gpr_pair(SP_LO_NUM, sp + 2)?;
        self.pc = return_addr as u32;
        Ok(())
    }

    /// Returns as `ret` does, then sets the interrupt flag.
    pub fn reti(&mut self) -> (res: Result<(), Error>)
        ensures
            (final(self)@, res) == old(self)@.effect(Instruction::Reti),
    {
        self.ret()?;
        self.register_file.sreg_flag_set(INTERRUPT_FLAG);
        Ok(())
    }

    /// Sets the interrupt flag.
    pub fn sei(&mut self) -> (res: Result<(), Error>)
        ensures
            (final(self)@, res) == old(self)@.effect(Instruction::Sei),
    {
        self.register_file.sreg_flag_set(INTERRUPT_FLAG);
        Ok(())
    }

    /// Clears the interrupt flag.
    pub fn cli(&mut self) -> (res: Result<(), Error>)
        ensures
            (final(self)@, res) == old(self)@.effect(Instruction::Cli),
    {
        self.register_file.sreg_flag_clear(INTERRUPT_FLAG);
        Ok(())
    }

    /// Skips the next instruction if bit `b` of `r` is set.
    pub fn sbrs(&mut self, r: u8, b: u8) -> (res: Result<(), Error>)
        requires
            b < 8,
        ensures
            (final(self)@, res) == old(self)@.effect(Instruction::Sbrs(r, b)),
    {
        let value = self.register_file.gpr(r)?;
        if value & (1u8 << b) != 0 {
            self.skip_next();
        }
        Ok(())
    }

    /// Stores `rd` at the data address `k`.
    pub fn sts(&mut self, rd: u8, k: u16) -> (res: Result<(), Error>)
        ensures
            (final(self)@, res) == old(self)@.effect(Instruction::Sts(rd, k)),
    {
        let value = self.register_file.gpr(rd)?;
        self.memory.set_u8(k as usize, value)
    }

    /// Loads `rd` from the data address `k`.
    pub fn lds(&mut self, rd: u8, k: u16) -> (res: Result<(), Error>)
        ensures
            (final(self)@, res) == old(self)@.effect(Instruction::Lds(rd, k)),
    {
        let value = self.memory.get_u8(k as usize)?;
        self.do_rd(rd, value)
    }

    /// Loads `rd` from program space at the address in `Z`, which then moves
    /// up by one if `postinc`.
    pub fn lpm(&mut self, rd: u8, rz: u8, postinc: bool) -> (res: Result<(), Error>)
        requires
            rz == 30,
        ensures
            (final(self)@, res) == old(self)@.effect(Instruction::Lpm(rd, rz, postinc)),
    {
        let z = self.register_file.gpr_pair_val(rz)?;
        let value = self.program_space.get_u8(z as usize)?;
        self.register_file.set_gpr(rd, value)?;
        if postinc {
            self.register_file.set_gpr_pair(rz, offset16(z, 1))?;
        }
        Ok(())
    }

    /// Does nothing.
    pub fn nop(&mut self) -> (res: Result<(), Error>)
        ensures
            (final(self)@, res) == old(self)@.effect(Instruction::Nop),
    {
        Ok(())
    }

    /// Loads `rd` from I/O port `a`.
    pub fn _in(&mut self, rd: u8, a: u8) -> (res: Result<(), Error>)
        requires
            a <= 0b111111,
        ensures
            (final(self)@, res) == old(self)@.effect(Instruction::In(rd, a)),
    {
        let offset = SRAM_IO_OFFSET + a as u16;
        let io_val = self.memory.get_u8(offset as usize)?;
        self.do_rd(rd, io_val)
    }

    /// Stores `rd` to I/O port `a`.
    pub fn out(&mut self, a: u8, rd: u8) -> (res: Result<(), Error>)
        requires
            a <= 0b111111,
        ensures
            (final(self)@, res) == old(self)@.effect(Instruction::Out(a, rd)),
    {
        let offset = SRAM_IO_OFFSET + a as u16;
        let reg_val = self.register_file.gpr(rd)?;
        self.memory.set_u8(offset as usize, reg_val)
    }

    /// Sets bit `b` of I/O port `a`.
    pub fn sbi(&mut self, a: u8, b: u8) -> (res: Result<(), Error>)
        requires
            b < 8,
        ensures
            (final(self)@, res) == old(self)@.effect(Instruction::Sbi(a, b)),
    {
        self.do_io_ab(a, true, b)
    }

    /// Skips the next instruction if bit `b` of I/O port `a` is set.
    pub fn sbis(&mut self, a: u8, b: u8) -> (res: Result<(), Error>)
        requires
            b < 8,
        ensures
            (final(self)@, res) == old(self)@.effect(Instruction::Sbis(a, b)),
    {
        let offset = SRAM_IO_OFFSET + a as u16;
        let current = self.memory.get_u8(offset as usize)?;
        if current & (1u8 << b) != 0 {
            self.skip_next();
        }
        Ok(())
    }

    /// Clears bit `b` of I/O port `a`.
    pub fn cbi(&mut self, a: u8, b: u8) -> (res: Result<(), Error>)
        requires
            b < 8,
        ensures
            (final(self)@, res) == old(self)@.effect(Instruction::Cbi(a, b)),
    {
        self.do_io_ab(a, false, b)
    }

    /// Stores `reg` at the address in the pair `ptr`, then adjusts the pair as `variant` says.
    pub fn st(&mut self, ptr: u8, reg: u8, variant: Variant) -> (res: Result<(), Error>)
        ensures
            (final(self)@, res) == old(self)@.effect(Instruction::St(ptr, reg, variant)),
    {
        let addr = self.register_file.gpr_pair_val(ptr)?;
        let val = self.register_file.gpr(reg)?;
        self.memory.set_u8(addr as usize, val)?;
        self.handle_ld_st_variant(ptr, variant);
        Ok(())
    }

    /// Loads `reg` from the address in the pair `ptr`, then adjusts the pair as `variant` says.
    pub fn ld(&mut self, reg: u8, ptr: u8, variant: Variant) -> (res: Result<(), Error>)
        ensures
            (final(self)@, res) == old(self)@.effect(Instruction::Ld(reg, ptr, variant)),
    {
        let addr = self.register_file.gpr_pair_val(ptr)?;
        let val = self.memory.get_u8(addr as usize)?;
        self.register_file.set_gpr(reg, val)?;
        self.handle_ld_st_variant(ptr, variant);
        Ok(())
    }

    /// `std`: stores `reg` at the address in the pair `ptr` plus `imm`.
    pub fn store_displaced(&mut self, ptr: u8, imm: u8, reg: u8) -> (res: Result<(), Error>)
        ensures
            (final(self)@, res) == old(self)@.effect(Instruction::Std(ptr, imm, reg)),
    {
        let addr = offset16(self.register_file.gpr_pair_val(ptr)?, imm as i32);
        let val = self.register_file.gpr(reg)?;
        self.memory.set_u8(addr as usize, val)
    }

    /// `ldd`: loads `reg` from the address in the pair `ptr` plus `imm`.
    pub fn ldd(&mut self, reg: u8, ptr: u8, imm: u8) -> (res: Result<(), Error>)
        ensures
            (final(self)@, res) == old(self)@.effect(Instruction::Ldd(reg, ptr, imm)),
    {
        let addr = offset16(self.register_file.gpr_pair_val(ptr)?, imm as i32);
        let val = self.memory.get_u8(addr as usize)?;
        self.do_rd(reg, val)
    }

    /// Counts one tick on the clock that the machine keeps in data memory:
    /// a low part in the 16-bit value at `0x105` and a high part in the one
    /// at `0x107`. On a fault nothing is written.
    pub fn update_clock(&mut self) -> (r: Result<(), Error>)
        ensures
            match crate::state::clock_ticked(old(self)@.memory) {
                Ok(memory) => r == Ok::<(), Error>(()) && final(self)@ == old(self)@.store(memory),
                Err(e) => r == Err::<(), Error>(e) && final(self)@ == old(self)@,
            },
    {
        let clk_lo = self.memory.get_u16(0x105)? as u32;
        let clk_hi = self.memory.get_u16(0x107)? as u32;
        let clk: u32 = ((clk_hi << 8) | clk_lo);
        proof {
            assert(clk_hi <= 0xffff && clk_lo <= 0xffff ==> ((clk_hi << 8) | clk_lo) < 0x100_0000)
                by (bit_vector);
        }
        let clk: u32 = clk + 1;
        let clk_lo = (clk & 0xff) as u16;
        let clk_hi = (clk >> 8) as u16;
        self.memory.set_u16(0x105, clk_lo)?;
        self.memory.set_u16(0x107, clk_hi)?;
        Ok(())
    }

    /// Decodes the instruction at the program counter and records the size
    /// of the one behind it.
    fn fetch(&mut self) -> (r: Result<Instruction, Error>)
        ensures
            match old(self)@.fetched() {
                Err(e) => r == Err::<Instruction, Error>(e) && final(self)@ == old(self)@,
                Ok((inst, next_size)) => r == Ok::<Instruction, Error>(inst) && final(self)@
                    == (State { next_size, ..old(self)@ }) && inst.well_formed(),
            },
    {
        let at = self.pc as usize;
        let bytes = self.program_space.bytes();
        let inst = read_at(bytes, at)?;
        assert(at + inst.spec_size() <= bytes.len());
        let next = read_at(bytes, at + inst.size() as usize)?;
        self.size_of_next_instruction = next.size();
        Ok(inst)
    }

    /// Moves the program counter past `inst`, then executes it.
    pub fn execute(&mut self, inst: Instruction) -> (r: Result<(), Error>)
        requires
            inst.well_formed(),
        ensures
            (final(self)@, r) == old(self)@.execute(inst),
    {
        self.pc = offset32(self.pc, inst.size() as i64);
        match inst {
            Instruction::Inc(rd) => self.inc(rd),
            Instruction::Dec(rd) => self.dec(rd),
            Instruction::Com(rd) => self.com(rd),
            Instruction::Neg(rd) => self.neg(rd),
            Instruction::Push(rd) => self.push(rd),
            Instruction::Pop(rd) => self.pop(rd),
            Instruction::Swap(rd) => self.swap(rd),
            Instruction::Subi(rd, k) => self.subi(rd, k),
            Instruction::Sbci(rd, k) => self.sbci(rd, k),
            Instruction::Andi(rd, k) => self.andi(rd, k),
            Instruction::Ori(rd, k) => self.ori(rd, k),
            Instruction::Cpi(rd, k) => self.cpi(rd, k),
            Instruction::Ldi(rd, k) => self.ldi(rd, k),
            Instruction::Add(rd, rr) => self.add(rd, rr),
            Instruction::Adc(rd, rr) => self.adc(rd, rr),
            Instruction::Adiw(rd, k) => self.adiw(rd, k),
            Instruction::Sub(rd, rr) => self.sub(rd, rr),
            Instruction::Sbc(rd, rr) => self.sbc(rd, rr),
            Instruction::Sbiw(rd, k) => self.sbiw(rd, k),
            Instruction::Mul(rd, rr) => self.mul(rd, rr),
            Instruction::And(rd, rr) => self.and(rd, rr),
            Instruction::Or(rd, rr) => self.or(rd, rr),
            Instruction::Eor(rd, rr) => self.eor(rd, rr),
            Instruction::Cpse(rd, rr) => self.cpse(rd, rr),
            Instruction::Cp(rd, rr) => self.cp(rd, rr),
            Instruction::Cpc(rd, rr) => self.cpc(rd, rr),
            Instruction::Mov(rd, rr) => self.mov(rd, rr),
            Instruction::Movw(rd, rr) => self.movw(rd, rr),
            Instruction::Nop => self.nop(),
            Instruction::Ret => self.ret(),
            Instruction::Reti => self.reti(),
            Instruction::Sei => self.sei(),
            Instruction::Cli => self.cli(),
            Instruction::Sbrs(r, b) => self.sbrs(r, b),
            Instruction::In(rd, a) => self._in(rd, a),
            Instruction::Out(a, rd) => self.out(a, rd),
            Instruction::Sbi(a, b) => self.sbi(a, b),
            Instruction::Sbis(a, b) => self.sbis(a, b),
            Instruction::Cbi(a, b) => self.cbi(a, b),
            Instruction::Jmp(k) => self.jmp(k),
            Instruction::Call(k) => self.call(k),
            Instruction::Rjmp(k) => self.rjmp(k),
            Instruction::Rcall(k) => self.rcall(k),
            Instruction::Brbs(s, k) => self.brbs(s, k),
            Instruction::Brbc(s, k) => self.brbc(s, k),
            Instruction::Breq(k) => self.breq(k),
            Instruction::Brne(k) => self.brne(k),
            Instruction::Brcs(k) => self.brcs(k),
            Instruction::Brcc(k) => self.brcc(k),
            Instruction::Brsh(k) => self.brsh(k),
            Instruction::Brlo(k) => self.brlo(k),
            Instruction::Brmi(k) => self.brmi(k),
            Instruction::Brpl(k) => self.brpl(k),
            Instruction::Brge(k) => self.brge(k),
            Instruction::Brlt(k) => self.brlt(k),
            Instruction::Brhs(k) => self.brhs(k),
            Instruction::Brhc(k) => self.brhc(k),
            Instruction::Brts(k) => self.brts(k),
            Instruction::Brtc(k) => self.brtc(k),
            Instruction::Brvs(k) => self.brvs(k),
            Instruction::Brvc(k) => self.brvc(k),
            Instruction::Brie(k) => self.brie(k),
            Instruction::Brid(k) => self.brid(k),
            Instruction::Sts(rd, k) => self.sts(rd, k),
            Instruction::Lds(rd, k) => self.lds(rd, k),
            Instruction::Lpm(rd, z, postinc) => self.lpm(rd, z, postinc),
            Instruction::St(ptr, reg, variant) => self.st(ptr, reg, variant),
            Instruction::Std(ptr, imm, reg) => self.store_displaced(ptr, imm, reg),
            Instruction::Ld(reg, ptr, variant) => self.ld(reg, ptr, variant),
            Instruction::Ldd(reg, ptr, imm) => self.ldd(reg, ptr, imm),
        }
    }

    /// Reads `rr`, then `rd`.
    fn operands(&self, rd: u8, rr: u8) -> (r: Result<(u8, u8), Error>)
        ensures
            match self@.missing_operand(rd, rr) {
                Some(e) => r == Err::<(u8, u8), Error>(e),
                None => r == Ok::<(u8, u8), Error>((self@.reg(rd), self@.reg(rr))),
            },
    {
        let s = self.register_file.gpr(rr)?;
        let d = self.register_file.gpr(rd)?;
        Ok((d, s))
    }

    /// Reads `rd`, then `rr`.
    fn compared_operands(&self, rd: u8, rr: u8) -> (r: Result<(u8, u8), Error>)
        ensures
            match self@.missing_compared(rd, rr) {
                Some(e) => r == Err::<(u8, u8), Error>(e),
                None => r == Ok::<(u8, u8), Error>((self@.reg(rd), self@.reg(rr))),
            },
    {
        let d = self.register_file.gpr(rd)?;
        let s = self.register_file.gpr(rr)?;
        Ok((d, s))
    }

    /// Stores `val` in `rd`.
    fn do_rd(&mut self, rd: u8, val: u8) -> (r: Result<(), Error>)
        ensures
            (final(self)@, r) == old(self)@.unary(rd, val),
    {
        self.register_file.set_gpr(rd, val)
    }

    /// Copies the pair at `rr` to the pair at `rd`; both must be even.
    fn do_rdrr16(&mut self, rd: u8, rr: u8) -> (r: Result<(), Error>)
        ensures
            (final(self)@, r) == old(self)@.movw(rd, rr),
    {
        if rd % 2 != 0 {
            return Err(Error::RegisterPairOdd(rd));
        }
        let val = self.register_file.gpr_pair_val(rr)?;
        self.register_file.set_gpr_pair(rd, val)
    }

    /// Stores the low byte of `val` in `rd` and updates the flags from `val`.
    fn write_arith(&mut self, rd: u8, val: u16) -> (r: Result<(), Error>)
        ensures
            (final(self)@, r) == old(self)@.arith1(rd, val),
    {
        self.register_file.set_gpr(rd, (val & 0x00ff) as u8)?;
        self.update_sreg_arithmetic(val);
        Ok(())
    }

    /// Stores `val` in `rd` and updates the zero and negative flags from it.
    fn write_logic(&mut self, rd: u8, val: u8, clear_overflow: bool) -> (r: Result<(), Error>)
        ensures
            (final(self)@, r) == old(self)@.logic1(rd, val, clear_overflow),
    {
        self.register_file.set_gpr(rd, val)?;
        self.update_zero_flag(val == 0);
        self.update_negative_flag(val as u16);
        if clear_overflow {
            self.register_file.sreg_flag_clear(OVERFLOW_FLAG);
        }
        Ok(())
    }

    /// Moves the pair at `rd` by `delta` and updates the flags from the result.
    fn adjust_word(&mut self, rd: u8, delta: i32) -> (r: Result<(), Error>)
        requires
            -256 < delta < 256,
        ensures
            (final(self)@, r) == old(self)@.word(rd, delta as int),
    {
        let val = offset16(self.register_file.gpr_pair_val(rd)?, delta);
        self.register_file.set_gpr_pair(rd, val)?;
        self.update_sreg_arithmetic(val);
        Ok(())
    }

    /// Sets or clears bit `b` of I/O port `a`.
    fn do_io_ab(&mut self, a: u8, set: bool, b: u8) -> (r: Result<(), Error>)
        requires
            b < 8,
        ensures
            (final(self)@, r) == old(self)@.io_bit(a, set, b),
    {
        let memory_address = (SRAM_IO_OFFSET + a as u16) as usize;
        let current_value = self.memory.get_u8(memory_address)?;
        let new_value = if set {
            current_value | (1u8 << b)
        } else {
            current_value & !(1u8 << b)
        };
        self.memory.set_u8(memory_address, new_value)
    }

    /// Jumps by `k` bytes if `taken`.
    fn do_sreg_branch(&mut self, k: i8, taken: bool)
        ensures
            final(self)@.done() == old(self)@.branch(taken, k as int),
    {
        if taken {
            self.pc = offset32(self.pc, k as i64);
        }
    }

    /// Moves the program counter past the next instruction.
    fn skip_next(&mut self)
        ensures
            final(self)@ == old(self)@.skip(),
    {
        self.pc = offset32(self.pc, self.size_of_next_instruction as i64);
    }

    /// Updates the `V`, `C`, `H`, `N`, `Z`, and `S` status flags.
    fn update_sreg_arithmetic(&mut self, val: u16)
        ensures
            final(self)@ == old(self)@.flags(crate::state::arithmetic_flags(old(self)@.sreg, val)),
    {
        self.update_overflow_flag(val);
        self.update_carry_flag(val);
        self.update_half_carry_flag(val);
        self.update_negative_flag(val);
        self.update_zero_flag(val & 0x00ff == 0);
    }

    /// Updates the `V`, `N`, `S`, `Z` and `C` status flags for a comparison.
    fn update_sreg_cp(&mut self, rd_val: u8, rr_val: u8)
        ensures
            final(self)@ == old(self)@.flags(
                crate::state::compare_flags(old(self)@.sreg, rd_val, rr_val),
            ),
    {
        let val = offset16(rd_val as u16, -(rr_val as i32));
        self.update_overflow_flag(val);
        self.update_negative_flag(val);
        self.update_zero_flag(val == 0);
        self.register_file.sreg.set(CARRY_FLAG, rr_val > rd_val);
    }

    /// Sets the overflow flag if `val` overflows a `u8`.
    fn update_overflow_flag(&mut self, val: u16)
        ensures
            final(self)@ == old(self)@.flags(
                crate::sreg::with_flag(old(self)@.sreg, OVERFLOW_FLAG, val > 0xff),
            ),
    {
        let overflowed = val > 0xff;
        self.register_file.sreg.set(OVERFLOW_FLAG, overflowed);
    }

    /// Sets the carry flag from bit 8.
    fn update_carry_flag(&mut self, val: u16)
        ensures
            final(self)@ == old(self)@.flags(
                crate::sreg::with_flag(old(self)@.sreg, CARRY_FLAG, (val & 0b100000000) > 0),
            ),
    {
        let is_carry = (val & 0b100000000) > 0;
        self.register_file.sreg.set(CARRY_FLAG, is_carry);
    }

    /// Sets the half carry flag from bit 3.
    fn update_half_carry_flag(&mut self, val: u16)
        ensures
            final(self)@ == old(self)@.flags(
                crate::sreg::with_flag(old(self)@.sreg, HALF_CARRY_FLAG, (val & 0b1000) > 0),
            ),
    {
        let is_hcarry = (val & 0b1000) > 0;
        self.register_file.sreg.set(HALF_CARRY_FLAG, is_hcarry);
    }

    /// Sets the negative flag from bit 7, and the sign flag to its complement.
    fn update_negative_flag(&mut self, val: u16)
        ensures
            final(self)@ == old(self)@.flags(crate::state::negative_flags(old(self)@.sreg, val)),
    {
        let is_negative = (val & 0b10000000) > 0;
        self.register_file.sreg.set(NEGATIVE_FLAG, is_negative);
        self.register_file.sreg.set(S_FLAG, !is_negative);
    }

    /// Sets the zero flag to `is_zero`.
    fn update_zero_flag(&mut self, is_zero: bool)
        ensures
            final(self)@ == old(self)@.flags(
                crate::sreg::with_flag(old(self)@.sreg, ZERO_FLAG, is_zero),
            ),
    {
        self.register_file.sreg.set(ZERO_FLAG, is_zero);
    }

    /// Adjusts the pointer pair after an indirect access.
    fn handle_ld_st_variant(&mut self, ptr: u8, variant: Variant)
        ensures
            final(self)@ == old(self)@.moved(ptr, variant),
    {
        let step: i32 = match variant {
            Variant::Normal => {
                return ;
            },
            Variant::Predecrement => -(PTR_SIZE as i32),
            Variant::Postincrement => PTR_SIZE as i32,
        };
        match self.register_file.gpr_pair_val(ptr) {
            Ok(val) => {
                let _ = self.register_file.set_gpr_pair(ptr, offset16(val, step));
            },
            Err(_) => {},
        }
    }
}

} // verus!
