use vstd::prelude::*;
use crate::error::Error;
use crate::inst::binary::{decode16, decode_k16, decode_relcondbr};
use crate::inst::patterns::{k16_word, known_pattern_decides, relcondbr_word};
use crate::inst::{Instruction, Variant};
use crate::math::{wrap16, wrap32};
use crate::regs::{high_byte, low_byte, pair_value, SP_HI_NUM, SP_LO_NUM};
use crate::sreg::{
    flag_on, with_flag, CARRY_FLAG, HALF_CARRY_FLAG, INTERRUPT_FLAG, NEGATIVE_FLAG, OVERFLOW_FLAG,
    S_FLAG, TRANSFER_FLAG, ZERO_FLAG,
};
use crate::state::{arithmetic_flags, compare_flags, io_address, logic_flags, negative_flags, State};

verus! {

/// Whether `flag` is one of the eight status bits.
pub open spec fn is_status_bit(flag: u8) -> bool {
    flag == CARRY_FLAG || flag == ZERO_FLAG || flag == NEGATIVE_FLAG || flag == OVERFLOW_FLAG
        || flag == S_FLAG || flag == HALF_CARRY_FLAG || flag == TRANSFER_FLAG || flag
        == INTERRUPT_FLAG
}

/// Splitting a 16-bit value into its bytes and joining them again gives the
/// value back.
pub proof fn pair_of_bytes(val: u16)
    ensures
        pair_value(low_byte(val), high_byte(val)) == val,
{
    assert((((((val & 0xff00) >> 8) as u8) as u16) << 8) | (((val & 0x00ff) as u8) as u16) == val)
        by (bit_vector);
}

/// Writing a status bit makes it read back as written and leaves the other
/// seven as they were.
pub proof fn flag_write_reads_back(bits: u8, flag: u8, state: bool, other: u8)
    requires
        is_status_bit(flag),
        is_status_bit(other),
    ensures
        flag_on(with_flag(bits, flag, state), flag) == state,
        other != flag ==> flag_on(with_flag(bits, flag, state), other) == flag_on(bits, other),
{
    assert((flag == 1 || flag == 2 || flag == 4 || flag == 8 || flag == 16 || flag == 32 || flag
        == 64 || flag == 128) && (other == 1 || other == 2 || other == 4 || other == 8 || other
        == 16 || other == 32 || other == 64 || other == 128) ==> (bits | flag) & flag == flag && (
    bits & !flag) & flag != flag && (other != flag ==> (((bits | flag) & other == other) == (bits
        & other == other)) && (((bits & !flag) & other == other) == (bits & other == other))))
        by (bit_vector);
}

/// After the negative flag is updated, the sign flag is its complement, and
/// no other status bit has changed.
pub proof fn sign_complements_negative(sreg: u8, val: u16, other: u8)
    requires
        is_status_bit(other),
    ensures
        flag_on(negative_flags(sreg, val), NEGATIVE_FLAG) == ((val & 0b10000000) > 0),
        flag_on(negative_flags(sreg, val), S_FLAG) == !flag_on(
            negative_flags(sreg, val),
            NEGATIVE_FLAG,
        ),
        other != NEGATIVE_FLAG && other != S_FLAG ==> flag_on(negative_flags(sreg, val), other)
            == flag_on(sreg, other),
{
    let negative = (val & 0b10000000) > 0;
    let n = with_flag(sreg, NEGATIVE_FLAG, negative);
    flag_write_reads_back(sreg, NEGATIVE_FLAG, negative, other);
    flag_write_reads_back(n, S_FLAG, !negative, other);
    flag_write_reads_back(n, S_FLAG, !negative, NEGATIVE_FLAG);
}

/// What each status bit reads after an arithmetic result `val`: overflow if
/// `val` exceeds `0xff`, carry from bit 8, half-carry from bit 3, negative
/// from bit 7, sign its complement, zero if the low byte is 0; the transfer
/// and interrupt flags stay.
pub proof fn arithmetic_flags_read_back(sreg: u8, val: u16)
    ensures
        flag_on(arithmetic_flags(sreg, val), OVERFLOW_FLAG) == (val > 0xff),
        flag_on(arithmetic_flags(sreg, val), CARRY_FLAG) == ((val & 0b100000000) > 0),
        flag_on(arithmetic_flags(sreg, val), HALF_CARRY_FLAG) == ((val & 0b1000) > 0),
        flag_on(arithmetic_flags(sreg, val), NEGATIVE_FLAG) == ((val & 0b10000000) > 0),
        flag_on(arithmetic_flags(sreg, val), S_FLAG) == !((val & 0b10000000) > 0),
        flag_on(arithmetic_flags(sreg, val), ZERO_FLAG) == (val & 0x00ff == 0),
        flag_on(arithmetic_flags(sreg, val), TRANSFER_FLAG) == flag_on(sreg, TRANSFER_FLAG),
        flag_on(arithmetic_flags(sreg, val), INTERRUPT_FLAG) == flag_on(sreg, INTERRUPT_FLAG),
{
    let v = with_flag(sreg, OVERFLOW_FLAG, val > 0xff);
    let c = with_flag(v, CARRY_FLAG, (val & 0b100000000) > 0);
    let h = with_flag(c, HALF_CARRY_FLAG, (val & 0b1000) > 0);
    let n = negative_flags(h, val);
    assert forall|other: u8| is_status_bit(other) implies flag_on(
        arithmetic_flags(sreg, val),
        other,
    ) == (if other == OVERFLOW_FLAG {
        val > 0xff
    } else if other == CARRY_FLAG {
        (val & 0b100000000) > 0
    } else if other == HALF_CARRY_FLAG {
        (val & 0b1000) > 0
    } else if other == NEGATIVE_FLAG {
        (val & 0b10000000) > 0
    } else if other == S_FLAG {
        !((val & 0b10000000) > 0)
    } else if other == ZERO_FLAG {
        val & 0x00ff == 0
    } else {
        flag_on(sreg, other)
    }) by {
        flag_write_reads_back(sreg, OVERFLOW_FLAG, val > 0xff, other);
        flag_write_reads_back(v, CARRY_FLAG, (val & 0b100000000) > 0, other);
        flag_write_reads_back(c, HALF_CARRY_FLAG, (val & 0b1000) > 0, other);
        sign_complements_negative(h, val, other);
        flag_write_reads_back(n, ZERO_FLAG, val & 0x00ff == 0, other);
    }
    assert(is_status_bit(OVERFLOW_FLAG) && is_status_bit(CARRY_FLAG) && is_status_bit(
        HALF_CARRY_FLAG,
    ) && is_status_bit(NEGATIVE_FLAG) && is_status_bit(S_FLAG) && is_status_bit(ZERO_FLAG)
        && is_status_bit(TRANSFER_FLAG) && is_status_bit(INTERRUPT_FLAG));
}

/// What each status bit reads after a logical result `val`: zero if `val` is
/// 0, negative from bit 7, sign its complement, overflow clear where the
/// instruction clears it; every other flag stays.
pub proof fn logic_flags_read_back(sreg: u8, val: u8, clear_overflow: bool)
    ensures
        flag_on(logic_flags(sreg, val, clear_overflow), ZERO_FLAG) == (val == 0),
        flag_on(logic_flags(sreg, val, clear_overflow), NEGATIVE_FLAG) == ((val as u16 & 0b10000000)
            > 0),
        flag_on(logic_flags(sreg, val, clear_overflow), S_FLAG) == !flag_on(
            logic_flags(sreg, val, clear_overflow),
            NEGATIVE_FLAG,
        ),
        flag_on(logic_flags(sreg, val, clear_overflow), OVERFLOW_FLAG) == (!clear_overflow
            && flag_on(sreg, OVERFLOW_FLAG)),
        flag_on(logic_flags(sreg, val, clear_overflow), CARRY_FLAG) == flag_on(sreg, CARRY_FLAG),
        flag_on(logic_flags(sreg, val, clear_overflow), HALF_CARRY_FLAG) == flag_on(
            sreg,
            HALF_CARRY_FLAG,
        ),
        flag_on(logic_flags(sreg, val, clear_overflow), TRANSFER_FLAG) == flag_on(
            sreg,
            TRANSFER_FLAG,
        ),
        flag_on(logic_flags(sreg, val, clear_overflow), INTERRUPT_FLAG) == flag_on(
            sreg,
            INTERRUPT_FLAG,
        ),
{
    let z = with_flag(sreg, ZERO_FLAG, val == 0);
    let n = negative_flags(z, val as u16);
    assert forall|other: u8| is_status_bit(other) implies flag_on(
        logic_flags(sreg, val, clear_overflow),
        other,
    ) == (if other == ZERO_FLAG {
        val == 0
    } else if other == NEGATIVE_FLAG {
        (val as u16 & 0b10000000) > 0
    } else if other == S_FLAG {
        !((val as u16 & 0b10000000) > 0)
    } else if other == OVERFLOW_FLAG {
        !clear_overflow && flag_on(sreg, OVERFLOW_FLAG)
    } else {
        flag_on(sreg, other)
    }) by {
        flag_write_reads_back(sreg, ZERO_FLAG, val == 0, other);
        sign_complements_negative(z, val as u16, other);
        flag_write_reads_back(n, OVERFLOW_FLAG, false, other);
    }
    assert(is_status_bit(OVERFLOW_FLAG) && is_status_bit(CARRY_FLAG) && is_status_bit(
        HALF_CARRY_FLAG,
    ) && is_status_bit(NEGATIVE_FLAG) && is_status_bit(S_FLAG) && is_status_bit(ZERO_FLAG)
        && is_status_bit(TRANSFER_FLAG) && is_status_bit(INTERRUPT_FLAG));
}

/// What each status bit reads after comparing `rd` with `rr`: zero if they
/// are equal, carry and overflow if `rr` is the larger, negative from bit 7
/// of the difference, sign its complement; half-carry, transfer and
/// interrupt stay.
pub proof fn compare_flags_read_back(sreg: u8, rd: u8, rr: u8)
    ensures
        flag_on(compare_flags(sreg, rd, rr), ZERO_FLAG) == (rd == rr),
        flag_on(compare_flags(sreg, rd, rr), CARRY_FLAG) == (rr > rd),
        flag_on(compare_flags(sreg, rd, rr), OVERFLOW_FLAG) == (rr > rd),
        flag_on(compare_flags(sreg, rd, rr), NEGATIVE_FLAG) == ((wrap16(rd - rr) & 0b10000000) > 0),
        flag_on(compare_flags(sreg, rd, rr), S_FLAG) == !flag_on(
            compare_flags(sreg, rd, rr),
            NEGATIVE_FLAG,
        ),
        flag_on(compare_flags(sreg, rd, rr), HALF_CARRY_FLAG) == flag_on(sreg, HALF_CARRY_FLAG),
        flag_on(compare_flags(sreg, rd, rr), TRANSFER_FLAG) == flag_on(sreg, TRANSFER_FLAG),
        flag_on(compare_flags(sreg, rd, rr), INTERRUPT_FLAG) == flag_on(sreg, INTERRUPT_FLAG),
{
    let val = wrap16(rd - rr);
    let v = with_flag(sreg, OVERFLOW_FLAG, val > 0xff);
    let n = negative_flags(v, val);
    let z = with_flag(n, ZERO_FLAG, val == 0);
    assert forall|other: u8| is_status_bit(other) implies flag_on(
        compare_flags(sreg, rd, rr),
        other,
    ) == (if other == OVERFLOW_FLAG {
        val > 0xff
    } else if other == NEGATIVE_FLAG {
        (val & 0b10000000) > 0
    } else if other == S_FLAG {
        !((val & 0b10000000) > 0)
    } else if other == ZERO_FLAG {
        val == 0
    } else if other == CARRY_FLAG {
        rr > rd
    } else {
        flag_on(sreg, other)
    }) by {
        flag_write_reads_back(sreg, OVERFLOW_FLAG, val > 0xff, other);
        sign_complements_negative(v, val, other);
        flag_write_reads_back(n, ZERO_FLAG, val == 0, other);
        flag_write_reads_back(z, CARRY_FLAG, rr > rd, other);
    }
    assert(is_status_bit(OVERFLOW_FLAG) && is_status_bit(CARRY_FLAG) && is_status_bit(
        HALF_CARRY_FLAG,
    ) && is_status_bit(NEGATIVE_FLAG) && is_status_bit(S_FLAG) && is_status_bit(ZERO_FLAG)
        && is_status_bit(TRANSFER_FLAG) && is_status_bit(INTERRUPT_FLAG));
}

/// After an 8-bit addition the carry flag is set exactly when the sum does
/// not fit in eight bits, and the zero flag exactly when the stored byte is 0.
pub proof fn addition_carry_and_zero(s: State, rd: u8, rr: u8)
    requires
        s.has(rd),
        s.has(rr),
    ensures
        s.effect(Instruction::Add(rd, rr)).1 is Ok,
        flag_on(s.effect(Instruction::Add(rd, rr)).0.sreg, CARRY_FLAG) == (s.reg(rd) + s.reg(rr)
            > 0xff),
        flag_on(s.effect(Instruction::Add(rd, rr)).0.sreg, ZERO_FLAG) == (s.effect(
            Instruction::Add(rd, rr),
        ).0.reg(rd) == 0),
        s.effect(Instruction::Add(rd, rr)).0.reg(rd) as int == (s.reg(rd) + s.reg(rr)) % 256,
{
    let a = s.reg(rd);
    let b = s.reg(rr);
    let val = (a + b) as u16;
    arithmetic_flags_read_back(s.sreg, val);
    assert(val == (a as u16) + (b as u16));
    assert(val <= 510 ==> (((val & 0b100000000) > 0) == (val > 0xff)) && ((val & 0x00ff) as u8 == 0
        <==> val & 0x00ff == 0) && ((val & 0x00ff) as u8) as u16 == val % 256) by (bit_vector);
}

/// A value pushed is the value popped: after `push r` and then `pop q`,
/// register `q` holds what `r` held, and unless `q` is part of the stack
/// pointer, the stack pointer is back where it was.
pub proof fn push_then_pop_restores(s: State, r: u8, q: u8)
    requires
        s.push(r).1 is Ok,
        s.has(q),
    ensures
        s.push(r).0.pop(q).1 is Ok,
        s.push(r).0.pop(q).0.reg(q) == s.reg(r),
        q != SP_LO_NUM && q != SP_HI_NUM ==> s.push(r).0.pop(q).0.pair(SP_LO_NUM) == s.pair(
            SP_LO_NUM,
        ),
{
    let sp = s.pair(SP_LO_NUM)->Ok_0;
    pair_of_bytes((sp - 1) as u16);
    pair_of_bytes(sp);
}

/// A call followed at once by a return comes back behind the call: the
/// program counter is what it was before the call, given that it fits in the
/// 16 bits that the stack holds of it, and the stack pointer is restored.
pub proof fn call_then_ret_restores(s: State, k: u32)
    requires
        s.call(k).1 is Ok,
        s.pc <= 0xffff,
    ensures
        s.call(k).0.pc == k,
        s.call(k).0.ret().1 is Ok,
        s.call(k).0.ret().0.pc == s.pc,
        s.call(k).0.ret().0.pair(SP_LO_NUM) == s.pair(SP_LO_NUM),
        s.call(k).0.ret().0.memory == s.call(k).0.memory,
{
    let sp = s.pair(SP_LO_NUM)->Ok_0;
    let pc = s.pc;
    pair_of_bytes((sp - 2) as u16);
    pair_of_bytes(sp);
    pair_of_bytes((pc & 0xffff) as u16);
    assert(pc <= 0xffff ==> ((pc & 0xffff) as u16) as u32 == pc) by (bit_vector);
}

/// A step that executes a call, followed by a step that executes a return,
/// leaves the program counter at the address behind the call, given that
/// this address fits in the 16 bits that the stack holds of it, and the
/// stack pointer where it was.
pub proof fn call_step_then_ret_step_returns(s: State, k: u32, after_call: u8, after_ret: u8)
    requires
        s.fetched() == Ok::<(Instruction, u8), Error>((Instruction::Call(k), after_call)),
        s.step().1 is Ok,
        s.step().0.fetched() == Ok::<(Instruction, u8), Error>((Instruction::Ret, after_ret)),
        s.pc + 4 <= 0xffff,
    ensures
        s.step().0.pc == k,
        s.step().0.step().1 == Ok::<(Instruction, u32), Error>((Instruction::Ret, k)),
        s.step().0.step().0.pc == s.pc + 4,
        s.step().0.step().0.pair(SP_LO_NUM) == s.pair(SP_LO_NUM),
{
    let called = (State { next_size: after_call, ..s }).jump(wrap32(s.pc + 4));
    call_then_ret_restores(called, k);
}

/// Whether `inst` is a skip instruction whose condition holds in `s`.
pub open spec fn skips(s: State, inst: Instruction) -> bool {
    match inst {
        Instruction::Cpse(rd, rr) => s.has(rd) && s.has(rr) && s.reg(rd) == s.reg(rr),
        Instruction::Sbrs(r, b) => s.has(r) && s.reg(r) & (1u8 << b) != 0,
        Instruction::Sbis(a, b) => io_address(a) < s.memory.len() && s.memory[io_address(a) as int]
            & (1u8 << b) != 0,
        _ => false,
    }
}

/// A skip instruction whose condition holds moves the program counter past
/// itself and past the instruction behind it, and changes nothing else.
pub proof fn skip_passes_next_instruction(s: State, inst: Instruction, next_size: u8)
    requires
        s.fetched() == Ok::<(Instruction, u8), Error>((inst, next_size)),
        skips(s, inst),
    ensures
        s.step().1 == Ok::<(Instruction, u32), Error>((inst, s.pc)),
        s.step().0 == (State {
            pc: wrap32(wrap32(s.pc + inst.spec_size()) + next_size),
            next_size,
            ..s
        }),
        s.pc + inst.spec_size() + next_size <= u32::MAX ==> s.step().0.pc == s.pc
            + inst.spec_size() + next_size,
{
}

/// A skip instruction whose condition does not hold moves the program
/// counter past itself only.
pub proof fn no_skip_passes_one_instruction(s: State, inst: Instruction, next_size: u8)
    requires
        s.fetched() == Ok::<(Instruction, u8), Error>((inst, next_size)),
        inst is Cpse || inst is Sbrs || inst is Sbis,
        s.step().1 is Ok,
        !skips(s, inst),
    ensures
        s.step().0 == (State { pc: wrap32(s.pc + inst.spec_size()), next_size, ..s }),
{
}

/// An indirect store writes at the address that the pointer pair held before
/// the instruction, and then moves the pair: up by 2 when post-incrementing,
/// down by 2 when pre-decrementing, not at all otherwise.
pub proof fn indirect_store_moves_pointer(s: State, ptr: u8, reg: u8, variant: Variant)
    requires
        s.store_indirect(ptr, reg, variant).1 is Ok,
    ensures
        s.pair(ptr) is Ok,
        s.store_indirect(ptr, reg, variant).0.memory == s.memory.update(
            s.pair(ptr)->Ok_0 as int,
            s.reg(reg),
        ),
        s.store_indirect(ptr, reg, variant).0.pair(ptr) == Ok::<u16, Error>(
            match variant {
                Variant::Normal => s.pair(ptr)->Ok_0,
                Variant::Postincrement => wrap16(s.pair(ptr)->Ok_0 + 2),
                Variant::Predecrement => wrap16(s.pair(ptr)->Ok_0 - 2),
            },
        ),
{
    let p = s.pair(ptr)->Ok_0;
    pair_of_bytes(wrap16(p + 2));
    pair_of_bytes(wrap16(p - 2));
}

/// A store or load with displacement never changes the pointer pair: the
/// store changes no register at all, the load only its destination.
pub proof fn displaced_access_keeps_pointer(s: State, ptr: u8, imm: u8, reg: u8)
    ensures
        s.store_displaced(ptr, imm, reg).0.regs == s.regs,
        s.load_displaced(reg, ptr, imm).1 is Ok ==> s.load_displaced(reg, ptr, imm).0.regs
            == s.regs.update(reg as int, s.load_displaced(reg, ptr, imm).0.reg(reg)),
{
}

/// On a register file that holds `r0` to `r31` and the stack pointer, an
/// instruction as the decoder gives it never fails for want of a register
/// or for an odd pair: it succeeds or reports a stack overflow, a memory
/// fault or, for `mul`, that it is not executed.
pub proof fn decoded_instruction_finds_registers(s: State, inst: Instruction)
    requires
        s.regs.len() >= 34,
        inst.in_range(),
    ensures
        !(s.effect(inst).1 matches Err(Error::RegisterDoesNotExist(_))),
        !(s.effect(inst).1 matches Err(Error::RegisterPairOdd(_))),
        s.effect(inst).1 matches Err(Error::UnknownInstruction(_)) ==> inst is Mul,
{
}

/// An instruction is atomic: one that fails has changed nothing.
pub proof fn failed_instruction_changes_nothing(s: State, inst: Instruction)
    requires
        s.effect(inst).1 is Err,
    ensures
        s.effect(inst).0 == s,
{
}

/// A step that fails in the fetch leaves the machine as it was; one that
/// fails in the instruction leaves it with the program counter behind the
/// instruction and the size of the next one recorded, and nothing else
/// changed.
pub proof fn failed_step_changes_little(s: State)
    requires
        s.step().1 is Err,
    ensures
        s.fetched() is Err ==> s.step().0 == s,
        s.fetched() matches Ok((inst, next_size)) ==> s.step().0 == (State {
            pc: wrap32(s.pc + inst.spec_size()),
            next_size,
            ..s
        }),
{
    if let Ok((inst, next_size)) = s.fetched() {
        failed_instruction_changes_nothing(
            (State { next_size, ..s }).jump(wrap32(s.pc + inst.spec_size())),
            inst,
        );
    }
}

/// No instruction changes the size of the register file or of data space,
/// and none writes to program space.
pub proof fn instruction_keeps_layout(s: State, inst: Instruction)
    ensures
        s.effect(inst).0.regs.len() == s.regs.len(),
        s.effect(inst).0.memory.len() == s.memory.len(),
        s.effect(inst).0.program == s.program,
{
}

/// A step changes neither the size of the register file or of data space
/// nor anything in program space, whether it succeeds or fails.
pub proof fn step_keeps_layout(s: State)
    ensures
        s.step().0.regs.len() == s.regs.len(),
        s.step().0.memory.len() == s.memory.len(),
        s.step().0.program == s.program,
{
    if let Ok((inst, next_size)) = s.fetched() {
        instruction_keeps_layout(
            (State { next_size, ..s }).jump(wrap32(s.pc + inst.spec_size())),
            inst,
        );
    }
}

/// The byte offset of a relative jump, call or conditional branch, if `inst`
/// is one.
pub open spec fn relative_offset(inst: Instruction) -> Option<int> {
    match inst {
        Instruction::Rjmp(k) | Instruction::Rcall(k) => Some(k as int),
        Instruction::Breq(k) | Instruction::Brne(k) | Instruction::Brcs(k) | Instruction::Brcc(k)
        | Instruction::Brsh(k) | Instruction::Brlo(k) | Instruction::Brmi(k) | Instruction::Brpl(k)
        | Instruction::Brge(k) | Instruction::Brlt(k) | Instruction::Brhs(k) | Instruction::Brhc(k)
        | Instruction::Brts(k) | Instruction::Brtc(k) | Instruction::Brvs(k) | Instruction::Brvc(k)
        | Instruction::Brie(k) | Instruction::Brid(k) => Some(k as int),
        _ => None,
    }
}

/// The value of a bit field as a two's-complement number, where `half` is
/// the weight of the field's top bit.
pub open spec fn signed_field(field: int, half: int) -> int {
    if field >= half {
        field - 2 * half
    } else {
        field
    }
}

/// Every word `1111 0fkk kkkk ksss` decodes to a conditional branch whose
/// byte offset is twice the 7-bit field `k` read as a signed number: negative
/// exactly when the field's top bit is set.
pub proof fn branch_offset_is_sign_extended(bits: u16)
    requires
        bits & 0xF800 == 0xF000,
    ensures
        decode16(bits) is Some,
        decode16(bits) == decode_relcondbr(bits),
        relative_offset(decode16(bits)->Some_0) == Some(
            2 * signed_field(((bits & 0x03F8) >> 3) as int, 64),
        ),
        bits & 0x0200 != 0 <==> relative_offset(decode16(bits)->Some_0)->Some_0 < 0,
{
    known_pattern_decides(bits);
    assert(bits & 0xF800 == 0xF000 ==> relcondbr_word(bits)) by (bit_vector);
    assert((0b0000_0011_1111_1000 & bits) >> 3 <= 127 && (0b0000_0011_1111_1000 & bits) >> 3 == (
    bits & 0x03F8) >> 3 && (bits & 0x0200 != 0 <==> (bits & 0x03F8) >> 3 >= 64)) by (bit_vector);
}

/// Every word `110f kkkk kkkk kkkk` decodes to a relative jump or call whose
/// byte offset is twice the 12-bit field `k` read as a signed number:
/// negative exactly when the field's top bit is set.
pub proof fn jump_offset_is_sign_extended(bits: u16)
    requires
        bits & 0xE000 == 0xC000,
    ensures
        decode16(bits) is Some,
        decode16(bits) == decode_k16(bits),
        bits & 0x1000 == 0 <==> decode16(bits)->Some_0 is Rjmp,
        bits & 0x1000 != 0 <==> decode16(bits)->Some_0 is Rcall,
        relative_offset(decode16(bits)->Some_0) == Some(
            2 * signed_field((bits & 0x0FFF) as int, 2048),
        ),
        bits & 0x0800 != 0 <==> relative_offset(decode16(bits)->Some_0)->Some_0 < 0,
{
    known_pattern_decides(bits);
    assert(bits & 0xE000 == 0xC000 ==> k16_word(bits) && (bits & 0x1000 == 0 <==> bits & 0xF000
        == 0xC000) && (bits & 0x1000 != 0 <==> bits & 0xF000 == 0xD000)) by (bit_vector);
    assert(bits & 0x0fff <= 4095 && (bits & 0x0800 != 0 <==> bits & 0x0fff >= 2048))
        by (bit_vector);
}

/// A branch that is taken moves the program counter by its offset: backward
/// by `-k` bytes for a negative `k` that does not reach below address 0.
pub proof fn taken_branch_moves_by_offset(s: State, k: i8)
    requires
        0 <= s.pc + k <= u32::MAX,
    ensures
        s.branch(true, k as int).0.pc == s.pc + k,
        s.branch(false, k as int).0.pc == s.pc,
        k < 0 ==> s.branch(true, k as int).0.pc < s.pc,
{
}

} // verus!
