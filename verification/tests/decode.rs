use avr_core::error::Error;
use avr_core::inst::binary::{read, read_at, try_read16, try_read32};
use avr_core::inst::{Instruction, Variant};

fn word(bits: u16) -> Result<Instruction, Error> {
    read(&[(bits & 0xff) as u8, (bits >> 8) as u8])
}

fn double(first: u16, second: u16) -> Result<Instruction, Error> {
    read(&[(first & 0xff) as u8, (first >> 8) as u8, (second & 0xff) as u8, (second >> 8) as u8])
}

#[test]
fn decodes_fixed_words() {
    assert_eq!(word(0x0000), Ok(Instruction::Nop));
    assert_eq!(word(0x9508), Ok(Instruction::Ret));
    assert_eq!(word(0x9518), Ok(Instruction::Reti));
    assert_eq!(word(0x95C8), Ok(Instruction::Lpm(0, 30, false)));
    assert_eq!(word(0x9478), Ok(Instruction::Sei));
    assert_eq!(word(0x94F8), Ok(Instruction::Cli));
}

#[test]
fn decodes_single_register_family() {
    assert_eq!(word(0x9503), Ok(Instruction::Inc(16)));
    assert_eq!(word(0x945A), Ok(Instruction::Dec(5)));
    assert_eq!(word(0x9410), Ok(Instruction::Com(1)));
    assert_eq!(word(0x9421), Ok(Instruction::Neg(2)));
    assert_eq!(word(0x9432), Ok(Instruction::Swap(3)));
    assert_eq!(word(0x931F), Ok(Instruction::Push(17)));
    assert_eq!(word(0x911F), Ok(Instruction::Pop(17)));
    assert_eq!(word(0x95F3), Ok(Instruction::Inc(31)));
}

#[test]
fn decodes_register_immediate_family_with_bias() {
    assert_eq!(word(0xEA0B), Ok(Instruction::Ldi(16, 0xAB)));
    assert_eq!(word(0xEFFF), Ok(Instruction::Ldi(31, 0xFF)));
    assert_eq!(word(0x5011), Ok(Instruction::Subi(17, 1)));
    assert_eq!(word(0x4011), Ok(Instruction::Sbci(17, 1)));
    assert_eq!(word(0x7011), Ok(Instruction::Andi(17, 1)));
    assert_eq!(word(0x6011), Ok(Instruction::Ori(17, 1)));
    assert_eq!(word(0x3011), Ok(Instruction::Cpi(17, 1)));
}

#[test]
fn decodes_two_register_family() {
    assert_eq!(word(0x0C12), Ok(Instruction::Add(1, 2)));
    assert_eq!(word(0x0F12), Ok(Instruction::Add(17, 18)));
    assert_eq!(word(0x1C34), Ok(Instruction::Adc(3, 4)));
    assert_eq!(word(0x1856), Ok(Instruction::Sub(5, 6)));
    assert_eq!(word(0x0878), Ok(Instruction::Sbc(7, 8)));
    assert_eq!(word(0x9C9A), Ok(Instruction::Mul(9, 10)));
    assert_eq!(word(0x20BC), Ok(Instruction::And(11, 12)));
    assert_eq!(word(0x28DE), Ok(Instruction::Or(13, 14)));
    assert_eq!(word(0x24F0), Ok(Instruction::Eor(15, 0)));
    assert_eq!(word(0x1012), Ok(Instruction::Cpse(1, 2)));
    assert_eq!(word(0x1412), Ok(Instruction::Cp(1, 2)));
    assert_eq!(word(0x0412), Ok(Instruction::Cpc(1, 2)));
    assert_eq!(word(0x2C12), Ok(Instruction::Mov(1, 2)));
}

#[test]
fn decodes_io_family() {
    assert_eq!(word(0xB70F), Ok(Instruction::In(16, 0x3F)));
    assert_eq!(word(0xBFCD), Ok(Instruction::Out(0x3D, 28)));
    assert_eq!(word(0x9A2B), Ok(Instruction::Sbi(5, 3)));
    assert_eq!(word(0x9B2B), Ok(Instruction::Sbis(5, 3)));
    assert_eq!(word(0x982B), Ok(Instruction::Cbi(5, 3)));
    assert_eq!(word(0xFF03), Ok(Instruction::Sbrs(16, 3)));
}

#[test]
fn decodes_program_memory_loads() {
    assert_eq!(word(0x9104), Ok(Instruction::Lpm(16, 30, false)));
    assert_eq!(word(0x9105), Ok(Instruction::Lpm(16, 30, true)));
}

#[test]
fn decodes_relative_jumps() {
    assert_eq!(word(0xC002), Ok(Instruction::Rjmp(4)));
    assert_eq!(word(0xCFFF), Ok(Instruction::Rjmp(-2)));
    assert_eq!(word(0xC7FF), Ok(Instruction::Rjmp(4094)));
    assert_eq!(word(0xC800), Ok(Instruction::Rjmp(-4096)));
    assert_eq!(word(0xD001), Ok(Instruction::Rcall(2)));
}

#[test]
fn decodes_indirect_stores() {
    assert_eq!(word(0x930C), Ok(Instruction::St(26, 16, Variant::Normal)));
    assert_eq!(word(0x930D), Ok(Instruction::St(26, 16, Variant::Postincrement)));
    assert_eq!(word(0x930E), Ok(Instruction::St(26, 16, Variant::Predecrement)));
    assert_eq!(word(0x8308), Ok(Instruction::St(28, 16, Variant::Normal)));
    assert_eq!(word(0x9309), Ok(Instruction::St(28, 16, Variant::Postincrement)));
    assert_eq!(word(0x930A), Ok(Instruction::St(28, 16, Variant::Predecrement)));
    assert_eq!(word(0x8300), Ok(Instruction::St(30, 16, Variant::Normal)));
    assert_eq!(word(0x9301), Ok(Instruction::St(30, 16, Variant::Postincrement)));
    assert_eq!(word(0x9302), Ok(Instruction::St(30, 16, Variant::Predecrement)));
}

#[test]
fn decodes_indirect_loads() {
    assert_eq!(word(0x910C), Ok(Instruction::Ld(16, 26, Variant::Normal)));
    assert_eq!(word(0x910D), Ok(Instruction::Ld(16, 26, Variant::Postincrement)));
    assert_eq!(word(0x910E), Ok(Instruction::Ld(16, 26, Variant::Predecrement)));
    assert_eq!(word(0x8108), Ok(Instruction::Ld(16, 28, Variant::Normal)));
    assert_eq!(word(0x9109), Ok(Instruction::Ld(16, 28, Variant::Postincrement)));
    assert_eq!(word(0x910A), Ok(Instruction::Ld(16, 28, Variant::Predecrement)));
    assert_eq!(word(0x8100), Ok(Instruction::Ld(16, 30, Variant::Normal)));
    assert_eq!(word(0x9101), Ok(Instruction::Ld(16, 30, Variant::Postincrement)));
    assert_eq!(word(0x9102), Ok(Instruction::Ld(16, 30, Variant::Predecrement)));
}

#[test]
fn decodes_displacement_forms() {
    assert_eq!(word(0x8101), Ok(Instruction::Ldd(16, 30, 1)));
    assert_eq!(word(0x810F), Ok(Instruction::Ldd(16, 28, 7)));
    assert_eq!(word(0x831A), Ok(Instruction::Std(28, 2, 17)));
    assert_eq!(word(0x8313), Ok(Instruction::Std(30, 3, 17)));
}

#[test]
fn decodes_word_moves_and_adjusts() {
    assert_eq!(word(0x0112), Ok(Instruction::Movw(2, 4)));
    assert_eq!(word(0x01FE), Ok(Instruction::Movw(30, 28)));
    assert_eq!(word(0x9601), Ok(Instruction::Adiw(24, 1)));
    assert_eq!(word(0x9712), Ok(Instruction::Sbiw(26, 2)));
    assert_eq!(word(0x9631), Ok(Instruction::Adiw(30, 1)));
}

#[test]
fn decodes_every_conditional_branch() {
    assert_eq!(word(0xF011), Ok(Instruction::Breq(4)));
    assert_eq!(word(0xF411), Ok(Instruction::Brne(4)));
    assert_eq!(word(0xF010), Ok(Instruction::Brcs(4)));
    assert_eq!(word(0xF410), Ok(Instruction::Brcc(4)));
    assert_eq!(word(0xF012), Ok(Instruction::Brmi(4)));
    assert_eq!(word(0xF412), Ok(Instruction::Brpl(4)));
    assert_eq!(word(0xF013), Ok(Instruction::Brvs(4)));
    assert_eq!(word(0xF413), Ok(Instruction::Brvc(4)));
    assert_eq!(word(0xF014), Ok(Instruction::Brlt(4)));
    assert_eq!(word(0xF414), Ok(Instruction::Brge(4)));
    assert_eq!(word(0xF015), Ok(Instruction::Brhs(4)));
    assert_eq!(word(0xF415), Ok(Instruction::Brhc(4)));
    assert_eq!(word(0xF016), Ok(Instruction::Brts(4)));
    assert_eq!(word(0xF416), Ok(Instruction::Brtc(4)));
    assert_eq!(word(0xF017), Ok(Instruction::Brie(4)));
    assert_eq!(word(0xF417), Ok(Instruction::Brid(4)));
}

#[test]
fn negative_branch_offsets_are_sign_extended() {
    assert_eq!(word(0xF7F9), Ok(Instruction::Brne(-2)));
    assert_eq!(word(0xF201), Ok(Instruction::Breq(-128)));
    assert_eq!(word(0xF1F9), Ok(Instruction::Breq(126)));
    assert_eq!(word(0xF3F1), Ok(Instruction::Breq(-4)));
}

#[test]
fn decodes_two_word_instructions() {
    assert_eq!(double(0x940C, 0x0080), Ok(Instruction::Jmp(0x100)));
    assert_eq!(double(0x940E, 0x0010), Ok(Instruction::Call(0x20)));
    assert_eq!(double(0x9100, 0x0123), Ok(Instruction::Lds(16, 0x0123)));
    assert_eq!(double(0x9300, 0x0123), Ok(Instruction::Sts(16, 0x0123)));
    assert_eq!(try_read32(0x940C_0080), Some(Instruction::Jmp(0x100)));
    assert_eq!(try_read32(0x9300_FFFF), Some(Instruction::Sts(16, 0xFFFF)));
    assert_eq!(try_read32(0xFFFF_FFFF), None);
}

#[test]
fn reported_size_is_two_or_four() {
    assert_eq!(word(0x0000).unwrap().size(), 2);
    assert_eq!(word(0x0C12).unwrap().size(), 2);
    assert_eq!(word(0xF7F9).unwrap().size(), 2);
    assert_eq!(word(0x930D).unwrap().size(), 2);
    assert_eq!(double(0x940C, 0x0080).unwrap().size(), 4);
    assert_eq!(double(0x940E, 0x0010).unwrap().size(), 4);
    assert_eq!(double(0x9100, 0x0123).unwrap().size(), 4);
    assert_eq!(double(0x9300, 0x0123).unwrap().size(), 4);
}

#[test]
fn fixed_words_win_over_later_families() {
    // 0x9508 would otherwise be read with the single-register opcode bits.
    assert_eq!(try_read16(0x9508), Some(Instruction::Ret));
    assert_eq!(try_read16(0x0000), Some(Instruction::Nop));
    assert_eq!(try_read16(0x95C8), Some(Instruction::Lpm(0, 30, false)));
}

#[test]
fn unknown_pattern_is_rejected_with_its_bits() {
    assert_eq!(double(0xFFFF, 0xFFFF), Err(Error::UnknownInstruction(0xFFFF_FFFF)));
    assert_eq!(double(0x9404, 0x1234), Err(Error::UnknownInstruction(0x9404_1234)));
    assert_eq!(try_read16(0xFFFF), None);
    assert_eq!(try_read16(0x9404), None);
}

#[test]
fn stream_order_is_low_byte_first() {
    assert_eq!(read(&[0x08, 0x95]), Ok(Instruction::Ret));
    assert_eq!(read(&[0x0C, 0x94, 0x80, 0x00]), Ok(Instruction::Jmp(0x100)));
    assert_eq!(read(&[0x00, 0x93, 0x23, 0x01]), Ok(Instruction::Sts(16, 0x0123)));
}

#[test]
fn short_stream_is_a_fault_at_the_missing_byte() {
    assert_eq!(read(&[]), Err(Error::SegmentationFault { address: 0 }));
    assert_eq!(read(&[0x08]), Err(Error::SegmentationFault { address: 1 }));
    assert_eq!(read(&[0x0C, 0x94]), Err(Error::SegmentationFault { address: 2 }));
    assert_eq!(read(&[0x0C, 0x94, 0x80]), Err(Error::SegmentationFault { address: 3 }));
    assert_eq!(read_at(&[0x00, 0x00, 0x08, 0x95], 4), Err(Error::SegmentationFault { address: 4 }));
}

#[test]
fn read_at_decodes_from_an_offset() {
    let bytes = [0x00, 0x00, 0x08, 0x95, 0x0E, 0x94, 0x10, 0x00];
    assert_eq!(read_at(&bytes, 0), Ok(Instruction::Nop));
    assert_eq!(read_at(&bytes, 2), Ok(Instruction::Ret));
    assert_eq!(read_at(&bytes, 4), Ok(Instruction::Call(0x20)));
}

#[test]
fn every_single_word_instruction_is_two_bytes_long() {
    for w in 0..=0xFFFFu16 {
        if let Some(inst) = try_read16(w) {
            assert_eq!(inst.size(), 2, "word {:#06x}", w);
            assert_eq!(word(w), Ok(inst));
        }
    }
}

#[test]
fn first_words_of_two_word_instructions_need_a_second_word() {
    for w in 0..=0xFFFFu16 {
        let wide = w & 0xFE0C == 0x940C || w & 0xFE0F == 0x9000 || w & 0xFE0F == 0x9200;
        if wide {
            assert_eq!(try_read16(w), None, "word {:#06x}", w);
            let inst = double(w, 0x1234).unwrap();
            assert_eq!(inst.size(), 4);
        } else if try_read16(w).is_none() {
            assert_eq!(
                double(w, 0x1234),
                Err(Error::UnknownInstruction(((w as u32) << 16) | 0x1234)),
                "word {:#06x}",
                w
            );
        }
    }
}

#[test]
fn immediate_family_reaches_r16_to_r31() {
    for field in 0..16u16 {
        assert_eq!(word(0xE000 | (field << 4)), Ok(Instruction::Ldi(16 + field as u8, 0)));
        assert_eq!(word(0x5000 | (field << 4) | 0x0F0F), Ok(Instruction::Subi(16 + field as u8, 0xFF)));
    }
}

#[test]
fn well_formed_instructions_have_operands_in_the_engine_range() {
    assert!(Instruction::Sbrs(0, 7).is_well_formed());
    assert!(!Instruction::Sbrs(0, 8).is_well_formed());
    assert!(Instruction::Sbi(31, 7).is_well_formed());
    assert!(!Instruction::Sbi(0, 8).is_well_formed());
    assert!(!Instruction::Sbis(0, 9).is_well_formed());
    assert!(!Instruction::Cbi(0, 255).is_well_formed());
    assert!(Instruction::In(0, 0x3F).is_well_formed());
    assert!(!Instruction::In(0, 0x40).is_well_formed());
    assert!(!Instruction::Out(0x40, 0).is_well_formed());
    assert!(Instruction::Lpm(0, 30, true).is_well_formed());
    assert!(!Instruction::Lpm(0, 28, true).is_well_formed());
    assert!(Instruction::Add(200, 201).is_well_formed());
    for w in 0..=0xFFFFu16 {
        if let Some(inst) = try_read16(w) {
            assert!(inst.is_well_formed(), "word {:#06x}", w);
        }
    }
}
