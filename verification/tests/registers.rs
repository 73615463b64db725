use avr_core::error::Error;
use avr_core::regs::{Register, RegisterFile, SP_HI_NUM, SP_LO_NUM};
use avr_core::sreg::{
    SReg, CARRY_FLAG, HALF_CARRY_FLAG, INTERRUPT_FLAG, NEGATIVE_FLAG, OVERFLOW_FLAG, S_FLAG,
    TRANSFER_FLAG, ZERO_FLAG,
};

fn file(count: usize) -> RegisterFile {
    RegisterFile::new(vec![Register { value: 0 }; count])
}

#[test]
fn flag_masks_are_the_eight_bits_in_order() {
    assert_eq!(CARRY_FLAG, 1 << 0);
    assert_eq!(ZERO_FLAG, 1 << 1);
    assert_eq!(NEGATIVE_FLAG, 1 << 2);
    assert_eq!(OVERFLOW_FLAG, 1 << 3);
    assert_eq!(S_FLAG, 1 << 4);
    assert_eq!(HALF_CARRY_FLAG, 1 << 5);
    assert_eq!(TRANSFER_FLAG, 1 << 6);
    assert_eq!(INTERRUPT_FLAG, 1 << 7);
    assert_eq!(SP_LO_NUM, 32);
    assert_eq!(SP_HI_NUM, 33);
}

#[test]
fn status_register_starts_clear() {
    let s = SReg::new();
    assert_eq!(s.0.value, 0);
    assert!(s.is_clear(CARRY_FLAG));
    assert!(!s.is_set(INTERRUPT_FLAG));
    assert_eq!(SReg::default().0.value, 0);
}

#[test]
fn status_register_set_and_clear() {
    let mut s = SReg::new();
    s.set(ZERO_FLAG, true);
    s.set(INTERRUPT_FLAG, true);
    assert_eq!(s.0.value, 0x82);
    assert!(s.get(ZERO_FLAG));
    assert!(s.is_set(INTERRUPT_FLAG));
    assert!(s.is_clear(CARRY_FLAG));
    s.set(ZERO_FLAG, false);
    assert_eq!(s.0.value, 0x80);
    assert!(s.is_clear(ZERO_FLAG));
    s.set(ZERO_FLAG, false);
    assert_eq!(s.0.value, 0x80);
}

#[test]
fn new_file_keeps_the_given_values() {
    let f = RegisterFile::new(vec![Register { value: 7 }, Register { value: 9 }]);
    assert_eq!(f.gpr(0), Ok(7));
    assert_eq!(f.gpr(1), Ok(9));
    assert_eq!(f.registers().len(), 2);
    assert_eq!(f.registers()[1], Register { value: 9 });
    assert_eq!(f.sreg.0.value, 0);
}

#[test]
fn missing_register_is_an_error() {
    let mut f = file(34);
    assert_eq!(f.gpr(33), Ok(0));
    assert_eq!(f.gpr(34), Err(Error::RegisterDoesNotExist(34)));
    assert_eq!(f.gpr(255), Err(Error::RegisterDoesNotExist(255)));
    assert_eq!(f.set_gpr(34, 1), Err(Error::RegisterDoesNotExist(34)));
    assert!(matches!(f.gpr_mut(40), Err(Error::RegisterDoesNotExist(40))));
}

#[test]
fn gpr_mut_writes_through() {
    let mut f = file(34);
    *f.gpr_mut(5).unwrap() = 0x5A;
    assert_eq!(f.gpr(5), Ok(0x5A));
    assert_eq!(f.gpr(4), Ok(0));
    assert_eq!(f.set_gpr(6, 0xA5), Ok(()));
    assert_eq!(f.gpr(6), Ok(0xA5));
}

#[test]
fn pair_is_low_byte_first() {
    let mut f = file(34);
    f.set_gpr(26, 0x34).unwrap();
    f.set_gpr(27, 0x12).unwrap();
    assert_eq!(f.gpr_pair(26), Ok((0x34, 0x12)));
    assert_eq!(f.gpr_pair_val(26), Ok(0x1234));
    assert_eq!(f.set_gpr_pair(28, 0xBEEF), Ok(()));
    assert_eq!(f.gpr(28), Ok(0xEF));
    assert_eq!(f.gpr(29), Ok(0xBE));
    assert_eq!(f.gpr_pair_val(28), Ok(0xBEEF));
}

#[test]
fn odd_pair_is_an_error() {
    let mut f = file(34);
    assert_eq!(f.gpr_pair(27), Err(Error::RegisterPairOdd(27)));
    assert_eq!(f.gpr_pair_val(1), Err(Error::RegisterPairOdd(1)));
    assert_eq!(f.set_gpr_pair(255, 1), Err(Error::RegisterPairOdd(255)));
    assert_eq!(f.gpr(0), Ok(0));
}

#[test]
fn pair_beyond_the_file_is_an_error() {
    let mut f = file(33);
    assert_eq!(f.gpr_pair(32), Err(Error::RegisterDoesNotExist(33)));
    assert_eq!(f.gpr_pair(34), Err(Error::RegisterDoesNotExist(34)));
    assert_eq!(f.set_gpr_pair(32, 0xFFFF), Err(Error::RegisterDoesNotExist(33)));
    assert_eq!(f.gpr(32), Ok(0));
}

#[test]
fn stack_pointer_is_a_pair() {
    let mut f = file(34);
    assert_eq!(f.set_gpr_pair(SP_LO_NUM, 0x08FF), Ok(()));
    assert_eq!(f.gpr(SP_LO_NUM), Ok(0xFF));
    assert_eq!(f.gpr(SP_HI_NUM), Ok(0x08));
    assert_eq!(f.gpr_pair_val(SP_LO_NUM), Ok(0x08FF));
}

#[test]
fn file_flag_accessors() {
    let mut f = file(2);
    assert!(!f.sreg_flag(CARRY_FLAG));
    f.sreg_flag_set(CARRY_FLAG);
    f.sreg_flag_set(TRANSFER_FLAG);
    assert!(f.sreg_flag(CARRY_FLAG));
    assert!(f.sreg_flag(CARRY_FLAG | TRANSFER_FLAG));
    assert!(!f.sreg_flag(CARRY_FLAG | ZERO_FLAG));
    f.sreg_flag_clear(CARRY_FLAG);
    assert!(!f.sreg_flag(CARRY_FLAG));
    assert_eq!(f.sreg.0.value, TRANSFER_FLAG);
}
