use vstd::prelude::*;
use crate::regs::Register;

verus! {

/// C
pub const CARRY_FLAG: u8 = 0x01;
/// Z
pub const ZERO_FLAG: u8 = 0x02;
/// N
pub const NEGATIVE_FLAG: u8 = 0x04;
/// V
pub const OVERFLOW_FLAG: u8 = 0x08;
/// S
pub const S_FLAG: u8 = 0x10;
/// H
pub const HALF_CARRY_FLAG: u8 = 0x20;
/// T
pub const TRANSFER_FLAG: u8 = 0x40;
/// I
pub const INTERRUPT_FLAG: u8 = 0x80;

/// Whether every bit of `flag` is set in the status byte `bits`.
pub open spec fn flag_on(bits: u8, flag: u8) -> bool {
    bits & flag == flag
}

/// The status byte `bits` with the bits of `flag` set or cleared.
pub open spec fn with_flag(bits: u8, flag: u8, state: bool) -> u8 {
    if state {
        bits | flag
    } else {
        bits & !flag
    }
}

/// The AVR status register.
#[derive(Clone, Copy, Debug, PartialEq, Eq, Structural)]
pub struct SReg(pub Register);

impl SReg {
    /// The status byte.
    pub open spec fn bits(self) -> u8 {
        self.0.value
    }

    /// A status register with every flag clear.
    pub fn new() -> (s: Self)
        ensures
            s.bits() == 0,
    {
        SReg(Register { value: 0 })
    }

    /// Sets or clears the bits of `flag`.
    pub fn set(&mut self, flag: u8, state: bool)
        ensures
            final(self).bits() == with_flag(old(self).bits(), flag, state),
    {
        if state {
            self.0.value = self.0.value | flag;
        } else {
            self.0.value = self.0.value & !flag;
        }
    }

    /// Whether every bit of `flag` is set.
    pub fn get(&self, flag: u8) -> (on: bool)
        ensures
            on == flag_on(self.bits(), flag),
    {
        (self.0.value & flag) == flag
    }

    /// Whether every bit of `flag` is set.
    pub fn is_set(&self, flag: u8) -> (on: bool)
        ensures
            on == flag_on(self.bits(), flag),
    {
        self.get(flag)
    }

    /// Whether some bit of `flag` is clear.
    pub fn is_clear(&self, flag: u8) -> (off: bool)
        ensures
            off == !flag_on(self.bits(), flag),
    {
        !self.get(flag)
    }
}

impl Default for SReg {
    fn default() -> (s: Self)
        ensures
            s.bits() == 0,
    {
        SReg::new()
    }
}

} // verus!
