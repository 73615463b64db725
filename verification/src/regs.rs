use vstd::prelude::*;
use crate::error::Error;
use crate::sreg::{flag_on, SReg};

verus! {

/// `SP` low register number.
pub const SP_LO_NUM: u8 = 32;
/// `SP` high register number.
pub const SP_HI_NUM: u8 = 33;

/// One 8-bit register.
#[derive(Clone, Copy, Debug, PartialEq, Eq, Structural)]
pub struct Register {
    pub value: u8,
}

/// The 16-bit value of a register pair with low byte `lo` and high byte `hi`.
pub open spec fn pair_value(lo: u8, hi: u8) -> u16 {
    ((hi as u16) << 8) | (lo as u16)
}

/// The low byte of a 16-bit value.
pub open spec fn low_byte(val: u16) -> u8 {
    (val & 0x00ff) as u8
}

/// The high byte of a 16-bit value.
pub open spec fn high_byte(val: u16) -> u8 {
    ((val & 0xff00) >> 8) as u8
}

/// The register file: the indexed 8-bit registers and the status register.
#[derive(Clone, Debug, PartialEq, Eq)]
pub struct RegisterFile {
    pub registers: Vec<Register>,
    pub sreg: SReg,
}

impl RegisterFile {
    /// The register values by index.
    pub open spec fn values(self) -> Seq<u8> {
        Seq::new(self.registers@.len(), |i: int| self.registers@[i].value)
    }

    /// The result of reading the pair whose low register is `addr` from `regs`.
    pub open spec fn pair_of(regs: Seq<u8>, addr: u8) -> Result<(u8, u8), Error> {
        if addr % 2 != 0 {
            Err(Error::RegisterPairOdd(addr))
        } else if addr as int >= regs.len() {
            Err(Error::RegisterDoesNotExist(addr))
        } else if addr as int + 1 >= regs.len() {
            Err(Error::RegisterDoesNotExist((addr + 1) as u8))
        } else {
            Ok((regs[addr as int], regs[addr as int + 1]))
        }
    }

    /// The registers `regs` with `val` written to the pair whose low register
    /// is `low`.
    pub open spec fn with_pair(regs: Seq<u8>, low: u8, val: u16) -> Seq<u8> {
        regs.update(low as int, low_byte(val)).update(low as int + 1, high_byte(val))
    }

    /// A register file of the given registers, with a cleared status
    /// register.
    pub fn new(registers: Vec<Register>) -> (file: Self)
        ensures
            file.registers == registers,
            file.sreg.bits() == 0,
    {
        RegisterFile { registers, sreg: SReg::new() }
    }

    /// The registers in index order.
    pub fn registers(&self) -> (all: &Vec<Register>)
        ensures
            *all == self.registers,
    {
        &self.registers
    }

    /// Gets a register, or an error if it doesn't exist.
    pub fn gpr(&self, addr: u8) -> (r: Result<u8, Error>)
        ensures
            r == (if (addr as int) < self.values().len() {
                Ok::<u8, Error>(self.values()[addr as int])
            } else {
                Err::<u8, Error>(Error::RegisterDoesNotExist(addr))
            }),
    {
        if (addr as usize) < self.registers.len() {
            Ok(self.registers[addr as usize].value)
        } else {
            Err(Error::RegisterDoesNotExist(addr))
        }
    }

    /// Gets a register for writing, or an error if it doesn't exist.
    pub fn gpr_mut(&mut self, addr: u8) -> (r: Result<&mut u8, Error>)
        ensures
            (addr as int) >= old(self).values().len() ==> r == Err::<&mut u8, Error>(
                Error::RegisterDoesNotExist(addr),
            ) && *final(self) == *old(self),
            (addr as int) < old(self).values().len() ==> r is Ok
                && *r->Ok_0 == old(self).values()[addr as int]
                && final(self).values() == old(self).values().update(addr as int, *final(r->Ok_0))
                && final(self).sreg == old(self).sreg,
    {
        if (addr as usize) < self.registers.len() {
            Ok(&mut self.registers[addr as usize].value)
        } else {
            Err(Error::RegisterDoesNotExist(addr))
        }
    }

    /// Writes a register, or fails if it doesn't exist.
    pub fn set_gpr(&mut self, addr: u8, val: u8) -> (r: Result<(), Error>)
        ensures
            final(self).sreg == old(self).sreg,
            (addr as int) < old(self).values().len() ==> r == Ok::<(), Error>(())
                && final(self).values() == old(self).values().update(addr as int, val),
            (addr as int) >= old(self).values().len() ==> r == Err::<(), Error>(
                Error::RegisterDoesNotExist(addr),
            ) && final(self).values() == old(self).values(),
    {
        if (addr as usize) < self.registers.len() {
            self.registers[addr as usize].value = val;
            assert(self.values() =~= old(self).values().update(addr as int, val));
            Ok(())
        } else {
            Err(Error::RegisterDoesNotExist(addr))
        }
    }

    /// The low and high byte of the pair whose low register is `addr`, which
    /// must be even.
    pub fn gpr_pair(&self, addr: u8) -> (r: Result<(u8, u8), Error>)
        ensures
            r == Self::pair_of(self.values(), addr),
    {
        if addr % 2 != 0 {
            return Err(Error::RegisterPairOdd(addr));
        }
        let lo = self.gpr(addr)?;
        let hi = self.gpr(addr + 1)?;
        Ok((lo, hi))
    }

    /// The 16-bit value of the pair whose low register is `addr`, which must
    /// be even.
    pub fn gpr_pair_val(&self, addr: u8) -> (r: Result<u16, Error>)
        ensures
            match Self::pair_of(self.values(), addr) {
                Ok((lo, hi)) => r == Ok::<u16, Error>(pair_value(lo, hi)),
                Err(e) => r == Err::<u16, Error>(e),
            },
    {
        let (lo, hi) = self.gpr_pair(addr)?;
        let val = ((hi as u16) << 8) | lo as u16;
        Ok(val)
    }

    /// Writes a 16-bit value to the pair whose low register is `low`; on an
    /// error nothing is written.
    pub fn set_gpr_pair(&mut self, low: u8, val: u16) -> (r: Result<(), Error>)
        ensures
            final(self).sreg == old(self).sreg,
            match Self::pair_of(old(self).values(), low) {
                Ok(_) => r == Ok::<(), Error>(()) && final(self).values() == Self::with_pair(
                    old(self).values(),
                    low,
                    val,
                ),
                Err(e) => r == Err::<(), Error>(e) && final(self).values() == old(self).values(),
            },
    {
        let val_lo = (val & 0x00ff) as u8;
        let val_hi = ((val & 0xff00) >> 8) as u8;
        if low % 2 != 0 {
            return Err(Error::RegisterPairOdd(low));
        }
        if low as usize >= self.registers.len() {
            return Err(Error::RegisterDoesNotExist(low));
        }
        if low as usize + 1 >= self.registers.len() {
            return Err(Error::RegisterDoesNotExist(low + 1));
        }
        self.registers[low as usize].value = val_lo;
        self.registers[low as usize + 1].value = val_hi;
        assert(self.values() =~= old(self).values().update(low as int, val_lo).update(
            low as int + 1,
            val_hi,
        ));
        Ok(())
    }

    /// Checks if a flag is set in SREG.
    pub fn sreg_flag(&self, mask: u8) -> (on: bool)
        ensures
            on == flag_on(self.sreg.bits(), mask),
    {
        (self.sreg.0.value & mask) == mask
    }

    /// Sets the bits of `mask` in SREG.
    pub fn sreg_flag_set(&mut self, mask: u8)
        ensures
            final(self).values() == old(self).values(),
            final(self).sreg.bits() == old(self).sreg.bits() | mask,
    {
        self.sreg.0.value = self.sreg.0.value | mask;
    }

    /// Clears the bits of `mask` in SREG.
    pub fn sreg_flag_clear(&mut self, mask: u8)
        ensures
            final(self).values() == old(self).values(),
            final(self).sreg.bits() == old(self).sreg.bits() & !mask,
    {
        self.sreg.0.value = self.sreg.0.value & !mask;
    }
}

} // verus!
