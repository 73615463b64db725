use vstd::prelude::*;
use crate::error::Error;
use crate::regs::{high_byte, low_byte, pair_value};

verus! {

/// The result of reading the byte at `addr` of `mem`.
pub open spec fn read_u8(mem: Seq<u8>, addr: usize) -> Result<u8, Error> {
    if addr < mem.len() {
        Ok(mem[addr as int])
    } else {
        Err(Error::SegmentationFault { address: addr })
    }
}

/// The result of reading the 16-bit value whose high byte is at `addr` and
/// whose low byte is at `addr + 1`.
pub open spec fn read_u16(mem: Seq<u8>, addr: usize) -> Result<u16, Error> {
    if addr >= mem.len() {
        Err(Error::SegmentationFault { address: addr })
    } else if addr + 1 >= mem.len() {
        Err(Error::SegmentationFault { address: (addr + 1) as usize })
    } else {
        Ok(pair_value(mem[addr + 1], mem[addr as int]))
    }
}

/// The result of writing `val` at `addr`: the new contents, or the fault.
pub open spec fn write_u8(mem: Seq<u8>, addr: usize, val: u8) -> Result<Seq<u8>, Error> {
    if addr < mem.len() {
        Ok(mem.update(addr as int, val))
    } else {
        Err(Error::SegmentationFault { address: addr })
    }
}

/// The result of writing the high byte of `val` at `addr` and its low byte at
/// `addr + 1`: the new contents, or the fault.
pub open spec fn write_u16(mem: Seq<u8>, addr: usize, val: u16) -> Result<Seq<u8>, Error> {
    if addr >= mem.len() {
        Err(Error::SegmentationFault { address: addr })
    } else if addr + 1 >= mem.len() {
        Err(Error::SegmentationFault { address: (addr + 1) as usize })
    } else {
        Ok(mem.update(addr as int, high_byte(val)).update(addr + 1, low_byte(val)))
    }
}

/// The contents of `mem` with `bytes` written over its start.
pub open spec fn loaded(mem: Seq<u8>, bytes: Seq<u8>) -> Seq<u8> {
    Seq::new(mem.len(), |i: int| if i < bytes.len() { bytes[i] } else { mem[i] })
}

/// A bounds-checked, byte-addressable memory space of fixed size.
#[derive(Clone, Debug)]
pub struct Space {
    data: Vec<u8>,
}

impl View for Space {
    type V = Seq<u8>;

    closed spec fn view(&self) -> Seq<u8> {
        self.data@
    }
}

impl Space {
    /// A space of `size` zero bytes.
    pub fn new(size: usize) -> (space: Self)
        ensures
            space@.len() == size,
            forall|i: int| 0 <= i < size ==> space@[i] == 0,
    {
        let mut data: Vec<u8> = Vec::new();
        let mut i: usize = 0;
        while i < size
            invariant
                i <= size,
                data@.len() == i,
                forall|j: int| 0 <= j < i ==> data@[j] == 0,
            decreases size - i,
        {
            data.push(0);
            i += 1;
        }
        Space { data }
    }

    /// The size of the space in bytes.
    pub fn len(&self) -> (n: usize)
        ensures
            n == self@.len(),
    {
        self.data.len()
    }

    /// The whole contents, in address order.
    pub fn bytes(&self) -> (all: &[u8])
        ensures
            all@ == self@,
    {
        self.data.as_slice()
    }

    /// Writes `bytes` starting at address 0. A sequence longer than the space
    /// is refused and nothing is written.
    pub fn load(&mut self, bytes: &[u8]) -> (r: Result<(), Error>)
        ensures
            bytes@.len() <= old(self)@.len() ==> r == Ok::<(), Error>(()) && final(self)@ == loaded(
                old(self)@,
                bytes@,
            ),
            bytes@.len() > old(self)@.len() ==> r == Err::<(), Error>(
                Error::SegmentationFault { address: old(self)@.len() as usize },
            ) && final(self)@ == old(self)@,
    {
        if bytes.len() > self.data.len() {
            return Err(Error::SegmentationFault { address: self.data.len() });
        }
        let mut i: usize = 0;
        while i < bytes.len()
            invariant
                i <= bytes@.len() <= self.data@.len(),
                self.data@.len() == old(self)@.len(),
                forall|j: int| 0 <= j < i ==> self.data@[j] == bytes@[j],
                forall|j: int| i <= j < self.data@.len() ==> self.data@[j] == old(self)@[j],
            decreases bytes@.len() - i,
        {
            self.data[i] = bytes[i];
            i += 1;
        }
        assert(self@ =~= loaded(old(self)@, bytes@));
        Ok(())
    }

    /// The byte at `addr`.
    pub fn get_u8(&self, addr: usize) -> (r: Result<u8, Error>)
        ensures
            r == read_u8(self@, addr),
    {
        if addr < self.data.len() {
            Ok(self.data[addr])
        } else {
            Err(Error::SegmentationFault { address: addr })
        }
    }

    /// Writes the byte at `addr`. On a fault nothing is written.
    pub fn set_u8(&mut self, addr: usize, val: u8) -> (r: Result<(), Error>)
        ensures
            match write_u8(old(self)@, addr, val) {
                Ok(mem) => r == Ok::<(), Error>(()) && final(self)@ == mem,
                Err(e) => r == Err::<(), Error>(e) && final(self)@ == old(self)@,
            },
    {
        if addr < self.data.len() {
            self.data[addr] = val;
            Ok(())
        } else {
            Err(Error::SegmentationFault { address: addr })
        }
    }

    /// The 16-bit value whose high byte is at `addr` and whose low byte is
    /// at `addr + 1`.
    pub fn get_u16(&self, addr: usize) -> (r: Result<u16, Error>)
        ensures
            r == read_u16(self@, addr),
    {
        if addr >= self.data.len() {
            return Err(Error::SegmentationFault { address: addr });
        }
        if addr + 1 >= self.data.len() {
            return Err(Error::SegmentationFault { address: addr + 1 });
        }
        let hi = self.data[addr] as u16;
        let lo = self.data[addr + 1] as u16;
        Ok((hi << 8) | lo)
    }

    /// Writes the high byte of `val` at `addr` and its low byte at
    /// `addr + 1`. On a fault nothing is written.
    pub fn set_u16(&mut self, addr: usize, val: u16) -> (r: Result<(), Error>)
        ensures
            match write_u16(old(self)@, addr, val) {
                Ok(mem) => r == Ok::<(), Error>(()) && final(self)@ == mem,
                Err(e) => r == Err::<(), Error>(e) && final(self)@ == old(self)@,
            },
    {
        if addr >= self.data.len() {
            return Err(Error::SegmentationFault { address: addr });
        }
        if addr + 1 >= self.data.len() {
            return Err(Error::SegmentationFault { address: addr + 1 });
        }
        self.data[addr] = ((val & 0xff00) >> 8) as u8;
        self.data[addr + 1] = (val & 0x00ff) as u8;
        Ok(())
    }
}

} // verus!
