use vstd::prelude::*;

verus! {

/// `v` brought into the range of `u8` by adding or taking away 256 once.
pub open spec fn wrap8(v: int) -> u8 {
    if v < 0 {
        (v + 0x100) as u8
    } else if v > 0xff {
        (v - 0x100) as u8
    } else {
        v as u8
    }
}

/// `v` brought into the range of `u16` by adding or taking away 65536 once.
pub open spec fn wrap16(v: int) -> u16 {
    if v < 0 {
        (v + 0x1_0000) as u16
    } else if v > 0xffff {
        (v - 0x1_0000) as u16
    } else {
        v as u16
    }
}

/// `v` brought into the range of `u32` by adding or taking away 2^32 once.
pub open spec fn wrap32(v: int) -> u32 {
    if v < 0 {
        (v + 0x1_0000_0000) as u32
    } else if v > 0xffff_ffff {
        (v - 0x1_0000_0000) as u32
    } else {
        v as u32
    }
}

/// The sum of an 8-bit value and a small signed step, modulo 256.
pub fn offset8(a: u8, step: i16) -> (r: u8)
    requires
        -256 <= step <= 256,
    ensures
        r == wrap8(a + step),
{
    let t: i16 = a as i16 + step;
    if t < 0 {
        (t + 0x100) as u8
    } else if t > 0xff {
        (t - 0x100) as u8
    } else {
        t as u8
    }
}

/// The sum of a 16-bit value and a signed step, modulo 65536.
pub fn offset16(a: u16, step: i32) -> (r: u16)
    requires
        -0x1_0000 <= step <= 0x1_0000,
    ensures
        r == wrap16(a + step),
{
    let t: i32 = a as i32 + step;
    if t < 0 {
        (t + 0x1_0000) as u16
    } else if t > 0xffff {
        (t - 0x1_0000) as u16
    } else {
        t as u16
    }
}

/// The sum of a 32-bit value and a signed step, modulo 2^32.
pub fn offset32(a: u32, step: i64) -> (r: u32)
    requires
        -0x1_0000_0000 <= step <= 0x1_0000_0000,
    ensures
        r == wrap32(a + step),
{
    let t: i64 = a as i64 + step;
    if t < 0 {
        (t + 0x1_0000_0000) as u32
    } else if t > 0xffff_ffff {
        (t - 0x1_0000_0000) as u32
    } else {
        t as u32
    }
}

} // verus!
