//! Signed quantities as sensors deliver them and as processes receive them.

use vstd::prelude::*;

verus! {

/// The number that two bytes stand for as a signed quantity of 16 bits in
/// two's complement: `lo` its low byte, `hi` its high byte.
pub open spec fn signed16(lo: u8, hi: u8) -> int {
    let u = lo as int + 256 * (hi as int);
    if u >= 32768 {
        u - 65536
    } else {
        u
    }
}

/// Decodes two bytes as a signed quantity of 16 bits.
pub fn to_signed16(lo: u8, hi: u8) -> (r: i32)
    ensures
        r == signed16(lo, hi),
        -32768 <= r <= 32767,
{
    let u: i32 = lo as i32 + 256 * (hi as i32);
    if u >= 32768 {
        u - 65536
    } else {
        u
    }
}

/// The machine word that stands for `v` in two's complement, as a process
/// receives a signed quantity.
pub open spec fn as_word(v: int) -> usize {
    if v >= 0 {
        v as usize
    } else {
        (usize::MAX + 1 + v) as usize
    }
}

/// Encodes a signed quantity as a machine word in two's complement.
pub fn word_of(v: i32) -> (r: usize)
    ensures
        r == as_word(v as int),
{
    if v >= 0 {
        v as usize
    } else {
        let magnitude: u32 = if v == i32::MIN {
            0x8000_0000
        } else {
            (-v) as u32
        };
        usize::MAX - (magnitude as usize) + 1
    }
}

/// The quotient of `a` by a positive `b`, rounded towards zero.
pub open spec fn quotient(a: int, b: int) -> int {
    if a >= 0 {
        a / b
    } else {
        -((-a) / b)
    }
}

/// Divides `a` by a positive `b`, rounding towards zero.
pub fn divide(a: i32, b: i32) -> (r: i32)
    requires
        b > 0,
    ensures
        r == quotient(a as int, b as int),
{
    if a >= 0 {
        let q = (a as u32) / (b as u32);
        q as i32
    } else {
        let magnitude: u32 = if a == i32::MIN {
            0x8000_0000
        } else {
            (-a) as u32
        };
        let q = magnitude / (b as u32);
        assert(q <= magnitude);
        if q == 0x8000_0000 {
            i32::MIN
        } else {
            -(q as i32)
        }
    }
}

/// The largest whole number that is not above `a` divided by a positive
/// `b`.
pub open spec fn floor_quotient(a: int, b: int) -> int {
    a / b
}

/// Divides `a` by a positive `b`, rounding down.
pub fn floor_divide(a: i32, b: i32) -> (r: i32)
    requires
        b > 0,
    ensures
        r == floor_quotient(a as int, b as int),
{
    if a >= 0 {
        ((a as u32) / (b as u32)) as i32
    } else {
        let magnitude: u32 = if a == i32::MIN {
            0x8000_0000
        } else {
            (-a) as u32
        };
        let ub = b as u32;
        let q = magnitude / ub;
        let rem = magnitude % ub;
        assert(a as int == -(q as int * ub as int + rem as int)) by (nonlinear_arith)
            requires
                magnitude as int == -(a as int),
                q as int == magnitude as int / ub as int,
                rem as int == magnitude as int % ub as int,
                ub > 0,
        ;
        assert(q as int + (if rem == 0 { 0int } else { 1int }) <= magnitude as int)
            by (nonlinear_arith)
            requires
                magnitude as int == q as int * ub as int + rem as int,
                ub >= 1,
                0 <= rem,
                0 <= q,
        ;
        let down: u32 = if rem == 0 {
            q
        } else {
            q + 1
        };
        assert(a as int / b as int == -(down as int)) by (nonlinear_arith)
            requires
                a as int == -(q as int * ub as int + rem as int),
                0 <= rem < ub,
                ub as int == b as int,
                b > 0,
                down as int == (if rem == 0 {
                    q as int
                } else {
                    q as int + 1
                }),
        ;
        if down == 0x8000_0000 {
            i32::MIN
        } else {
            -(down as i32)
        }
    }
}

/// One for true, zero for false.
pub open spec fn bit(b: bool) -> usize {
    if b {
        1
    } else {
        0
    }
}

/// One for true, zero for false.
pub fn usize_from(b: bool) -> (r: usize)
    ensures
        r == bit(b),
{
    if b {
        1
    } else {
        0
    }
}

/// The smaller of two numbers.
pub open spec fn least(a: int, b: int) -> int {
    if a <= b {
        a
    } else {
        b
    }
}

/// The smaller of two numbers.
pub fn smaller(a: usize, b: usize) -> (r: usize)
    ensures
        r == least(a as int, b as int),
{
    if a <= b {
        a
    } else {
        b
    }
}

} // verus!
