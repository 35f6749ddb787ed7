//! Single-bit access on bytes, phrased with division and remainder so that
//! contracts stay in linear arithmetic.

use vstd::prelude::*;

verus! {

/// 2^i for a bit position i in 0..8; 0 elsewhere.
pub open spec fn spec_bit_mask(i: int) -> u8 {
    if i == 0 {
        0x01
    } else if i == 1 {
        0x02
    } else if i == 2 {
        0x04
    } else if i == 3 {
        0x08
    } else if i == 4 {
        0x10
    } else if i == 5 {
        0x20
    } else if i == 6 {
        0x40
    } else if i == 7 {
        0x80
    } else {
        0
    }
}

/// Bit `i` of `v`.
pub open spec fn spec_get_bit(v: u8, i: int) -> bool {
    (v as int / spec_bit_mask(i) as int) % 2 == 1
}

/// `v` with bit `i` set.
pub open spec fn spec_set_bit(v: u8, i: int) -> u8 {
    if spec_get_bit(v, i) {
        v
    } else {
        (v + spec_bit_mask(i)) as u8
    }
}

/// `v` with bit `i` cleared.
pub open spec fn spec_clear_bit(v: u8, i: int) -> u8 {
    if spec_get_bit(v, i) {
        (v - spec_bit_mask(i)) as u8
    } else {
        v
    }
}

pub fn bit_mask(i: u8) -> (m: u8)
    requires
        i < 8,
    ensures
        m == spec_bit_mask(i as int),
{
    match i {
        0 => 0x01,
        1 => 0x02,
        2 => 0x04,
        3 => 0x08,
        4 => 0x10,
        5 => 0x20,
        6 => 0x40,
        _ => 0x80,
    }
}

pub fn get_bit(v: u8, i: u8) -> (b: bool)
    requires
        i < 8,
    ensures
        b == spec_get_bit(v, i as int),
{
    let m = bit_mask(i);
    (v / m) % 2 == 1
}

pub fn set_bit(v: u8, i: u8) -> (r: u8)
    requires
        i < 8,
    ensures
        r == spec_set_bit(v, i as int),
{
    let m = bit_mask(i);
    if (v / m) % 2 == 1 {
        v
    } else {
        proof {
            lemma_bit_headroom(v, i as int);
        }
        v + m
    }
}

pub fn clear_bit(v: u8, i: u8) -> (r: u8)
    requires
        i < 8,
    ensures
        r == spec_clear_bit(v, i as int),
{
    let m = bit_mask(i);
    if (v / m) % 2 == 1 {
        v - m
    } else {
        v
    }
}

/// When bit `i` of `v` is clear, adding the mask stays within a byte, and
/// when it is set, the mask can be subtracted.
pub proof fn lemma_bit_headroom(v: u8, i: int)
    requires
        0 <= i < 8,
    ensures
        !spec_get_bit(v, i) ==> v + spec_bit_mask(i) <= 255,
        spec_get_bit(v, i) ==> v >= spec_bit_mask(i),
{
    let m = spec_bit_mask(i) as int;
    assert((v as int / m) % 2 == 0 ==> v + m <= 255) by (nonlinear_arith)
        requires m == spec_bit_mask(i) as int && 0 <= i < 8 && (m == 1 || m == 2 || m == 4 || m
            == 8 || m == 16 || m == 32 || m == 64 || m == 128) && 0 <= v < 256;
    assert((v as int / m) % 2 == 1 ==> v >= m) by (nonlinear_arith)
        requires m >= 1 && v >= 0;
}

} // verus!
