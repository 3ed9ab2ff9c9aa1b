use vstd::prelude::*;
use crate::cpu::model::{make_flags};
use crate::cpu::semantics::{add_result, compare_flags, logic_flags, rotate_left_through, rotate_right_through, sub_result};

verus! {

/// Adds `v` and a carry (0 or 1) to `a`: the 8-bit result and the flags.
pub fn add_bytes(a: u8, v: u8, carry_in: u8) -> (res: (u8, u8))
    requires
        carry_in <= 1,
    ensures
        res == add_result(a, v, carry_in),
{
    let sum: u16 = a as u16 + v as u16 + carry_in as u16;
    let result = (sum % 256) as u8;
    let flags = make_flags(result == 0, false, a % 16 + v % 16 + carry_in >= 16, sum >= 256);
    (result, flags)
}

/// Subtracts `v` and a borrow (0 or 1) from `a`: the 8-bit result and the flags.
pub fn sub_bytes(a: u8, v: u8, borrow_in: u8) -> (res: (u8, u8))
    requires
        borrow_in <= 1,
    ensures
        res == sub_result(a, v, borrow_in),
{
    let subtrahend: u16 = v as u16 + borrow_in as u16;
    let result = ((a as u16 + 256 - subtrahend) % 256) as u8;
    let flags = make_flags(result == 0, true, v % 16 + borrow_in > a % 16, subtrahend > a as u16);
    (result, flags)
}

/// The flags of a comparison of `a` with `v`.
pub fn compare_bytes(a: u8, v: u8) -> (flags: u8)
    ensures
        flags == compare_flags(a, v),
{
    make_flags(a == v, true, v % 16 > a % 16, v > a)
}

/// The flags of a logical operation with result `result`.
pub fn logic_flags_of(result: u8, h: bool) -> (flags: u8)
    ensures
        flags == logic_flags(result, h),
{
    make_flags(result == 0, false, h, false)
}

/// Rotates `v` left through a carry bit (0 or 1).
pub fn rotate_left_byte(v: u8, carry_in: u8) -> (r: u8)
    requires
        carry_in <= 1,
    ensures
        r == rotate_left_through(v, carry_in),
{
    ((v as u16 * 2) % 256 + carry_in as u16) as u8
}

/// Rotates `v` right through a carry bit (0 or 1).
pub fn rotate_right_byte(v: u8, carry_in: u8) -> (r: u8)
    requires
        carry_in <= 1,
    ensures
        r == rotate_right_through(v, carry_in),
{
    v / 2 + carry_in * 128
}

} // verus!
