//! The dispatch interface: the seven "fast" operations that a rewritten
//! operator calls, and their implementations for the integer types.
use vstd::prelude::*;

verus! {

/// The fast operations of a numeric type. Each rewritten operator calls one
/// of these methods; which implementation runs is decided by the type of the
/// operands.
///
/// For the integer types an operation is defined where the checked operator
/// would not panic (no division by zero, no shift by the width or more), and
/// it then gives what the wrapping operation gives: the exact result whenever
/// that result fits in the type.
pub trait UnsafeMath: Sized {
    /// What `fast_add` returns.
    spec fn fast_add_spec(self, rhs: Self) -> Self;

    /// What `fast_sub` returns.
    spec fn fast_sub_spec(self, rhs: Self) -> Self;

    /// What `fast_mul` returns.
    spec fn fast_mul_spec(self, rhs: Self) -> Self;

    /// What `fast_div` returns.
    spec fn fast_div_spec(self, rhs: Self) -> Self;

    /// What `fast_rem` returns.
    spec fn fast_rem_spec(self, rhs: Self) -> Self;

    /// What `fast_shl` returns.
    spec fn fast_shl_spec(self, amount: u32) -> Self;

    /// What `fast_shr` returns.
    spec fn fast_shr_spec(self, amount: u32) -> Self;

    /// Whether `fast_div` and `fast_rem` are defined on these operands.
    spec fn div_defined(self, rhs: Self) -> bool;

    /// Whether the shifts are defined for this amount.
    spec fn shift_defined(amount: u32) -> bool;

    fn fast_add(self, rhs: Self) -> (r: Self)
        ensures
            r == self.fast_add_spec(rhs),
    ;

    fn fast_sub(self, rhs: Self) -> (r: Self)
        ensures
            r == self.fast_sub_spec(rhs),
    ;

    fn fast_mul(self, rhs: Self) -> (r: Self)
        ensures
            r == self.fast_mul_spec(rhs),
    ;

    fn fast_div(self, rhs: Self) -> (r: Self)
        requires
            self.div_defined(rhs),
        ensures
            r == self.fast_div_spec(rhs),
    ;

    fn fast_rem(self, rhs: Self) -> (r: Self)
        requires
            self.div_defined(rhs),
        ensures
            r == self.fast_rem_spec(rhs),
    ;

    fn fast_shl(self, rhs: u32) -> (r: Self)
        requires
            Self::shift_defined(rhs),
        ensures
            r == self.fast_shl_spec(rhs),
    ;

    fn fast_shr(self, rhs: u32) -> (r: Self)
        requires
            Self::shift_defined(rhs),
        ensures
            r == self.fast_shr_spec(rhs),
    ;
}

/// A quotient of naturals lies between zero and the dividend, and is at
/// most half of it when the divisor is two or more.
proof fn lemma_quotient_bounds(a: int, b: int)
    requires
        0 <= a,
        1 <= b,
    ensures
        0 <= a / b <= a,
        b >= 2 ==> 2 * (a / b) <= a,
{
    vstd::arithmetic::div_mod::lemma_div_pos_is_pos(a, b);
    vstd::arithmetic::div_mod::lemma_div_is_ordered_by_denominator(a, 1, b);
    vstd::arithmetic::div_mod::lemma_fundamental_div_mod(a, b);
    let q = a / b;
    let r = a % b;
    vstd::arithmetic::div_mod::lemma_mod_pos_bound(a, b);
    if b >= 2 {
        assert(2 * q <= b * q) by (nonlinear_arith)
            requires
                b >= 2,
                q >= 0,
        ;
    }
}

/// A product that fits in `i8` is not changed by wrapping.
proof fn lemma_wrapping_mul_i8(a: i8, b: i8)
    ensures
        i8::MIN <= a * b <= i8::MAX ==> a.wrapping_mul(b) == a * b,
{
    let p = a * b;
    if i8::MIN <= p <= i8::MAX {
        if p >= 0 {
            vstd::arithmetic::div_mod::lemma_small_mod(p as nat, (i8::MAX as nat + 1) * 2);
        } else {
            vstd::arithmetic::div_mod::lemma_mod_multiples_vanish(1, p, (i8::MAX as int + 1) * 2);
            vstd::arithmetic::div_mod::lemma_small_mod((p + (i8::MAX as int + 1) * 2) as nat, (i8::MAX as nat + 1) * 2);
        }
    }
}

impl UnsafeMath for i8 {
    open spec fn fast_add_spec(self, rhs: i8) -> i8 {
        self.wrapping_add(rhs)
    }

    open spec fn fast_sub_spec(self, rhs: i8) -> i8 {
        self.wrapping_sub(rhs)
    }

    open spec fn fast_mul_spec(self, rhs: i8) -> i8 {
        self.wrapping_mul(rhs)
    }

    open spec fn fast_div_spec(self, rhs: i8) -> i8 {
        self.checked_div(rhs)->Some_0
    }

    open spec fn fast_rem_spec(self, rhs: i8) -> i8 {
        self.checked_rem(rhs)->Some_0
    }

    open spec fn fast_shl_spec(self, amount: u32) -> i8 {
        self.wrapping_shl(amount)
    }

    open spec fn fast_shr_spec(self, amount: u32) -> i8 {
        self.wrapping_shr(amount)
    }

    open spec fn div_defined(self, rhs: i8) -> bool {
        rhs != 0 && !(self == i8::MIN && rhs == -1)
    }

    open spec fn shift_defined(amount: u32) -> bool {
        amount < 8
    }

    fn fast_add(self, rhs: i8) -> (r: i8)
        ensures
            i8::MIN <= self + rhs <= i8::MAX ==> r == self + rhs,
    {
        self.wrapping_add(rhs)
    }

    fn fast_sub(self, rhs: i8) -> (r: i8)
        ensures
            i8::MIN <= self - rhs <= i8::MAX ==> r == self - rhs,
    {
        self.wrapping_sub(rhs)
    }

    fn fast_mul(self, rhs: i8) -> (r: i8)
        ensures
            i8::MIN <= self * rhs <= i8::MAX ==> r == self * rhs,
    {
        let r = self.wrapping_mul(rhs);
        proof {
            lemma_wrapping_mul_i8(self, rhs);
        }
        r
    }

    fn fast_div(self, rhs: i8) -> (r: i8)
        ensures
            self.checked_div(rhs) == Some(r),
    {
        proof {
            lemma_quotient_bounds(if self < 0 { self * -1 } else { self as int }, if rhs < 0 { rhs * -1 } else { rhs as int });
        }
        self.checked_div(rhs).unwrap()
    }

    fn fast_rem(self, rhs: i8) -> (r: i8)
        ensures
            self.checked_rem(rhs) == Some(r),
    {
        self.checked_rem(rhs).unwrap()
    }

    fn fast_shl(self, rhs: u32) -> (r: i8)
        ensures
            r == self << rhs,
    {
        self.wrapping_shl(rhs)
    }

    fn fast_shr(self, rhs: u32) -> (r: i8)
        ensures
            r == self >> rhs,
    {
        self.wrapping_shr(rhs)
    }
}

/// A product that fits in `u8` is not changed by wrapping.
proof fn lemma_wrapping_mul_u8(a: u8, b: u8)
    ensures
        a * b <= u8::MAX ==> a.wrapping_mul(b) == a * b,
{
    if a * b <= u8::MAX {
        vstd::arithmetic::div_mod::lemma_small_mod((a * b) as nat, u8::MAX as nat + 1);
    }
}

impl UnsafeMath for u8 {
    open spec fn fast_add_spec(self, rhs: u8) -> u8 {
        self.wrapping_add(rhs)
    }

    open spec fn fast_sub_spec(self, rhs: u8) -> u8 {
        self.wrapping_sub(rhs)
    }

    open spec fn fast_mul_spec(self, rhs: u8) -> u8 {
        self.wrapping_mul(rhs)
    }

    open spec fn fast_div_spec(self, rhs: u8) -> u8 {
        self.checked_div(rhs)->Some_0
    }

    open spec fn fast_rem_spec(self, rhs: u8) -> u8 {
        self.checked_rem(rhs)->Some_0
    }

    open spec fn fast_shl_spec(self, amount: u32) -> u8 {
        self.wrapping_shl(amount)
    }

    open spec fn fast_shr_spec(self, amount: u32) -> u8 {
        self.wrapping_shr(amount)
    }

    open spec fn div_defined(self, rhs: u8) -> bool {
        rhs != 0
    }

    open spec fn shift_defined(amount: u32) -> bool {
        amount < 8
    }

    fn fast_add(self, rhs: u8) -> (r: u8)
        ensures
            u8::MIN <= self + rhs <= u8::MAX ==> r == self + rhs,
    {
        self.wrapping_add(rhs)
    }

    fn fast_sub(self, rhs: u8) -> (r: u8)
        ensures
            u8::MIN <= self - rhs <= u8::MAX ==> r == self - rhs,
    {
        self.wrapping_sub(rhs)
    }

    fn fast_mul(self, rhs: u8) -> (r: u8)
        ensures
            u8::MIN <= self * rhs <= u8::MAX ==> r == self * rhs,
    {
        let r = self.wrapping_mul(rhs);
        proof {
            lemma_wrapping_mul_u8(self, rhs);
        }
        r
    }

    fn fast_div(self, rhs: u8) -> (r: u8)
        ensures
            self.checked_div(rhs) == Some(r),
    {
        proof {
            lemma_quotient_bounds(self as int, rhs as int);
        }
        self.checked_div(rhs).unwrap()
    }

    fn fast_rem(self, rhs: u8) -> (r: u8)
        ensures
            self.checked_rem(rhs) == Some(r),
    {
        self.checked_rem(rhs).unwrap()
    }

    fn fast_shl(self, rhs: u32) -> (r: u8)
        ensures
            r == self << rhs,
    {
        self.wrapping_shl(rhs)
    }

    fn fast_shr(self, rhs: u32) -> (r: u8)
        ensures
            r == self >> rhs,
    {
        self.wrapping_shr(rhs)
    }
}

/// A product that fits in `i16` is not changed by wrapping.
proof fn lemma_wrapping_mul_i16(a: i16, b: i16)
    ensures
        i16::MIN <= a * b <= i16::MAX ==> a.wrapping_mul(b) == a * b,
{
    let p = a * b;
    if i16::MIN <= p <= i16::MAX {
        if p >= 0 {
            vstd::arithmetic::div_mod::lemma_small_mod(p as nat, (i16::MAX as nat + 1) * 2);
        } else {
            vstd::arithmetic::div_mod::lemma_mod_multiples_vanish(1, p, (i16::MAX as int + 1) * 2);
            vstd::arithmetic::div_mod::lemma_small_mod((p + (i16::MAX as int + 1) * 2) as nat, (i16::MAX as nat + 1) * 2);
        }
    }
}

impl UnsafeMath for i16 {
    open spec fn fast_add_spec(self, rhs: i16) -> i16 {
        self.wrapping_add(rhs)
    }

    open spec fn fast_sub_spec(self, rhs: i16) -> i16 {
        self.wrapping_sub(rhs)
    }

    open spec fn fast_mul_spec(self, rhs: i16) -> i16 {
        self.wrapping_mul(rhs)
    }

    open spec fn fast_div_spec(self, rhs: i16) -> i16 {
        self.checked_div(rhs)->Some_0
    }

    open spec fn fast_rem_spec(self, rhs: i16) -> i16 {
        self.checked_rem(rhs)->Some_0
    }

    open spec fn fast_shl_spec(self, amount: u32) -> i16 {
        self.wrapping_shl(amount)
    }

    open spec fn fast_shr_spec(self, amount: u32) -> i16 {
        self.wrapping_shr(amount)
    }

    open spec fn div_defined(self, rhs: i16) -> bool {
        rhs != 0 && !(self == i16::MIN && rhs == -1)
    }

    open spec fn shift_defined(amount: u32) -> bool {
        amount < 16
    }

    fn fast_add(self, rhs: i16) -> (r: i16)
        ensures
            i16::MIN <= self + rhs <= i16::MAX ==> r == self + rhs,
    {
        self.wrapping_add(rhs)
    }

    fn fast_sub(self, rhs: i16) -> (r: i16)
        ensures
            i16::MIN <= self - rhs <= i16::MAX ==> r == self - rhs,
    {
        self.wrapping_sub(rhs)
    }

    fn fast_mul(self, rhs: i16) -> (r: i16)
        ensures
            i16::MIN <= self * rhs <= i16::MAX ==> r == self * rhs,
    {
        let r = self.wrapping_mul(rhs);
        proof {
            lemma_wrapping_mul_i16(self, rhs);
        }
        r
    }

    fn fast_div(self, rhs: i16) -> (r: i16)
        ensures
            self.checked_div(rhs) == Some(r),
    {
        proof {
            lemma_quotient_bounds(if self < 0 { self * -1 } else { self as int }, if rhs < 0 { rhs * -1 } else { rhs as int });
        }
        self.checked_div(rhs).unwrap()
    }

    fn fast_rem(self, rhs: i16) -> (r: i16)
        ensures
            self.checked_rem(rhs) == Some(r),
    {
        self.checked_rem(rhs).unwrap()
    }

    fn fast_shl(self, rhs: u32) -> (r: i16)
        ensures
            r == self << rhs,
    {
        self.wrapping_shl(rhs)
    }

    fn fast_shr(self, rhs: u32) -> (r: i16)
        ensures
            r == self >> rhs,
    {
        self.wrapping_shr(rhs)
    }
}

/// A product that fits in `u16` is not changed by wrapping.
proof fn lemma_wrapping_mul_u16(a: u16, b: u16)
    ensures
        a * b <= u16::MAX ==> a.wrapping_mul(b) == a * b,
{
    if a * b <= u16::MAX {
        vstd::arithmetic::div_mod::lemma_small_mod((a * b) as nat, u16::MAX as nat + 1);
    }
}

impl UnsafeMath for u16 {
    open spec fn fast_add_spec(self, rhs: u16) -> u16 {
        self.wrapping_add(rhs)
    }

    open spec fn fast_sub_spec(self, rhs: u16) -> u16 {
        self.wrapping_sub(rhs)
    }

    open spec fn fast_mul_spec(self, rhs: u16) -> u16 {
        self.wrapping_mul(rhs)
    }

    open spec fn fast_div_spec(self, rhs: u16) -> u16 {
        self.checked_div(rhs)->Some_0
    }

    open spec fn fast_rem_spec(self, rhs: u16) -> u16 {
        self.checked_rem(rhs)->Some_0
    }

    open spec fn fast_shl_spec(self, amount: u32) -> u16 {
        self.wrapping_shl(amount)
    }

    open spec fn fast_shr_spec(self, amount: u32) -> u16 {
        self.wrapping_shr(amount)
    }

    open spec fn div_defined(self, rhs: u16) -> bool {
        rhs != 0
    }

    open spec fn shift_defined(amount: u32) -> bool {
        amount < 16
    }

    fn fast_add(self, rhs: u16) -> (r: u16)
        ensures
            u16::MIN <= self + rhs <= u16::MAX ==> r == self + rhs,
    {
        self.wrapping_add(rhs)
    }

    fn fast_sub(self, rhs: u16) -> (r: u16)
        ensures
            u16::MIN <= self - rhs <= u16::MAX ==> r == self - rhs,
    {
        self.wrapping_sub(rhs)
    }

    fn fast_mul(self, rhs: u16) -> (r: u16)
        ensures
            u16::MIN <= self * rhs <= u16::MAX ==> r == self * rhs,
    {
        let r = self.wrapping_mul(rhs);
        proof {
            lemma_wrapping_mul_u16(self, rhs);
        }
        r
    }

    fn fast_div(self, rhs: u16) -> (r: u16)
        ensures
            self.checked_div(rhs) == Some(r),
    {
        proof {
            lemma_quotient_bounds(self as int, rhs as int);
        }
        self.checked_div(rhs).unwrap()
    }

    fn fast_rem(self, rhs: u16) -> (r: u16)
        ensures
            self.checked_rem(rhs) == Some(r),
    {
        self.checked_rem(rhs).unwrap()
    }

    fn fast_shl(self, rhs: u32) -> (r: u16)
        ensures
            r == self << rhs,
    {
        self.wrapping_shl(rhs)
    }

    fn fast_shr(self, rhs: u32) -> (r: u16)
        ensures
            r == self >> rhs,
    {
        self.wrapping_shr(rhs)
    }
}

/// A product that fits in `i32` is not changed by wrapping.
proof fn lemma_wrapping_mul_i32(a: i32, b: i32)
    ensures
        i32::MIN <= a * b <= i32::MAX ==> a.wrapping_mul(b) == a * b,
{
    let p = a * b;
    if i32::MIN <= p <= i32::MAX {
        if p >= 0 {
            vstd::arithmetic::div_mod::lemma_small_mod(p as nat, (i32::MAX as nat + 1) * 2);
        } else {
            vstd::arithmetic::div_mod::lemma_mod_multiples_vanish(1, p, (i32::MAX as int + 1) * 2);
            vstd::arithmetic::div_mod::lemma_small_mod((p + (i32::MAX as int + 1) * 2) as nat, (i32::MAX as nat + 1) * 2);
        }
    }
}

impl UnsafeMath for i32 {
    open spec fn fast_add_spec(self, rhs: i32) -> i32 {
        self.wrapping_add(rhs)
    }

    open spec fn fast_sub_spec(self, rhs: i32) -> i32 {
        self.wrapping_sub(rhs)
    }

    open spec fn fast_mul_spec(self, rhs: i32) -> i32 {
        self.wrapping_mul(rhs)
    }

    open spec fn fast_div_spec(self, rhs: i32) -> i32 {
        self.checked_div(rhs)->Some_0
    }

    open spec fn fast_rem_spec(self, rhs: i32) -> i32 {
        self.checked_rem(rhs)->Some_0
    }

    open spec fn fast_shl_spec(self, amount: u32) -> i32 {
        self.wrapping_shl(amount)
    }

    open spec fn fast_shr_spec(self, amount: u32) -> i32 {
        self.wrapping_shr(amount)
    }

    open spec fn div_defined(self, rhs: i32) -> bool {
        rhs != 0 && !(self == i32::MIN && rhs == -1)
    }

    open spec fn shift_defined(amount: u32) -> bool {
        amount < 32
    }

    fn fast_add(self, rhs: i32) -> (r: i32)
        ensures
            i32::MIN <= self + rhs <= i32::MAX ==> r == self + rhs,
    {
        self.wrapping_add(rhs)
    }

    fn fast_sub(self, rhs: i32) -> (r: i32)
        ensures
            i32::MIN <= self - rhs <= i32::MAX ==> r == self - rhs,
    {
        self.wrapping_sub(rhs)
    }

    fn fast_mul(self, rhs: i32) -> (r: i32)
        ensures
            i32::MIN <= self * rhs <= i32::MAX ==> r == self * rhs,
    {
        let r = self.wrapping_mul(rhs);
        proof {
            lemma_wrapping_mul_i32(self, rhs);
        }
        r
    }

    fn fast_div(self, rhs: i32) -> (r: i32)
        ensures
            self.checked_div(rhs) == Some(r),
    {
        proof {
            lemma_quotient_bounds(if self < 0 { self * -1 } else { self as int }, if rhs < 0 { rhs * -1 } else { rhs as int });
        }
        self.checked_div(rhs).unwrap()
    }

    fn fast_rem(self, rhs: i32) -> (r: i32)
        ensures
            self.checked_rem(rhs) == Some(r),
    {
        self.checked_rem(rhs).unwrap()
    }

    fn fast_shl(self, rhs: u32) -> (r: i32)
        ensures
            r == self << rhs,
    {
        self.wrapping_shl(rhs)
    }

    fn fast_shr(self, rhs: u32) -> (r: i32)
        ensures
            r == self >> rhs,
    {
        self.wrapping_shr(rhs)
    }
}

/// A product that fits in `u32` is not changed by wrapping.
proof fn lemma_wrapping_mul_u32(a: u32, b: u32)
    ensures
        a * b <= u32::MAX ==> a.wrapping_mul(b) == a * b,
{
    if a * b <= u32::MAX {
        vstd::arithmetic::div_mod::lemma_small_mod((a * b) as nat, u32::MAX as nat + 1);
    }
}

impl UnsafeMath for u32 {
    open spec fn fast_add_spec(self, rhs: u32) -> u32 {
        self.wrapping_add(rhs)
    }

    open spec fn fast_sub_spec(self, rhs: u32) -> u32 {
        self.wrapping_sub(rhs)
    }

    open spec fn fast_mul_spec(self, rhs: u32) -> u32 {
        self.wrapping_mul(rhs)
    }

    open spec fn fast_div_spec(self, rhs: u32) -> u32 {
        self.checked_div(rhs)->Some_0
    }

    open spec fn fast_rem_spec(self, rhs: u32) -> u32 {
        self.checked_rem(rhs)->Some_0
    }

    open spec fn fast_shl_spec(self, amount: u32) -> u32 {
        self.wrapping_shl(amount)
    }

    open spec fn fast_shr_spec(self, amount: u32) -> u32 {
        self.wrapping_shr(amount)
    }

    open spec fn div_defined(self, rhs: u32) -> bool {
        rhs != 0
    }

    open spec fn shift_defined(amount: u32) -> bool {
        amount < 32
    }

    fn fast_add(self, rhs: u32) -> (r: u32)
        ensures
            u32::MIN <= self + rhs <= u32::MAX ==> r == self + rhs,
    {
        self.wrapping_add(rhs)
    }

    fn fast_sub(self, rhs: u32) -> (r: u32)
        ensures
            u32::MIN <= self - rhs <= u32::MAX ==> r == self - rhs,
    {
        self.wrapping_sub(rhs)
    }

    fn fast_mul(self, rhs: u32) -> (r: u32)
        ensures
            u32::MIN <= self * rhs <= u32::MAX ==> r == self * rhs,
    {
        let r = self.wrapping_mul(rhs);
        proof {
            lemma_wrapping_mul_u32(self, rhs);
        }
        r
    }

    fn fast_div(self, rhs: u32) -> (r: u32)
        ensures
            self.checked_div(rhs) == Some(r),
    {
        proof {
            lemma_quotient_bounds(self as int, rhs as int);
        }
        self.checked_div(rhs).unwrap()
    }

    fn fast_rem(self, rhs: u32) -> (r: u32)
        ensures
            self.checked_rem(rhs) == Some(r),
    {
        self.checked_rem(rhs).unwrap()
    }

    fn fast_shl(self, rhs: u32) -> (r: u32)
        ensures
            r == self << rhs,
    {
        self.wrapping_shl(rhs)
    }

    fn fast_shr(self, rhs: u32) -> (r: u32)
        ensures
            r == self >> rhs,
    {
        self.wrapping_shr(rhs)
    }
}

/// A product that fits in `i64` is not changed by wrapping.
proof fn lemma_wrapping_mul_i64(a: i64, b: i64)
    ensures
        i64::MIN <= a * b <= i64::MAX ==> a.wrapping_mul(b) == a * b,
{
    let p = a * b;
    if i64::MIN <= p <= i64::MAX {
        if p >= 0 {
            vstd::arithmetic::div_mod::lemma_small_mod(p as nat, (i64::MAX as nat + 1) * 2);
        } else {
            vstd::arithmetic::div_mod::lemma_mod_multiples_vanish(1, p, (i64::MAX as int + 1) * 2);
            vstd::arithmetic::div_mod::lemma_small_mod((p + (i64::MAX as int + 1) * 2) as nat, (i64::MAX as nat + 1) * 2);
        }
    }
}

impl UnsafeMath for i64 {
    open spec fn fast_add_spec(self, rhs: i64) -> i64 {
        self.wrapping_add(rhs)
    }

    open spec fn fast_sub_spec(self, rhs: i64) -> i64 {
        self.wrapping_sub(rhs)
    }

    open spec fn fast_mul_spec(self, rhs: i64) -> i64 {
        self.wrapping_mul(rhs)
    }

    open spec fn fast_div_spec(self, rhs: i64) -> i64 {
        self.checked_div(rhs)->Some_0
    }

    open spec fn fast_rem_spec(self, rhs: i64) -> i64 {
        self.checked_rem(rhs)->Some_0
    }

    open spec fn fast_shl_spec(self, amount: u32) -> i64 {
        self.wrapping_shl(amount)
    }

    open spec fn fast_shr_spec(self, amount: u32) -> i64 {
        self.wrapping_shr(amount)
    }

    open spec fn div_defined(self, rhs: i64) -> bool {
        rhs != 0 && !(self == i64::MIN && rhs == -1)
    }

    open spec fn shift_defined(amount: u32) -> bool {
        amount < 64
    }

    fn fast_add(self, rhs: i64) -> (r: i64)
        ensures
            i64::MIN <= self + rhs <= i64::MAX ==> r == self + rhs,
    {
        self.wrapping_add(rhs)
    }

    fn fast_sub(self, rhs: i64) -> (r: i64)
        ensures
            i64::MIN <= self - rhs <= i64::MAX ==> r == self - rhs,
    {
        self.wrapping_sub(rhs)
    }

    fn fast_mul(self, rhs: i64) -> (r: i64)
        ensures
            i64::MIN <= self * rhs <= i64::MAX ==> r == self * rhs,
    {
        let r = self.wrapping_mul(rhs);
        proof {
            lemma_wrapping_mul_i64(self, rhs);
        }
        r
    }

    fn fast_div(self, rhs: i64) -> (r: i64)
        ensures
            self.checked_div(rhs) == Some(r),
    {
        proof {
            lemma_quotient_bounds(if self < 0 { self * -1 } else { self as int }, if rhs < 0 { rhs * -1 } else { rhs as int });
        }
        self.checked_div(rhs).unwrap()
    }

    fn fast_rem(self, rhs: i64) -> (r: i64)
        ensures
            self.checked_rem(rhs) == Some(r),
    {
        self.checked_rem(rhs).unwrap()
    }

    fn fast_shl(self, rhs: u32) -> (r: i64)
        ensures
            r == self << rhs,
    {
        self.wrapping_shl(rhs)
    }

    fn fast_shr(self, rhs: u32) -> (r: i64)
        ensures
            r == self >> rhs,
    {
        self.wrapping_shr(rhs)
    }
}

/// A product that fits in `u64` is not changed by wrapping.
proof fn lemma_wrapping_mul_u64(a: u64, b: u64)
    ensures
        a * b <= u64::MAX ==> a.wrapping_mul(b) == a * b,
{
    if a * b <= u64::MAX {
        vstd::arithmetic::div_mod::lemma_small_mod((a * b) as nat, u64::MAX as nat + 1);
    }
}

impl UnsafeMath for u64 {
    open spec fn fast_add_spec(self, rhs: u64) -> u64 {
        self.wrapping_add(rhs)
    }

    open spec fn fast_sub_spec(self, rhs: u64) -> u64 {
        self.wrapping_sub(rhs)
    }

    open spec fn fast_mul_spec(self, rhs: u64) -> u64 {
        self.wrapping_mul(rhs)
    }

    open spec fn fast_div_spec(self, rhs: u64) -> u64 {
        self.checked_div(rhs)->Some_0
    }

    open spec fn fast_rem_spec(self, rhs: u64) -> u64 {
        self.checked_rem(rhs)->Some_0
    }

    open spec fn fast_shl_spec(self, amount: u32) -> u64 {
        self.wrapping_shl(amount)
    }

    open spec fn fast_shr_spec(self, amount: u32) -> u64 {
        self.wrapping_shr(amount)
    }

    open spec fn div_defined(self, rhs: u64) -> bool {
        rhs != 0
    }

    open spec fn shift_defined(amount: u32) -> bool {
        amount < 64
    }

    fn fast_add(self, rhs: u64) -> (r: u64)
        ensures
            u64::MIN <= self + rhs <= u64::MAX ==> r == self + rhs,
    {
        self.wrapping_add(rhs)
    }

    fn fast_sub(self, rhs: u64) -> (r: u64)
        ensures
            u64::MIN <= self - rhs <= u64::MAX ==> r == self - rhs,
    {
        self.wrapping_sub(rhs)
    }

    fn fast_mul(self, rhs: u64) -> (r: u64)
        ensures
            u64::MIN <= self * rhs <= u64::MAX ==> r == self * rhs,
    {
        let r = self.wrapping_mul(rhs);
        proof {
            lemma_wrapping_mul_u64(self, rhs);
        }
        r
    }

    fn fast_div(self, rhs: u64) -> (r: u64)
        ensures
            self.checked_div(rhs) == Some(r),
    {
        proof {
            lemma_quotient_bounds(self as int, rhs as int);
        }
        self.checked_div(rhs).unwrap()
    }

    fn fast_rem(self, rhs: u64) -> (r: u64)
        ensures
            self.checked_rem(rhs) == Some(r),
    {
        self.checked_rem(rhs).unwrap()
    }

    fn fast_shl(self, rhs: u32) -> (r: u64)
        ensures
            r == self << rhs,
    {
        self.wrapping_shl(rhs)
    }

    fn fast_shr(self, rhs: u32) -> (r: u64)
        ensures
            r == self >> rhs,
    {
        self.wrapping_shr(rhs)
    }
}

/// A product that fits in `i128` is not changed by wrapping.
proof fn lemma_wrapping_mul_i128(a: i128, b: i128)
    ensures
        i128::MIN <= a * b <= i128::MAX ==> a.wrapping_mul(b) == a * b,
{
    let p = a * b;
    if i128::MIN <= p <= i128::MAX {
        if p >= 0 {
            vstd::arithmetic::div_mod::lemma_small_mod(p as nat, (i128::MAX as nat + 1) * 2);
        } else {
            vstd::arithmetic::div_mod::lemma_mod_multiples_vanish(1, p, (i128::MAX as int + 1) * 2);
            vstd::arithmetic::div_mod::lemma_small_mod((p + (i128::MAX as int + 1) * 2) as nat, (i128::MAX as nat + 1) * 2);
        }
    }
}

impl UnsafeMath for i128 {
    open spec fn fast_add_spec(self, rhs: i128) -> i128 {
        self.wrapping_add(rhs)
    }

    open spec fn fast_sub_spec(self, rhs: i128) -> i128 {
        self.wrapping_sub(rhs)
    }

    open spec fn fast_mul_spec(self, rhs: i128) -> i128 {
        self.wrapping_mul(rhs)
    }

    open spec fn fast_div_spec(self, rhs: i128) -> i128 {
        self.checked_div(rhs)->Some_0
    }

    open spec fn fast_rem_spec(self, rhs: i128) -> i128 {
        self.checked_rem(rhs)->Some_0
    }

    open spec fn fast_shl_spec(self, amount: u32) -> i128 {
        self.wrapping_shl(amount)
    }

    open spec fn fast_shr_spec(self, amount: u32) -> i128 {
        self.wrapping_shr(amount)
    }

    open spec fn div_defined(self, rhs: i128) -> bool {
        rhs != 0 && !(self == i128::MIN && rhs == -1)
    }

    open spec fn shift_defined(amount: u32) -> bool {
        amount < 128
    }

    fn fast_add(self, rhs: i128) -> (r: i128)
        ensures
            i128::MIN <= self + rhs <= i128::MAX ==> r == self + rhs,
    {
        self.wrapping_add(rhs)
    }

    fn fast_sub(self, rhs: i128) -> (r: i128)
        ensures
            i128::MIN <= self - rhs <= i128::MAX ==> r == self - rhs,
    {
        self.wrapping_sub(rhs)
    }

    fn fast_mul(self, rhs: i128) -> (r: i128)
        ensures
            i128::MIN <= self * rhs <= i128::MAX ==> r == self * rhs,
    {
        let r = self.wrapping_mul(rhs);
        proof {
            lemma_wrapping_mul_i128(self, rhs);
        }
        r
    }

    fn fast_div(self, rhs: i128) -> (r: i128)
        ensures
            self.checked_div(rhs) == Some(r),
    {
        proof {
            lemma_quotient_bounds(if self < 0 { self * -1 } else { self as int }, if rhs < 0 { rhs * -1 } else { rhs as int });
        }
        self.checked_div(rhs).unwrap()
    }

    fn fast_rem(self, rhs: i128) -> (r: i128)
        ensures
            self.checked_rem(rhs) == Some(r),
    {
        self.checked_rem(rhs).unwrap()
    }

    fn fast_shl(self, rhs: u32) -> (r: i128)
        ensures
            r == self << rhs,
    {
        self.wrapping_shl(rhs)
    }

    fn fast_shr(self, rhs: u32) -> (r: i128)
        ensures
            r == self >> rhs,
    {
        self.wrapping_shr(rhs)
    }
}

/// A product that fits in `u128` is not changed by wrapping.
proof fn lemma_wrapping_mul_u128(a: u128, b: u128)
    ensures
        a * b <= u128::MAX ==> a.wrapping_mul(b) == a * b,
{
    if a * b <= u128::MAX {
        vstd::arithmetic::div_mod::lemma_small_mod((a * b) as nat, u128::MAX as nat + 1);
    }
}

impl UnsafeMath for u128 {
    open spec fn fast_add_spec(self, rhs: u128) -> u128 {
        self.wrapping_add(rhs)
    }

    open spec fn fast_sub_spec(self, rhs: u128) -> u128 {
        self.wrapping_sub(rhs)
    }

    open spec fn fast_mul_spec(self, rhs: u128) -> u128 {
        self.wrapping_mul(rhs)
    }

    open spec fn fast_div_spec(self, rhs: u128) -> u128 {
        self.checked_div(rhs)->Some_0
    }

    open spec fn fast_rem_spec(self, rhs: u128) -> u128 {
        self.checked_rem(rhs)->Some_0
    }

    open spec fn fast_shl_spec(self, amount: u32) -> u128 {
        self.wrapping_shl(amount)
    }

    open spec fn fast_shr_spec(self, amount: u32) -> u128 {
        self.wrapping_shr(amount)
    }

    open spec fn div_defined(self, rhs: u128) -> bool {
        rhs != 0
    }

    open spec fn shift_defined(amount: u32) -> bool {
        amount < 128
    }

    fn fast_add(self, rhs: u128) -> (r: u128)
        ensures
            u128::MIN <= self + rhs <= u128::MAX ==> r == self + rhs,
    {
        self.wrapping_add(rhs)
    }

    fn fast_sub(self, rhs: u128) -> (r: u128)
        ensures
            u128::MIN <= self - rhs <= u128::MAX ==> r == self - rhs,
    {
        self.wrapping_sub(rhs)
    }

    fn fast_mul(self, rhs: u128) -> (r: u128)
        ensures
            u128::MIN <= self * rhs <= u128::MAX ==> r == self * rhs,
    {
        let r = self.wrapping_mul(rhs);
        proof {
            lemma_wrapping_mul_u128(self, rhs);
        }
        r
    }

    fn fast_div(self, rhs: u128) -> (r: u128)
        ensures
            self.checked_div(rhs) == Some(r),
    {
        proof {
            lemma_quotient_bounds(self as int, rhs as int);
        }
        self.checked_div(rhs).unwrap()
    }

    fn fast_rem(self, rhs: u128) -> (r: u128)
        ensures
            self.checked_rem(rhs) == Some(r),
    {
        self.checked_rem(rhs).unwrap()
    }

    fn fast_shl(self, rhs: u32) -> (r: u128)
        ensures
            r == self << rhs,
    {
        self.wrapping_shl(rhs)
    }

    fn fast_shr(self, rhs: u32) -> (r: u128)
        ensures
            r == self >> rhs,
    {
        self.wrapping_shr(rhs)
    }
}

/// A product that fits in `isize` is not changed by wrapping.
proof fn lemma_wrapping_mul_isize(a: isize, b: isize)
    ensures
        isize::MIN <= a * b <= isize::MAX ==> a.wrapping_mul(b) == a * b,
{
    let p = a * b;
    if isize::MIN <= p <= isize::MAX {
        if p >= 0 {
            vstd::arithmetic::div_mod::lemma_small_mod(p as nat, (isize::MAX as nat + 1) * 2);
        } else {
            vstd::arithmetic::div_mod::lemma_mod_multiples_vanish(1, p, (isize::MAX as int + 1) * 2);
            vstd::arithmetic::div_mod::lemma_small_mod((p + (isize::MAX as int + 1) * 2) as nat, (isize::MAX as nat + 1) * 2);
        }
    }
}

impl UnsafeMath for isize {
    open spec fn fast_add_spec(self, rhs: isize) -> isize {
        self.wrapping_add(rhs)
    }

    open spec fn fast_sub_spec(self, rhs: isize) -> isize {
        self.wrapping_sub(rhs)
    }

    open spec fn fast_mul_spec(self, rhs: isize) -> isize {
        self.wrapping_mul(rhs)
    }

    open spec fn fast_div_spec(self, rhs: isize) -> isize {
        self.checked_div(rhs)->Some_0
    }

    open spec fn fast_rem_spec(self, rhs: isize) -> isize {
        self.checked_rem(rhs)->Some_0
    }

    open spec fn fast_shl_spec(self, amount: u32) -> isize {
        self.wrapping_shl(amount)
    }

    open spec fn fast_shr_spec(self, amount: u32) -> isize {
        self.wrapping_shr(amount)
    }

    open spec fn div_defined(self, rhs: isize) -> bool {
        rhs != 0 && !(self == isize::MIN && rhs == -1)
    }

    open spec fn shift_defined(amount: u32) -> bool {
        amount < usize::BITS
    }

    fn fast_add(self, rhs: isize) -> (r: isize)
        ensures
            isize::MIN <= self + rhs <= isize::MAX ==> r == self + rhs,
    {
        self.wrapping_add(rhs)
    }

    fn fast_sub(self, rhs: isize) -> (r: isize)
        ensures
            isize::MIN <= self - rhs <= isize::MAX ==> r == self - rhs,
    {
        self.wrapping_sub(rhs)
    }

    fn fast_mul(self, rhs: isize) -> (r: isize)
        ensures
            isize::MIN <= self * rhs <= isize::MAX ==> r == self * rhs,
    {
        let r = self.wrapping_mul(rhs);
        proof {
            lemma_wrapping_mul_isize(self, rhs);
        }
        r
    }

    fn fast_div(self, rhs: isize) -> (r: isize)
        ensures
            self.checked_div(rhs) == Some(r),
    {
        proof {
            lemma_quotient_bounds(if self < 0 { self * -1 } else { self as int }, if rhs < 0 { rhs * -1 } else { rhs as int });
        }
        self.checked_div(rhs).unwrap()
    }

    fn fast_rem(self, rhs: isize) -> (r: isize)
        ensures
            self.checked_rem(rhs) == Some(r),
    {
        self.checked_rem(rhs).unwrap()
    }

    fn fast_shl(self, rhs: u32) -> (r: isize)
        ensures
            r == self << rhs,
    {
        self.wrapping_shl(rhs)
    }

    fn fast_shr(self, rhs: u32) -> (r: isize)
        ensures
            r == self >> rhs,
    {
        self.wrapping_shr(rhs)
    }
}

/// A product that fits in `usize` is not changed by wrapping.
proof fn lemma_wrapping_mul_usize(a: usize, b: usize)
    ensures
        a * b <= usize::MAX ==> a.wrapping_mul(b) == a * b,
{
    if a * b <= usize::MAX {
        vstd::arithmetic::div_mod::lemma_small_mod((a * b) as nat, usize::MAX as nat + 1);
    }
}

impl UnsafeMath for usize {
    open spec fn fast_add_spec(self, rhs: usize) -> usize {
        self.wrapping_add(rhs)
    }

    open spec fn fast_sub_spec(self, rhs: usize) -> usize {
        self.wrapping_sub(rhs)
    }

    open spec fn fast_mul_spec(self, rhs: usize) -> usize {
        self.wrapping_mul(rhs)
    }

    open spec fn fast_div_spec(self, rhs: usize) -> usize {
        self.checked_div(rhs)->Some_0
    }

    open spec fn fast_rem_spec(self, rhs: usize) -> usize {
        self.checked_rem(rhs)->Some_0
    }

    open spec fn fast_shl_spec(self, amount: u32) -> usize {
        self.wrapping_shl(amount)
    }

    open spec fn fast_shr_spec(self, amount: u32) -> usize {
        self.wrapping_shr(amount)
    }

    open spec fn div_defined(self, rhs: usize) -> bool {
        rhs != 0
    }

    open spec fn shift_defined(amount: u32) -> bool {
        amount < usize::BITS
    }

    fn fast_add(self, rhs: usize) -> (r: usize)
        ensures
            usize::MIN <= self + rhs <= usize::MAX ==> r == self + rhs,
    {
        self.wrapping_add(rhs)
    }

    fn fast_sub(self, rhs: usize) -> (r: usize)
        ensures
            usize::MIN <= self - rhs <= usize::MAX ==> r == self - rhs,
    {
        self.wrapping_sub(rhs)
    }

    fn fast_mul(self, rhs: usize) -> (r: usize)
        ensures
            usize::MIN <= self * rhs <= usize::MAX ==> r == self * rhs,
    {
        let r = self.wrapping_mul(rhs);
        proof {
            lemma_wrapping_mul_usize(self, rhs);
        }
        r
    }

    fn fast_div(self, rhs: usize) -> (r: usize)
        ensures
            self.checked_div(rhs) == Some(r),
    {
        proof {
            lemma_quotient_bounds(self as int, rhs as int);
        }
        self.checked_div(rhs).unwrap()
    }

    fn fast_rem(self, rhs: usize) -> (r: usize)
        ensures
            self.checked_rem(rhs) == Some(r),
    {
        self.checked_rem(rhs).unwrap()
    }

    fn fast_shl(self, rhs: u32) -> (r: usize)
        ensures
            r == self << rhs,
    {
        self.wrapping_shl(rhs)
    }

    fn fast_shr(self, rhs: u32) -> (r: usize)
        ensures
            r == self >> rhs,
    {
        self.wrapping_shr(rhs)
    }
}

} // verus!
