use vstd::prelude::*;

use vstd::arithmetic::power2::pow2;

use crate::field::{p, Mersenne31Field, inverse_value};
use crate::witness_placer::{
    WitnessComputationCore, WitnessComputationalField, WitnessComputationalI32,
    WitnessComputationalInteger, WitnessComputationalU16, WitnessComputationalU32,
    WitnessComputationalU8, WitnessMask, WitnessTypeSet,
};

verus! {

/// The scalar type set: plain booleans, machine integers and field
/// elements, one value per computation; `BRANCH` tells whether the
/// computation may branch on masks.
#[derive(Clone, Copy, Debug)]
pub struct ScalarWitnessTypeSet<const BRANCH: bool>;

impl<const BRANCH: bool> WitnessTypeSet<Mersenne31Field> for ScalarWitnessTypeSet<BRANCH> {
    type Mask = bool;
    type Field = Mersenne31Field;
    type I32 = i32;
    type U32 = u32;
    type U16 = u16;
    type U8 = u8;

    open spec fn spec_can_branch() -> bool {
        BRANCH
    }

    open spec fn spec_branch(mask: bool) -> bool {
        mask
    }

    /// Whether the computation may branch: `BRANCH`.
    fn can_branch() -> (r: bool)
        ensures
            r == BRANCH,
    {
        BRANCH
    }

    /// The branch is taken where the mask holds.
    fn branch(mask: &bool) -> (r: bool)
        ensures
            r == *mask,
    {
        *mask
    }
}

/// `2^n`, within `[1, 2^32]` for `n <= 32`.
proof fn lemma_pow2_small(n: nat)
    requires
        n <= 32,
    ensures
        1 <= pow2(n) <= 0x1_0000_0000,
{
    vstd::arithmetic::power2::lemma2_to64();
    vstd::arithmetic::power2::lemma_pow2_pos(n);
    if n < 32 {
        vstd::arithmetic::power2::lemma_pow2_strictly_increases(n, 32);
    }
}

/// `x >> n` on `u32` as a division, for a shift below the width.
fn shr_u32(x: u32, n: u32) -> (r: u32)
    requires
        n < 32,
    ensures
        r as int == x as int / pow2(n as nat) as int,
{
    proof {
        vstd::bits::lemma_u32_shr_is_div(x, n);
    }
    x >> n
}

/// `2^n` as a `u64`, for `n <= 32`.
fn pow2_u64(n: u32) -> (r: u64)
    requires
        n <= 32,
    ensures
        r as int == pow2(n as nat) as int,
        1 <= r <= 0x1_0000_0000,
{
    proof {
        lemma_pow2_small(n as nat);
        vstd::bits::lemma_u64_shl_is_mul(1u64, n as u64);
    }
    1u64 << (n as u64)
}

impl WitnessMask for bool {
    open spec fn spec_constant(value: bool) -> bool {
        value
    }

    open spec fn spec_select(mask: bool, a: bool, b: bool) -> bool {
        if mask {
            a
        } else {
            b
        }
    }

    /// Conjunction.
    fn and(&self, other: &Self) -> (r: Self)
        ensures
            r == (*self && *other),
    {
        *self && *other
    }

    /// Disjunction.
    fn or(&self, other: &Self) -> (r: Self)
        ensures
            r == (*self || *other),
    {
        *self || *other
    }

    /// Negation.
    fn negate(&self) -> (r: Self)
        ensures
            r == !*self,
    {
        !*self
    }

    /// The constant.
    fn constant(value: bool) -> (r: Self)
        ensures
            r == value,
    {
        value
    }

    /// `a` where the mask holds, `b` otherwise.
    fn select(mask: &Self, a: &Self, b: &Self) -> (r: Self)
        ensures
            r == if *mask { *a } else { *b },
    {
        if *mask {
            *a
        } else {
            *b
        }
    }

    /// Writes `a` where the mask holds, `b` otherwise.
    fn select_into(dst: &mut Self, mask: &Self, a: &Self, b: &Self)
        ensures
            *final(dst) == if *mask { *a } else { *b },
    {
        if *mask {
            *dst = *a;
        } else {
            *dst = *b;
        }
    }
}

impl WitnessComputationCore for u8 {
    type Mask = bool;

    open spec fn spec_plus(a: u8, b: u8) -> u8 {
        ((a as int + b as int) % 0x100) as u8
    }

    open spec fn spec_minus(a: u8, b: u8) -> u8 {
        ((a as int - b as int) % 0x100) as u8
    }

    open spec fn spec_select(mask: bool, a: u8, b: u8) -> u8 {
        if mask {
            a
        } else {
            b
        }
    }

    open spec fn spec_into_mask(a: u8) -> bool {
        a == 1
    }

    /// Wrapping addition.
    fn add_assign(&mut self, other: &Self)
        ensures
            *final(self) as int == (*old(self) as int + *other as int) % 0x100,
    {
        let s = *self as u64 + *other as u64;
        *self = (s % 0x100u64) as u8;
    }

    /// Wrapping subtraction.
    fn sub_assign(&mut self, other: &Self)
        ensures
            *final(self) as int == (*old(self) as int - *other as int) % 0x100,
    {
        let s = *self as u64 + 0x100u64 - *other as u64;
        proof {
            vstd::arithmetic::div_mod::lemma_mod_add_multiples_vanish(
                *self as int - *other as int,
                0x100,
            );
        }
        *self = (s % 0x100u64) as u8;
    }

    /// Wrapping addition where the mask holds.
    fn add_assign_masked(&mut self, mask: &Self::Mask, other: &Self)
        ensures
            *mask ==> *final(self) as int == (*old(self) as int + *other as int) % 0x100,
            !*mask ==> *final(self) == *old(self),
    {
        if *mask {
            WitnessComputationCore::add_assign(self, other);
        }
    }

    open spec fn spec_product_fits(self, a: Self, b: Self) -> bool {
        self as int + a as int * b as int <= u8::MAX
    }

    open spec fn spec_masked_product_fits(self, mask: bool, a: Self, b: Self) -> bool {
        mask ==> self as int + a as int * b as int <= u8::MAX
    }

    /// `self += a * b`; the caller keeps the sum in range.
    fn add_assign_product(&mut self, a: &Self, b: &Self)
        ensures
            *final(self) as int == *old(self) as int + *a as int * *b as int,
    {
        let s0 = *self;
        let x = *a;
        let y = *b;
        assert(0 <= x as int * y as int <= s0 as int + x as int * y as int) by (nonlinear_arith)
            requires
                s0 as int + x as int * y as int <= u8::MAX,
        ;
        *self = s0 + x * y;
    }

    /// `self += a * b` where the mask holds; the caller keeps the sum in
    /// range.
    fn add_assign_product_masked(&mut self, mask: &Self::Mask, a: &Self, b: &Self)
        ensures
            *mask ==> *final(self) as int == *old(self) as int + *a as int * *b as int,
            !*mask ==> *final(self) == *old(self),
    {
        if *mask {
            WitnessComputationCore::add_assign_product(self, a, b);
        }
    }

    /// `a` where the mask holds, `b` otherwise.
    fn select(mask: &Self::Mask, a: &Self, b: &Self) -> (r: Self)
        ensures
            r == if *mask { *a } else { *b },
    {
        if *mask {
            *a
        } else {
            *b
        }
    }

    /// Writes `a` where the mask holds, `b` otherwise.
    fn select_into(dst: &mut Self, mask: &Self::Mask, a: &Self, b: &Self)
        ensures
            *final(dst) == if *mask { *a } else { *b },
    {
        if *mask {
            *dst = *a;
        } else {
            *dst = *b;
        }
    }

    /// One for `true`, zero for `false`.
    fn from_mask(value: Self::Mask) -> (r: Self)
        ensures
            r == if value { 1u8 } else { 0u8 },
    {
        if value {
            1
        } else {
            0
        }
    }

    /// Whether the value is one.
    fn into_mask(self) -> (r: Self::Mask)
        ensures
            r == (self == 1),
    {
        self == 1
    }
}

impl WitnessComputationalInteger<u8> for u8 {
    open spec fn spec_constant(value: u8) -> u8 {
        value
    }

    open spec fn spec_overflowing_add(a: u8, b: u8) -> (u8, bool) {
        (((a as int + b as int) % 0x100) as u8, a as int + b as int >= 0x100)
    }

    open spec fn spec_overflowing_sub(a: u8, b: u8) -> (u8, bool) {
        (((a as int - b as int) % 0x100) as u8, a < b)
    }

    open spec fn spec_shift_left(a: u8, shift_magnitude: u32) -> u8 {
        (if shift_magnitude < 8 {
            (a as int * pow2(shift_magnitude as nat) as int) % 0x100
        } else {
            0
        }) as u8
    }

    open spec fn spec_shift_right(a: u8, shift_magnitude: u32) -> u8 {
        (if shift_magnitude < 8 {
            a as int / pow2(shift_magnitude as nat) as int
        } else {
            0
        }) as u8
    }

    open spec fn spec_lowest_bits(a: u8, num_bits: u32) -> u8 {
        (a as int % pow2(num_bits as nat) as int) as u8
    }

    /// Whether the value is zero.
    fn is_zero(&self) -> (r: Self::Mask)
        ensures
            r == (*self == 0),
    {
        *self == 0
    }

    /// Whether the value is one.
    fn is_one(&self) -> (r: Self::Mask)
        ensures
            r == (*self == 1),
    {
        *self == 1
    }

    /// The constant.
    fn constant(value: u8) -> (r: Self)
        ensures
            r == value,
    {
        value
    }

    /// Whether two values are equal.
    fn equal(&self, other: &Self) -> (r: Self::Mask)
        ensures
            r == (*self == *other),
    {
        *self == *other
    }

    /// The wrapped sum and whether it overflowed.
    fn overflowing_add(&self, other: &Self) -> (r: (Self, Self::Mask))
        ensures
            r.0 as int == (*self as int + *other as int) % 0x100,
            r.1 == (*self as int + *other as int >= 0x100),
    {
        let s = *self as u64 + *other as u64;
        ((s % 0x100u64) as u8, s >= 0x100u64)
    }

    /// The wrapped difference and whether it borrowed.
    fn overflowing_sub(&self, other: &Self) -> (r: (Self, Self::Mask))
        ensures
            r.0 as int == (*self as int - *other as int) % 0x100,
            r.1 == (*self < *other),
    {
        let s = *self as u64 + 0x100u64 - *other as u64;
        proof {
            vstd::arithmetic::div_mod::lemma_mod_add_multiples_vanish(
                *self as int - *other as int,
                0x100,
            );
        }
        ((s % 0x100u64) as u8, *self < *other)
    }

    /// The wrapped sum with an incoming carry, and whether it overflowed.
    fn overflowing_add_with_carry(&self, other: &Self, carry: &Self::Mask) -> (r: (Self, Self::Mask))
        ensures
            r.0 as int == (*self as int + *other as int + if *carry { 1int } else { 0int }) % 0x100,
            r.1 == (*self as int + *other as int + if *carry { 1int } else { 0int } >= 0x100),
    {
        let c: u64 = if *carry {
            1
        } else {
            0
        };
        let s = *self as u64 + *other as u64 + c;
        ((s % 0x100u64) as u8, s >= 0x100u64)
    }

    /// The wrapped difference with an incoming borrow, and whether it
    /// borrowed.
    fn overflowing_sub_with_borrow(&self, other: &Self, borrow: &Self::Mask) -> (r: (Self, Self::Mask))
        ensures
            r.0 as int == (*self as int - *other as int - if *borrow { 1int } else { 0int }) % 0x100,
            r.1 == (*self as int - *other as int - if *borrow { 1int } else { 0int } < 0),
    {
        let c: u64 = if *borrow {
            1
        } else {
            0
        };
        let s = *self as u64 + 0x100u64 - *other as u64 - c;
        proof {
            vstd::arithmetic::div_mod::lemma_mod_add_multiples_vanish(
                *self as int - *other as int - c as int,
                0x100,
            );
        }
        ((s % 0x100u64) as u8, (*self as u64) < (*other as u64) + c)
    }

    /// Shift left, dropping the bits beyond the width; shifting by the
    /// width or more gives zero.
    fn shl(&self, shift_magnitude: u32) -> (r: Self)
        ensures
            r as int == if shift_magnitude < 8 {
                (*self as int * pow2(shift_magnitude as nat) as int) % 0x100
            } else {
                0
            },
    {
        if shift_magnitude < 8 {
            let m = pow2_u64(shift_magnitude);
            let x = *self as u64;
            assert(x * m <= 0xffff_ffff * 0x1_0000_0000) by (nonlinear_arith)
                requires
                    x <= 0xffff_ffff,
                    m <= 0x1_0000_0000,
            ;
            ((x * m) % 0x100u64) as u8
        } else {
            0
        }
    }

    /// Shift right; shifting by the width or more gives zero.
    fn shr(&self, shift_magnitude: u32) -> (r: Self)
        ensures
            r as int == if shift_magnitude < 8 {
                *self as int / pow2(shift_magnitude as nat) as int
            } else {
                0
            },
    {
        if shift_magnitude < 8 {
            let v = shr_u32(*self as u32, shift_magnitude);
            proof {
                lemma_pow2_small(shift_magnitude as nat);
                vstd::arithmetic::div_mod::lemma_div_is_ordered_by_denominator(
                    *self as int,
                    1,
                    pow2(shift_magnitude as nat) as int,
                );
            }
            v as u8
        } else {
            0
        }
    }

    open spec fn spec_bit_index_valid(bit_idx: u32) -> bool {
        bit_idx < 8
    }

    open spec fn spec_low_bits_valid(num_bits: u32) -> bool {
        num_bits < 8
    }

    /// Whether the bit is set.
    fn get_bit(&self, bit_idx: u32) -> (r: Self::Mask)
        ensures
            r == ((*self as int / pow2(bit_idx as nat) as int) % 2 == 1),
    {
        let v = WitnessComputationalInteger::shr(self, bit_idx);
        v % 2 == 1
    }

    /// Whether the value equals the constant.
    fn equal_to_constant(&self, value: u8) -> (r: Self::Mask)
        ensures
            r == (*self == value),
    {
        *self == value
    }

    /// The lowest `num_bits` bits: the value modulo `2^num_bits`.
    fn get_lowest_bits(&self, num_bits: u32) -> (r: Self)
        ensures
            r as int == *self as int % pow2(num_bits as nat) as int,
    {
        let m = pow2_u64(num_bits);
        proof {
            vstd::arithmetic::div_mod::lemma_mod_decreases(*self as nat, m as nat);
        }
        ((*self as u64) % m) as u8
    }

    /// Bitwise or.
    fn or(&self, other: &Self) -> (r: Self)
        ensures
            r == *self | *other,
    {
        *self | *other
    }

    /// Bitwise and.
    fn and(&self, other: &Self) -> (r: Self)
        ensures
            r == *self & *other,
    {
        *self & *other
    }

    /// Bitwise exclusive or.
    fn xor(&self, other: &Self) -> (r: Self)
        ensures
            r == *self ^ *other,
    {
        *self ^ *other
    }

    /// Bitwise complement.
    fn not(&self) -> (r: Self)
        ensures
            r == !*self,
    {
        !*self
    }
}

impl WitnessComputationCore for u16 {
    type Mask = bool;

    open spec fn spec_plus(a: u16, b: u16) -> u16 {
        ((a as int + b as int) % 0x10000) as u16
    }

    open spec fn spec_minus(a: u16, b: u16) -> u16 {
        ((a as int - b as int) % 0x10000) as u16
    }

    open spec fn spec_select(mask: bool, a: u16, b: u16) -> u16 {
        if mask {
            a
        } else {
            b
        }
    }

    open spec fn spec_into_mask(a: u16) -> bool {
        a == 1
    }

    /// Wrapping addition.
    fn add_assign(&mut self, other: &Self)
        ensures
            *final(self) as int == (*old(self) as int + *other as int) % 0x10000,
    {
        let s = *self as u64 + *other as u64;
        *self = (s % 0x10000u64) as u16;
    }

    /// Wrapping subtraction.
    fn sub_assign(&mut self, other: &Self)
        ensures
            *final(self) as int == (*old(self) as int - *other as int) % 0x10000,
    {
        let s = *self as u64 + 0x10000u64 - *other as u64;
        proof {
            vstd::arithmetic::div_mod::lemma_mod_add_multiples_vanish(
                *self as int - *other as int,
                0x10000,
            );
        }
        *self = (s % 0x10000u64) as u16;
    }

    /// Wrapping addition where the mask holds.
    fn add_assign_masked(&mut self, mask: &Self::Mask, other: &Self)
        ensures
            *mask ==> *final(self) as int == (*old(self) as int + *other as int) % 0x10000,
            !*mask ==> *final(self) == *old(self),
    {
        if *mask {
            WitnessComputationCore::add_assign(self, other);
        }
    }

    open spec fn spec_product_fits(self, a: Self, b: Self) -> bool {
        self as int + a as int * b as int <= u16::MAX
    }

    open spec fn spec_masked_product_fits(self, mask: bool, a: Self, b: Self) -> bool {
        mask ==> self as int + a as int * b as int <= u16::MAX
    }

    /// `self += a * b`; the caller keeps the sum in range.
    fn add_assign_product(&mut self, a: &Self, b: &Self)
        ensures
            *final(self) as int == *old(self) as int + *a as int * *b as int,
    {
        let s0 = *self;
        let x = *a;
        let y = *b;
        assert(0 <= x as int * y as int <= s0 as int + x as int * y as int) by (nonlinear_arith)
            requires
                s0 as int + x as int * y as int <= u16::MAX,
        ;
        *self = s0 + x * y;
    }

    /// `self += a * b` where the mask holds; the caller keeps the sum in
    /// range.
    fn add_assign_product_masked(&mut self, mask: &Self::Mask, a: &Self, b: &Self)
        ensures
            *mask ==> *final(self) as int == *old(self) as int + *a as int * *b as int,
            !*mask ==> *final(self) == *old(self),
    {
        if *mask {
            WitnessComputationCore::add_assign_product(self, a, b);
        }
    }

    /// `a` where the mask holds, `b` otherwise.
    fn select(mask: &Self::Mask, a: &Self, b: &Self) -> (r: Self)
        ensures
            r == if *mask { *a } else { *b },
    {
        if *mask {
            *a
        } else {
            *b
        }
    }

    /// Writes `a` where the mask holds, `b` otherwise.
    fn select_into(dst: &mut Self, mask: &Self::Mask, a: &Self, b: &Self)
        ensures
            *final(dst) == if *mask { *a } else { *b },
    {
        if *mask {
            *dst = *a;
        } else {
            *dst = *b;
        }
    }

    /// One for `true`, zero for `false`.
    fn from_mask(value: Self::Mask) -> (r: Self)
        ensures
            r == if value { 1u16 } else { 0u16 },
    {
        if value {
            1
        } else {
            0
        }
    }

    /// Whether the value is one.
    fn into_mask(self) -> (r: Self::Mask)
        ensures
            r == (self == 1),
    {
        self == 1
    }
}

impl WitnessComputationalInteger<u16> for u16 {
    open spec fn spec_constant(value: u16) -> u16 {
        value
    }

    open spec fn spec_overflowing_add(a: u16, b: u16) -> (u16, bool) {
        (((a as int + b as int) % 0x10000) as u16, a as int + b as int >= 0x10000)
    }

    open spec fn spec_overflowing_sub(a: u16, b: u16) -> (u16, bool) {
        (((a as int - b as int) % 0x10000) as u16, a < b)
    }

    open spec fn spec_shift_left(a: u16, shift_magnitude: u32) -> u16 {
        (if shift_magnitude < 16 {
            (a as int * pow2(shift_magnitude as nat) as int) % 0x10000
        } else {
            0
        }) as u16
    }

    open spec fn spec_shift_right(a: u16, shift_magnitude: u32) -> u16 {
        (if shift_magnitude < 16 {
            a as int / pow2(shift_magnitude as nat) as int
        } else {
            0
        }) as u16
    }

    open spec fn spec_lowest_bits(a: u16, num_bits: u32) -> u16 {
        (a as int % pow2(num_bits as nat) as int) as u16
    }

    /// Whether the value is zero.
    fn is_zero(&self) -> (r: Self::Mask)
        ensures
            r == (*self == 0),
    {
        *self == 0
    }

    /// Whether the value is one.
    fn is_one(&self) -> (r: Self::Mask)
        ensures
            r == (*self == 1),
    {
        *self == 1
    }

    /// The constant.
    fn constant(value: u16) -> (r: Self)
        ensures
            r == value,
    {
        value
    }

    /// Whether two values are equal.
    fn equal(&self, other: &Self) -> (r: Self::Mask)
        ensures
            r == (*self == *other),
    {
        *self == *other
    }

    /// The wrapped sum and whether it overflowed.
    fn overflowing_add(&self, other: &Self) -> (r: (Self, Self::Mask))
        ensures
            r.0 as int == (*self as int + *other as int) % 0x10000,
            r.1 == (*self as int + *other as int >= 0x10000),
    {
        let s = *self as u64 + *other as u64;
        ((s % 0x10000u64) as u16, s >= 0x10000u64)
    }

    /// The wrapped difference and whether it borrowed.
    fn overflowing_sub(&self, other: &Self) -> (r: (Self, Self::Mask))
        ensures
            r.0 as int == (*self as int - *other as int) % 0x10000,
            r.1 == (*self < *other),
    {
        let s = *self as u64 + 0x10000u64 - *other as u64;
        proof {
            vstd::arithmetic::div_mod::lemma_mod_add_multiples_vanish(
                *self as int - *other as int,
                0x10000,
            );
        }
        ((s % 0x10000u64) as u16, *self < *other)
    }

    /// The wrapped sum with an incoming carry, and whether it overflowed.
    fn overflowing_add_with_carry(&self, other: &Self, carry: &Self::Mask) -> (r: (Self, Self::Mask))
        ensures
            r.0 as int == (*self as int + *other as int + if *carry { 1int } else { 0int }) % 0x10000,
            r.1 == (*self as int + *other as int + if *carry { 1int } else { 0int } >= 0x10000),
    {
        let c: u64 = if *carry {
            1
        } else {
            0
        };
        let s = *self as u64 + *other as u64 + c;
        ((s % 0x10000u64) as u16, s >= 0x10000u64)
    }

    /// The wrapped difference with an incoming borrow, and whether it
    /// borrowed.
    fn overflowing_sub_with_borrow(&self, other: &Self, borrow: &Self::Mask) -> (r: (Self, Self::Mask))
        ensures
            r.0 as int == (*self as int - *other as int - if *borrow { 1int } else { 0int }) % 0x10000,
            r.1 == (*self as int - *other as int - if *borrow { 1int } else { 0int } < 0),
    {
        let c: u64 = if *borrow {
            1
        } else {
            0
        };
        let s = *self as u64 + 0x10000u64 - *other as u64 - c;
        proof {
            vstd::arithmetic::div_mod::lemma_mod_add_multiples_vanish(
                *self as int - *other as int - c as int,
                0x10000,
            );
        }
        ((s % 0x10000u64) as u16, (*self as u64) < (*other as u64) + c)
    }

    /// Shift left, dropping the bits beyond the width; shifting by the
    /// width or more gives zero.
    fn shl(&self, shift_magnitude: u32) -> (r: Self)
        ensures
            r as int == if shift_magnitude < 16 {
                (*self as int * pow2(shift_magnitude as nat) as int) % 0x10000
            } else {
                0
            },
    {
        if shift_magnitude < 16 {
            let m = pow2_u64(shift_magnitude);
            let x = *self as u64;
            assert(x * m <= 0xffff_ffff * 0x1_0000_0000) by (nonlinear_arith)
                requires
                    x <= 0xffff_ffff,
                    m <= 0x1_0000_0000,
            ;
            ((x * m) % 0x10000u64) as u16
        } else {
            0
        }
    }

    /// Shift right; shifting by the width or more gives zero.
    fn shr(&self, shift_magnitude: u32) -> (r: Self)
        ensures
            r as int == if shift_magnitude < 16 {
                *self as int / pow2(shift_magnitude as nat) as int
            } else {
                0
            },
    {
        if shift_magnitude < 16 {
            let v = shr_u32(*self as u32, shift_magnitude);
            proof {
                lemma_pow2_small(shift_magnitude as nat);
                vstd::arithmetic::div_mod::lemma_div_is_ordered_by_denominator(
                    *self as int,
                    1,
                    pow2(shift_magnitude as nat) as int,
                );
            }
            v as u16
        } else {
            0
        }
    }

    open spec fn spec_bit_index_valid(bit_idx: u32) -> bool {
        bit_idx < 16
    }

    open spec fn spec_low_bits_valid(num_bits: u32) -> bool {
        num_bits < 16
    }

    /// Whether the bit is set.
    fn get_bit(&self, bit_idx: u32) -> (r: Self::Mask)
        ensures
            r == ((*self as int / pow2(bit_idx as nat) as int) % 2 == 1),
    {
        let v = WitnessComputationalInteger::shr(self, bit_idx);
        v % 2 == 1
    }

    /// Whether the value equals the constant.
    fn equal_to_constant(&self, value: u16) -> (r: Self::Mask)
        ensures
            r == (*self == value),
    {
        *self == value
    }

    /// The lowest `num_bits` bits: the value modulo `2^num_bits`.
    fn get_lowest_bits(&self, num_bits: u32) -> (r: Self)
        ensures
            r as int == *self as int % pow2(num_bits as nat) as int,
    {
        let m = pow2_u64(num_bits);
        proof {
            vstd::arithmetic::div_mod::lemma_mod_decreases(*self as nat, m as nat);
        }
        ((*self as u64) % m) as u16
    }

    /// Bitwise or.
    fn or(&self, other: &Self) -> (r: Self)
        ensures
            r == *self | *other,
    {
        *self | *other
    }

    /// Bitwise and.
    fn and(&self, other: &Self) -> (r: Self)
        ensures
            r == *self & *other,
    {
        *self & *other
    }

    /// Bitwise exclusive or.
    fn xor(&self, other: &Self) -> (r: Self)
        ensures
            r == *self ^ *other,
    {
        *self ^ *other
    }

    /// Bitwise complement.
    fn not(&self) -> (r: Self)
        ensures
            r == !*self,
    {
        !*self
    }
}

impl WitnessComputationCore for u32 {
    type Mask = bool;

    open spec fn spec_plus(a: u32, b: u32) -> u32 {
        ((a as int + b as int) % 0x100000000) as u32
    }

    open spec fn spec_minus(a: u32, b: u32) -> u32 {
        ((a as int - b as int) % 0x100000000) as u32
    }

    open spec fn spec_select(mask: bool, a: u32, b: u32) -> u32 {
        if mask {
            a
        } else {
            b
        }
    }

    open spec fn spec_into_mask(a: u32) -> bool {
        a == 1
    }

    /// Wrapping addition.
    fn add_assign(&mut self, other: &Self)
        ensures
            *final(self) as int == (*old(self) as int + *other as int) % 0x100000000,
    {
        let s = *self as u64 + *other as u64;
        *self = (s % 0x100000000u64) as u32;
    }

    /// Wrapping subtraction.
    fn sub_assign(&mut self, other: &Self)
        ensures
            *final(self) as int == (*old(self) as int - *other as int) % 0x100000000,
    {
        let s = *self as u64 + 0x100000000u64 - *other as u64;
        proof {
            vstd::arithmetic::div_mod::lemma_mod_add_multiples_vanish(
                *self as int - *other as int,
                0x100000000,
            );
        }
        *self = (s % 0x100000000u64) as u32;
    }

    /// Wrapping addition where the mask holds.
    fn add_assign_masked(&mut self, mask: &Self::Mask, other: &Self)
        ensures
            *mask ==> *final(self) as int == (*old(self) as int + *other as int) % 0x100000000,
            !*mask ==> *final(self) == *old(self),
    {
        if *mask {
            WitnessComputationCore::add_assign(self, other);
        }
    }

    open spec fn spec_product_fits(self, a: Self, b: Self) -> bool {
        self as int + a as int * b as int <= u32::MAX
    }

    open spec fn spec_masked_product_fits(self, mask: bool, a: Self, b: Self) -> bool {
        mask ==> self as int + a as int * b as int <= u32::MAX
    }

    /// `self += a * b`; the caller keeps the sum in range.
    fn add_assign_product(&mut self, a: &Self, b: &Self)
        ensures
            *final(self) as int == *old(self) as int + *a as int * *b as int,
    {
        let s0 = *self;
        let x = *a;
        let y = *b;
        assert(0 <= x as int * y as int <= s0 as int + x as int * y as int) by (nonlinear_arith)
            requires
                s0 as int + x as int * y as int <= u32::MAX,
        ;
        *self = s0 + x * y;
    }

    /// `self += a * b` where the mask holds; the caller keeps the sum in
    /// range.
    fn add_assign_product_masked(&mut self, mask: &Self::Mask, a: &Self, b: &Self)
        ensures
            *mask ==> *final(self) as int == *old(self) as int + *a as int * *b as int,
            !*mask ==> *final(self) == *old(self),
    {
        if *mask {
            WitnessComputationCore::add_assign_product(self, a, b);
        }
    }

    /// `a` where the mask holds, `b` otherwise.
    fn select(mask: &Self::Mask, a: &Self, b: &Self) -> (r: Self)
        ensures
            r == if *mask { *a } else { *b },
    {
        if *mask {
            *a
        } else {
            *b
        }
    }

    /// Writes `a` where the mask holds, `b` otherwise.
    fn select_into(dst: &mut Self, mask: &Self::Mask, a: &Self, b: &Self)
        ensures
            *final(dst) == if *mask { *a } else { *b },
    {
        if *mask {
            *dst = *a;
        } else {
            *dst = *b;
        }
    }

    /// One for `true`, zero for `false`.
    fn from_mask(value: Self::Mask) -> (r: Self)
        ensures
            r == if value { 1u32 } else { 0u32 },
    {
        if value {
            1
        } else {
            0
        }
    }

    /// Whether the value is one.
    fn into_mask(self) -> (r: Self::Mask)
        ensures
            r == (self == 1),
    {
        self == 1
    }
}

impl WitnessComputationalInteger<u32> for u32 {
    open spec fn spec_constant(value: u32) -> u32 {
        value
    }

    open spec fn spec_overflowing_add(a: u32, b: u32) -> (u32, bool) {
        (((a as int + b as int) % 0x100000000) as u32, a as int + b as int >= 0x100000000)
    }

    open spec fn spec_overflowing_sub(a: u32, b: u32) -> (u32, bool) {
        (((a as int - b as int) % 0x100000000) as u32, a < b)
    }

    open spec fn spec_shift_left(a: u32, shift_magnitude: u32) -> u32 {
        (if shift_magnitude < 32 {
            (a as int * pow2(shift_magnitude as nat) as int) % 0x100000000
        } else {
            0
        }) as u32
    }

    open spec fn spec_shift_right(a: u32, shift_magnitude: u32) -> u32 {
        (if shift_magnitude < 32 {
            a as int / pow2(shift_magnitude as nat) as int
        } else {
            0
        }) as u32
    }

    open spec fn spec_lowest_bits(a: u32, num_bits: u32) -> u32 {
        (a as int % pow2(num_bits as nat) as int) as u32
    }

    /// Whether the value is zero.
    fn is_zero(&self) -> (r: Self::Mask)
        ensures
            r == (*self == 0),
    {
        *self == 0
    }

    /// Whether the value is one.
    fn is_one(&self) -> (r: Self::Mask)
        ensures
            r == (*self == 1),
    {
        *self == 1
    }

    /// The constant.
    fn constant(value: u32) -> (r: Self)
        ensures
            r == value,
    {
        value
    }

    /// Whether two values are equal.
    fn equal(&self, other: &Self) -> (r: Self::Mask)
        ensures
            r == (*self == *other),
    {
        *self == *other
    }

    /// The wrapped sum and whether it overflowed.
    fn overflowing_add(&self, other: &Self) -> (r: (Self, Self::Mask))
        ensures
            r.0 as int == (*self as int + *other as int) % 0x100000000,
            r.1 == (*self as int + *other as int >= 0x100000000),
    {
        let s = *self as u64 + *other as u64;
        ((s % 0x100000000u64) as u32, s >= 0x100000000u64)
    }

    /// The wrapped difference and whether it borrowed.
    fn overflowing_sub(&self, other: &Self) -> (r: (Self, Self::Mask))
        ensures
            r.0 as int == (*self as int - *other as int) % 0x100000000,
            r.1 == (*self < *other),
    {
        let s = *self as u64 + 0x100000000u64 - *other as u64;
        proof {
            vstd::arithmetic::div_mod::lemma_mod_add_multiples_vanish(
                *self as int - *other as int,
                0x100000000,
            );
        }
        ((s % 0x100000000u64) as u32, *self < *other)
    }

    /// The wrapped sum with an incoming carry, and whether it overflowed.
    fn overflowing_add_with_carry(&self, other: &Self, carry: &Self::Mask) -> (r: (Self, Self::Mask))
        ensures
            r.0 as int == (*self as int + *other as int + if *carry { 1int } else { 0int }) % 0x100000000,
            r.1 == (*self as int + *other as int + if *carry { 1int } else { 0int } >= 0x100000000),
    {
        let c: u64 = if *carry {
            1
        } else {
            0
        };
        let s = *self as u64 + *other as u64 + c;
        ((s % 0x100000000u64) as u32, s >= 0x100000000u64)
    }

    /// The wrapped difference with an incoming borrow, and whether it
    /// borrowed.
    fn overflowing_sub_with_borrow(&self, other: &Self, borrow: &Self::Mask) -> (r: (Self, Self::Mask))
        ensures
            r.0 as int == (*self as int - *other as int - if *borrow { 1int } else { 0int }) % 0x100000000,
            r.1 == (*self as int - *other as int - if *borrow { 1int } else { 0int } < 0),
    {
        let c: u64 = if *borrow {
            1
        } else {
            0
        };
        let s = *self as u64 + 0x100000000u64 - *other as u64 - c;
        proof {
            vstd::arithmetic::div_mod::lemma_mod_add_multiples_vanish(
                *self as int - *other as int - c as int,
                0x100000000,
            );
        }
        ((s % 0x100000000u64) as u32, (*self as u64) < (*other as u64) + c)
    }

    /// Shift left, dropping the bits beyond the width; shifting by the
    /// width or more gives zero.
    fn shl(&self, shift_magnitude: u32) -> (r: Self)
        ensures
            r as int == if shift_magnitude < 32 {
                (*self as int * pow2(shift_magnitude as nat) as int) % 0x100000000
            } else {
                0
            },
    {
        if shift_magnitude < 32 {
            let m = pow2_u64(shift_magnitude);
            let x = *self as u64;
            assert(x * m <= 0xffff_ffff * 0x1_0000_0000) by (nonlinear_arith)
                requires
                    x <= 0xffff_ffff,
                    m <= 0x1_0000_0000,
            ;
            ((x * m) % 0x100000000u64) as u32
        } else {
            0
        }
    }

    /// Shift right; shifting by the width or more gives zero.
    fn shr(&self, shift_magnitude: u32) -> (r: Self)
        ensures
            r as int == if shift_magnitude < 32 {
                *self as int / pow2(shift_magnitude as nat) as int
            } else {
                0
            },
    {
        if shift_magnitude < 32 {
            let v = shr_u32(*self as u32, shift_magnitude);
            proof {
                lemma_pow2_small(shift_magnitude as nat);
                vstd::arithmetic::div_mod::lemma_div_is_ordered_by_denominator(
                    *self as int,
                    1,
                    pow2(shift_magnitude as nat) as int,
                );
            }
            v as u32
        } else {
            0
        }
    }

    open spec fn spec_bit_index_valid(bit_idx: u32) -> bool {
        bit_idx < 32
    }

    open spec fn spec_low_bits_valid(num_bits: u32) -> bool {
        num_bits < 32
    }

    /// Whether the bit is set.
    fn get_bit(&self, bit_idx: u32) -> (r: Self::Mask)
        ensures
            r == ((*self as int / pow2(bit_idx as nat) as int) % 2 == 1),
    {
        let v = WitnessComputationalInteger::shr(self, bit_idx);
        v % 2 == 1
    }

    /// Whether the value equals the constant.
    fn equal_to_constant(&self, value: u32) -> (r: Self::Mask)
        ensures
            r == (*self == value),
    {
        *self == value
    }

    /// The lowest `num_bits` bits: the value modulo `2^num_bits`.
    fn get_lowest_bits(&self, num_bits: u32) -> (r: Self)
        ensures
            r as int == *self as int % pow2(num_bits as nat) as int,
    {
        let m = pow2_u64(num_bits);
        proof {
            vstd::arithmetic::div_mod::lemma_mod_decreases(*self as nat, m as nat);
        }
        ((*self as u64) % m) as u32
    }

    /// Bitwise or.
    fn or(&self, other: &Self) -> (r: Self)
        ensures
            r == *self | *other,
    {
        *self | *other
    }

    /// Bitwise and.
    fn and(&self, other: &Self) -> (r: Self)
        ensures
            r == *self & *other,
    {
        *self & *other
    }

    /// Bitwise exclusive or.
    fn xor(&self, other: &Self) -> (r: Self)
        ensures
            r == *self ^ *other,
    {
        *self ^ *other
    }

    /// Bitwise complement.
    fn not(&self) -> (r: Self)
        ensures
            r == !*self,
    {
        !*self
    }
}

impl WitnessComputationalU32 for u32 {
    type Narrow = u16;

    open spec fn spec_truncate(a: u32) -> u16 {
        (a as int % 0x10000) as u16
    }

    /// The low half, the value modulo `0x10000`.
    fn truncate(&self) -> (r: u16)
        ensures
            r as int == *self as int % 0x10000,
    {
        (*self % 0x10000) as u16
    }

    /// The product as its low and high halves.
    fn split_widening_product(&self, other: &Self) -> (r: (Self, Self))
        ensures
            r.0 as int == (*self as int * *other as int) % 0x100000000,
            r.1 as int == (*self as int * *other as int) / 0x100000000,
    {
        let x = *self as u64;
        let y = *other as u64;
        assert(x * y <= 0xffffffff * 0xffffffff) by (nonlinear_arith)
            requires
                x <= 0xffffffff,
                y <= 0xffffffff,
        ;
        let prod = x * y;
        assert(prod / 0x100000000 < 0x100000000) by (nonlinear_arith)
            requires
                prod <= 0xffffffff * 0xffffffff,
        ;
        ((prod % 0x100000000u64) as u32, (prod / 0x100000000u64) as u32)
    }

    /// The product modulo `2^32`.
    fn wrapping_product(&self, other: &Self) -> (r: Self)
        ensures
            r as int == (*self as int * *other as int) % 0x100000000,
    {
        let x = *self as u64;
        let y = *other as u64;
        assert(x * y <= 0xffffffff * 0xffffffff) by (nonlinear_arith)
            requires
                x <= 0xffffffff,
                y <= 0xffffffff,
        ;
        ((x * y) % 0x100000000u64) as u32
    }

    open spec fn spec_nonzero_divisor(divisor: Self) -> bool {
        divisor != 0
    }

    /// Quotient and remainder of the unsigned division.
    fn div_rem_assume_nonzero_divisor(divident: &Self, divisor: &Self) -> (r: (Self, Self))
        ensures
            r.0 == *divident / *divisor,
            r.1 == *divident % *divisor,
    {
        (*divident / *divisor, *divident % *divisor)
    }
}

impl WitnessComputationalU16 for u16 {
    type Wide = u32;
    type Narrow = u8;

    open spec fn spec_widen(a: u16) -> u32 {
        a as u32
    }

    open spec fn spec_truncate(a: u16) -> u8 {
        (a as int % 0x100) as u8
    }

    open spec fn spec_split_widening_product(a: u16, b: u16) -> (u16, u16) {
        (((a as int * b as int) % 0x10000) as u16, ((a as int * b as int) / 0x10000) as u16)
    }

    /// The same value in the wider type.
    fn widen(&self) -> (r: u32)
        ensures
            r as int == *self as int,
    {
        *self as u32
    }

    /// The full product in the wider type.
    fn widening_product(&self, other: &Self) -> (r: u32)
        ensures
            r as int == *self as int * *other as int,
    {
        let x = *self as u32;
        let y = *other as u32;
        assert(x * y <= 0xffff * 0xffff) by (nonlinear_arith)
            requires
                x <= 0xffff,
                y <= 0xffff,
        ;
        x * y
    }

    /// The low half, the value modulo `0x100`.
    fn truncate(&self) -> (r: u8)
        ensures
            r as int == *self as int % 0x100,
    {
        (*self % 0x100) as u8
    }

    /// The product modulo `0x10000`.
    fn wrapping_product(&self, other: &Self) -> (r: Self)
        ensures
            r as int == (*self as int * *other as int) % 0x10000,
    {
        let x = *self as u64;
        let y = *other as u64;
        assert(x * y <= 0xffff * 0xffff) by (nonlinear_arith)
            requires
                x <= 0xffff,
                y <= 0xffff,
        ;
        ((x * y) % 0x10000u64) as u16
    }

    /// The product as its low and high halves.
    fn split_widening_product(&self, other: &Self) -> (r: (Self, Self))
        ensures
            r.0 as int == (*self as int * *other as int) % 0x10000,
            r.1 as int == (*self as int * *other as int) / 0x10000,
    {
        let x = *self as u64;
        let y = *other as u64;
        assert(x * y <= 0xffff * 0xffff) by (nonlinear_arith)
            requires
                x <= 0xffff,
                y <= 0xffff,
        ;
        let prod = x * y;
        assert(prod / 0x10000 < 0x10000) by (nonlinear_arith)
            requires
                prod <= 0xffff * 0xffff,
        ;
        ((prod % 0x10000u64) as u16, (prod / 0x10000u64) as u16)
    }
}

impl WitnessComputationalU8 for u8 {
    type Wide = u16;

    open spec fn spec_widen(a: u8) -> u16 {
        a as u16
    }

    open spec fn spec_split_widening_product(a: u8, b: u8) -> (u8, u8) {
        (((a as int * b as int) % 0x100) as u8, ((a as int * b as int) / 0x100) as u8)
    }

    /// The same value in the wider type.
    fn widen(&self) -> (r: u16)
        ensures
            r as int == *self as int,
    {
        *self as u16
    }

    /// The full product in the wider type.
    fn widening_product(&self, other: &Self) -> (r: u16)
        ensures
            r as int == *self as int * *other as int,
    {
        let x = *self as u16;
        let y = *other as u16;
        assert(x * y <= 0xff * 0xff) by (nonlinear_arith)
            requires
                x <= 0xff,
                y <= 0xff,
        ;
        x * y
    }

    /// The product modulo `0x100`.
    fn wrapping_product(&self, other: &Self) -> (r: Self)
        ensures
            r as int == (*self as int * *other as int) % 0x100,
    {
        let x = *self as u64;
        let y = *other as u64;
        assert(x * y <= 0xff * 0xff) by (nonlinear_arith)
            requires
                x <= 0xff,
                y <= 0xff,
        ;
        ((x * y) % 0x100u64) as u8
    }

    /// The product as its low and high halves.
    fn split_widening_product(&self, other: &Self) -> (r: (Self, Self))
        ensures
            r.0 as int == (*self as int * *other as int) % 0x100,
            r.1 as int == (*self as int * *other as int) / 0x100,
    {
        let x = *self as u64;
        let y = *other as u64;
        assert(x * y <= 0xff * 0xff) by (nonlinear_arith)
            requires
                x <= 0xff,
                y <= 0xff,
        ;
        let prod = x * y;
        assert(prod / 0x100 < 0x100) by (nonlinear_arith)
            requires
                prod <= 0xff * 0xff,
        ;
        ((prod % 0x100u64) as u8, (prod / 0x100u64) as u8)
    }
}

/// The signed value of a 32-bit pattern.
pub open spec fn signed_of_bits(v: int) -> int {
    if v < 0x8000_0000 {
        v
    } else {
        v - 0x1_0000_0000
    }
}

/// The 32-bit pattern of a signed value.
pub open spec fn bits_of_signed(v: int) -> int {
    if v >= 0 {
        v
    } else {
        v + 0x1_0000_0000
    }
}

/// The 64-bit pattern of a signed value.
pub open spec fn bits64_of_signed(v: int) -> int {
    if v >= 0 {
        v
    } else {
        v + 0x1_0000_0000_0000_0000
    }
}

/// An integer wrapped into the range of `i32`.
pub open spec fn wrap_i32(v: int) -> int {
    signed_of_bits(v % 0x1_0000_0000)
}

/// Whether an integer lies outside the range of `i32`.
pub open spec fn out_of_i32(v: int) -> bool {
    v < i32::MIN || v > i32::MAX
}

/// Quotient of the division rounding toward zero.
pub open spec fn trunc_div(a: int, b: int) -> int {
    let q = (if a >= 0 { a } else { -a }) / (if b >= 0 { b } else { -b });
    if (a >= 0) == (b >= 0) {
        q
    } else {
        -q
    }
}

/// Reading a 32-bit pattern as signed and back gives the pattern; taking
/// the pattern of a signed value and reading it gives the value.
pub proof fn lemma_signed_bits_roundtrip(bits: int, v: int)
    ensures
        0 <= bits < 0x1_0000_0000 ==> bits_of_signed(signed_of_bits(bits)) == bits,
        i32::MIN <= v <= i32::MAX ==> signed_of_bits(bits_of_signed(v)) == v,
{
}

/// Wrapping within one period on either side of the range of `i32`.
proof fn lemma_wrap_i32(s: int)
    requires
        i32::MIN - 0x1_0000_0000 <= s <= i32::MAX + 0x1_0000_0000,
    ensures
        wrap_i32(s) == if s > i32::MAX {
            s - 0x1_0000_0000
        } else if s < i32::MIN {
            s + 0x1_0000_0000
        } else {
            s
        },
{
    let m: int = 0x1_0000_0000;
    if s >= m {
        vstd::arithmetic::div_mod::lemma_fundamental_div_mod_converse(s, m, 1, s - m);
    } else if s >= 0 {
        vstd::arithmetic::div_mod::lemma_fundamental_div_mod_converse(s, m, 0, s);
    } else if s >= -m {
        vstd::arithmetic::div_mod::lemma_fundamental_div_mod_converse(s, m, -1, s + m);
    } else {
        vstd::arithmetic::div_mod::lemma_fundamental_div_mod_converse(s, m, -2, s + 2 * m);
    }
}

/// The sum wrapped into `i32`.
fn wrapping_i32(s: i64) -> (r: i32)
    requires
        i32::MIN - 0x1_0000_0000 <= s <= i32::MAX + 0x1_0000_0000,
    ensures
        r as int == wrap_i32(s as int),
{
    proof {
        lemma_wrap_i32(s as int);
    }
    if s > 0x7fff_ffff {
        (s - 0x1_0000_0000) as i32
    } else if s < -0x8000_0000 {
        (s + 0x1_0000_0000) as i32
    } else {
        s as i32
    }
}

/// The low and high 32-bit words of a signed product in `[-2^63, 2^63)`.
fn split_signed_product(prod: i64) -> (r: (u32, u32))
    ensures
        r.0 as int == bits64_of_signed(prod as int) % 0x1_0000_0000,
        r.1 as int == bits64_of_signed(prod as int) / 0x1_0000_0000,
{
    let u: u64 = if prod >= 0 {
        prod as u64
    } else {
        let m = (prod + 1) + 0x7fff_ffff_ffff_ffffi64;
        (m as u64) + 0x8000_0000_0000_0000u64
    };
    assert(u as int == bits64_of_signed(prod as int));
    ((u % 0x1_0000_0000u64) as u32, (u / 0x1_0000_0000u64) as u32)
}

impl WitnessComputationCore for i32 {
    type Mask = bool;

    open spec fn spec_plus(a: i32, b: i32) -> i32 {
        wrap_i32(a + b) as i32
    }

    open spec fn spec_minus(a: i32, b: i32) -> i32 {
        wrap_i32(a - b) as i32
    }

    open spec fn spec_select(mask: bool, a: i32, b: i32) -> i32 {
        if mask {
            a
        } else {
            b
        }
    }

    open spec fn spec_into_mask(a: i32) -> bool {
        a == 1
    }

    /// Wrapping addition.
    fn add_assign(&mut self, other: &Self)
        ensures
            *final(self) as int == wrap_i32(*old(self) as int + *other as int),
    {
        *self = wrapping_i32(*self as i64 + *other as i64);
    }

    /// Wrapping subtraction.
    fn sub_assign(&mut self, other: &Self)
        ensures
            *final(self) as int == wrap_i32(*old(self) as int - *other as int),
    {
        *self = wrapping_i32(*self as i64 - *other as i64);
    }

    /// Wrapping addition where the mask holds.
    fn add_assign_masked(&mut self, mask: &Self::Mask, other: &Self)
        ensures
            *mask ==> *final(self) as int == wrap_i32(*old(self) as int + *other as int),
            !*mask ==> *final(self) == *old(self),
    {
        if *mask {
            WitnessComputationCore::add_assign(self, other);
        }
    }

    open spec fn spec_product_fits(self, a: Self, b: Self) -> bool {
        &&& !out_of_i32(a as int * b as int)
        &&& !out_of_i32(self as int + a as int * b as int)
    }

    open spec fn spec_masked_product_fits(self, mask: bool, a: Self, b: Self) -> bool {
        mask ==> self.spec_product_fits(a, b)
    }

    /// `self += a * b`; the caller keeps the product and the sum in range.
    fn add_assign_product(&mut self, a: &Self, b: &Self)
        ensures
            *final(self) as int == *old(self) as int + *a as int * *b as int,
    {
        let prod = *a * *b;
        *self = *self + prod;
    }

    /// `self += a * b` where the mask holds; the caller keeps the product
    /// and the sum in range.
    fn add_assign_product_masked(&mut self, mask: &Self::Mask, a: &Self, b: &Self)
        ensures
            *mask ==> *final(self) as int == *old(self) as int + *a as int * *b as int,
            !*mask ==> *final(self) == *old(self),
    {
        if *mask {
            WitnessComputationCore::add_assign_product(self, a, b);
        }
    }

    /// `a` where the mask holds, `b` otherwise.
    fn select(mask: &Self::Mask, a: &Self, b: &Self) -> (r: Self)
        ensures
            r == if *mask { *a } else { *b },
    {
        if *mask {
            *a
        } else {
            *b
        }
    }

    /// Writes `a` where the mask holds, `b` otherwise.
    fn select_into(dst: &mut Self, mask: &Self::Mask, a: &Self, b: &Self)
        ensures
            *final(dst) == if *mask { *a } else { *b },
    {
        if *mask {
            *dst = *a;
        } else {
            *dst = *b;
        }
    }

    /// One for `true`, zero for `false`.
    fn from_mask(value: Self::Mask) -> (r: Self)
        ensures
            r == if value { 1i32 } else { 0i32 },
    {
        if value {
            1
        } else {
            0
        }
    }

    /// Whether the value is one.
    fn into_mask(self) -> (r: Self::Mask)
        ensures
            r == (self == 1),
    {
        self == 1
    }
}

impl WitnessComputationalInteger<i32> for i32 {
    open spec fn spec_constant(value: i32) -> i32 {
        value
    }

    open spec fn spec_overflowing_add(a: i32, b: i32) -> (i32, bool) {
        (wrap_i32(a + b) as i32, out_of_i32(a + b))
    }

    open spec fn spec_overflowing_sub(a: i32, b: i32) -> (i32, bool) {
        (wrap_i32(a - b) as i32, out_of_i32(a - b))
    }

    open spec fn spec_shift_left(a: i32, shift_magnitude: u32) -> i32 {
        (if shift_magnitude < 32 {
            signed_of_bits((bits_of_signed(a as int) * pow2(shift_magnitude as nat) as int) % 0x1_0000_0000)
        } else {
            0
        }) as i32
    }

    open spec fn spec_shift_right(a: i32, shift_magnitude: u32) -> i32 {
        (if shift_magnitude < 32 {
            a as int / pow2(shift_magnitude as nat) as int
        } else if a >= 0 {
            0
        } else {
            -1
        }) as i32
    }

    open spec fn spec_lowest_bits(a: i32, num_bits: u32) -> i32 {
        (bits_of_signed(a as int) % pow2(num_bits as nat) as int) as i32
    }

    /// Whether the value is zero.
    fn is_zero(&self) -> (r: Self::Mask)
        ensures
            r == (*self == 0),
    {
        *self == 0
    }

    /// Whether the value is one.
    fn is_one(&self) -> (r: Self::Mask)
        ensures
            r == (*self == 1),
    {
        *self == 1
    }

    /// The constant.
    fn constant(value: i32) -> (r: Self)
        ensures
            r == value,
    {
        value
    }

    /// Whether two values are equal.
    fn equal(&self, other: &Self) -> (r: Self::Mask)
        ensures
            r == (*self == *other),
    {
        *self == *other
    }

    /// The wrapped sum and whether the signed sum overflowed.
    fn overflowing_add(&self, other: &Self) -> (r: (Self, Self::Mask))
        ensures
            r.0 as int == wrap_i32(*self as int + *other as int),
            r.1 == out_of_i32(*self as int + *other as int),
    {
        let s = *self as i64 + *other as i64;
        (wrapping_i32(s), s < -0x8000_0000 || s > 0x7fff_ffff)
    }

    /// The wrapped difference and whether the signed difference overflowed.
    fn overflowing_sub(&self, other: &Self) -> (r: (Self, Self::Mask))
        ensures
            r.0 as int == wrap_i32(*self as int - *other as int),
            r.1 == out_of_i32(*self as int - *other as int),
    {
        let s = *self as i64 - *other as i64;
        (wrapping_i32(s), s < -0x8000_0000 || s > 0x7fff_ffff)
    }

    /// Adds the other value, then the carry, each wrapping; reports whether
    /// either step overflowed.
    fn overflowing_add_with_carry(&self, other: &Self, carry: &Self::Mask) -> (r: (Self, Self::Mask))
        ensures
            ({
                let c: int = if *carry { 1 } else { 0 };
                let t = wrap_i32(*self as int + *other as int);
                &&& r.0 as int == wrap_i32(t + c)
                &&& r.1 == (out_of_i32(*self as int + *other as int) || out_of_i32(t + c))
            }),
    {
        let (t, of0) = WitnessComputationalInteger::overflowing_add(self, other);
        let c: i32 = if *carry {
            1
        } else {
            0
        };
        let (t, of1) = WitnessComputationalInteger::overflowing_add(&t, &c);
        (t, of0 || of1)
    }

    /// Subtracts the other value, then the borrow, each wrapping; reports
    /// whether either step overflowed.
    fn overflowing_sub_with_borrow(&self, other: &Self, borrow: &Self::Mask) -> (r: (Self, Self::Mask))
        ensures
            ({
                let c: int = if *borrow { 1 } else { 0 };
                let t = wrap_i32(*self as int - *other as int);
                &&& r.0 as int == wrap_i32(t - c)
                &&& r.1 == (out_of_i32(*self as int - *other as int) || out_of_i32(t - c))
            }),
    {
        let (t, of0) = WitnessComputationalInteger::overflowing_sub(self, other);
        let c: i32 = if *borrow {
            1
        } else {
            0
        };
        let (t, of1) = WitnessComputationalInteger::overflowing_sub(&t, &c);
        (t, of0 || of1)
    }

    /// Shift left of the bit pattern; shifting by the width or more gives
    /// zero.
    fn shl(&self, shift_magnitude: u32) -> (r: Self)
        ensures
            r as int == if shift_magnitude < 32 {
                signed_of_bits((bits_of_signed(*self as int) * pow2(shift_magnitude as nat) as int) % 0x1_0000_0000)
            } else {
                0
            },
    {
        let u = WitnessComputationalI32::as_unsigned(*self);
        let v: u32 = WitnessComputationalInteger::shl(&u, shift_magnitude);
        WitnessComputationalI32::from_unsigned(v)
    }

    /// Arithmetic shift right: division by `2^shift` rounding down;
    /// shifting by the width or more gives `0` or `-1` by the sign.
    fn shr(&self, shift_magnitude: u32) -> (r: Self)
        ensures
            r as int == if shift_magnitude < 32 {
                *self as int / pow2(shift_magnitude as nat) as int
            } else if *self >= 0 {
                0
            } else {
                -1
            },
    {
        if shift_magnitude >= 32 {
            if *self >= 0 {
                0
            } else {
                -1
            }
        } else if *self >= 0 {
            let v = shr_u32(*self as u32, shift_magnitude);
            proof {
                lemma_pow2_small(shift_magnitude as nat);
                vstd::arithmetic::div_mod::lemma_div_is_ordered_by_denominator(
                    *self as int,
                    1,
                    pow2(shift_magnitude as nat) as int,
                );
            }
            v as i32
        } else {
            let m = (-(*self + 1)) as u32;
            let q = shr_u32(m, shift_magnitude);
            proof {
                let d = pow2(shift_magnitude as nat) as int;
                let x = *self as int;
                let mi = m as int;
                let qi = q as int;
                lemma_pow2_small(shift_magnitude as nat);
                vstd::arithmetic::div_mod::lemma_div_is_ordered_by_denominator(mi, 1, d);
                vstd::arithmetic::div_mod::lemma_fundamental_div_mod(mi, d);
                vstd::arithmetic::div_mod::lemma_mod_pos_bound(mi, d);
                assert(x == (-qi - 1) * d + (d - mi % d - 1)) by (nonlinear_arith)
                    requires
                        mi == d * (mi / d) + mi % d,
                        qi == mi / d,
                        x == -(mi + 1),
                ;
                vstd::arithmetic::div_mod::lemma_fundamental_div_mod_converse(
                    x,
                    d,
                    -qi - 1,
                    d - mi % d - 1,
                );
            }
            -(q as i32) - 1
        }
    }

    open spec fn spec_bit_index_valid(bit_idx: u32) -> bool {
        bit_idx < 32
    }

    open spec fn spec_low_bits_valid(num_bits: u32) -> bool {
        num_bits < 31
    }

    /// Whether the bit of the pattern is set.
    fn get_bit(&self, bit_idx: u32) -> (r: Self::Mask)
        ensures
            r == ((bits_of_signed(*self as int) / pow2(bit_idx as nat) as int) % 2 == 1),
    {
        let u = WitnessComputationalI32::as_unsigned(*self);
        WitnessComputationalInteger::get_bit(&u, bit_idx)
    }

    /// Whether the value equals the constant.
    fn equal_to_constant(&self, value: i32) -> (r: Self::Mask)
        ensures
            r == (*self == value),
    {
        *self == value
    }

    /// The lowest `num_bits` bits of the pattern.
    fn get_lowest_bits(&self, num_bits: u32) -> (r: Self)
        ensures
            r as int == bits_of_signed(*self as int) % pow2(num_bits as nat) as int,
    {
        let u = WitnessComputationalI32::as_unsigned(*self);
        let v: u32 = WitnessComputationalInteger::get_lowest_bits(&u, num_bits);
        proof {
            vstd::arithmetic::power2::lemma2_to64();
            vstd::arithmetic::power2::lemma_pow2_strictly_increases(num_bits as nat, 31);
        }
        v as i32
    }

    /// Bitwise or.
    fn or(&self, other: &Self) -> (r: Self)
        ensures
            r == *self | *other,
    {
        *self | *other
    }

    /// Bitwise and.
    fn and(&self, other: &Self) -> (r: Self)
        ensures
            r == *self & *other,
    {
        *self & *other
    }

    /// Bitwise exclusive or.
    fn xor(&self, other: &Self) -> (r: Self)
        ensures
            r == *self ^ *other,
    {
        *self ^ *other
    }

    /// Bitwise complement.
    fn not(&self) -> (r: Self)
        ensures
            r == !*self,
    {
        !*self
    }
}

impl WitnessComputationalI32 for i32 {
    type UnsignedRepresentation = u32;

    /// The signed value of a 32-bit pattern.
    fn from_unsigned(value: u32) -> (r: Self)
        ensures
            r as int == signed_of_bits(value as int),
    {
        if value < 0x8000_0000 {
            value as i32
        } else {
            let t = (value - 0x8000_0000) as i32;
            t - 0x7fff_ffff - 1
        }
    }

    /// The 32-bit pattern of the value.
    fn as_unsigned(self) -> (r: u32)
        ensures
            r as int == bits_of_signed(self as int),
    {
        if self >= 0 {
            self as u32
        } else {
            let t = (self + 0x7fff_ffff + 1) as u32;
            t + 0x8000_0000
        }
    }

    /// The signed product as its low and high 32-bit words.
    fn widening_product_bits(&self, other: &Self) -> (r: (u32, u32))
        ensures
            r.0 as int == bits64_of_signed(*self as int * *other as int) % 0x1_0000_0000,
            r.1 as int == bits64_of_signed(*self as int * *other as int) / 0x1_0000_0000,
    {
        let x = *self as i64;
        let y = *other as i64;
        assert(-0x4000_0000_0000_0000 <= x * y <= 0x4000_0000_0000_0000) by (nonlinear_arith)
            requires
                -0x8000_0000 <= x <= 0x7fff_ffff,
                -0x8000_0000 <= y <= 0x7fff_ffff,
        ;
        split_signed_product(x * y)
    }

    /// The product of the signed value and an unsigned one as its low and
    /// high 32-bit words.
    fn mixed_widening_product_bits(&self, other: &u32) -> (r: (u32, u32))
        ensures
            r.0 as int == bits64_of_signed(*self as int * *other as int) % 0x1_0000_0000,
            r.1 as int == bits64_of_signed(*self as int * *other as int) / 0x1_0000_0000,
    {
        let x = *self as i64;
        let y = *other as i64;
        assert(-0x8000_0000 * 0xffff_ffff <= x * y <= 0x7fff_ffff * 0xffff_ffff) by (nonlinear_arith)
            requires
                -0x8000_0000 <= x <= 0x7fff_ffff,
                0 <= y <= 0xffff_ffff,
        ;
        split_signed_product(x * y)
    }

    open spec fn spec_nonzero_divisor(divisor: Self) -> bool {
        divisor != 0
    }

    /// Division following the RISC-V convention: the quotient rounds toward
    /// zero and the remainder takes the sign of the divident; the
    /// overflowing `i32::MIN / -1` gives `i32::MIN` and remainder zero.
    fn div_rem_assume_nonzero_divisor_no_overflow(divident: &Self, divisor: &Self) -> (r: (Self, Self))
        ensures
            *divident == i32::MIN && *divisor == -1 ==> r == (i32::MIN, 0i32),
            !(*divident == i32::MIN && *divisor == -1) ==> {
                &&& r.0 as int == trunc_div(*divident as int, *divisor as int)
                &&& r.1 as int == *divident as int - trunc_div(*divident as int, *divisor as int)
                    * *divisor as int
            },
    {
        if *divident == i32::MIN && *divisor == -1 {
            return (i32::MIN, 0);
        }
        let a = *divident as i64;
        let b = *divisor as i64;
        let ua: u64 = if a >= 0 {
            a as u64
        } else {
            (-a) as u64
        };
        let ub: u64 = if b >= 0 {
            b as u64
        } else {
            (-b) as u64
        };
        let uq = ua / ub;
        assert(uq <= ua) by (nonlinear_arith)
            requires
                ub >= 1,
                uq == ua / ub,
        ;
        let q: i64 = if (a >= 0) == (b >= 0) {
            uq as i64
        } else {
            -(uq as i64)
        };
        assert(q == trunc_div(a as int, b as int));
        assert(-0x8000_0000 <= q <= 0x7fff_ffff) by {
            if ub == 1 {
                assert(uq == ua) by (nonlinear_arith)
                    requires
                        ub == 1,
                        uq == ua / ub,
                ;
            } else {
                assert(uq <= ua / 2) by (nonlinear_arith)
                    requires
                        ub >= 2,
                        uq == ua / ub,
                ;
            }
        }
        assert(-0x4000_0000_0000_0000 <= q * b <= 0x4000_0000_0000_0000) by (nonlinear_arith)
            requires
                -0x8000_0000 <= q <= 0x7fff_ffff,
                -0x8000_0000 <= b <= 0x7fff_ffff,
        ;
        let rem = a - q * b;
        assert(-0x8000_0000 <= rem <= 0x7fff_ffff) by (nonlinear_arith)
            requires
                rem == a - q * b,
                -0x8000_0000 <= a <= 0x7fff_ffff,
                b != 0,
                uq == ua / ub,
                ua == (if a >= 0 { a as int } else { -a }),
                ub == (if b >= 0 { b as int } else { -b }),
                q == (if (a >= 0) == (b >= 0) { uq as int } else { -uq }),
        ;
        (q as i32, rem as i32)
    }
}

/// A reduced element is the element of its value.
proof fn lemma_reduced_canonical(r: Mersenne31Field)
    requires
        r.is_reduced(),
    ensures
        r == Mersenne31Field(r.val() as u32),
{
    vstd::arithmetic::div_mod::lemma_small_mod(r.0 as nat, p() as nat);
}

/// The reduced element of a value in `[0, p)`.
pub open spec fn field_of(v: int) -> Mersenne31Field {
    Mersenne31Field(v as u32)
}

impl WitnessComputationalField<Mersenne31Field> for Mersenne31Field {
    type Mask = bool;
    type IntegerRepresentation = u32;

    open spec fn spec_plus(a: Self, b: Self) -> Self {
        field_of((a.val() + b.val()) % p())
    }

    open spec fn spec_minus(a: Self, b: Self) -> Self {
        field_of((a.val() - b.val()) % p())
    }

    open spec fn spec_times(a: Self, b: Self) -> Self {
        field_of((a.val() * b.val()) % p())
    }

    open spec fn spec_add_product(acc: Self, a: Self, b: Self) -> Self {
        field_of((acc.val() + a.val() * b.val()) % p())
    }

    open spec fn spec_select(mask: bool, a: Self, b: Self) -> Self {
        if mask {
            a
        } else {
            b
        }
    }

    open spec fn spec_constant(value: Mersenne31Field) -> Self {
        value
    }

    open spec fn spec_equal(a: Self, b: Self) -> bool {
        a.val() == b.val()
    }

    open spec fn spec_inverse_or_zero(a: Self) -> Self {
        if a.val() == 0 {
            field_of(0)
        } else {
            field_of(inverse_value(a.val()))
        }
    }

    open spec fn spec_as_integer(a: Self) -> u32 {
        a.val() as u32
    }

    open spec fn spec_from_integer(value: u32) -> Self {
        field_of(value as int % p())
    }

    open spec fn spec_into_mask(a: Self) -> bool {
        a.val() != 0
    }

    open spec fn spec_from_mask(value: bool) -> Self {
        field_of(if value {
            1
        } else {
            0
        })
    }

    /// Field addition.
    fn add_assign(&mut self, other: &Self)
        ensures
            final(self).val() == (old(self).val() + other.val()) % p(),
            final(self).is_reduced(),
    {
        Mersenne31Field::add_assign(self, other);
        proof {
            lemma_reduced_canonical(*self);
        }
    }

    /// Field subtraction.
    fn sub_assign(&mut self, other: &Self)
        ensures
            final(self).val() == (old(self).val() - other.val()) % p(),
            final(self).is_reduced(),
    {
        Mersenne31Field::sub_assign(self, other);
        proof {
            lemma_reduced_canonical(*self);
        }
    }

    /// Field multiplication.
    fn mul_assign(&mut self, other: &Self)
        ensures
            final(self).val() == (old(self).val() * other.val()) % p(),
            final(self).is_reduced(),
    {
        Mersenne31Field::mul_assign(self, other);
        proof {
            lemma_reduced_canonical(*self);
        }
    }

    /// `self = self * a + b`.
    fn fused_mul_add_assign(&mut self, a: &Self, b: &Self)
        ensures
            final(self).val() == (old(self).val() * a.val() + b.val()) % p(),
            final(self).is_reduced(),
    {
        let t = Mersenne31Field::mul(self, a);
        proof {
            crate::field::lemma_mod_add_right(b.val(), old(self).val() * a.val());
        }
        *self = Mersenne31Field::add(&t, b);
    }

    /// `self += a * b`.
    fn add_assign_product(&mut self, a: &Self, b: &Self)
        ensures
            final(self).val() == (old(self).val() + a.val() * b.val()) % p(),
            final(self).is_reduced(),
    {
        Mersenne31Field::add_assign_product(self, a, b);
        proof {
            lemma_reduced_canonical(*self);
        }
    }

    /// `self += other` where the mask holds.
    fn add_assign_masked(&mut self, mask: &bool, other: &Self)
        ensures
            *mask ==> final(self).val() == (old(self).val() + other.val()) % p(),
            !*mask ==> *final(self) == *old(self),
    {
        if *mask {
            Mersenne31Field::add_assign(self, other);
        }
    }

    /// `self += a * b` where the mask holds.
    fn add_assign_product_masked(&mut self, mask: &bool, a: &Self, b: &Self)
        ensures
            *mask ==> final(self).val() == (old(self).val() + a.val() * b.val()) % p(),
            !*mask ==> *final(self) == *old(self),
    {
        if *mask {
            Mersenne31Field::add_assign_product(self, a, b);
        }
    }

    /// `a` where the mask holds, `b` otherwise.
    fn select(mask: &bool, a: &Self, b: &Self) -> (r: Self)
        ensures
            r == if *mask { *a } else { *b },
    {
        if *mask {
            *a
        } else {
            *b
        }
    }

    /// Writes `a` where the mask holds, `b` otherwise.
    fn select_into(dst: &mut Self, mask: &bool, a: &Self, b: &Self)
        ensures
            *final(dst) == if *mask { *a } else { *b },
    {
        if *mask {
            *dst = *a;
        } else {
            *dst = *b;
        }
    }

    /// Whether the element is nonzero.
    fn into_mask(self) -> (r: bool)
        ensures
            r == (self.val() != 0),
    {
        self.as_boolean()
    }

    /// One for `true`, zero for `false`.
    fn from_mask(value: bool) -> (r: Self)
        ensures
            r.val() == if value { 1int } else { 0int },
            r.is_reduced(),
    {
        let r = Mersenne31Field::from_boolean(value);
        proof {
            lemma_reduced_canonical(r);
        }
        r
    }

    /// Whether the element is zero.
    fn is_zero(&self) -> (r: bool)
        ensures
            r == (self.val() == 0),
    {
        Mersenne31Field::is_zero(self)
    }

    /// Whether the element is one.
    fn is_one(&self) -> (r: bool)
        ensures
            r == (self.val() == 1),
    {
        Mersenne31Field::is_one(self)
    }

    /// The constant.
    fn constant(value: Mersenne31Field) -> (r: Self)
        ensures
            r == value,
    {
        value
    }

    /// Whether two elements are equal in the field.
    fn equal(&self, other: &Self) -> (r: bool)
        ensures
            r == (self.val() == other.val()),
    {
        self.equals(other)
    }

    open spec fn spec_invertible(self) -> bool {
        self.val() != 0
    }

    /// The multiplicative inverse of a nonzero element.
    fn inverse(&self) -> (r: Mersenne31Field)
        ensures
            r.val() == inverse_value(self.val()),
            (self.val() * r.val()) % p() == 1,
            r.is_reduced(),
    {
        proof {
            crate::fermat::lemma_inverse_value(self.val());
        }
        self.pow_p_minus_two()
    }

    /// The multiplicative inverse, and zero for zero.
    fn inverse_or_zero(&self) -> (r: Self)
        ensures
            self.val() != 0 ==> r.val() == inverse_value(self.val()),
            self.val() != 0 ==> (self.val() * r.val()) % p() == 1,
            self.val() == 0 ==> r.val() == 0,
            r.is_reduced(),
    {
        proof {
            if self.val() != 0 {
                crate::fermat::lemma_inverse_value(self.val());
            }
        }
        let r = self.pow_p_minus_two();
        proof {
            lemma_reduced_canonical(r);
        }
        r
    }

    /// The reduced representative as an integer.
    fn as_integer(self) -> (r: u32)
        ensures
            r as int == self.val(),
    {
        self.as_u32_reduced()
    }

    /// The element of an integer, reduced modulo the characteristic.
    fn from_integer(value: u32) -> (r: Self)
        ensures
            r.val() == value as int % p(),
            r.is_reduced(),
    {
        let r = Mersenne31Field::from_u64_with_reduction(value as u64);
        proof {
            lemma_reduced_canonical(r);
        }
        r
    }
}

} // verus!
