use vstd::prelude::*;

use crate::definitions::Variable;
use crate::placeholder::Placeholder;

verus! {

/// A step of witness resolution: a computation over a placer.
pub trait WitnessResolutionDescription<F, W: WitnessPlacer<F>>: Sized {
    /// Whether evaluating the step can take the placer from `before` to
    /// `after`.
    /// A step verified against these contracts gives its own; the default
    /// names none.
    closed spec fn spec_evaluates(&self, before: W, after: W) -> bool {
        vstd::pervasive::arbitrary()
    }

    fn evaluate(&self, placer: &mut W)
        ensures
            self.spec_evaluates(*old(placer), *final(placer)),
    ;

    fn clone_self(&self) -> (r: Self)
        ensures
            r == *self,
    ;
}

/// The step that does nothing.
#[derive(Clone, Copy, Debug)]
pub struct EmptyResolution;

impl<F, W: WitnessPlacer<F>> WitnessResolutionDescription<F, W> for EmptyResolution {
    /// The placer stays as it is.
    open spec fn spec_evaluates(&self, before: W, after: W) -> bool {
        after == before
    }

    fn evaluate(&self, _placer: &mut W) {
    }

    fn clone_self(&self) -> (r: Self) {
        EmptyResolution
    }
}

/// Two steps of witness resolution, one after the other.
pub struct WitnessResolutionNode<F, W: WitnessPlacer<F>, T: WitnessResolutionDescription<F, W>, U: WitnessResolutionDescription<F, W>> {
    pub a: T,
    pub b: U,
    pub _marker: core::marker::PhantomData<(F, W)>,
}

impl<F, W: WitnessPlacer<F>, T: WitnessResolutionDescription<F, W>, U: WitnessResolutionDescription<F, W>> WitnessResolutionDescription<F, W> for WitnessResolutionNode<F, W, T, U> {
    /// The first step leads to some placer from which the second leads on.
    open spec fn spec_evaluates(&self, before: W, after: W) -> bool {
        exists|mid: W| #[trigger] self.a.spec_evaluates(before, mid) && self.b.spec_evaluates(mid, after)
    }

    /// Evaluates the first step, then the second.
    fn evaluate(&self, placer: &mut W) {
        let ghost before = *placer;
        self.a.evaluate(placer);
        let ghost mid = *placer;
        self.b.evaluate(placer);
        assert(self.a.spec_evaluates(before, mid));
    }

    /// The node of the copies of both steps.
    fn clone_self(&self) -> Self {
        WitnessResolutionNode {
            a: self.a.clone_self(),
            b: self.b.clone_self(),
            _marker: core::marker::PhantomData,
        }
    }
}

/// The types in which witness values are computed.
pub trait WitnessTypeSet<F>: Sized {
    type Mask: WitnessMask;
    type Field: WitnessComputationalField<F, Mask = Self::Mask, IntegerRepresentation = Self::U32>;
    type I32: WitnessComputationalI32<UnsignedRepresentation = Self::U32>;
    type U32: WitnessComputationalU32<Mask = Self::Mask, Narrow = Self::U16>;
    type U16: WitnessComputationalU16<Wide = Self::U32, Narrow = Self::U8, Mask = Self::Mask>;
    type U8: WitnessComputationalU8<Wide = Self::U16, Mask = Self::Mask>;

    /// Whether the computation may branch on masks; a set verified against
    /// these contracts gives its own, and the default names none.
    closed spec fn spec_can_branch() -> bool {
        vstd::pervasive::arbitrary()
    }

    /// Whether a branch under the mask is taken; as for `spec_can_branch`,
    /// the default names none.
    closed spec fn spec_branch(mask: Self::Mask) -> bool {
        vstd::pervasive::arbitrary()
    }

    /// Whether the computation may branch on masks.
    fn can_branch() -> (r: bool)
        ensures
            r == Self::spec_can_branch(),
    ;

    /// Whether a lookup also counts the multiplicity of the row it finds;
    /// no by default.
    fn merge_lookup_and_multiplicity_count() -> (r: bool)
        default_ensures
            !r,
    {
        false
    }

    fn branch(mask: &Self::Mask) -> (r: bool)
        ensures
            r == Self::spec_branch(*mask),
    ;
}

/// The 16-bit value of two bytes, least significant first.
pub open spec fn u16_of_bytes<F, W: WitnessTypeSet<F>>(low: W::U8, high: W::U8) -> W::U16 {
    W::U16::spec_plus(W::U16::spec_shift_left(W::U8::spec_widen(high), 8), W::U8::spec_widen(low))
}

/// The 32-bit value of two 16-bit halves, least significant first.
pub open spec fn u32_of_halves<F, W: WitnessTypeSet<F>>(low: W::U16, high: W::U16) -> W::U32 {
    W::U32::spec_plus(W::U32::spec_shift_left(W::U16::spec_widen(high), 16), W::U16::spec_widen(low))
}

/// Places witness values of variables, computed in the types of the set.
pub trait WitnessPlacer<F>: WitnessTypeSet<F> {
    /// The 16-bit value a variable holds; a placer verified against these
    /// contracts gives its own, and the default names none.
    closed spec fn placed_u16(&self, variable: Variable) -> Self::U16 {
        vstd::pervasive::arbitrary()
    }

    /// The byte a variable holds; as for `placed_u16`, the default names
    /// none.
    closed spec fn placed_u8(&self, variable: Variable) -> Self::U8 {
        vstd::pervasive::arbitrary()
    }

    /// The field value a variable holds; as for `placed_u16`, the default
    /// names none.
    closed spec fn placed_field(&self, variable: Variable) -> Self::Field {
        vstd::pervasive::arbitrary()
    }

    /// Whether the placer can hold a value for the variable; by default
    /// every variable.
    closed spec fn accepts(variable: Variable) -> bool {
        true
    }

    /// The variables read with `get_field` so far, in order; the default
    /// names none.
    closed spec fn field_reads(&self) -> Seq<Variable> {
        Seq::empty()
    }

    /// Whether the placer holds the lookup table; by default every one.
    closed spec fn has_table(&self, table_id: Self::U16) -> bool {
        true
    }

    fn get_oracle_field(&mut self, placeholder: Placeholder, subindex: usize) -> Self::Field;

    fn get_oracle_u32(&mut self, placeholder: Placeholder) -> Self::U32;

    fn get_oracle_u16(&mut self, placeholder: Placeholder) -> Self::U16;

    fn get_oracle_u8(&mut self, placeholder: Placeholder) -> Self::U8;

    fn get_oracle_boolean(&mut self, placeholder: Placeholder) -> Self::Mask;

    fn get_field(&mut self, variable: Variable) -> (r: Self::Field)
        requires
            Self::accepts(variable),
        ensures
            r == old(self).placed_field(variable),
            final(self).field_reads() == old(self).field_reads().push(variable),
            forall|x: Variable| #[trigger] final(self).placed_field(x) == old(self).placed_field(x),
            forall|x: Variable| #[trigger] final(self).placed_u16(x) == old(self).placed_u16(x),
            forall|x: Variable| #[trigger] final(self).placed_u8(x) == old(self).placed_u8(x),
    ;

    fn get_boolean(&mut self, variable: Variable) -> (r: Self::Mask)
        requires
            Self::accepts(variable),
        ensures
            r == Self::Field::spec_into_mask(old(self).placed_field(variable)),
            forall|x: Variable| #[trigger] final(self).placed_field(x) == old(self).placed_field(x),
            forall|x: Variable| #[trigger] final(self).placed_u16(x) == old(self).placed_u16(x),
            forall|x: Variable| #[trigger] final(self).placed_u8(x) == old(self).placed_u8(x),
    ;

    fn get_u16(&mut self, variable: Variable) -> (r: Self::U16)
        requires
            Self::accepts(variable),
        ensures
            r == old(self).placed_u16(variable),
            forall|x: Variable| #[trigger] final(self).placed_u16(x) == old(self).placed_u16(x),
            forall|x: Variable| #[trigger] final(self).placed_u8(x) == old(self).placed_u8(x),
    ;

    fn get_u8(&mut self, variable: Variable) -> (r: Self::U8)
        requires
            Self::accepts(variable),
        ensures
            r == old(self).placed_u8(variable),
            forall|x: Variable| #[trigger] final(self).placed_u16(x) == old(self).placed_u16(x),
            forall|x: Variable| #[trigger] final(self).placed_u8(x) == old(self).placed_u8(x),
    ;

    /// A 32-bit value from its low and high 16-bit halves.
    fn get_u32_from_u16_parts(&mut self, variables: [Variable; 2]) -> (r: Self::U32)
        requires
            Self::accepts(variables[0]),
            Self::accepts(variables[1]),
        ensures
            r == u32_of_halves::<F, Self>(
                old(self).placed_u16(variables[0]),
                old(self).placed_u16(variables[1]),
            ),
            forall|x: Variable| #[trigger] final(self).placed_u16(x) == old(self).placed_u16(x),
            forall|x: Variable| #[trigger] final(self).placed_u8(x) == old(self).placed_u8(x),
    {
        let low = self.get_u16(variables[0]).widen();
        let high = self.get_u16(variables[1]).widen();
        let mut high = high.shl(16);
        high.add_assign(&low);
        high
    }

    /// A 32-bit value from its four bytes, least significant first.
    fn get_u32_from_u8_parts(&mut self, variables: [Variable; 4]) -> (r: Self::U32)
        requires
            Self::accepts(variables[0]),
            Self::accepts(variables[1]),
            Self::accepts(variables[2]),
            Self::accepts(variables[3]),
        ensures
            r == u32_of_halves::<F, Self>(
                u16_of_bytes::<F, Self>(old(self).placed_u8(variables[0]), old(self).placed_u8(variables[1])),
                u16_of_bytes::<F, Self>(old(self).placed_u8(variables[2]), old(self).placed_u8(variables[3])),
            ),
            forall|x: Variable| #[trigger] final(self).placed_u16(x) == old(self).placed_u16(x),
            forall|x: Variable| #[trigger] final(self).placed_u8(x) == old(self).placed_u8(x),
    {
        let low = self.get_u16_from_u8_parts([variables[0], variables[1]]).widen();
        let high = self.get_u16_from_u8_parts([variables[2], variables[3]]).widen();
        let mut high = high.shl(16);
        high.add_assign(&low);
        high
    }

    /// A 16-bit value from its two bytes, least significant first.
    fn get_u16_from_u8_parts(&mut self, variables: [Variable; 2]) -> (r: Self::U16)
        requires
            Self::accepts(variables[0]),
            Self::accepts(variables[1]),
        ensures
            r == u16_of_bytes::<F, Self>(
                old(self).placed_u8(variables[0]),
                old(self).placed_u8(variables[1]),
            ),
            forall|x: Variable| #[trigger] final(self).placed_u16(x) == old(self).placed_u16(x),
            forall|x: Variable| #[trigger] final(self).placed_u8(x) == old(self).placed_u8(x),
    {
        let low = self.get_u8(variables[0]).widen();
        let high = self.get_u8(variables[1]).widen();
        let mut high = high.shl(8);
        high.add_assign(&low);
        high
    }

    fn assign_mask(&mut self, variable: Variable, value: &Self::Mask)
        requires
            Self::accepts(variable),
        ensures
            forall|x: Variable| #[trigger] final(self).placed_field(x) == if x == variable {
                Self::Field::spec_from_mask(*value)
            } else {
                old(self).placed_field(x)
            },
    ;

    fn assign_field(&mut self, variable: Variable, value: &Self::Field)
        requires
            Self::accepts(variable),
        ensures
            forall|x: Variable| #[trigger] final(self).placed_field(x) == if x == variable {
                *value
            } else {
                old(self).placed_field(x)
            },
    ;

    /// Assigns a 32-bit value as its two 16-bit halves; where both
    /// variables are one, the high half stays.
    fn assign_u32_from_u16_parts(&mut self, variables: [Variable; 2], value: &Self::U32)
        requires
            Self::accepts(variables[0]),
            Self::accepts(variables[1]),
        ensures
            forall|x: Variable| #[trigger] final(self).placed_u16(x) == if x == variables[1] {
                Self::U32::spec_truncate(Self::U32::spec_shift_right(*value, 16))
            } else if x == variables[0] {
                Self::U32::spec_truncate(*value)
            } else {
                old(self).placed_u16(x)
            },
    {
        let low_val = value.truncate();
        let high_val = value.shr(16).truncate();
        self.assign_u16(variables[0], &low_val);
        self.assign_u16(variables[1], &high_val);
    }

    fn assign_u16(&mut self, variable: Variable, value: &Self::U16)
        requires
            Self::accepts(variable),
        ensures
            forall|x: Variable| #[trigger] final(self).placed_u16(x) == if x == variable {
                *value
            } else {
                old(self).placed_u16(x)
            },
    ;

    /// Assigns a 16-bit value as its two bytes; where both variables are
    /// one, the high byte stays.
    fn assign_u16_from_u8_parts(&mut self, variables: [Variable; 2], value: &Self::U16)
        requires
            Self::accepts(variables[0]),
            Self::accepts(variables[1]),
        ensures
            forall|x: Variable| #[trigger] final(self).placed_u8(x) == if x == variables[1] {
                Self::U16::spec_truncate(Self::U16::spec_shift_right(*value, 8))
            } else if x == variables[0] {
                Self::U16::spec_truncate(*value)
            } else {
                old(self).placed_u8(x)
            },
    {
        let low_val = value.truncate();
        let high_val = value.shr(8).truncate();
        self.assign_u8(variables[0], &low_val);
        self.assign_u8(variables[1], &high_val);
    }

    fn assign_u8(&mut self, variable: Variable, value: &Self::U8)
        requires
            Self::accepts(variable),
        ensures
            forall|x: Variable| #[trigger] final(self).placed_u8(x) == if x == variable {
                *value
            } else {
                old(self).placed_u8(x)
            },
    ;

    fn conditionally_assign_mask(&mut self, variable: Variable, mask: &Self::Mask, value: &Self::Mask)
        requires
            Self::accepts(variable),
        ensures
            forall|x: Variable| #[trigger] final(self).placed_field(x) == if x == variable {
                Self::Field::spec_select(*mask, Self::Field::spec_from_mask(*value), old(self).placed_field(x))
            } else {
                old(self).placed_field(x)
            },
    ;

    fn conditionally_assign_field(&mut self, variable: Variable, mask: &Self::Mask, value: &Self::Field)
        requires
            Self::accepts(variable),
        ensures
            forall|x: Variable| #[trigger] final(self).placed_field(x) == if x == variable {
                Self::Field::spec_select(*mask, *value, old(self).placed_field(x))
            } else {
                old(self).placed_field(x)
            },
    ;

    /// Assigns a 32-bit value as its two 16-bit halves where the mask holds;
    /// where both variables are one, the high half is assigned last.
    fn conditionally_assign_u32(&mut self, variables: [Variable; 2], mask: &Self::Mask, value: &Self::U32)
        requires
            Self::accepts(variables[0]),
            Self::accepts(variables[1]),
        ensures
            forall|x: Variable| #[trigger] final(self).placed_u16(x) == if x == variables[1] {
                Self::U16::spec_select(
                    *mask,
                    Self::U32::spec_truncate(Self::U32::spec_shift_right(*value, 16)),
                    if x == variables[0] {
                        Self::U16::spec_select(*mask, Self::U32::spec_truncate(*value), old(self).placed_u16(x))
                    } else {
                        old(self).placed_u16(x)
                    },
                )
            } else if x == variables[0] {
                Self::U16::spec_select(*mask, Self::U32::spec_truncate(*value), old(self).placed_u16(x))
            } else {
                old(self).placed_u16(x)
            },
    {
        let low_val = value.truncate();
        let high_val = value.shr(16).truncate();
        self.conditionally_assign_u16(variables[0], mask, &low_val);
        self.conditionally_assign_u16(variables[1], mask, &high_val);
    }

    fn conditionally_assign_u16(&mut self, variable: Variable, mask: &Self::Mask, value: &Self::U16)
        requires
            Self::accepts(variable),
        ensures
            forall|x: Variable| #[trigger] final(self).placed_u16(x) == if x == variable {
                Self::U16::spec_select(*mask, *value, old(self).placed_u16(x))
            } else {
                old(self).placed_u16(x)
            },
    ;

    fn conditionally_assign_u8(&mut self, variable: Variable, mask: &Self::Mask, value: &Self::U8)
        requires
            Self::accepts(variable),
        ensures
            forall|x: Variable| #[trigger] final(self).placed_u8(x) == if x == variable {
                Self::U8::spec_select(*mask, *value, old(self).placed_u8(x))
            } else {
                old(self).placed_u8(x)
            },
    ;

    fn lookup<const M: usize, const N: usize>(
        &mut self,
        inputs: &[Self::Field; M],
        table_id: &Self::U16,
    ) -> [Self::Field; N]
        requires
            old(self).has_table(*table_id),
    ;

    /// Looks the inputs up where the branch under the mask is taken, and
    /// gives zeros otherwise.
    fn maybe_lookup<const M: usize, const N: usize>(
        &mut self,
        inputs: &[Self::Field; M],
        table_id: &Self::U16,
        mask: &Self::Mask,
    ) -> [Self::Field; N]
        requires
            Self::spec_branch(*mask) ==> old(self).has_table(*table_id),
    ;

    fn lookup_enforce<const M: usize>(&mut self, inputs: &[Self::Field; M], table_id: &Self::U16)
        requires
            old(self).has_table(*table_id),
    ;

    fn assume_assigned(&mut self, variable: Variable);
}

/// Booleans of the witness computation.
pub trait WitnessMask: Sized + Clone {
    fn and(&self, other: &Self) -> Self;

    fn or(&self, other: &Self) -> Self;

    fn negate(&self) -> Self;

    /// The mask of a constant.
    spec fn spec_constant(value: bool) -> Self;

    /// `a` where the mask holds, `b` otherwise.
    spec fn spec_select(mask: Self, a: Self, b: Self) -> Self;

    fn constant(value: bool) -> (r: Self)
        ensures
            r == Self::spec_constant(value),
    ;

    /// `self = other` where the mask holds.
    fn assign_masked(&mut self, mask: &Self, other: &Self)
        ensures
            *final(self) == Self::spec_select(*mask, *other, *old(self)),
    {
        let v = Self::select(mask, other, &*self);
        *self = v;
    }

    fn select(mask: &Self, a: &Self, b: &Self) -> (r: Self)
        ensures
            r == Self::spec_select(*mask, *a, *b),
    ;

    fn select_into(dst: &mut Self, mask: &Self, a: &Self, b: &Self);
}

/// Operations common to the integer types of the witness computation.
pub trait WitnessComputationCore: Sized + Clone {
    type Mask: WitnessMask;

    /// The sum, as the type computes it.
    spec fn spec_plus(a: Self, b: Self) -> Self;

    /// The difference, as the type computes it.
    spec fn spec_minus(a: Self, b: Self) -> Self;

    /// `a` where the mask holds, `b` otherwise.
    spec fn spec_select(mask: Self::Mask, a: Self, b: Self) -> Self;

    /// The value read as a mask.
    spec fn spec_into_mask(a: Self) -> Self::Mask;

    fn add_assign(&mut self, other: &Self)
        ensures
            *final(self) == Self::spec_plus(*old(self), *other),
    ;

    fn sub_assign(&mut self, other: &Self)
        ensures
            *final(self) == Self::spec_minus(*old(self), *other),
    ;

    /// `self = other` where the mask holds.
    fn assign_masked(&mut self, mask: &Self::Mask, other: &Self)
        ensures
            *final(self) == Self::spec_select(*mask, *other, *old(self)),
    {
        let v = Self::select(mask, other, &*self);
        *self = v;
    }

    fn add_assign_masked(&mut self, mask: &Self::Mask, other: &Self);

    /// When `self + a * b` can be computed without overflow.
    spec fn spec_product_fits(self, a: Self, b: Self) -> bool;

    /// When `self + a * b`, where the mask holds, can be computed without
    /// overflow.
    spec fn spec_masked_product_fits(self, mask: Self::Mask, a: Self, b: Self) -> bool;

    fn add_assign_product(&mut self, a: &Self, b: &Self)
        requires
            old(self).spec_product_fits(*a, *b),
    ;

    fn add_assign_product_masked(&mut self, mask: &Self::Mask, a: &Self, b: &Self)
        requires
            old(self).spec_masked_product_fits(*mask, *a, *b),
    ;

    fn select(mask: &Self::Mask, a: &Self, b: &Self) -> (r: Self)
        ensures
            r == Self::spec_select(*mask, *a, *b),
    ;

    fn select_into(dst: &mut Self, mask: &Self::Mask, a: &Self, b: &Self);

    fn from_mask(value: Self::Mask) -> Self;

    fn into_mask(self) -> (r: Self::Mask)
        ensures
            r == Self::spec_into_mask(self),
    ;
}

/// Field elements of the witness computation.
pub trait WitnessComputationalField<F>: Sized + Clone {
    type Mask: WitnessMask;
    type IntegerRepresentation;

    /// The sum in the field.
    spec fn spec_plus(a: Self, b: Self) -> Self;

    /// The difference in the field.
    spec fn spec_minus(a: Self, b: Self) -> Self;

    /// The product in the field.
    spec fn spec_times(a: Self, b: Self) -> Self;

    /// `acc + a * b` in the field.
    spec fn spec_add_product(acc: Self, a: Self, b: Self) -> Self;

    /// `a` where the mask holds, `b` otherwise.
    spec fn spec_select(mask: Self::Mask, a: Self, b: Self) -> Self;

    /// The element of a constant.
    spec fn spec_constant(value: F) -> Self;

    /// Whether two elements are equal in the field.
    spec fn spec_equal(a: Self, b: Self) -> Self::Mask;

    /// The inverse, and zero for zero.
    spec fn spec_inverse_or_zero(a: Self) -> Self;

    /// The element as an integer.
    spec fn spec_as_integer(a: Self) -> Self::IntegerRepresentation;

    /// The element read as a mask.
    spec fn spec_into_mask(a: Self) -> Self::Mask;

    /// The element of a mask.
    spec fn spec_from_mask(value: Self::Mask) -> Self;

    /// The element of an integer.
    spec fn spec_from_integer(value: Self::IntegerRepresentation) -> Self;

    fn add_assign(&mut self, other: &Self)
        ensures
            *final(self) == Self::spec_plus(*old(self), *other),
    ;

    fn sub_assign(&mut self, other: &Self)
        ensures
            *final(self) == Self::spec_minus(*old(self), *other),
    ;

    fn mul_assign(&mut self, other: &Self)
        ensures
            *final(self) == Self::spec_times(*old(self), *other),
    ;

    fn fused_mul_add_assign(&mut self, a: &Self, b: &Self);

    fn add_assign_product(&mut self, a: &Self, b: &Self)
        ensures
            *final(self) == Self::spec_add_product(*old(self), *a, *b),
    ;

    /// `self = other` where the mask holds.
    fn assign_masked(&mut self, mask: &Self::Mask, other: &Self)
        ensures
            *final(self) == Self::spec_select(*mask, *other, *old(self)),
    {
        let v = Self::select(mask, other, &*self);
        *self = v;
    }

    fn add_assign_masked(&mut self, mask: &Self::Mask, other: &Self);

    fn add_assign_product_masked(&mut self, mask: &Self::Mask, a: &Self, b: &Self);

    fn select(mask: &Self::Mask, a: &Self, b: &Self) -> (r: Self)
        ensures
            r == Self::spec_select(*mask, *a, *b),
    ;

    fn select_into(dst: &mut Self, mask: &Self::Mask, a: &Self, b: &Self);

    fn into_mask(self) -> (r: Self::Mask)
        ensures
            r == Self::spec_into_mask(self),
    ;

    fn from_mask(value: Self::Mask) -> (r: Self)
        ensures
            r == Self::spec_from_mask(value),
    ;

    fn is_zero(&self) -> Self::Mask;

    fn is_one(&self) -> Self::Mask;

    fn constant(value: F) -> (r: Self)
        ensures
            r == Self::spec_constant(value),
    ;

    fn equal(&self, other: &Self) -> (r: Self::Mask)
        ensures
            r == Self::spec_equal(*self, *other),
    ;

    /// When the element has a multiplicative inverse.
    spec fn spec_invertible(self) -> bool;

    fn inverse(&self) -> Self
        requires
            self.spec_invertible(),
    ;

    fn inverse_or_zero(&self) -> (r: Self)
        ensures
            r == Self::spec_inverse_or_zero(*self),
    ;

    fn as_integer(self) -> (r: Self::IntegerRepresentation)
        ensures
            r == Self::spec_as_integer(self),
    ;

    fn from_integer(value: Self::IntegerRepresentation) -> (r: Self)
        ensures
            r == Self::spec_from_integer(value),
    ;
}

/// Integers of the witness computation.
pub trait WitnessComputationalInteger<T>: WitnessComputationCore {
    /// The value of a constant.
    spec fn spec_constant(value: T) -> Self;

    /// The wrapped sum and whether it overflowed.
    spec fn spec_overflowing_add(a: Self, b: Self) -> (Self, Self::Mask);

    /// The wrapped difference and whether it borrowed.
    spec fn spec_overflowing_sub(a: Self, b: Self) -> (Self, Self::Mask);

    /// The value shifted left.
    spec fn spec_shift_left(a: Self, shift_magnitude: u32) -> Self;

    /// The value shifted right.
    spec fn spec_shift_right(a: Self, shift_magnitude: u32) -> Self;

    /// The lowest bits of the value.
    spec fn spec_lowest_bits(a: Self, num_bits: u32) -> Self;

    fn is_zero(&self) -> Self::Mask;

    fn is_one(&self) -> Self::Mask;

    fn constant(value: T) -> (r: Self)
        ensures
            r == Self::spec_constant(value),
    ;

    fn equal(&self, other: &Self) -> Self::Mask;

    fn overflowing_add(&self, other: &Self) -> (r: (Self, Self::Mask))
        ensures
            r == Self::spec_overflowing_add(*self, *other),
    ;

    fn overflowing_sub(&self, other: &Self) -> (r: (Self, Self::Mask))
        ensures
            r == Self::spec_overflowing_sub(*self, *other),
    ;

    fn overflowing_add_with_carry(&self, other: &Self, carry: &Self::Mask) -> (Self, Self::Mask);

    fn overflowing_sub_with_borrow(&self, other: &Self, borrow: &Self::Mask) -> (Self, Self::Mask);

    fn shl(&self, shift_magnitude: u32) -> (r: Self)
        ensures
            r == Self::spec_shift_left(*self, shift_magnitude),
    ;

    fn shr(&self, shift_magnitude: u32) -> (r: Self)
        ensures
            r == Self::spec_shift_right(*self, shift_magnitude),
    ;

    /// When a bit index can be tested.
    spec fn spec_bit_index_valid(bit_idx: u32) -> bool;

    /// When a count of low bits can be masked.
    spec fn spec_low_bits_valid(num_bits: u32) -> bool;

    fn get_bit(&self, bit_idx: u32) -> Self::Mask
        requires
            Self::spec_bit_index_valid(bit_idx),
    ;

    fn equal_to_constant(&self, value: T) -> Self::Mask;

    fn get_lowest_bits(&self, num_bits: u32) -> (r: Self)
        requires
            Self::spec_low_bits_valid(num_bits),
        ensures
            r == Self::spec_lowest_bits(*self, num_bits),
    ;

    fn or(&self, other: &Self) -> Self;

    fn and(&self, other: &Self) -> Self;

    fn xor(&self, other: &Self) -> Self;

    fn not(&self) -> Self;
}

/// 32-bit unsigned integers of the witness computation.
pub trait WitnessComputationalU32: WitnessComputationalInteger<u32> {
    type Narrow;

    /// The low half of the value.
    spec fn spec_truncate(a: Self) -> Self::Narrow;

    fn truncate(&self) -> (r: Self::Narrow)
        ensures
            r == Self::spec_truncate(*self),
    ;

    fn wrapping_product(&self, other: &Self) -> Self;

    fn split_widening_product(&self, other: &Self) -> (Self, Self);

    /// When a value can divide.
    spec fn spec_nonzero_divisor(divisor: Self) -> bool;

    fn div_rem_assume_nonzero_divisor(divident: &Self, divisor: &Self) -> (Self, Self)
        requires
            Self::spec_nonzero_divisor(*divisor),
    ;
}

/// 16-bit unsigned integers of the witness computation.
pub trait WitnessComputationalU16: WitnessComputationalInteger<u16> {
    type Wide;
    type Narrow;

    /// The same value in the wider type.
    spec fn spec_widen(a: Self) -> Self::Wide;

    /// The low half of the value.
    spec fn spec_truncate(a: Self) -> Self::Narrow;

    /// The product as its low and high halves.
    spec fn spec_split_widening_product(a: Self, b: Self) -> (Self, Self);

    fn widen(&self) -> (r: Self::Wide)
        ensures
            r == Self::spec_widen(*self),
    ;

    fn truncate(&self) -> (r: Self::Narrow)
        ensures
            r == Self::spec_truncate(*self),
    ;

    /// The low half of the product.
    fn wrapping_product(&self, other: &Self) -> (r: Self)
        ensures
            r == Self::spec_split_widening_product(*self, *other).0,
    {
        Self::split_widening_product(self, other).0
    }

    fn widening_product(&self, other: &Self) -> Self::Wide;

    fn split_widening_product(&self, other: &Self) -> (r: (Self, Self))
        ensures
            r == Self::spec_split_widening_product(*self, *other),
    ;
}

/// 8-bit unsigned integers of the witness computation.
pub trait WitnessComputationalU8: WitnessComputationalInteger<u8> {
    type Wide;

    /// The same value in the wider type.
    spec fn spec_widen(a: Self) -> Self::Wide;

    /// The product as its low and high halves.
    spec fn spec_split_widening_product(a: Self, b: Self) -> (Self, Self);

    fn widen(&self) -> (r: Self::Wide)
        ensures
            r == Self::spec_widen(*self),
    ;

    /// The low half of the product.
    fn wrapping_product(&self, other: &Self) -> (r: Self)
        ensures
            r == Self::spec_split_widening_product(*self, *other).0,
    {
        Self::split_widening_product(self, other).0
    }

    fn widening_product(&self, other: &Self) -> Self::Wide;

    fn split_widening_product(&self, other: &Self) -> (r: (Self, Self))
        ensures
            r == Self::spec_split_widening_product(*self, *other),
    ;
}

/// 32-bit signed integers of the witness computation.
pub trait WitnessComputationalI32: Sized + Clone {
    type UnsignedRepresentation;

    fn from_unsigned(value: Self::UnsignedRepresentation) -> Self;

    fn as_unsigned(self) -> Self::UnsignedRepresentation;

    fn widening_product_bits(&self, other: &Self) -> (
        Self::UnsignedRepresentation,
        Self::UnsignedRepresentation,
    );

    fn mixed_widening_product_bits(&self, other: &Self::UnsignedRepresentation) -> (
        Self::UnsignedRepresentation,
        Self::UnsignedRepresentation,
    );

    /// When a value can divide.
    spec fn spec_nonzero_divisor(divisor: Self) -> bool;

    fn div_rem_assume_nonzero_divisor_no_overflow(divident: &Self, divisor: &Self) -> (Self, Self)
        requires
            Self::spec_nonzero_divisor(*divisor),
    ;
}

/// Evaluates the step where the mask holds when the placer can branch, and
/// always otherwise (the step then assigns under the mask itself).
pub fn witness_early_branch_if_possible<
    F,
    W: WitnessPlacer<F>,
    T: WitnessResolutionDescription<F, W>,
>(branch_mask: W::Mask, placer: &mut W, node: &T)
    ensures
        if W::spec_can_branch() && !W::spec_branch(branch_mask) {
            *final(placer) == *old(placer)
        } else {
            node.spec_evaluates(*old(placer), *final(placer))
        },
{
    if W::can_branch() {
        if W::branch(&branch_mask) {
            node.evaluate(placer);
        }
    } else {
        node.evaluate(placer);
    }
}


} // verus!
