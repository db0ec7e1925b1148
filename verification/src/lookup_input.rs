use vstd::prelude::*;

use crate::constraint::{linear_sum, some_term_holds, Constraint};
use crate::definitions::Variable;
use crate::field::{lemma_mul_mod_left, p, Mersenne31Field};
use crate::utils::scaled_reads;
use crate::witness_placer::{WitnessComputationalField, WitnessPlacer, WitnessTypeSet};

verus! {

/// An input of a lookup: a variable, or a linear expression in variables.
#[derive(Clone, Debug)]
pub enum LookupInput {
    Variable(Variable),
    Expression { linear_terms: Vec<(Mersenne31Field, Variable)>, constant_coeff: Mersenne31Field },
}

impl LookupInput {
    /// The value of the input under an assignment, in `[0, p)`.
    pub open spec fn value(self, a: spec_fn(Variable) -> int) -> int {
        match self {
            LookupInput::Variable(v) => a(v) % p(),
            LookupInput::Expression { linear_terms, constant_coeff } => (linear_sum(
                linear_terms@,
                a,
            ) + constant_coeff.val()) % p(),
        }
    }

    /// The variables the input reads, in order: the variable, or the
    /// variable of each linear term.
    pub open spec fn read_variables(self) -> Seq<Variable> {
        match self {
            LookupInput::Variable(w) => seq![w],
            LookupInput::Expression { linear_terms, .. } => scaled_reads(linear_terms@),
        }
    }

    /// Every variable that the input reads satisfies `ok`.
    pub open spec fn reads_only(self, ok: spec_fn(Variable) -> bool) -> bool {
        match self {
            LookupInput::Variable(w) => ok(w),
            LookupInput::Expression { linear_terms, .. } => forall|i: int|
                0 <= i < linear_terms@.len() ==> ok((#[trigger] linear_terms@[i]).1),
        }
    }

    /// The empty expression: constant zero.
    pub fn empty() -> (r: Self)
        ensures
            r matches LookupInput::Expression { linear_terms, constant_coeff } && linear_terms@.len()
                == 0 && constant_coeff.val() == 0,
    {
        LookupInput::Expression { linear_terms: Vec::new(), constant_coeff: Mersenne31Field(0) }
    }

    /// The constant input.
    pub fn from_field(value: Mersenne31Field) -> (r: Self)
        ensures
            r matches LookupInput::Expression { linear_terms, constant_coeff } && linear_terms@.len()
                == 0 && constant_coeff == value,
    {
        LookupInput::Expression { linear_terms: Vec::new(), constant_coeff: value }
    }

    /// The input that is a variable.
    pub fn from_variable(value: Variable) -> (r: Self)
        ensures
            r == LookupInput::Variable(value),
    {
        LookupInput::Variable(value)
    }

    /// The linear expression of a polynomial of degree at most one.
    pub fn from_constraint(value: Constraint) -> (r: Self)
        requires
            value.wf(),
            value.spec_degree() <= 1,
        ensures
            r is Expression,
            forall|a: spec_fn(Variable) -> int| #[trigger] r.value(a) == value.value(a),
            r.reads_only(|w: Variable| some_term_holds(value.terms@, w)),
    {
        let ghost v0 = value;
        let mut value = value;
        value.normalize();
        let ghost v1 = value;
        let (_, linear_terms, constant_coeff) = value.split_max_quadratic();
        let r = LookupInput::Expression { linear_terms, constant_coeff };
        proof {
            assert forall|a: spec_fn(Variable) -> int| #[trigger] r.value(a) == v0.value(a) by {
                assert(v1.value(a) == v0.value(a));
            }
            assert forall|w: Variable| #[trigger] some_term_holds(v1.terms@, w) implies some_term_holds(
                v0.terms@,
                w,
            ) by {}
        }
        r
    }

    /// The value of the input computed in the field of a type set, where
    /// `x` gives the field value of each variable.
    pub open spec fn value_in<W: WitnessTypeSet<Mersenne31Field>>(self, x: spec_fn(Variable) -> W::Field) -> W::Field {
        match self {
            LookupInput::Variable(v) => x(v),
            LookupInput::Expression { linear_terms, constant_coeff } => linear_form_in::<W>(
                linear_terms@,
                constant_coeff,
                x,
            ),
        }
    }

    /// The value of the input with the values the placer holds: a variable
    /// is read once; an expression starts from its constant and adds each
    /// coefficient times the value read, in order.
    pub fn evaluate<W: WitnessPlacer<Mersenne31Field>>(&self, placer: &mut W) -> (r: W::Field)
        requires
            self.reads_only(|w: Variable| W::accepts(w)),
        ensures
            r == self.value_in::<W>(|v: Variable| old(placer).placed_field(v)),
            final(placer).field_reads() == old(placer).field_reads() + self.read_variables(),
            forall|v: Variable| #[trigger] final(placer).placed_field(v) == old(placer).placed_field(v),
            forall|v: Variable| #[trigger] final(placer).placed_u16(v) == old(placer).placed_u16(v),
            forall|v: Variable| #[trigger] final(placer).placed_u8(v) == old(placer).placed_u8(v),
    {
        let ghost x = |v: Variable| placer.placed_field(v);
        let ghost start = placer.field_reads();
        match self {
            LookupInput::Variable(variable) => {
                let r = placer.get_field(*variable);
                proof {
                    assert(placer.field_reads() =~= start + seq![*variable]);
                }
                r
            },
            LookupInput::Expression { linear_terms, constant_coeff } => {
                let mut result: W::Field = W::Field::constant(*constant_coeff);
                let mut i: usize = 0;
                while i < linear_terms.len()
                    invariant
                        i <= linear_terms@.len(),
                        forall|v: Variable| #[trigger] placer.placed_field(v) == x(v),
                        forall|v: Variable| #[trigger] placer.placed_u16(v) == old(placer).placed_u16(v),
                        forall|v: Variable| #[trigger] placer.placed_u8(v) == old(placer).placed_u8(v),
                        x == (|v: Variable| old(placer).placed_field(v)),
                        result == linear_form_in::<W>(linear_terms@.take(i as int), *constant_coeff, x),
                        forall|j: int| 0 <= j < linear_terms@.len() ==> W::accepts((#[trigger] linear_terms@[j]).1),
                        placer.field_reads() == start + scaled_reads(linear_terms@.take(i as int)),
                    decreases linear_terms@.len() - i,
                {
                    let (c, v) = linear_terms[i];
                    let cf = W::Field::constant(c);
                    let xv = placer.get_field(v);
                    result.add_assign_product(&cf, &xv);
                    proof {
                        assert(linear_terms@.take(i + 1).drop_last() =~= linear_terms@.take(i as int));
                        assert(linear_terms@.take(i + 1).last() == linear_terms@[i as int]);
                        assert(placer.field_reads() =~= start + scaled_reads(linear_terms@.take(i + 1)));
                    }
                    i = i + 1;
                }
                proof {
                    assert(linear_terms@.take(i as int) =~= linear_terms@);
                }
                result
            },
        }
    }
}

/// The linear form `k + c1 * x(v1) + ... + cn * x(vn)` computed in the field
/// of a type set, term after term.
pub open spec fn linear_form_in<W: WitnessTypeSet<Mersenne31Field>>(
    terms: Seq<(Mersenne31Field, Variable)>,
    k: Mersenne31Field,
    x: spec_fn(Variable) -> W::Field,
) -> W::Field
    decreases terms.len(),
{
    if terms.len() == 0 {
        W::Field::spec_constant(k)
    } else {
        W::Field::spec_add_product(
            linear_form_in::<W>(terms.drop_last(), k, x),
            W::Field::spec_constant(terms.last().0),
            x(terms.last().1),
        )
    }
}

/// In a type set whose field elements are those of the prime field, the
/// linear form computed there has the value `k + c1 * x1 + ... + cn * xn`
/// modulo the characteristic.
pub proof fn lemma_linear_form_in_prime_field<W: WitnessTypeSet<Mersenne31Field, Field = Mersenne31Field>>(
    terms: Seq<(Mersenne31Field, Variable)>,
    k: Mersenne31Field,
    x: spec_fn(Variable) -> Mersenne31Field,
)
    ensures
        linear_form_in::<W>(terms, k, x).val() == (linear_sum(terms, |v: Variable| x(v).val()) + k.val()) % p(),
    decreases terms.len(),
{
    if terms.len() == 0 {
        assert(linear_form_in::<W>(terms, k, x) == k);
    } else {
        lemma_linear_form_in_prime_field::<W>(terms.drop_last(), k, x);
        let acc = linear_form_in::<W>(terms.drop_last(), k, x);
        let c = terms.last().0;
        let xv = x(terms.last().1);
        let s = linear_sum(terms.drop_last(), |v: Variable| x(v).val()) + k.val();
        let n = (acc.val() + c.val() * xv.val()) % p();
        assert(linear_form_in::<W>(terms, k, x) == Mersenne31Field(n as u32));
        vstd::arithmetic::div_mod::lemma_small_mod(n as nat, p() as nat);
        vstd::arithmetic::div_mod::lemma_add_mod_noop(s, c.val() * xv.val(), p());
        vstd::arithmetic::div_mod::lemma_mod_twice(s, p());
        vstd::arithmetic::div_mod::lemma_add_mod_noop(acc.val(), c.val() * xv.val(), p());
        vstd::arithmetic::div_mod::lemma_mod_twice(c.val() * xv.val(), p());
    }
}

} // verus!
