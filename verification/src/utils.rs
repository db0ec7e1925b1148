use vstd::prelude::*;

use crate::constraint::{Constraint, Term, high_degree_cancels, quadratic_sum, linear_sum, some_term_holds};
use crate::witness_placer::{WitnessComputationalField, WitnessPlacer, WitnessTypeSet};
use crate::definitions::{Boolean, Num, Variable};
use crate::field::{p, Mersenne31Field};


verus! {

/// `((x mod p) + (y mod p)) mod p == (x + y) mod p`.
proof fn lemma_add_mod(x: int, y: int)
    ensures
        ((x % p()) + (y % p())) % p() == (x + y) % p(),
        (x % p()) % p() == x % p(),
{
    vstd::arithmetic::div_mod::lemma_add_mod_noop(x, y, p());
    vstd::arithmetic::div_mod::lemma_mod_twice(x, p());
}

/// `(x * (y mod p)) mod p == (x * y) mod p`.
proof fn lemma_mul_mod(x: int, y: int)
    ensures
        (x * (y % p())) % p() == (x * y) % p(),
        ((x % p()) * y) % p() == (x * y) % p(),
{
    vstd::arithmetic::div_mod::lemma_mul_mod_noop_right(x, y, p());
    vstd::arithmetic::div_mod::lemma_mul_mod_noop_left(x, y, p());
}

/// Whether each of two numbers is a constant.
pub fn check_constants(num1: &Num, num2: &Num) -> (r: (bool, bool))
    ensures
        r.0 == (*num1 is Constant),
        r.1 == (*num2 is Constant),
{
    let first_is_constant = match num1 {
        Num::Constant(_) => true,
        _ => false,
    };
    let second_is_constant = match num2 {
        Num::Constant(_) => true,
        _ => false,
    };
    (first_is_constant, second_is_constant)
}

/// The constraint `1 - bit`.
fn one_minus(bit: Variable) -> (r: Constraint)
    ensures
        r.wf(),
        r.spec_degree() <= 1,
        forall|a: spec_fn(Variable) -> int| #[trigger] r.value(a) == (1 - a(bit)) % p(),
{
    let one = Term::from_u32(1);
    let t = Term::from_variable(bit);
    let r = one.sub(t);
    proof {
        vstd::arithmetic::div_mod::lemma_small_mod(1, p() as nat);
        crate::constraint::lemma_terms_max_degree_upper(r.terms@);
        crate::constraint::lemma_terms_max_degree_bound(r.terms@, 1);
    }
    r
}

/// `accumulator + term` without normalization; the term is of degree at
/// most two.
fn push_term(accumulator: Constraint, term: Term) -> (r: Constraint)
    requires
        accumulator.wf(),
        term.wf(),
        term.spec_degree() <= 2,
    ensures
        r.wf(),
        accumulator.spec_degree() <= 2 ==> r.spec_degree() <= 2,
        forall|a: spec_fn(Variable) -> int| #[trigger] r.value(a) == (accumulator.value(a) + term.value(a)) % p(),
        r.terms@ == accumulator.terms@.push(term),
{
    let ghost acc = accumulator;
    let r = accumulator.add_term(term);
    proof {
        assert(r.terms@.drop_last() =~= acc.terms@);
        assert forall|a: spec_fn(Variable) -> int| #[trigger] r.value(a) == (acc.value(a)
            + term.value(a)) % p() by {
            lemma_add_mod(crate::constraint::terms_sum(acc.terms@, a), term.value(a));
            vstd::arithmetic::div_mod::lemma_add_mod_noop(
                crate::constraint::terms_sum(acc.terms@, a),
                term.value(a),
                p(),
            );
            vstd::arithmetic::div_mod::lemma_mod_twice(term.value(a), p());
            vstd::arithmetic::div_mod::lemma_add_mod_noop(
                acc.value(a),
                term.value(a),
                p(),
            );
        }
    }
    r
}

/// `accumulator + boolean * term`, for a term of degree at most one.
fn mask_term_into_accumulator(boolean: &Boolean, v: Term, accumulator: Constraint) -> (r: Constraint)
    requires
        accumulator.wf(),
        boolean is Constant || accumulator.spec_degree() <= 2 || high_degree_cancels(accumulator.terms@),
        v.wf(),
        v.spec_degree() <= 1,
    ensures
        r.wf(),
        accumulator.spec_degree() <= 2 ==> r.spec_degree() <= 2,
        !(boolean is Constant) ==> r.spec_degree() <= 2,
        forall|a: spec_fn(Variable) -> int| #[trigger] r.value(a) == (accumulator.value(a)
            + boolean.value(a) * v.value(a)) % p(),
        *boolean == Boolean::Constant(false) ==> r.terms@ == accumulator.terms@,
        *boolean == Boolean::Constant(true) ==> r.terms@ == accumulator.terms@.push(v),
{
    let ghost acc = accumulator;
    match *boolean {
        Boolean::Constant(flag) => {
            if flag {
                let r = push_term(accumulator, v);
                r
            } else {
                proof {
                    assert forall|a: spec_fn(Variable) -> int| #[trigger] acc.value(a) == (acc.value(a)
                        + boolean.value(a) * v.value(a)) % p() by {
                        lemma_add_mod(crate::constraint::terms_sum(acc.terms@, a), 0);
                    }
                }
                accumulator
            }
        },
        Boolean::Is(bit) => {
            let t = v.mul(Term::from_variable(bit));
            let r = t.add(accumulator);
            proof {
                assert forall|a: spec_fn(Variable) -> int| #[trigger] r.value(a) == (acc.value(a)
                    + boolean.value(a) * v.value(a)) % p() by {
                    lemma_add_mod(v.value(a) * a(bit), acc.value(a));
                    lemma_add_mod(crate::constraint::terms_sum(acc.terms@, a), 0);
                    assert(v.value(a) * a(bit) == a(bit) * v.value(a)) by (nonlinear_arith);
                }
            }
            r
        },
        Boolean::Not(bit) => {
            let nb = one_minus(bit);
            let t = nb.mul_term(v);
            let r = t.add(accumulator);
            proof {
                assert forall|a: spec_fn(Variable) -> int| #[trigger] r.value(a) == (acc.value(a)
                    + boolean.value(a) * v.value(a)) % p() by {
                    let x = (1 - a(bit)) * v.value(a);
                    assert(nb.value(a) == (1 - a(bit)) % p());
                    lemma_mul_mod(crate::constraint::terms_sum(nb.terms@, a), v.value(a));
                    lemma_mul_mod(1 - a(bit), v.value(a));
                    lemma_add_mod(x, acc.value(a));
                    lemma_add_mod(crate::constraint::terms_sum(acc.terms@, a), 0);
                }
            }
            r
        },
    }
}

/// `accumulator + boolean * variable`: the variable added to the
/// accumulator where the boolean holds.
pub fn mask_by_boolean_into_accumulator_constraint(
    boolean: &Boolean,
    variable: &Num,
    accumulator: Constraint,
) -> (r: Constraint)
    requires
        accumulator.wf(),
        boolean is Constant || accumulator.spec_degree() <= 2 || high_degree_cancels(accumulator.terms@),
    ensures
        r.wf(),
        accumulator.spec_degree() <= 2 ==> r.spec_degree() <= 2,
        !(boolean is Constant) ==> r.spec_degree() <= 2,
        *boolean == Boolean::Constant(false) ==> r.terms@ == accumulator.terms@,
        *boolean == Boolean::Constant(true) ==> r.terms@.len() == accumulator.terms@.len() + 1
            && r.terms@.drop_last() == accumulator.terms@,
        forall|a: spec_fn(Variable) -> int| #[trigger] r.value(a) == (accumulator.value(a)
            + boolean.value(a) * variable.value(a)) % p(),
{
    let v = Term::from_num(*variable);
    mask_term_into_accumulator(boolean, v, accumulator)
}

/// `accumulator + boolean * variable * shift`: the shifted variable added
/// to the accumulator where the boolean holds.
pub fn mask_by_boolean_into_accumulator_constraint_with_shift(
    boolean: &Boolean,
    variable: &Num,
    accumulator: Constraint,
    shift: Mersenne31Field,
) -> (r: Constraint)
    requires
        accumulator.wf(),
        boolean is Constant || accumulator.spec_degree() <= 2 || high_degree_cancels(accumulator.terms@),
    ensures
        r.wf(),
        accumulator.spec_degree() <= 2 ==> r.spec_degree() <= 2,
        !(boolean is Constant) ==> r.spec_degree() <= 2,
        *boolean == Boolean::Constant(false) ==> r.terms@ == accumulator.terms@,
        *boolean == Boolean::Constant(true) ==> r.terms@.len() == accumulator.terms@.len() + 1
            && r.terms@.drop_last() == accumulator.terms@,
        forall|a: spec_fn(Variable) -> int| #[trigger] r.value(a) == (accumulator.value(a)
            + boolean.value(a) * variable.value(a) * shift.val()) % p(),
{
    let ghost acc = accumulator;
    let v = shifted_term(variable, shift);
    let r = mask_term_into_accumulator(boolean, v, accumulator);
    proof {
        assert forall|a: spec_fn(Variable) -> int| #[trigger] r.value(a) == (acc.value(a)
            + boolean.value(a) * variable.value(a) * shift.val()) % p() by {
            let b = boolean.value(a);
            let x = variable.value(a) * shift.val();
            assert(v.value(a) % p() == x % p());
            crate::field::lemma_mod_mul_congruent(v.value(a), x, b);
            assert(v.value(a) * b == b * v.value(a)) by (nonlinear_arith);
            assert(x * b == b * x) by (nonlinear_arith);
            crate::field::lemma_mod_add_congruent(acc.value(a), b * v.value(a), b * x);
            assert(b * variable.value(a) * shift.val() == b * (variable.value(a) * shift.val())) by (nonlinear_arith);
        }
    }
    r
}

/// The term `variable * shift`.
fn shifted_term(variable: &Num, shift: Mersenne31Field) -> (r: Term)
    ensures
        r.wf(),
        r.spec_degree() <= 1,
        forall|a: spec_fn(Variable) -> int| #[trigger] r.value(a) % p() == (variable.value(a) * shift.val()) % p(),
{
    match *variable {
        Num::Var(var) => {
            let r = Term::from_coeff_and_variable(shift, var);
            proof {
                assert forall|a: spec_fn(Variable) -> int| #[trigger] r.value(a) % p() == (variable.value(a)
                    * shift.val()) % p() by {
                    assert(shift.val() * a(var) == a(var) * shift.val()) by (nonlinear_arith);
                }
            }
            r
        },
        Num::Constant(constant) => {
            let mut constant = constant;
            let c0 = constant;
            constant.mul_assign(&shift);
            let r = Term::from_field(constant);
            proof {
                assert forall|a: spec_fn(Variable) -> int| #[trigger] r.value(a) % p() == (variable.value(a)
                    * shift.val()) % p() by {
                    assert(r.variables() =~= Seq::<Variable>::empty());
                    assert(r.value(a) == constant.val());
                    vstd::arithmetic::div_mod::lemma_mod_twice(c0.val() * shift.val(), p());
                }
            }
            r
        },
    }
}

/// `condition * a`: zero where the condition fails and `a` where it holds.
pub fn mask_into_constraint(a: &Num, condition: &Boolean) -> (r: Constraint)
    ensures
        r.wf(),
        r.spec_degree() <= 2,
        forall|x: spec_fn(Variable) -> int| #[trigger] r.value(x) == (condition.value(x) * a.value(x)) % p(),
        forall|x: spec_fn(Variable) -> int| condition.value(x) == 0 ==> #[trigger] r.value(x) == 0,
        forall|x: spec_fn(Variable) -> int| condition.value(x) == 1 ==> #[trigger] r.value(x) == a.value(x) % p(),
{
    let t = Term::from_num(*a);
    match *condition {
        Boolean::Constant(flag) => {
            if flag {
                let r = Constraint::from_term(t);
                proof {
                    crate::constraint::lemma_terms_max_degree_upper(r.terms@);
                    crate::constraint::lemma_terms_max_degree_bound(r.terms@, 1);
                }
                r
            } else {
                let r = Constraint::from_u32(0);
                proof {
                    let t0 = r.terms@[0];
                    crate::constraint::lemma_terms_single(t0);
                    assert(r.terms@ =~= seq![t0]);
                    assert forall|x: spec_fn(Variable) -> int| #[trigger] r.value(x) == 0 by {
                        assert(t0.variables() =~= Seq::<Variable>::empty());
                        assert(t0.value(x) == 0);
                    }
                }
                r
            }
        },
        Boolean::Is(bit) => {
            let r = t.mul(Term::from_variable(bit));
            proof {
                assert forall|x: spec_fn(Variable) -> int| #[trigger] r.value(x) == (condition.value(x)
                    * a.value(x)) % p() by {
                    assert(t.value(x) * x(bit) == x(bit) * t.value(x)) by (nonlinear_arith);
                }
            }
            r
        },
        Boolean::Not(bit) => {
            let nb = one_minus(bit);
            let r = nb.mul_term(t);
            proof {
                assert forall|x: spec_fn(Variable) -> int| #[trigger] r.value(x) == (condition.value(x)
                    * a.value(x)) % p() by {
                    assert(nb.value(x) == (1 - x(bit)) % p());
                    lemma_mul_mod(crate::constraint::terms_sum(nb.terms@, x), t.value(x));
                    lemma_mul_mod(1 - x(bit), t.value(x));
                }
            }
            r
        },
    }
}

/// `a * condition` for a linear `a`.
pub fn mask_linear_term_into_constraint(a: &Constraint, condition: &Boolean) -> (r: Constraint)
    requires
        a.wf(),
        a.spec_degree() <= 1,
        a.spec_degree() == 0 ==> a.terms@.len() == 1,
    ensures
        r.wf(),
        r.spec_degree() <= 2,
        forall|x: spec_fn(Variable) -> int| #[trigger] r.value(x) == (a.value(x) * condition.value(x)) % p(),
{
    if a.degree() == 0 {
        let constant_value = a.as_constant();
        let mut result = Constraint::from_boolean(*condition);
        let ghost before = result;
        result.scale(constant_value);
        proof {
            assert forall|x: spec_fn(Variable) -> int| #[trigger] result.value(x) == (a.value(x)
                * condition.value(x)) % p() by {
                let c = constant_value.val();
                let t0 = a.terms@[0];
                crate::constraint::lemma_terms_single(t0);
                assert(a.terms@ =~= seq![t0]);
                crate::constraint::lemma_terms_max_degree_upper(a.terms@);
                assert(a.terms@[0] is Constant);
                assert(a.terms@[0].variables() =~= Seq::<Variable>::empty());
                assert(a.terms@[0].value(x) == c);
                assert(a.value(x) == c % p());
                lemma_mul_mod(condition.value(x), c);
                lemma_mul_mod(c, condition.value(x));
                vstd::arithmetic::div_mod::lemma_small_mod(c as nat, p() as nat);
                assert(condition.value(x) * c == c * condition.value(x)) by (nonlinear_arith);
            }
        }
        result
    } else {
        let term = Constraint::from_boolean(*condition);
        let r = a.clone().mul(term);
        proof {
            assert forall|x: spec_fn(Variable) -> int| #[trigger] r.value(x) == (a.value(x)
                * condition.value(x)) % p() by {
                lemma_mul_mod(a.value(x), condition.value(x));
            }
        }
        r
    }
}

/// `accumulator + input * boolean`.
pub fn mask_linear_term_by_boolean_into_accumulator_constraint(
    boolean: &Boolean,
    input: &Constraint,
    accumulator: Constraint,
) -> (r: Constraint)
    requires
        input.wf(),
        input.spec_degree() <= 1,
        accumulator.wf(),
        accumulator.spec_degree() <= 2,
    ensures
        r.wf(),
        r.spec_degree() <= 2,
        forall|x: spec_fn(Variable) -> int| #[trigger] r.value(x) == (accumulator.value(x)
            + input.value(x) * boolean.value(x)) % p(),
{
    let ghost acc = accumulator;
    let m = input.clone().mul(Constraint::from_boolean(*boolean));
    let r = accumulator.add(m);
    proof {
        assert forall|x: spec_fn(Variable) -> int| #[trigger] r.value(x) == (acc.value(x)
            + input.value(x) * boolean.value(x)) % p() by {
            let b = boolean.value(x);
            lemma_mul_mod(input.value(x), b);
            lemma_add_mod(acc.value(x), input.value(x) * b);
            lemma_add_mod(crate::constraint::terms_sum(acc.terms@, x), 0);
        }
    }
    r
}


/// Both variables of each product, in order.
pub open spec fn pair_reads(s: Seq<(Variable, Variable)>) -> Seq<Variable>
    decreases s.len(),
{
    if s.len() == 0 {
        Seq::empty()
    } else {
        pair_reads(s.drop_last()) + seq![s.last().0, s.last().1]
    }
}

/// Both variables of each scaled product, in order.
pub open spec fn triple_reads(s: Seq<(Mersenne31Field, Variable, Variable)>) -> Seq<Variable>
    decreases s.len(),
{
    if s.len() == 0 {
        Seq::empty()
    } else {
        triple_reads(s.drop_last()) + seq![s.last().1, s.last().2]
    }
}

/// The variables, in order.
pub open spec fn var_reads(s: Seq<Variable>) -> Seq<Variable>
    decreases s.len(),
{
    if s.len() == 0 {
        Seq::empty()
    } else {
        var_reads(s.drop_last()).push(s.last())
    }
}

/// The variable of each scaled variable, in order.
pub open spec fn scaled_reads(s: Seq<(Mersenne31Field, Variable)>) -> Seq<Variable>
    decreases s.len(),
{
    if s.len() == 0 {
        Seq::empty()
    } else {
        scaled_reads(s.drop_last()).push(s.last().1)
    }
}

/// A value in `[0, p)` is the value of its element.
proof fn lemma_field_of_val(n: int)
    requires
        0 <= n < p(),
    ensures
        crate::scalar_types::field_of(n).val() == n,
{
    vstd::arithmetic::div_mod::lemma_small_mod(n as nat, p() as nat);
}

/// `(-(x % p)) % p == (-x) % p`.
proof fn lemma_neg_mod(x: int)
    ensures
        (-(x % p())) % p() == (-x) % p(),
{
    vstd::arithmetic::div_mod::lemma_sub_mod_noop(0, x, p());
    vstd::arithmetic::div_mod::lemma_small_mod(0, p() as nat);
}

/// In the prime field, adding the products of pairs adds their sum.
pub proof fn lemma_products_in_prime_field<W: WitnessTypeSet<Mersenne31Field, Field = Mersenne31Field>>(
    acc: Mersenne31Field,
    s: Seq<(Variable, Variable)>,
    x: spec_fn(Variable) -> Mersenne31Field,
)
    ensures
        products_in::<W>(acc, s, x).val() == (acc.val() + pairs_sum(s, |v: Variable| x(v).val())) % p(),
    decreases s.len(),
{
    let a = |v: Variable| x(v).val();
    if s.len() == 0 {
        vstd::arithmetic::div_mod::lemma_mod_twice(acc.0 as int, p());
    } else {
        lemma_products_in_prime_field::<W>(acc, s.drop_last(), x);
        let e = s.last();
        let prev = products_in::<W>(acc, s.drop_last(), x);
        let t = x(e.0).val() * x(e.1).val();
        let n = (prev.val() + t) % p();
        lemma_field_of_val(n);
        vstd::arithmetic::div_mod::lemma_mod_twice(acc.val() + pairs_sum(s.drop_last(), a), p());
        crate::field::lemma_mod_add_both(prev.val(), acc.val() + pairs_sum(s.drop_last(), a), t, t);
    }
}

/// In the prime field, subtracting the products of pairs subtracts their
/// sum.
pub proof fn lemma_minus_products_in_prime_field<W: WitnessTypeSet<Mersenne31Field, Field = Mersenne31Field>>(
    acc: Mersenne31Field,
    s: Seq<(Variable, Variable)>,
    x: spec_fn(Variable) -> Mersenne31Field,
)
    ensures
        minus_products_in::<W>(acc, s, x).val() == (acc.val() - pairs_sum(s, |v: Variable| x(v).val())) % p(),
    decreases s.len(),
{
    let a = |v: Variable| x(v).val();
    if s.len() == 0 {
        vstd::arithmetic::div_mod::lemma_mod_twice(acc.0 as int, p());
    } else {
        lemma_minus_products_in_prime_field::<W>(acc, s.drop_last(), x);
        let e = s.last();
        let prev = minus_products_in::<W>(acc, s.drop_last(), x);
        let t = x(e.0).val() * x(e.1).val();
        let m = t % p();
        lemma_field_of_val(m);
        let n = (prev.val() - m) % p();
        lemma_field_of_val(n);
        lemma_neg_mod(t);
        vstd::arithmetic::div_mod::lemma_mod_twice(acc.val() - pairs_sum(s.drop_last(), a), p());
        crate::field::lemma_mod_add_both(prev.val(), acc.val() - pairs_sum(s.drop_last(), a), -m, -t);
    }
}

/// In the prime field, adding coefficients times products adds their sum.
pub proof fn lemma_scaled_products_in_prime_field<W: WitnessTypeSet<Mersenne31Field, Field = Mersenne31Field>>(
    acc: Mersenne31Field,
    s: Seq<(Mersenne31Field, Variable, Variable)>,
    x: spec_fn(Variable) -> Mersenne31Field,
)
    ensures
        scaled_products_in::<W>(acc, s, x).val() == (acc.val() + quadratic_sum(s, |v: Variable| x(v).val())) % p(),
    decreases s.len(),
{
    let a = |v: Variable| x(v).val();
    if s.len() == 0 {
        vstd::arithmetic::div_mod::lemma_mod_twice(acc.0 as int, p());
    } else {
        lemma_scaled_products_in_prime_field::<W>(acc, s.drop_last(), x);
        let e = s.last();
        let prev = scaled_products_in::<W>(acc, s.drop_last(), x);
        let x1 = x(e.1).val();
        let x2 = x(e.2).val();
        let c = e.0.val();
        let m = (x1 * c) % p();
        lemma_field_of_val(m);
        let y = m * x2;
        let n = (prev.val() + y) % p();
        lemma_field_of_val(n);
        let t = c * x1 * x2;
        crate::field::lemma_mul_mod_left(x1 * c, x2);
        assert(x1 * c * x2 == t) by (nonlinear_arith)
            requires
                t == c * x1 * x2,
        ;
        vstd::arithmetic::div_mod::lemma_mod_twice(acc.val() + quadratic_sum(s.drop_last(), a), p());
        crate::field::lemma_mod_add_both(prev.val(), acc.val() + quadratic_sum(s.drop_last(), a), y, t);
    }
}

/// In the prime field, adding variables adds their sum.
pub proof fn lemma_sum_in_prime_field<W: WitnessTypeSet<Mersenne31Field, Field = Mersenne31Field>>(
    acc: Mersenne31Field,
    s: Seq<Variable>,
    x: spec_fn(Variable) -> Mersenne31Field,
)
    ensures
        sum_in::<W>(acc, s, x).val() == (acc.val() + vars_sum(s, |v: Variable| x(v).val())) % p(),
    decreases s.len(),
{
    let a = |v: Variable| x(v).val();
    if s.len() == 0 {
        vstd::arithmetic::div_mod::lemma_mod_twice(acc.0 as int, p());
    } else {
        lemma_sum_in_prime_field::<W>(acc, s.drop_last(), x);
        let prev = sum_in::<W>(acc, s.drop_last(), x);
        let t = x(s.last()).val();
        lemma_field_of_val((prev.val() + t) % p());
        vstd::arithmetic::div_mod::lemma_mod_twice(acc.val() + vars_sum(s.drop_last(), a), p());
        crate::field::lemma_mod_add_both(prev.val(), acc.val() + vars_sum(s.drop_last(), a), t, t);
    }
}

/// In the prime field, subtracting variables subtracts their sum.
pub proof fn lemma_diff_in_prime_field<W: WitnessTypeSet<Mersenne31Field, Field = Mersenne31Field>>(
    acc: Mersenne31Field,
    s: Seq<Variable>,
    x: spec_fn(Variable) -> Mersenne31Field,
)
    ensures
        diff_in::<W>(acc, s, x).val() == (acc.val() - vars_sum(s, |v: Variable| x(v).val())) % p(),
    decreases s.len(),
{
    let a = |v: Variable| x(v).val();
    if s.len() == 0 {
        vstd::arithmetic::div_mod::lemma_mod_twice(acc.0 as int, p());
    } else {
        lemma_diff_in_prime_field::<W>(acc, s.drop_last(), x);
        let prev = diff_in::<W>(acc, s.drop_last(), x);
        let t = x(s.last()).val();
        lemma_field_of_val((prev.val() - t) % p());
        vstd::arithmetic::div_mod::lemma_mod_twice(acc.val() - vars_sum(s.drop_last(), a), p());
        crate::field::lemma_mod_add_both(prev.val(), acc.val() - vars_sum(s.drop_last(), a), -t, -t);
    }
}

/// In the prime field, adding coefficients times variables adds their sum.
pub proof fn lemma_scaled_sum_in_prime_field<W: WitnessTypeSet<Mersenne31Field, Field = Mersenne31Field>>(
    acc: Mersenne31Field,
    s: Seq<(Mersenne31Field, Variable)>,
    x: spec_fn(Variable) -> Mersenne31Field,
)
    ensures
        scaled_sum_in::<W>(acc, s, x).val() == (acc.val() + linear_sum(s, |v: Variable| x(v).val())) % p(),
    decreases s.len(),
{
    let a = |v: Variable| x(v).val();
    if s.len() == 0 {
        vstd::arithmetic::div_mod::lemma_mod_twice(acc.0 as int, p());
    } else {
        lemma_scaled_sum_in_prime_field::<W>(acc, s.drop_last(), x);
        let prev = scaled_sum_in::<W>(acc, s.drop_last(), x);
        let t = s.last().0.val() * x(s.last().1).val();
        lemma_field_of_val((prev.val() + t) % p());
        vstd::arithmetic::div_mod::lemma_mod_twice(acc.val() + linear_sum(s.drop_last(), a), p());
        crate::field::lemma_mod_add_both(prev.val(), acc.val() + linear_sum(s.drop_last(), a), t, t);
    }
}

/// In a type set whose field elements are those of the prime field, the
/// split polynomial computed there has its value.
pub proof fn lemma_value_in_prime_field<W: WitnessTypeSet<Mersenne31Field, Field = Mersenne31Field>>(
    pre: PreprocessedConstraintForEval,
    x: spec_fn(Variable) -> Mersenne31Field,
)
    ensures
        pre.value_in::<W>(x).val() == pre.value(|v: Variable| x(v).val()),
{
    let a = |v: Variable| x(v).val();
    let k = pre.constant_term;
    let v0 = k;
    let v1 = products_in::<W>(v0, pre.quadratic_trivial_additions@, x);
    let v2 = minus_products_in::<W>(v1, pre.quadratic_trivial_subtractions@, x);
    let v3 = scaled_products_in::<W>(v2, pre.quadratic_nontrivial@, x);
    let v4 = sum_in::<W>(v3, pre.linear_trivial_additions@, x);
    let v5 = diff_in::<W>(v4, pre.linear_trivial_subtractions@, x);
    lemma_products_in_prime_field::<W>(v0, pre.quadratic_trivial_additions@, x);
    lemma_minus_products_in_prime_field::<W>(v1, pre.quadratic_trivial_subtractions@, x);
    lemma_scaled_products_in_prime_field::<W>(v2, pre.quadratic_nontrivial@, x);
    lemma_sum_in_prime_field::<W>(v3, pre.linear_trivial_additions@, x);
    lemma_diff_in_prime_field::<W>(v4, pre.linear_trivial_subtractions@, x);
    lemma_scaled_sum_in_prime_field::<W>(v5, pre.linear_nontrivial@, x);
    let s1 = pairs_sum(pre.quadratic_trivial_additions@, a);
    let s2 = pairs_sum(pre.quadratic_trivial_subtractions@, a);
    let s3 = quadratic_sum(pre.quadratic_nontrivial@, a);
    let s4 = vars_sum(pre.linear_trivial_additions@, a);
    let s5 = vars_sum(pre.linear_trivial_subtractions@, a);
    let s6 = linear_sum(pre.linear_nontrivial@, a);
    let kv = k.val();
    vstd::arithmetic::div_mod::lemma_mod_twice(kv + s1, p());
    crate::field::lemma_mod_add_both(v1.val(), kv + s1, -s2, -s2);
    vstd::arithmetic::div_mod::lemma_mod_twice(kv + s1 - s2, p());
    crate::field::lemma_mod_add_both(v2.val(), kv + s1 - s2, s3, s3);
    vstd::arithmetic::div_mod::lemma_mod_twice(kv + s1 - s2 + s3, p());
    crate::field::lemma_mod_add_both(v3.val(), kv + s1 - s2 + s3, s4, s4);
    vstd::arithmetic::div_mod::lemma_mod_twice(kv + s1 - s2 + s3 + s4, p());
    crate::field::lemma_mod_add_both(v4.val(), kv + s1 - s2 + s3 + s4, -s5, -s5);
    vstd::arithmetic::div_mod::lemma_mod_twice(kv + s1 - s2 + s3 + s4 - s5, p());
    crate::field::lemma_mod_add_both(v5.val(), kv + s1 - s2 + s3 + s4 - s5, s6, s6);
}

/// In a type set whose field elements are those of the prime field,
/// evaluating a polynomial with a placer gives its value under the values
/// the placer holds.
pub proof fn lemma_evaluate_with_placer_prime_field<W: WitnessTypeSet<Mersenne31Field, Field = Mersenne31Field>>(
    c: Constraint,
    x: spec_fn(Variable) -> Mersenne31Field,
    r: Mersenne31Field,
)
    requires
        exists|pre: PreprocessedConstraintForEval| #[trigger] pre.splits(c) && r == pre.value_in::<W>(x),
    ensures
        r.val() == c.value(|v: Variable| x(v).val()),
{
    let pre = choose|pre: PreprocessedConstraintForEval| #[trigger] pre.splits(c) && r == pre.value_in::<W>(x);
    lemma_value_in_prime_field::<W>(pre, x);
    assert(pre.value(|v: Variable| x(v).val()) == c.value(|v: Variable| x(v).val()));
}

/// The sum of the products of pairs of variables (not reduced).
pub open spec fn pairs_sum(s: Seq<(Variable, Variable)>, a: spec_fn(Variable) -> int) -> int
    decreases s.len(),
{
    if s.len() == 0 {
        0
    } else {
        pairs_sum(s.drop_last(), a) + a(s.last().0) * a(s.last().1)
    }
}

/// The sum of variables (not reduced).
pub open spec fn vars_sum(s: Seq<Variable>, a: spec_fn(Variable) -> int) -> int
    decreases s.len(),
{
    if s.len() == 0 {
        0
    } else {
        vars_sum(s.drop_last(), a) + a(s.last())
    }
}

/// Whether a coefficient is other than zero, one and minus one.
pub open spec fn nontrivial_coefficient(c: Mersenne31Field) -> bool {
    c.val() != 0 && c.val() != 1 && c.val() != p() - 1
}

/// A polynomial of degree at most two split for evaluation: products and
/// variables with coefficient one, with coefficient minus one, and with
/// other coefficients, and the constant.
#[derive(Clone, Debug)]
pub struct PreprocessedConstraintForEval {
    pub quadratic_trivial_additions: Vec<(Variable, Variable)>,
    pub quadratic_trivial_subtractions: Vec<(Variable, Variable)>,
    pub quadratic_nontrivial: Vec<(Mersenne31Field, Variable, Variable)>,
    pub linear_trivial_additions: Vec<Variable>,
    pub linear_trivial_subtractions: Vec<Variable>,
    pub linear_nontrivial: Vec<(Mersenne31Field, Variable)>,
    pub constant_term: Mersenne31Field,
}

impl PreprocessedConstraintForEval {
    /// The value of the quadratic parts (not reduced).
    pub open spec fn quadratic_value(self, a: spec_fn(Variable) -> int) -> int {
        pairs_sum(self.quadratic_trivial_additions@, a) - pairs_sum(self.quadratic_trivial_subtractions@, a)
            + quadratic_sum(self.quadratic_nontrivial@, a)
    }

    /// The value of the linear parts (not reduced).
    pub open spec fn linear_value(self, a: spec_fn(Variable) -> int) -> int {
        vars_sum(self.linear_trivial_additions@, a) - vars_sum(self.linear_trivial_subtractions@, a)
            + linear_sum(self.linear_nontrivial@, a)
    }

    /// The value of the polynomial under an assignment, in `[0, p)`.
    pub open spec fn value(self, a: spec_fn(Variable) -> int) -> int {
        (self.quadratic_value(a) + self.linear_value(a) + self.constant_term.val()) % p()
    }

    /// The coefficients kept apart are neither zero, one nor minus one.
    pub open spec fn coefficients_nontrivial(self) -> bool {
        &&& forall|i: int| 0 <= i < self.quadratic_nontrivial@.len() ==> nontrivial_coefficient(
            (#[trigger] self.quadratic_nontrivial@[i]).0,
        )
        &&& forall|i: int| 0 <= i < self.linear_nontrivial@.len() ==> nontrivial_coefficient(
            (#[trigger] self.linear_nontrivial@[i]).0,
        )
    }

    /// Every variable the split reads satisfies `ok`.
    pub open spec fn reads_only(self, ok: spec_fn(Variable) -> bool) -> bool {
        &&& forall|i: int| 0 <= i < self.quadratic_trivial_additions@.len() ==> ok(
            (#[trigger] self.quadratic_trivial_additions@[i]).0,
        ) && ok(self.quadratic_trivial_additions@[i].1)
        &&& forall|i: int| 0 <= i < self.quadratic_trivial_subtractions@.len() ==> ok(
            (#[trigger] self.quadratic_trivial_subtractions@[i]).0,
        ) && ok(self.quadratic_trivial_subtractions@[i].1)
        &&& forall|i: int| 0 <= i < self.quadratic_nontrivial@.len() ==> ok(
            (#[trigger] self.quadratic_nontrivial@[i]).1,
        ) && ok(self.quadratic_nontrivial@[i].2)
        &&& forall|i: int| 0 <= i < self.linear_trivial_additions@.len() ==> ok(
            #[trigger] self.linear_trivial_additions@[i],
        )
        &&& forall|i: int| 0 <= i < self.linear_trivial_subtractions@.len() ==> ok(
            #[trigger] self.linear_trivial_subtractions@[i],
        )
        &&& forall|i: int| 0 <= i < self.linear_nontrivial@.len() ==> ok(
            (#[trigger] self.linear_nontrivial@[i]).1,
        )
    }

    /// Splits a polynomial of degree at most two by the kind of its
    /// coefficients.
    pub fn from_constraint(constraint: Constraint) -> (r: Self)
        requires
            constraint.wf(),
            constraint.spec_degree() <= 2 || high_degree_cancels(constraint.terms@),
        ensures
            forall|a: spec_fn(Variable) -> int| #[trigger] r.value(a) == constraint.value(a),
            r.coefficients_nontrivial(),
            r.reads_only(|w: Variable| some_term_holds(constraint.terms@, w)),
    {
        let cl = constraint.clone();
        let ghost cl0 = cl;
        let (quadratic_terms, linear_terms, constant_term) = cl.split_max_quadratic();
        let one = Mersenne31Field::one();
        let minus_one = Mersenne31Field::minus_one();
        let mut quadratic_trivial_additions: Vec<(Variable, Variable)> = Vec::new();
        let mut quadratic_trivial_subtractions: Vec<(Variable, Variable)> = Vec::new();
        let mut quadratic_nontrivial: Vec<(Mersenne31Field, Variable, Variable)> = Vec::new();
        let mut i: usize = 0;
        while i < quadratic_terms.len()
            invariant
                i <= quadratic_terms@.len(),
                one.val() == 1,
                minus_one.val() == p() - 1,
                forall|j: int| 0 <= j < quadratic_terms@.len() ==> (#[trigger] quadratic_terms@[j]).0.val() != 0,
                forall|j: int| 0 <= j < quadratic_nontrivial@.len() ==> nontrivial_coefficient(
                    (#[trigger] quadratic_nontrivial@[j]).0,
                ),
                forall|a: spec_fn(Variable) -> int| (#[trigger] pairs_sum(quadratic_trivial_additions@, a)
                    - pairs_sum(quadratic_trivial_subtractions@, a) + quadratic_sum(quadratic_nontrivial@, a))
                    % p() == quadratic_sum(quadratic_terms@.take(i as int), a) % p(),
                forall|j: int| 0 <= j < quadratic_terms@.len() ==> some_term_holds(cl0.terms@, (#[trigger] quadratic_terms@[j]).1)
                    && some_term_holds(cl0.terms@, quadratic_terms@[j].2),
                forall|j: int| 0 <= j < quadratic_trivial_additions@.len() ==> some_term_holds(cl0.terms@, (#[trigger] quadratic_trivial_additions@[j]).0)
                    && some_term_holds(cl0.terms@, quadratic_trivial_additions@[j].1),
                forall|j: int| 0 <= j < quadratic_trivial_subtractions@.len() ==> some_term_holds(cl0.terms@, (#[trigger] quadratic_trivial_subtractions@[j]).0)
                    && some_term_holds(cl0.terms@, quadratic_trivial_subtractions@[j].1),
                forall|j: int| 0 <= j < quadratic_nontrivial@.len() ==> some_term_holds(cl0.terms@, (#[trigger] quadratic_nontrivial@[j]).1)
                    && some_term_holds(cl0.terms@, quadratic_nontrivial@[j].2),
            decreases quadratic_terms@.len() - i,
        {
            let (c, x, y) = quadratic_terms[i];
            let ghost qa = quadratic_trivial_additions@;
            let ghost qs = quadratic_trivial_subtractions@;
            let ghost qn = quadratic_nontrivial@;
            if c.equals(&one) {
                quadratic_trivial_additions.push((x, y));
            } else if c.equals(&minus_one) {
                quadratic_trivial_subtractions.push((x, y));
            } else {
                quadratic_nontrivial.push((c, x, y));
            }
            proof {
                assert(quadratic_terms@[i as int] == (c, x, y));
                assert(quadratic_trivial_additions@.len() > qa.len() ==> quadratic_trivial_additions@.last() == (x, y));
                assert(quadratic_terms@.take(i + 1).drop_last() =~= quadratic_terms@.take(i as int));
                assert(quadratic_terms@.take(i + 1).last() == quadratic_terms@[i as int]);
                assert forall|a: spec_fn(Variable) -> int| (#[trigger] pairs_sum(quadratic_trivial_additions@, a)
                    - pairs_sum(quadratic_trivial_subtractions@, a) + quadratic_sum(quadratic_nontrivial@, a))
                    % p() == quadratic_sum(quadratic_terms@.take(i + 1), a) % p() by {
                    let l = pairs_sum(qa, a) - pairs_sum(qs, a) + quadratic_sum(qn, a);
                    let rr = quadratic_sum(quadratic_terms@.take(i as int), a);
                    let t = a(x) * a(y);
                    assert(l % p() == rr % p());
                    if c.val() == 1 {
                        assert(quadratic_trivial_additions@.drop_last() =~= qa);
                        assert(c.val() * a(x) * a(y) == t) by (nonlinear_arith)
                            requires c.val() == 1, t == a(x) * a(y);
                        crate::field::lemma_mod_add_both(l, rr, t, t);
                    } else if c.val() == p() - 1 {
                        assert(quadratic_trivial_subtractions@.drop_last() =~= qs);
                        assert(c.val() * a(x) * a(y) == t * (p() - 1)) by (nonlinear_arith)
                            requires c.val() == p() - 1, t == a(x) * a(y);
                        crate::constraint::lemma_mul_minus_one(t);
                        crate::field::lemma_mod_add_both(l, rr, -t, t * (p() - 1));
                    } else {
                        assert(quadratic_nontrivial@.drop_last() =~= qn);
                        crate::field::lemma_mod_add_both(l, rr, c.val() * a(x) * a(y), c.val() * a(x) * a(y));
                    }
                }
            }
            i = i + 1;
        }
        let mut linear_trivial_additions: Vec<Variable> = Vec::new();
        let mut linear_trivial_subtractions: Vec<Variable> = Vec::new();
        let mut linear_nontrivial: Vec<(Mersenne31Field, Variable)> = Vec::new();
        let mut i: usize = 0;
        while i < linear_terms.len()
            invariant
                i <= linear_terms@.len(),
                one.val() == 1,
                minus_one.val() == p() - 1,
                forall|j: int| 0 <= j < linear_terms@.len() ==> (#[trigger] linear_terms@[j]).0.val() != 0,
                forall|j: int| 0 <= j < linear_nontrivial@.len() ==> nontrivial_coefficient(
                    (#[trigger] linear_nontrivial@[j]).0,
                ),
                forall|a: spec_fn(Variable) -> int| (#[trigger] vars_sum(linear_trivial_additions@, a)
                    - vars_sum(linear_trivial_subtractions@, a) + linear_sum(linear_nontrivial@, a))
                    % p() == linear_sum(linear_terms@.take(i as int), a) % p(),
                forall|j: int| 0 <= j < linear_terms@.len() ==> some_term_holds(cl0.terms@, (#[trigger] linear_terms@[j]).1),
                forall|j: int| 0 <= j < linear_trivial_additions@.len() ==> some_term_holds(cl0.terms@, #[trigger] linear_trivial_additions@[j]),
                forall|j: int| 0 <= j < linear_trivial_subtractions@.len() ==> some_term_holds(cl0.terms@, #[trigger] linear_trivial_subtractions@[j]),
                forall|j: int| 0 <= j < linear_nontrivial@.len() ==> some_term_holds(cl0.terms@, (#[trigger] linear_nontrivial@[j]).1),
            decreases linear_terms@.len() - i,
        {
            let (c, x) = linear_terms[i];
            let ghost la = linear_trivial_additions@;
            let ghost ls = linear_trivial_subtractions@;
            let ghost ln = linear_nontrivial@;
            if c.equals(&one) {
                linear_trivial_additions.push(x);
            } else if c.equals(&minus_one) {
                linear_trivial_subtractions.push(x);
            } else {
                linear_nontrivial.push((c, x));
            }
            proof {
                assert(linear_terms@[i as int] == (c, x));
                assert(linear_terms@.take(i + 1).drop_last() =~= linear_terms@.take(i as int));
                assert(linear_terms@.take(i + 1).last() == linear_terms@[i as int]);
                assert forall|a: spec_fn(Variable) -> int| (#[trigger] vars_sum(linear_trivial_additions@, a)
                    - vars_sum(linear_trivial_subtractions@, a) + linear_sum(linear_nontrivial@, a))
                    % p() == linear_sum(linear_terms@.take(i + 1), a) % p() by {
                    let l = vars_sum(la, a) - vars_sum(ls, a) + linear_sum(ln, a);
                    let rr = linear_sum(linear_terms@.take(i as int), a);
                    let t = a(x);
                    assert(l % p() == rr % p());
                    if c.val() == 1 {
                        assert(linear_trivial_additions@.drop_last() =~= la);
                        crate::field::lemma_mod_add_both(l, rr, t, t);
                    } else if c.val() == p() - 1 {
                        assert(linear_trivial_subtractions@.drop_last() =~= ls);
                        assert(c.val() * a(x) == t * (p() - 1)) by (nonlinear_arith)
                            requires c.val() == p() - 1, t == a(x);
                        crate::constraint::lemma_mul_minus_one(t);
                        crate::field::lemma_mod_add_both(l, rr, -t, t * (p() - 1));
                    } else {
                        assert(linear_nontrivial@.drop_last() =~= ln);
                        crate::field::lemma_mod_add_both(l, rr, c.val() * a(x), c.val() * a(x));
                    }
                }
            }
            i = i + 1;
        }
        let r = PreprocessedConstraintForEval {
            quadratic_trivial_additions,
            quadratic_trivial_subtractions,
            quadratic_nontrivial,
            linear_trivial_additions,
            linear_trivial_subtractions,
            linear_nontrivial,
            constant_term,
        };
        proof {
            assert(cl0.terms@ == constraint.terms@);
            assert(quadratic_terms@.take(quadratic_terms@.len() as int) =~= quadratic_terms@);
            assert(linear_terms@.take(linear_terms@.len() as int) =~= linear_terms@);
            assert forall|a: spec_fn(Variable) -> int| #[trigger] r.value(a) == constraint.value(a) by {
                let q = r.quadratic_value(a);
                let l = r.linear_value(a);
                let qs = quadratic_sum(quadratic_terms@, a);
                let ls = linear_sum(linear_terms@, a);
                assert(cl0.value(a) == constraint.value(a));
                assert(q % p() == qs % p());
                assert(l % p() == ls % p());
                crate::field::lemma_mod_add_both(q, qs, l, ls);
                crate::field::lemma_mod_add_both(q + l, qs + ls, constant_term.val(), constant_term.val());
            }
        }
        r
    }

    /// The split has the value of the polynomial under every assignment.
    pub open spec fn splits(self, c: Constraint) -> bool {
        forall|a: spec_fn(Variable) -> int| #[trigger] self.value(a) == c.value(a)
    }

    /// The value of the split polynomial computed in the field of a type
    /// set, where `x` gives the field value of each variable: from the
    /// constant, the products with coefficient one, minus one and others,
    /// then the variables with coefficient one, minus one and others, each
    /// part in order.
    pub open spec fn value_in<W: WitnessTypeSet<Mersenne31Field>>(self, x: spec_fn(Variable) -> W::Field) -> W::Field {
        let v0 = W::Field::spec_constant(self.constant_term);
        let v1 = products_in::<W>(v0, self.quadratic_trivial_additions@, x);
        let v2 = minus_products_in::<W>(v1, self.quadratic_trivial_subtractions@, x);
        let v3 = scaled_products_in::<W>(v2, self.quadratic_nontrivial@, x);
        let v4 = sum_in::<W>(v3, self.linear_trivial_additions@, x);
        let v5 = diff_in::<W>(v4, self.linear_trivial_subtractions@, x);
        scaled_sum_in::<W>(v5, self.linear_nontrivial@, x)
    }

    /// The variables the split polynomial reads, in the order of its
    /// parts: both variables of each product, then each variable.
    pub open spec fn read_variables(self) -> Seq<Variable> {
        pair_reads(self.quadratic_trivial_additions@) + pair_reads(self.quadratic_trivial_subtractions@)
            + triple_reads(self.quadratic_nontrivial@) + var_reads(self.linear_trivial_additions@)
            + var_reads(self.linear_trivial_subtractions@) + scaled_reads(self.linear_nontrivial@)
    }

    /// The value of the polynomial with the values the placer holds; each
    /// variable is read once per occurrence, in the order of
    /// `read_variables`.
    pub fn evaluate_with_placer<W: WitnessPlacer<Mersenne31Field>>(&self, placer: &mut W) -> (r: W::Field)
        requires
            self.reads_only(|w: Variable| W::accepts(w)),
        ensures
            r == self.value_in::<W>(|v: Variable| old(placer).placed_field(v)),
            final(placer).field_reads() == old(placer).field_reads() + self.read_variables(),
            forall|v: Variable| #[trigger] final(placer).placed_field(v) == old(placer).placed_field(v),
            forall|v: Variable| #[trigger] final(placer).placed_u16(v) == old(placer).placed_u16(v),
            forall|v: Variable| #[trigger] final(placer).placed_u8(v) == old(placer).placed_u8(v),
    {
        let ghost x = |v: Variable| placer.placed_field(v);
        let ghost start = placer.field_reads();
        let mut value: W::Field = W::Field::constant(self.constant_term);
        let ghost acc = value;
        let mut i: usize = 0;
        let ghost base = placer.field_reads();
        while i < self.quadratic_trivial_additions.len()
            invariant
                i <= self.quadratic_trivial_additions@.len(),
                self.reads_only(|w: Variable| W::accepts(w)),
                forall|v: Variable| #[trigger] placer.placed_field(v) == x(v),
                forall|v: Variable| #[trigger] placer.placed_u16(v) == old(placer).placed_u16(v),
                forall|v: Variable| #[trigger] placer.placed_u8(v) == old(placer).placed_u8(v),
                x == (|v: Variable| old(placer).placed_field(v)),
                value == products_in::<W>(acc, self.quadratic_trivial_additions@.take(i as int), x),
                placer.field_reads() == base + pair_reads(self.quadratic_trivial_additions@.take(i as int)),
            decreases self.quadratic_trivial_additions@.len() - i,
        {
            let ghost before = placer.field_reads();
            let (a, b) = self.quadratic_trivial_additions[i];
            let a = placer.get_field(a);
            let b = placer.get_field(b);
            value.add_assign_product(&a, &b);
            proof {
                let t = self.quadratic_trivial_additions@.take(i + 1);
                assert(t.drop_last() =~= self.quadratic_trivial_additions@.take(i as int));
                assert(t.last() == self.quadratic_trivial_additions@[i as int]);
                assert(placer.field_reads() =~= base + pair_reads(t));
            }
            i = i + 1;
        }
        proof {
            assert(self.quadratic_trivial_additions@.take(i as int) =~= self.quadratic_trivial_additions@);
        }
        let ghost acc = value;
        let ghost r1 = placer.field_reads();
        let mut i: usize = 0;
        let ghost base = placer.field_reads();
        while i < self.quadratic_trivial_subtractions.len()
            invariant
                i <= self.quadratic_trivial_subtractions@.len(),
                self.reads_only(|w: Variable| W::accepts(w)),
                forall|v: Variable| #[trigger] placer.placed_field(v) == x(v),
                forall|v: Variable| #[trigger] placer.placed_u16(v) == old(placer).placed_u16(v),
                forall|v: Variable| #[trigger] placer.placed_u8(v) == old(placer).placed_u8(v),
                x == (|v: Variable| old(placer).placed_field(v)),
                value == minus_products_in::<W>(acc, self.quadratic_trivial_subtractions@.take(i as int), x),
                placer.field_reads() == base + pair_reads(self.quadratic_trivial_subtractions@.take(i as int)),
            decreases self.quadratic_trivial_subtractions@.len() - i,
        {
            let ghost before = placer.field_reads();
            let (a, b) = self.quadratic_trivial_subtractions[i];
            let mut a = placer.get_field(a);
            let b = placer.get_field(b);
            a.mul_assign(&b);
            value.sub_assign(&a);
            proof {
                let t = self.quadratic_trivial_subtractions@.take(i + 1);
                assert(t.drop_last() =~= self.quadratic_trivial_subtractions@.take(i as int));
                assert(t.last() == self.quadratic_trivial_subtractions@[i as int]);
                assert(placer.field_reads() =~= base + pair_reads(t));
            }
            i = i + 1;
        }
        proof {
            assert(self.quadratic_trivial_subtractions@.take(i as int) =~= self.quadratic_trivial_subtractions@);
        }
        let ghost acc = value;
        let mut i: usize = 0;
        let ghost base = placer.field_reads();
        while i < self.quadratic_nontrivial.len()
            invariant
                i <= self.quadratic_nontrivial@.len(),
                self.reads_only(|w: Variable| W::accepts(w)),
                forall|v: Variable| #[trigger] placer.placed_field(v) == x(v),
                forall|v: Variable| #[trigger] placer.placed_u16(v) == old(placer).placed_u16(v),
                forall|v: Variable| #[trigger] placer.placed_u8(v) == old(placer).placed_u8(v),
                x == (|v: Variable| old(placer).placed_field(v)),
                value == scaled_products_in::<W>(acc, self.quadratic_nontrivial@.take(i as int), x),
                placer.field_reads() == base + triple_reads(self.quadratic_nontrivial@.take(i as int)),
            decreases self.quadratic_nontrivial@.len() - i,
        {
            let ghost before = placer.field_reads();
            let (constant, a, b) = self.quadratic_nontrivial[i];
            let constant = W::Field::constant(constant);
            let mut a = placer.get_field(a);
            let b = placer.get_field(b);
            a.mul_assign(&constant);
            value.add_assign_product(&a, &b);
            proof {
                let t = self.quadratic_nontrivial@.take(i + 1);
                assert(t.drop_last() =~= self.quadratic_nontrivial@.take(i as int));
                assert(t.last() == self.quadratic_nontrivial@[i as int]);
                assert(placer.field_reads() =~= base + triple_reads(t));
            }
            i = i + 1;
        }
        proof {
            assert(self.quadratic_nontrivial@.take(i as int) =~= self.quadratic_nontrivial@);
        }
        let ghost acc = value;
        let mut i: usize = 0;
        let ghost base = placer.field_reads();
        while i < self.linear_trivial_additions.len()
            invariant
                i <= self.linear_trivial_additions@.len(),
                self.reads_only(|w: Variable| W::accepts(w)),
                forall|v: Variable| #[trigger] placer.placed_field(v) == x(v),
                forall|v: Variable| #[trigger] placer.placed_u16(v) == old(placer).placed_u16(v),
                forall|v: Variable| #[trigger] placer.placed_u8(v) == old(placer).placed_u8(v),
                x == (|v: Variable| old(placer).placed_field(v)),
                value == sum_in::<W>(acc, self.linear_trivial_additions@.take(i as int), x),
                placer.field_reads() == base + var_reads(self.linear_trivial_additions@.take(i as int)),
            decreases self.linear_trivial_additions@.len() - i,
        {
            let ghost before = placer.field_reads();
            let a = self.linear_trivial_additions[i];
            let a = placer.get_field(a);
            value.add_assign(&a);
            proof {
                let t = self.linear_trivial_additions@.take(i + 1);
                assert(t.drop_last() =~= self.linear_trivial_additions@.take(i as int));
                assert(t.last() == self.linear_trivial_additions@[i as int]);
                assert(placer.field_reads() =~= base + var_reads(t));
            }
            i = i + 1;
        }
        proof {
            assert(self.linear_trivial_additions@.take(i as int) =~= self.linear_trivial_additions@);
        }
        let ghost acc = value;
        let mut i: usize = 0;
        let ghost base = placer.field_reads();
        while i < self.linear_trivial_subtractions.len()
            invariant
                i <= self.linear_trivial_subtractions@.len(),
                self.reads_only(|w: Variable| W::accepts(w)),
                forall|v: Variable| #[trigger] placer.placed_field(v) == x(v),
                forall|v: Variable| #[trigger] placer.placed_u16(v) == old(placer).placed_u16(v),
                forall|v: Variable| #[trigger] placer.placed_u8(v) == old(placer).placed_u8(v),
                x == (|v: Variable| old(placer).placed_field(v)),
                value == diff_in::<W>(acc, self.linear_trivial_subtractions@.take(i as int), x),
                placer.field_reads() == base + var_reads(self.linear_trivial_subtractions@.take(i as int)),
            decreases self.linear_trivial_subtractions@.len() - i,
        {
            let ghost before = placer.field_reads();
            let a = self.linear_trivial_subtractions[i];
            let a = placer.get_field(a);
            value.sub_assign(&a);
            proof {
                let t = self.linear_trivial_subtractions@.take(i + 1);
                assert(t.drop_last() =~= self.linear_trivial_subtractions@.take(i as int));
                assert(t.last() == self.linear_trivial_subtractions@[i as int]);
                assert(placer.field_reads() =~= base + var_reads(t));
            }
            i = i + 1;
        }
        proof {
            assert(self.linear_trivial_subtractions@.take(i as int) =~= self.linear_trivial_subtractions@);
        }
        let ghost acc = value;
        let mut i: usize = 0;
        let ghost base = placer.field_reads();
        while i < self.linear_nontrivial.len()
            invariant
                i <= self.linear_nontrivial@.len(),
                self.reads_only(|w: Variable| W::accepts(w)),
                forall|v: Variable| #[trigger] placer.placed_field(v) == x(v),
                forall|v: Variable| #[trigger] placer.placed_u16(v) == old(placer).placed_u16(v),
                forall|v: Variable| #[trigger] placer.placed_u8(v) == old(placer).placed_u8(v),
                x == (|v: Variable| old(placer).placed_field(v)),
                value == scaled_sum_in::<W>(acc, self.linear_nontrivial@.take(i as int), x),
                placer.field_reads() == base + scaled_reads(self.linear_nontrivial@.take(i as int)),
            decreases self.linear_nontrivial@.len() - i,
        {
            let ghost before = placer.field_reads();
            let (constant, a) = self.linear_nontrivial[i];
            let constant = W::Field::constant(constant);
            let a = placer.get_field(a);
            value.add_assign_product(&constant, &a);
            proof {
                let t = self.linear_nontrivial@.take(i + 1);
                assert(t.drop_last() =~= self.linear_nontrivial@.take(i as int));
                assert(t.last() == self.linear_nontrivial@[i as int]);
                assert(placer.field_reads() =~= base + scaled_reads(t));
            }
            i = i + 1;
        }
        proof {
            assert(self.linear_nontrivial@.take(i as int) =~= self.linear_nontrivial@);
        }
        let ghost acc = value;
        proof {
            assert(placer.field_reads() =~= start + self.read_variables());
        }
        value
    }
}

impl Constraint {
    /// The value of the polynomial with the values the placer holds,
    /// computed on its split form: the result is the value in the placer's
    /// field of a split polynomial with the same value as this one, and the
    /// placer reads exactly the variables of that split, in order.
    pub fn evaluate_with_placer<W: WitnessPlacer<Mersenne31Field>>(&self, placer: &mut W) -> (r: W::Field)
        requires
            self.wf(),
            self.spec_degree() <= 2 || high_degree_cancels(self.terms@),
            forall|w: Variable| #[trigger] some_term_holds(self.terms@, w) ==> W::accepts(w),
        ensures
            exists|pre: PreprocessedConstraintForEval|
                #[trigger] pre.splits(*self) && r == pre.value_in::<W>(|v: Variable| old(placer).placed_field(v))
                    && final(placer).field_reads() == old(placer).field_reads() + pre.read_variables()
                    && pre.reads_only(|w: Variable| some_term_holds(self.terms@, w)),
            forall|v: Variable| #[trigger] final(placer).placed_field(v) == old(placer).placed_field(v),
            forall|v: Variable| #[trigger] final(placer).placed_u16(v) == old(placer).placed_u16(v),
            forall|v: Variable| #[trigger] final(placer).placed_u8(v) == old(placer).placed_u8(v),
    {
        let c = self.clone();
        let preprocessed_constraint = PreprocessedConstraintForEval::from_constraint(c);
        proof {
            assert(preprocessed_constraint.reads_only(|w: Variable| W::accepts(w)));
        }
        let r = preprocessed_constraint.evaluate_with_placer(placer);
        proof {
            assert(preprocessed_constraint.splits(*self));
        }
        r
    }
}

/// Adds the product of each pair of variables, in order.
pub open spec fn products_in<W: WitnessTypeSet<Mersenne31Field>>(
    acc: W::Field,
    s: Seq<(Variable, Variable)>,
    x: spec_fn(Variable) -> W::Field,
) -> W::Field
    decreases s.len(),
{
    if s.len() == 0 {
        acc
    } else {
        let prev = products_in::<W>(acc, s.drop_last(), x);
        let e = s.last();
        W::Field::spec_add_product(prev, x(e.0), x(e.1))
    }
}

/// Subtracts the product of each pair of variables, in order.
pub open spec fn minus_products_in<W: WitnessTypeSet<Mersenne31Field>>(
    acc: W::Field,
    s: Seq<(Variable, Variable)>,
    x: spec_fn(Variable) -> W::Field,
) -> W::Field
    decreases s.len(),
{
    if s.len() == 0 {
        acc
    } else {
        let prev = minus_products_in::<W>(acc, s.drop_last(), x);
        let e = s.last();
        W::Field::spec_minus(prev, W::Field::spec_times(x(e.0), x(e.1)))
    }
}

/// Adds each coefficient times a product of two variables, in order.
pub open spec fn scaled_products_in<W: WitnessTypeSet<Mersenne31Field>>(
    acc: W::Field,
    s: Seq<(Mersenne31Field, Variable, Variable)>,
    x: spec_fn(Variable) -> W::Field,
) -> W::Field
    decreases s.len(),
{
    if s.len() == 0 {
        acc
    } else {
        let prev = scaled_products_in::<W>(acc, s.drop_last(), x);
        let e = s.last();
        W::Field::spec_add_product(prev, W::Field::spec_times(x(e.1), W::Field::spec_constant(e.0)), x(e.2))
    }
}

/// Adds each variable, in order.
pub open spec fn sum_in<W: WitnessTypeSet<Mersenne31Field>>(
    acc: W::Field,
    s: Seq<Variable>,
    x: spec_fn(Variable) -> W::Field,
) -> W::Field
    decreases s.len(),
{
    if s.len() == 0 {
        acc
    } else {
        let prev = sum_in::<W>(acc, s.drop_last(), x);
        let e = s.last();
        W::Field::spec_plus(prev, x(e))
    }
}

/// Subtracts each variable, in order.
pub open spec fn diff_in<W: WitnessTypeSet<Mersenne31Field>>(
    acc: W::Field,
    s: Seq<Variable>,
    x: spec_fn(Variable) -> W::Field,
) -> W::Field
    decreases s.len(),
{
    if s.len() == 0 {
        acc
    } else {
        let prev = diff_in::<W>(acc, s.drop_last(), x);
        let e = s.last();
        W::Field::spec_minus(prev, x(e))
    }
}

/// Adds each coefficient times a variable, in order.
pub open spec fn scaled_sum_in<W: WitnessTypeSet<Mersenne31Field>>(
    acc: W::Field,
    s: Seq<(Mersenne31Field, Variable)>,
    x: spec_fn(Variable) -> W::Field,
) -> W::Field
    decreases s.len(),
{
    if s.len() == 0 {
        acc
    } else {
        let prev = scaled_sum_in::<W>(acc, s.drop_last(), x);
        let e = s.last();
        W::Field::spec_add_product(prev, W::Field::spec_constant(e.0), x(e.1))
    }
}

} // verus!
