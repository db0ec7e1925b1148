use airbender_cs::constraint::{Constraint, Term};
use airbender_cs::definitions::{Boolean, Num, Variable};
use airbender_cs::field::Mersenne31Field;
use airbender_cs::utils::{
    check_constants, mask_by_boolean_into_accumulator_constraint,
    mask_by_boolean_into_accumulator_constraint_with_shift, mask_into_constraint,
    mask_linear_term_by_boolean_into_accumulator_constraint, mask_linear_term_into_constraint,
    PreprocessedConstraintForEval,
};

const P: u32 = 0x7fff_ffff;

fn m(v: u32) -> Mersenne31Field {
    Mersenne31Field::from_u32_with_reduction(v)
}

fn var(i: u64) -> Constraint {
    Constraint::from_variable(Variable(i))
}

fn values(vals: &[Option<u32>]) -> Vec<Option<Mersenne31Field>> {
    vals.iter().map(|v| v.map(m)).collect()
}

fn eval(c: &Constraint, vals: &[u32]) -> u32 {
    let known: Vec<Option<u32>> = vals.iter().map(|v| Some(*v)).collect();
    c.get_value(&values(&known)).unwrap().as_u32_reduced()
}

#[test]
fn normalize_combines_like_terms() {
    // x + 2y + 3x - 2y + 5 + 1
    let mut c = Constraint::empty();
    c = c.add_term(Term::from_variable(Variable(0)));
    c = c.add_term(Term::from_coeff_and_variable(m(2), Variable(1)));
    c = c.add_term(Term::from_coeff_and_variable(m(3), Variable(0)));
    c = c.add_term(Term::from_coeff_and_variable(m(P - 2), Variable(1)));
    c = c.add_term(Term::from_u32(5));
    c = c.add_term(Term::from_u32(1));
    c.normalize();
    assert_eq!(c.terms.len(), 2);
    assert_eq!(eval(&c, &[10, 7]), 46);
}

#[test]
fn normalize_drops_zero_polynomial() {
    let mut c = var(3).sub(var(3));
    c.normalize();
    assert!(c.is_empty());
}

#[test]
fn product_of_linear_polynomials() {
    // (x + 1) * (y - 2) = xy - 2x + y - 2
    let a = var(0).add(Constraint::from_u32(1));
    let b = var(1).sub(Constraint::from_u32(2));
    let c = a.mul(b);
    assert_eq!(c.degree(), 2);
    assert_eq!(eval(&c, &[3, 5]), 12);
    // with y = 1: (3 + 1) * (1 - 2) = -4
    assert_eq!(eval(&c, &[3, 1]), P - 4);
}

#[test]
fn split_max_quadratic_parts() {
    // 2xy + 3z + 7
    let t = Term::from_coeff_and_variable(m(2), Variable(0)).mul(Term::from_variable(Variable(1)));
    let c = t.add(var(2).mul_term(Term::from_u32(3))).add(Constraint::from_u32(7));
    let (q, l, k) = c.split_max_quadratic();
    assert_eq!(q.len(), 1);
    assert_eq!(q[0].0.as_u32_reduced(), 2);
    assert_eq!(l.len(), 1);
    assert_eq!(l[0].0.as_u32_reduced(), 3);
    assert_eq!(l[0].1, Variable(2));
    assert_eq!(k.as_u32_reduced(), 7);
}

#[test]
fn substitute_variable_replaces_its_value() {
    // c = x * y + x, with x := y + 1
    let c = Term::from_variable(Variable(0)).mul(Term::from_variable(Variable(1))).add(var(0));
    let e = var(1).add(Constraint::from_u32(1));
    let r = c.substitute_variable(Variable(0), e);
    // with y = 4: x = 5, 5 * 4 + 5 = 25
    assert_eq!(eval(&r, &[0, 4]), 25);
    assert!(!r.contains_var(&Variable(0)));
}

#[test]
fn express_variable_solves_linear_constraint() {
    // 2x + 3y - 4 = 0  ==>  x = (4 - 3y) / 2
    let c = var(0).mul_term(Term::from_u32(2))
        .add(var(1).mul_term(Term::from_u32(3)))
        .sub(Constraint::from_u32(4));
    let r = c.express_variable(Variable(0));
    // y = 2: x = (4 - 6) / 2 = -1
    assert_eq!(eval(&r, &[0, 2]), P - 1);
    assert!(!r.contains_var(&Variable(0)));
}

#[test]
fn get_value_needs_known_values() {
    let c = var(0).add(var(2));
    assert!(c.get_value(&values(&[Some(1), None, None])).is_none());
    assert_eq!(c.get_value(&values(&[Some(1), None, Some(5)])).unwrap().as_u32_reduced(), 6);
}

#[test]
fn degree_and_variables() {
    let c = Term::from_variable(Variable(4)).mul(Term::from_variable(Variable(4))).add(var(2));
    assert_eq!(c.degree(), 2);
    assert_eq!(c.degree_for_var(&Variable(4)), 2);
    assert_eq!(c.degree_for_var(&Variable(2)), 1);
    assert_eq!(c.degree_for_var(&Variable(9)), 0);
    let vs = c.stable_variable_set();
    assert_eq!(vs, vec![Variable(2), Variable(4)]);
}

#[test]
fn constants_of_numbers() {
    let a = Num::Constant(m(1));
    let b = Num::Var(Variable(0));
    assert_eq!(check_constants(&a, &b), (true, false));
    assert_eq!(check_constants(&b, &a), (false, true));
}

#[test]
fn mask_into_constraint_selects() {
    let a = Num::Var(Variable(0));
    let on = mask_into_constraint(&a, &Boolean::Is(Variable(1)));
    assert_eq!(eval(&on, &[9, 1]), 9);
    assert_eq!(eval(&on, &[9, 0]), 0);
    let off = mask_into_constraint(&a, &Boolean::Not(Variable(1)));
    assert_eq!(eval(&off, &[9, 1]), 0);
    assert_eq!(eval(&off, &[9, 0]), 9);
    let k = mask_into_constraint(&Num::Constant(m(4)), &Boolean::Constant(true));
    assert_eq!(eval(&k, &[]), 4);
    let z = mask_into_constraint(&Num::Constant(m(4)), &Boolean::Constant(false));
    assert_eq!(eval(&z, &[]), 0);
}

#[test]
fn mask_by_boolean_accumulates() {
    let acc = var(2);
    let r = mask_by_boolean_into_accumulator_constraint(&Boolean::Is(Variable(1)), &Num::Var(Variable(0)), acc.clone());
    assert_eq!(eval(&r, &[7, 1, 100]), 107);
    assert_eq!(eval(&r, &[7, 0, 100]), 100);
    let r = mask_by_boolean_into_accumulator_constraint(&Boolean::Not(Variable(1)), &Num::Constant(m(3)), acc.clone());
    assert_eq!(eval(&r, &[7, 0, 100]), 103);
    let r = mask_by_boolean_into_accumulator_constraint_with_shift(
        &Boolean::Constant(true),
        &Num::Var(Variable(0)),
        acc.clone(),
        m(16),
    );
    assert_eq!(eval(&r, &[7, 0, 100]), 212);
    let r = mask_by_boolean_into_accumulator_constraint_with_shift(
        &Boolean::Is(Variable(1)),
        &Num::Constant(m(5)),
        acc,
        m(3),
    );
    assert_eq!(eval(&r, &[0, 1, 1]), 16);
}

#[test]
fn mask_linear_terms() {
    let lin = var(0).add(Constraint::from_u32(2));
    let r = mask_linear_term_into_constraint(&lin, &Boolean::Is(Variable(1)));
    assert_eq!(eval(&r, &[5, 1]), 7);
    assert_eq!(eval(&r, &[5, 0]), 0);
    let k = mask_linear_term_into_constraint(&Constraint::from_u32(6), &Boolean::Not(Variable(1)));
    assert_eq!(eval(&k, &[0, 0]), 6);
    assert_eq!(eval(&k, &[0, 1]), 0);
    let r = mask_linear_term_by_boolean_into_accumulator_constraint(&Boolean::Is(Variable(1)), &lin, var(2));
    assert_eq!(eval(&r, &[5, 1, 10]), 17);
}


#[test]
fn normalize_merges_repeated_monomials() {
    // 2·x0·x1 + 3·x0·x1 + x1·x0 is 6·x0·x1
    let mut c = Constraint::empty();
    let a = Term::from_coeff_and_variable(m(2), Variable(0)).mul(Term::from_variable(Variable(1)));
    let b = Term::from_coeff_and_variable(m(3), Variable(0)).mul(Term::from_variable(Variable(1)));
    let d = Term::from_variable(Variable(1)).mul(Term::from_variable(Variable(0)));
    c = c.add_term(a.terms[0]).add_term(b.terms[0]).add_term(d.terms[0]);
    assert_eq!(c.terms.len(), 3);
    c.normalize();
    assert_eq!(c.terms.len(), 1);
    assert_eq!(c.terms[0].get_coef().as_u32_reduced(), 6);
    assert_eq!(eval(&c, &[2, 5]), 60);
}

#[test]
fn normalize_twice_changes_nothing() {
    let mut c = var(1).add(var(0)).add(Constraint::from_u32(4));
    c.normalize();
    let once = c.clone();
    c.normalize();
    assert_eq!(c.terms.len(), once.terms.len());
    for i in 0..c.terms.len() {
        assert_eq!(c.terms[i].get_coef().as_u32_reduced(), once.terms[i].get_coef().as_u32_reduced());
        assert_eq!(c.terms[i].degree(), once.terms[i].degree());
        assert_eq!(c.terms[i].as_slice(), once.terms[i].as_slice());
    }
}

#[test]
fn split_merges_and_keeps_no_constant() {
    // x·y + x·y + 2z + z: one product, one linear part, constant zero
    let t = Term::from_variable(Variable(0)).mul(Term::from_variable(Variable(1)));
    let c = t.clone().add_term(t.terms[0]).add_term(Term::from_coeff_and_variable(m(2), Variable(2)))
        .add_term(Term::from_variable(Variable(2)));
    let (q, l, k) = c.split_max_quadratic();
    assert_eq!(q.len(), 1);
    assert_eq!(q[0].0.as_u32_reduced(), 2);
    assert_eq!(l.len(), 1);
    assert_eq!(l[0].0.as_u32_reduced(), 3);
    assert_eq!(k.as_u32_reduced(), 0);
}

#[test]
fn substitute_keeps_the_variable_only_through_the_expression() {
    // c = 2x + y, with x := x + 1 keeps x; with x := y drops it
    let c = var(0).mul_term(Term::from_u32(2)).add(var(1));
    let r = c.substitute_variable(Variable(0), var(0).add(Constraint::from_u32(1)));
    assert!(r.contains_var(&Variable(0)));
    assert_eq!(eval(&r, &[3, 4]), 12);
    let s = c.substitute_variable(Variable(0), var(1));
    assert!(!s.contains_var(&Variable(0)));
    assert_eq!(eval(&s, &[0, 4]), 12);
}

#[test]
fn normalize_accepts_higher_terms_that_cancel() {
    // x·y·z + (p-1)·z·y·x + x: the cubic terms cancel
    let xy = Term::from_variable(Variable(0)).mul(Term::from_variable(Variable(1)));
    let xyz = xy.terms[0].mul(Term::from_variable(Variable(2)));
    let zy = Term::from_coeff_and_variable(m(P - 1), Variable(2)).mul(Term::from_variable(Variable(1)));
    let zyx = zy.terms[0].mul(Term::from_variable(Variable(0)));
    let c = Constraint::empty()
        .add_term(xyz.terms[0])
        .add_term(zyx.terms[0])
        .add_term(Term::from_variable(Variable(0)));
    assert_eq!(c.degree(), 3);
    let mut n = c.clone();
    n.normalize();
    assert_eq!(n.degree(), 1);
    assert_eq!(n.terms.len(), 1);
    let (q, l, k) = c.split_max_quadratic();
    assert_eq!(q.len(), 0);
    assert_eq!(l.len(), 1);
    assert_eq!(l[0].1, Variable(0));
    assert_eq!(k.as_u32_reduced(), 0);
}

#[test]
fn masking_with_a_constant_boolean_keeps_the_accumulator() {
    let acc = var(0).add(Constraint::from_u32(3));
    let n = acc.terms.len();
    let r = mask_by_boolean_into_accumulator_constraint(&Boolean::Constant(false), &Num::Var(Variable(5)), acc.clone());
    assert_eq!(r.terms.len(), n);
    let s = mask_by_boolean_into_accumulator_constraint_with_shift(
        &Boolean::Constant(false),
        &Num::Var(Variable(5)),
        acc.clone(),
        m(7),
    );
    assert_eq!(s.terms.len(), n);
    let t = mask_by_boolean_into_accumulator_constraint(&Boolean::Constant(true), &Num::Var(Variable(5)), acc);
    assert_eq!(t.terms.len(), n + 1);
    assert_eq!(eval(&t, &[2, 0, 0, 0, 0, 9]), 14);
}
