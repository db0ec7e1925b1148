use airbender_cs::constraint::{Constraint, Term};
use airbender_cs::definitions::Variable;
use airbender_cs::field::Mersenne31Field;
use airbender_cs::lookup_input::LookupInput;
use airbender_cs::utils::PreprocessedConstraintForEval;
use airbender_cs::cs_debug_evaluator::CSDebugWitnessEvaluator;
use airbender_cs::witness_placer::{WitnessPlacer, WitnessTypeSet};

const P: u32 = 0x7fff_ffff;

fn m(v: u32) -> Mersenne31Field {
    Mersenne31Field::from_u32_with_reduction(v)
}

fn var(i: u64) -> Constraint {
    Constraint::from_variable(Variable(i))
}

fn eval(c: &Constraint, vals: &[u32]) -> u32 {
    let known: Vec<Option<Mersenne31Field>> = vals.iter().map(|v| Some(m(*v))).collect();
    c.get_value(&known).unwrap().as_u32_reduced()
}

#[test]
fn placer_parts_compose_little_endian() {
    let mut w = CSDebugWitnessEvaluator::new();
    w.assign_u32_from_u16_parts([Variable(0), Variable(1)], &0x1234_5678);
    assert_eq!(w.get_u16(Variable(0)), 0x5678);
    assert_eq!(w.get_u16(Variable(1)), 0x1234);
    assert_eq!(w.get_u32_from_u16_parts([Variable(0), Variable(1)]), 0x1234_5678);
    w.assign_u16_from_u8_parts([Variable(2), Variable(3)], &0xabcd);
    assert_eq!(w.get_u8(Variable(2)), 0xcd);
    assert_eq!(w.get_u8(Variable(3)), 0xab);
    assert_eq!(w.get_u16_from_u8_parts([Variable(2), Variable(3)]), 0xabcd);
    w.assign_u16_from_u8_parts([Variable(4), Variable(5)], &0x0102);
    assert_eq!(
        w.get_u32_from_u8_parts([Variable(2), Variable(3), Variable(4), Variable(5)]),
        0x0102_abcd
    );
    w.conditionally_assign_u32([Variable(0), Variable(1)], &false, &7);
    assert_eq!(w.get_u32_from_u16_parts([Variable(0), Variable(1)]), 0x1234_5678);
    w.conditionally_assign_u32([Variable(0), Variable(1)], &true, &7);
    assert_eq!(w.get_u32_from_u16_parts([Variable(0), Variable(1)]), 7);
}

#[test]
fn preprocessed_constraint_evaluates_like_the_constraint() {
    // xy - zw + 3uv + x - y + 5z + 11
    let xy = Term::from_variable(Variable(0)).mul(Term::from_variable(Variable(1)));
    let zw = Term::from_variable(Variable(2)).mul(Term::from_variable(Variable(3)));
    let uv = Term::from_coeff_and_variable(m(3), Variable(4)).mul(Term::from_variable(Variable(5)));
    let c = xy
        .sub(zw)
        .add(uv)
        .add(var(0))
        .sub(var(1))
        .add(var(2).mul_term(Term::from_u32(5)))
        .add(Constraint::from_u32(11));
    let vals = [2u32, 3, 4, 5, 6, 7];
    let expected = eval(&c, &vals);
    let pre = PreprocessedConstraintForEval::from_constraint(c);
    assert_eq!(pre.quadratic_trivial_additions.len(), 1);
    assert_eq!(pre.quadratic_trivial_subtractions.len(), 1);
    assert_eq!(pre.quadratic_nontrivial.len(), 1);
    assert_eq!(pre.linear_trivial_additions.len(), 1);
    assert_eq!(pre.linear_trivial_subtractions.len(), 1);
    assert_eq!(pre.linear_nontrivial.len(), 1);
    let mut w = CSDebugWitnessEvaluator::new();
    for (i, v) in vals.iter().enumerate() {
        w.assign_field(Variable(i as u64), &m(*v));
    }
    assert_eq!(pre.evaluate_with_placer(&mut w).as_u32_reduced(), expected);
    // 6 - 20 + 126 + 2 - 3 + 20 + 11
    assert_eq!(expected, 142);
}


#[test]
fn constraint_evaluates_with_placer() {
    // x * y - 3z + 1
    let c = Term::from_variable(Variable(0))
        .mul(Term::from_variable(Variable(1)))
        .sub(var(2).mul_term(Term::from_u32(3)))
        .add(Constraint::from_u32(1));
    let mut w = CSDebugWitnessEvaluator::new();
    w.assign_field(Variable(0), &m(6));
    w.assign_field(Variable(1), &m(7));
    w.assign_field(Variable(2), &m(5));
    assert_eq!(c.evaluate_with_placer(&mut w).as_u32_reduced(), 28);
    // a variable without a value reads as zero
    let d = var(9).add(Constraint::from_u32(2));
    assert_eq!(d.evaluate_with_placer(&mut w).as_u32_reduced(), 2);
    assert_eq!(w.values.len(), 10);
}

#[test]
fn lookup_input_evaluation() {
    let mut w = CSDebugWitnessEvaluator::new();
    w.assign_field(Variable(0), &m(10));
    w.assign_field(Variable(1), &m(20));
    let input = LookupInput::Expression {
        linear_terms: vec![(m(2), Variable(0)), (m(P - 1), Variable(1))],
        constant_coeff: m(5),
    };
    // 2 * 10 - 20 + 5
    assert_eq!(input.evaluate(&mut w).as_u32_reduced(), 5);
    assert_eq!(LookupInput::from_variable(Variable(1)).evaluate(&mut w).as_u32_reduced(), 20);
    assert_eq!(LookupInput::empty().evaluate(&mut w).as_u32_reduced(), 0);
    assert_eq!(LookupInput::from_field(m(9)).evaluate(&mut w).as_u32_reduced(), 9);
    // a variable without a place reads as zero and gets one
    assert_eq!(LookupInput::from_variable(Variable(4)).evaluate(&mut w).as_u32_reduced(), 0);
    assert_eq!(w.values.len(), 5);
}


#[test]
fn lookup_input_evaluates_on_the_debug_evaluator() {
    let mut p = CSDebugWitnessEvaluator::new();
    p.assign_field(Variable(0), &Mersenne31Field(10));
    p.assign_field(Variable(1), &Mersenne31Field(1));
    let e = LookupInput::Expression {
        linear_terms: vec![(Mersenne31Field(2), Variable(0)), (Mersenne31Field(3), Variable(1))],
        constant_coeff: Mersenne31Field(5),
    };
    assert_eq!(e.evaluate(&mut p).as_u32_reduced(), 28);
}

#[test]
fn debug_evaluator_reads_back_what_it_wrote() {
    let mut p = CSDebugWitnessEvaluator::new();
    p.assign_field(Variable(2), &m(41));
    assert_eq!(p.get_field(Variable(2)).as_u32_reduced(), 41);
    p.assign_mask(Variable(3), &true);
    assert!(p.get_boolean(Variable(3)));
    assert_eq!(p.get_field(Variable(3)).as_u32_reduced(), 1);
    p.conditionally_assign_field(Variable(2), &false, &m(7));
    assert_eq!(p.get_field(Variable(2)).as_u32_reduced(), 41);
    p.conditionally_assign_field(Variable(2), &true, &m(7));
    assert_eq!(p.get_field(Variable(2)).as_u32_reduced(), 7);
    p.conditionally_assign_mask(Variable(3), &true, &false);
    assert!(!p.get_boolean(Variable(3)));
    let zeros: [Mersenne31Field; 2] = p.maybe_lookup(&[m(1)], &0, &false);
    assert_eq!(zeros[0].as_u32_reduced(), 0);
    assert_eq!(zeros[1].as_u32_reduced(), 0);
    assert_eq!(p.get_oracle_u32(airbender_cs::placeholder::Placeholder::ExternalOracle), 0);
    assert!(CSDebugWitnessEvaluator::can_branch());
    assert!(CSDebugWitnessEvaluator::merge_lookup_and_multiplicity_count());
}
