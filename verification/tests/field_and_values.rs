use airbender_cs::cs_debug_evaluator::CSDebugWitnessEvaluator;
use airbender_cs::witness_placer::WitnessPlacer;
use airbender_cs::definitions::{Boolean, Num, Variable};
use airbender_cs::field::Mersenne31Field;
use airbender_cs::lookup_input::LookupInput;
use airbender_cs::placeholder::Placeholder;
use airbender_cs::timestamps::TimestampData;
use airbender_cs::circuit::{IndirectAccessType, RangeCheckQuery};
use airbender_cs::oracle::ExecutorFamilyDecoderData;

const P: u32 = 0x7fff_ffff;

fn m(v: u32) -> Mersenne31Field {
    Mersenne31Field::from_u32_with_reduction(v)
}

#[test]
fn field_addition_wraps_at_the_characteristic() {
    let a = m(P - 1);
    let b = m(5);
    assert_eq!(a.add(&b).as_u32_reduced(), 4);
    assert_eq!(b.sub(&a).as_u32_reduced(), 6);
    assert_eq!(m(3).neg().as_u32_reduced(), P - 3);
}

#[test]
fn field_multiplication_reduces() {
    let a = m(1 << 20);
    let b = m(1 << 20);
    // 2^40 = 2^31 * 2^9 = 2^9 modulo 2^31 - 1
    assert_eq!(a.mul(&b).as_u32_reduced(), 512);
    let mut c = m(7);
    c.add_assign_product(&m(3), &m(4));
    assert_eq!(c.as_u32_reduced(), 19);
}

#[test]
fn field_reduction_of_unreduced_values() {
    assert_eq!(Mersenne31Field(P).as_u32_reduced(), 0);
    assert_eq!(Mersenne31Field::from_u64_with_reduction(u64::MAX).as_u32_reduced(), (u64::MAX % (P as u64)) as u32);
    assert!(Mersenne31Field::from_u32(P).is_none());
    assert_eq!(Mersenne31Field::from_u32(5).unwrap().as_u32_reduced(), 5);
}

#[test]
fn field_inverse_multiplies_to_one() {
    for v in [1u32, 2, 3, 12345, P - 1, 1 << 30] {
        let x = m(v);
        let inv = x.try_inverse().unwrap();
        assert_eq!(x.mul(&inv).as_u32_reduced(), 1, "inverse of {}", v);
    }
    assert!(m(0).try_inverse().is_none());
    assert!(Mersenne31Field(P).try_inverse().is_none());
}

#[test]
fn field_booleans() {
    assert_eq!(Mersenne31Field::from_boolean(true).as_u32_reduced(), 1);
    assert_eq!(Mersenne31Field::from_boolean(false).as_u32_reduced(), 0);
    assert!(m(2).as_boolean());
    assert!(!Mersenne31Field(P).as_boolean());
    assert!(m(1).is_one());
    assert!(Mersenne31Field(P).is_zero());
    assert!(m(5).equals(&Mersenne31Field(P + 5)));
}

#[test]
fn timestamp_scalar_round_trip() {
    for ts in [0u64, 4, 0x1_0000, 0x3f_ffff_fff8, 0xffff_ffff_ffff] {
        assert_eq!(TimestampData::from_scalar(ts).as_scalar(), ts);
    }
    let t = TimestampData::from_scalar(0x1234_5678_9abc);
    assert_eq!(t.0, [0x9abc, 0x5678, 0x1234]);
    assert_eq!(TimestampData::empty().as_scalar(), 0);
}

#[test]
fn timestamp_drops_bits_beyond_48() {
    assert_eq!(TimestampData::from_scalar(0x1_0000_0000_0005).as_scalar(), 5);
}

#[test]
fn placeholder_kinds() {
    assert!(Placeholder::XregInit(3).is_initial());
    assert!(Placeholder::PcInit.is_initial());
    assert!(!Placeholder::PcFin.is_initial());
    assert!(Placeholder::PcFin.is_final());
    assert!(Placeholder::XregFin(1).is_final());
    assert!(!Placeholder::ExternalOracle.is_final());
    assert!(Placeholder::ExternalOracle.is_initial());
    assert!(!Placeholder::Trapped.is_initial());
    assert!(!Placeholder::Trapped.is_final());
    assert_eq!(Placeholder::XregsInit.specify_idx(7), Placeholder::XregInit(7));
    assert_eq!(Placeholder::XregsFin.specify_idx(2), Placeholder::XregFin(2));
}

#[test]
fn indirect_access_offsets() {
    let a = IndirectAccessType::Read {
        read_value: [Variable(2), Variable(3)],
        offset_constant: 8,
        variable_dependent: None,
        assume_no_alignment_overflow: true,
    };
    assert!(a.consider_aligned());
    assert_eq!(a.offset_constant(), 8);
    assert!(a.variable_dependent().is_none());
    let b = IndirectAccessType::Write {
        read_value: [Variable(2), Variable(3)],
        write_value: [Variable(4), Variable(5)],
        offset_constant: 12,
        variable_dependent: Some((4, Variable(9), 1)),
        assume_no_alignment_overflow: false,
    };
    assert!(!b.consider_aligned());
    assert_eq!(b.offset_constant(), 12);
    assert_eq!(b.variable_dependent(), Some((4, Variable(9), 1)));
}

#[test]
fn decoder_data_default() {
    let d = ExecutorFamilyDecoderData::default();
    assert_eq!(d.imm, 0);
    assert!(d.rd_is_zero);
    assert!(d.funct7.is_none());
}

#[test]
fn evaluator_grows_with_zeros() {
    let mut w = CSDebugWitnessEvaluator::new();
    assert!(w.get_value(Variable(3)).is_none());
    assert_eq!(w.get_field(Variable(3)).as_u32_reduced(), 0);
    assert_eq!(w.values.len(), 4);
    assert_eq!(w.get_value(Variable(3)).unwrap().as_u32_reduced(), 0);
    w.assign_field(Variable(1), &m(77));
    assert_eq!(w.get_field(Variable(1)).as_u32_reduced(), 77);
    w.assign_u16(Variable(5), &0xabcd);
    assert_eq!(w.get_u16(Variable(5)), 0xabcd);
    assert_eq!(w.get_u8(Variable(5)), 0xcd);
    w.assign_mask(Variable(6), &true);
    assert!(w.get_boolean(Variable(6)));
    w.conditionally_assign_field(Variable(6), &false, &m(9));
    assert!(w.get_boolean(Variable(6)));
    w.conditionally_assign_u8(Variable(0), &true, &200);
    assert_eq!(w.get_u8(Variable(0)), 200);
}

#[test]
fn range_check_query_of_variable() {
    let q = RangeCheckQuery::new(Variable(3), 16);
    assert_eq!(q.width, 16);
    let _ = Num::Var(Variable(1));
    let _ = Boolean::Constant(true);
}

#[test]
fn placeholder_descriptions() {
    assert_eq!(Placeholder::XregsInit.to_string(), "xregs");
    assert_eq!(Placeholder::XregFin(17).to_string(), "xreg[17]");
    assert_eq!(Placeholder::PcFin.to_string(), "pc");
    assert_eq!(Placeholder::ExternalOracle.to_string(), "external");
    assert_eq!(Placeholder::ShuffleRamReadTimestamp(0).to_string(), "read timestamp for access index 0");
    assert_eq!(
        Placeholder::DelegationNondeterminismAccessNoSplits(205).to_string(),
        "non-determinism access for delegation number 205 without splitting to words"
    );
    assert!(Placeholder::Trapped.is_debug());
    assert!(!Placeholder::PcInit.is_debug());
}

#[test]
fn field_sub_undoes_add_and_negation() {
    for (a, b) in [(0u32, 0u32), (5, P - 1), (P - 1, P - 1), (123456, 7654321)] {
        let x = m(a);
        let y = m(b);
        assert_eq!(x.add(&y).sub(&y).as_u32_reduced(), a % P);
        assert_eq!(x.add(&x.neg()).as_u32_reduced(), 0);
    }
}
