use vstd::prelude::*;

use crate::field::{p, Mersenne31Field};
use crate::placeholder::Placeholder;
use crate::witness_placer::{
    WitnessComputationCore, WitnessComputationalField, WitnessComputationalInteger,
    WitnessComputationalU16, WitnessComputationalU32, WitnessMask, WitnessTypeSet,
};
use crate::scalar_types::ScalarWitnessTypeSet;
use vstd::arithmetic::power2::pow2;
use crate::witness_proxy::{place_as_mask, place_as_u16, place_of_u16, place_of_u8, row_state, WitnessProxy};

verus! {

/// The witness places that the witness evaluation of one row may write.
pub open spec fn written_by_witness_fn(j: int) -> bool {
    ||| j == 11
    ||| j == 12
    ||| j == 13
    ||| j == 14
    ||| j == 15
    ||| j == 16
    ||| j == 19
    ||| j == 20
    ||| j == 21
    ||| j == 22
    ||| j == 23
    ||| j == 24
    ||| j == 25
    ||| j == 26
    ||| j == 27
    ||| j == 28
    ||| j == 29
    ||| j == 30
    ||| j == 31
    ||| j == 32
    ||| j == 33
    ||| j == 34
    ||| j == 35
    ||| j == 36
    ||| j == 37
    ||| j == 38
    ||| j == 39
    ||| j == 40
    ||| j == 41
    ||| j == 42
    ||| j == 43
    ||| j == 50
    ||| j == 51
    ||| j == 52
    ||| j == 53
    ||| j == 54
    ||| j == 55
    ||| j == 56
    ||| j == 57
    ||| j == 58
    ||| j == 59
    ||| j == 60
    ||| j == 61
    ||| j == 62
    ||| j == 63
    ||| j == 64
    ||| j == 65
    ||| j == 66
    ||| j == 67
    ||| j == 68
    ||| j == 69
    ||| j == 70
    ||| j == 71
    ||| j == 72
    ||| j == 73
    ||| j == 74
    ||| j == 75
    ||| j == 76
    ||| j == 77
    ||| j == 78
    ||| j == 79
    ||| j == 80
    ||| j == 81
    ||| j == 82
    ||| j == 83
    ||| j == 84
    ||| j == 85
    ||| j == 86
    ||| j == 87
    ||| j == 88
    ||| j == 89
    ||| j == 90
    ||| j == 91
    ||| j == 92
    ||| j == 93
    ||| j == 94
    ||| j == 95
    ||| j == 96
    ||| j == 97
    ||| j == 98
    ||| j == 99
    ||| j == 100
    ||| j == 101
    ||| j == 102
    ||| j == 103
    ||| j == 104
}

/// The row after `eval_fn_1`: its witness places and lookup records.
#[verifier::opaque]
pub open spec fn spec_eval_fn_1<W: WitnessTypeSet<Mersenne31Field>>(
    s: (Seq<W::Field>, Seq<(Seq<W::Field>, W::U16, usize)>, Seq<(Seq<W::Field>, W::U16, W::Mask)>),
    mem: Seq<W::Field>,
    lt: spec_fn(Seq<W::Field>, W::U16, nat) -> Seq<W::Field>,
    mlt: spec_fn(Seq<W::Field>, W::U16, W::Mask, nat) -> Seq<W::Field>,
    orc: spec_fn(Placeholder) -> W::U32,
) -> (Seq<W::Field>, Seq<(Seq<W::Field>, W::U16, usize)>, Seq<(Seq<W::Field>, W::U16, W::Mask)>) {
    let w = s.0;
    let c = s.1;
    let mk = s.2;
    let v_0 = w[6];
    let v_1 = W::Field::spec_as_integer(v_0);
    let v_2 = W::U32::spec_lowest_bits(v_1, 1u32);
    let v_3 = W::U32::spec_into_mask(v_2);
    let w = w.update(19, W::Field::spec_from_mask(v_3));
    let v_5 = W::U32::spec_shift_right(v_1, 1u32);
    let v_6 = W::U32::spec_lowest_bits(v_5, 1u32);
    let v_7 = W::U32::spec_into_mask(v_6);
    let w = w.update(20, W::Field::spec_from_mask(v_7));
    let v_9 = W::U32::spec_shift_right(v_1, 2u32);
    let v_10 = W::U32::spec_lowest_bits(v_9, 1u32);
    let v_11 = W::U32::spec_into_mask(v_10);
    let w = w.update(21, W::Field::spec_from_mask(v_11));
    let v_13 = W::U32::spec_shift_right(v_1, 3u32);
    let v_14 = W::U32::spec_lowest_bits(v_13, 1u32);
    let v_15 = W::U32::spec_into_mask(v_14);
    let w = w.update(22, W::Field::spec_from_mask(v_15));
    let v_17 = W::U32::spec_shift_right(v_1, 4u32);
    let v_18 = W::U32::spec_lowest_bits(v_17, 1u32);
    let v_19 = W::U32::spec_into_mask(v_18);
    let w = w.update(23, W::Field::spec_from_mask(v_19));
    let v_21 = W::U32::spec_shift_right(v_1, 5u32);
    let v_22 = W::U32::spec_lowest_bits(v_21, 1u32);
    let v_23 = W::U32::spec_into_mask(v_22);
    let w = w.update(24, W::Field::spec_from_mask(v_23));
    let v_25 = W::U32::spec_shift_right(v_1, 6u32);
    let v_26 = W::U32::spec_lowest_bits(v_25, 1u32);
    let v_27 = W::U32::spec_into_mask(v_26);
    let w = w.update(25, W::Field::spec_from_mask(v_27));
    let v_29 = W::U32::spec_shift_right(v_1, 7u32);
    let v_30 = W::U32::spec_lowest_bits(v_29, 1u32);
    let v_31 = W::U32::spec_into_mask(v_30);
    let w = w.update(26, W::Field::spec_from_mask(v_31));
    let v_33 = W::U32::spec_shift_right(v_1, 8u32);
    let v_34 = W::U32::spec_lowest_bits(v_33, 1u32);
    let v_35 = W::U32::spec_into_mask(v_34);
    let w = w.update(27, W::Field::spec_from_mask(v_35));
    let v_37 = W::U32::spec_shift_right(v_1, 9u32);
    let v_38 = W::U32::spec_lowest_bits(v_37, 1u32);
    let v_39 = W::U32::spec_into_mask(v_38);
    let w = w.update(28, W::Field::spec_from_mask(v_39));
    let v_41 = W::U32::spec_shift_right(v_1, 10u32);
    let v_42 = W::U32::spec_lowest_bits(v_41, 1u32);
    let v_43 = W::U32::spec_into_mask(v_42);
    let w = w.update(29, W::Field::spec_from_mask(v_43));
    let v_45 = W::U32::spec_shift_right(v_1, 11u32);
    let v_46 = W::U32::spec_lowest_bits(v_45, 1u32);
    let v_47 = W::U32::spec_into_mask(v_46);
    let w = w.update(30, W::Field::spec_from_mask(v_47));
    let v_49 = W::U32::spec_shift_right(v_1, 12u32);
    let v_50 = W::U32::spec_lowest_bits(v_49, 1u32);
    let v_51 = W::U32::spec_into_mask(v_50);
    let w = w.update(31, W::Field::spec_from_mask(v_51));
    let v_53 = W::U32::spec_shift_right(v_1, 13u32);
    let v_54 = W::U32::spec_lowest_bits(v_53, 1u32);
    let v_55 = W::U32::spec_into_mask(v_54);
    let w = w.update(32, W::Field::spec_from_mask(v_55));
    let v_57 = W::U32::spec_shift_right(v_1, 14u32);
    let v_58 = W::U32::spec_lowest_bits(v_57, 1u32);
    let v_59 = W::U32::spec_into_mask(v_58);
    let w = w.update(33, W::Field::spec_from_mask(v_59));
    let v_61 = W::U32::spec_shift_right(v_1, 15u32);
    let v_62 = W::U32::spec_lowest_bits(v_61, 1u32);
    let v_63 = W::U32::spec_into_mask(v_62);
    let w = w.update(34, W::Field::spec_from_mask(v_63));
    let v_65 = W::U32::spec_shift_right(v_1, 16u32);
    let v_66 = W::U32::spec_lowest_bits(v_65, 1u32);
    let v_67 = W::U32::spec_into_mask(v_66);
    let w = w.update(35, W::Field::spec_from_mask(v_67));
    let v_69 = W::U32::spec_shift_right(v_1, 17u32);
    let v_70 = W::U32::spec_lowest_bits(v_69, 1u32);
    let v_71 = W::U32::spec_into_mask(v_70);
    let w = w.update(36, W::Field::spec_from_mask(v_71));
    (w, c, mk)
}

#[allow(unused_variables)]
fn eval_fn_1<
    'a,
    'b: 'a,
    W: WitnessTypeSet<Mersenne31Field>,
    P: WitnessProxy<Mersenne31Field, W> + 'b,
>(
    witness_proxy: &'a mut P,
) where
    W::Field: Copy,
    W::Mask: Copy,
    W::U32: Copy,
    W::U16: Copy,
    W::U8: Copy,
    W::I32: Copy,
    requires
        W::U32::spec_low_bits_valid(1u32),
        old(witness_proxy).witness().len() >= 37,
    ensures
        final(witness_proxy).memory() == old(witness_proxy).memory(),
        final(witness_proxy).witness().len() == old(witness_proxy).witness().len(),
        forall|j: int| 0 <= j < old(witness_proxy).witness().len() && j != 19 && j != 20 && j != 21 && j != 22 && j != 23 && j != 24 && j != 25 && j != 26 && j != 27 && j != 28 && j != 29 && j != 30 && j != 31 && j != 32 && j != 33 && j != 34 && j != 35 && j != 36 ==> #[trigger] final(witness_proxy).witness()[j] == old(witness_proxy).witness()[j],
        row_state::<Mersenne31Field, W, P>(*final(witness_proxy)) == spec_eval_fn_1::<W>(
            row_state::<Mersenne31Field, W, P>(*old(witness_proxy)),
            old(witness_proxy).memory(),
            old(witness_proxy).lookup_table(),
            old(witness_proxy).maybe_lookup_table(),
            old(witness_proxy).oracle_u32(),
        ),
        final(witness_proxy).lookup_table() == old(witness_proxy).lookup_table(),
        final(witness_proxy).maybe_lookup_table() == old(witness_proxy).maybe_lookup_table(),
        final(witness_proxy).oracle_u32() == old(witness_proxy).oracle_u32(),
{
    proof {
        reveal(spec_eval_fn_1);
    }
    let v_0 = witness_proxy.get_witness_place(6usize);
    let v_1 = v_0.as_integer();
    let v_2 = v_1.get_lowest_bits(1u32);
    let v_3 = WitnessComputationCore::into_mask(v_2);
    witness_proxy.set_witness_place_boolean(19usize, v_3);
    let v_5 = v_1.shr(1u32);
    let v_6 = v_5.get_lowest_bits(1u32);
    let v_7 = WitnessComputationCore::into_mask(v_6);
    witness_proxy.set_witness_place_boolean(20usize, v_7);
    let v_9 = v_1.shr(2u32);
    let v_10 = v_9.get_lowest_bits(1u32);
    let v_11 = WitnessComputationCore::into_mask(v_10);
    witness_proxy.set_witness_place_boolean(21usize, v_11);
    let v_13 = v_1.shr(3u32);
    let v_14 = v_13.get_lowest_bits(1u32);
    let v_15 = WitnessComputationCore::into_mask(v_14);
    witness_proxy.set_witness_place_boolean(22usize, v_15);
    let v_17 = v_1.shr(4u32);
    let v_18 = v_17.get_lowest_bits(1u32);
    let v_19 = WitnessComputationCore::into_mask(v_18);
    witness_proxy.set_witness_place_boolean(23usize, v_19);
    let v_21 = v_1.shr(5u32);
    let v_22 = v_21.get_lowest_bits(1u32);
    let v_23 = WitnessComputationCore::into_mask(v_22);
    witness_proxy.set_witness_place_boolean(24usize, v_23);
    let v_25 = v_1.shr(6u32);
    let v_26 = v_25.get_lowest_bits(1u32);
    let v_27 = WitnessComputationCore::into_mask(v_26);
    witness_proxy.set_witness_place_boolean(25usize, v_27);
    let v_29 = v_1.shr(7u32);
    let v_30 = v_29.get_lowest_bits(1u32);
    let v_31 = WitnessComputationCore::into_mask(v_30);
    witness_proxy.set_witness_place_boolean(26usize, v_31);
    let v_33 = v_1.shr(8u32);
    let v_34 = v_33.get_lowest_bits(1u32);
    let v_35 = WitnessComputationCore::into_mask(v_34);
    witness_proxy.set_witness_place_boolean(27usize, v_35);
    let v_37 = v_1.shr(9u32);
    let v_38 = v_37.get_lowest_bits(1u32);
    let v_39 = WitnessComputationCore::into_mask(v_38);
    witness_proxy.set_witness_place_boolean(28usize, v_39);
    let v_41 = v_1.shr(10u32);
    let v_42 = v_41.get_lowest_bits(1u32);
    let v_43 = WitnessComputationCore::into_mask(v_42);
    witness_proxy.set_witness_place_boolean(29usize, v_43);
    let v_45 = v_1.shr(11u32);
    let v_46 = v_45.get_lowest_bits(1u32);
    let v_47 = WitnessComputationCore::into_mask(v_46);
    witness_proxy.set_witness_place_boolean(30usize, v_47);
    let v_49 = v_1.shr(12u32);
    let v_50 = v_49.get_lowest_bits(1u32);
    let v_51 = WitnessComputationCore::into_mask(v_50);
    witness_proxy.set_witness_place_boolean(31usize, v_51);
    let v_53 = v_1.shr(13u32);
    let v_54 = v_53.get_lowest_bits(1u32);
    let v_55 = WitnessComputationCore::into_mask(v_54);
    witness_proxy.set_witness_place_boolean(32usize, v_55);
    let v_57 = v_1.shr(14u32);
    let v_58 = v_57.get_lowest_bits(1u32);
    let v_59 = WitnessComputationCore::into_mask(v_58);
    witness_proxy.set_witness_place_boolean(33usize, v_59);
    let v_61 = v_1.shr(15u32);
    let v_62 = v_61.get_lowest_bits(1u32);
    let v_63 = WitnessComputationCore::into_mask(v_62);
    witness_proxy.set_witness_place_boolean(34usize, v_63);
    let v_65 = v_1.shr(16u32);
    let v_66 = v_65.get_lowest_bits(1u32);
    let v_67 = WitnessComputationCore::into_mask(v_66);
    witness_proxy.set_witness_place_boolean(35usize, v_67);
    let v_69 = v_1.shr(17u32);
    let v_70 = v_69.get_lowest_bits(1u32);
    let v_71 = WitnessComputationCore::into_mask(v_70);
    witness_proxy.set_witness_place_boolean(36usize, v_71);
}
/// The row after `eval_fn_8`: its witness places and lookup records.
#[verifier::opaque]
pub open spec fn spec_eval_fn_8<W: WitnessTypeSet<Mersenne31Field>>(
    s: (Seq<W::Field>, Seq<(Seq<W::Field>, W::U16, usize)>, Seq<(Seq<W::Field>, W::U16, W::Mask)>),
    mem: Seq<W::Field>,
    lt: spec_fn(Seq<W::Field>, W::U16, nat) -> Seq<W::Field>,
    mlt: spec_fn(Seq<W::Field>, W::U16, W::Mask, nat) -> Seq<W::Field>,
    orc: spec_fn(Placeholder) -> W::U32,
) -> (Seq<W::Field>, Seq<(Seq<W::Field>, W::U16, usize)>, Seq<(Seq<W::Field>, W::U16, W::Mask)>) {
    let w = s.0;
    let c = s.1;
    let mk = s.2;
    let v_0 = w[3];
    let v_1 = place_as_mask::<Mersenne31Field, W>(w[20]);
    let v_2 = mem[13];
    let v_3 = W::Field::spec_select(v_1, v_2, v_0);
    let w = w.update(71, v_3);
    (w, c, mk)
}

#[allow(unused_variables)]
fn eval_fn_8<
    'a,
    'b: 'a,
    W: WitnessTypeSet<Mersenne31Field>,
    P: WitnessProxy<Mersenne31Field, W> + 'b,
>(
    witness_proxy: &'a mut P,
) where
    W::Field: Copy,
    W::Mask: Copy,
    W::U32: Copy,
    W::U16: Copy,
    W::U8: Copy,
    W::I32: Copy,
    requires
        old(witness_proxy).witness().len() >= 72,
        old(witness_proxy).memory().len() >= 14,
    ensures
        final(witness_proxy).memory() == old(witness_proxy).memory(),
        final(witness_proxy).witness().len() == old(witness_proxy).witness().len(),
        forall|j: int| 0 <= j < old(witness_proxy).witness().len() && j != 71 ==> #[trigger] final(witness_proxy).witness()[j] == old(witness_proxy).witness()[j],
        row_state::<Mersenne31Field, W, P>(*final(witness_proxy)) == spec_eval_fn_8::<W>(
            row_state::<Mersenne31Field, W, P>(*old(witness_proxy)),
            old(witness_proxy).memory(),
            old(witness_proxy).lookup_table(),
            old(witness_proxy).maybe_lookup_table(),
            old(witness_proxy).oracle_u32(),
        ),
        final(witness_proxy).lookup_table() == old(witness_proxy).lookup_table(),
        final(witness_proxy).maybe_lookup_table() == old(witness_proxy).maybe_lookup_table(),
        final(witness_proxy).oracle_u32() == old(witness_proxy).oracle_u32(),
{
    proof {
        reveal(spec_eval_fn_8);
    }
    let v_0 = witness_proxy.get_witness_place(3usize);
    let v_1 = witness_proxy.get_witness_place_boolean(20usize);
    let v_2 = witness_proxy.get_memory_place(13usize);
    let v_3 = W::Field::select(&v_1, &v_2, &v_0);
    witness_proxy.set_witness_place(71usize, v_3);
}
/// The row after `eval_fn_9`: its witness places and lookup records.
#[verifier::opaque]
pub open spec fn spec_eval_fn_9<W: WitnessTypeSet<Mersenne31Field>>(
    s: (Seq<W::Field>, Seq<(Seq<W::Field>, W::U16, usize)>, Seq<(Seq<W::Field>, W::U16, W::Mask)>),
    mem: Seq<W::Field>,
    lt: spec_fn(Seq<W::Field>, W::U16, nat) -> Seq<W::Field>,
    mlt: spec_fn(Seq<W::Field>, W::U16, W::Mask, nat) -> Seq<W::Field>,
    orc: spec_fn(Placeholder) -> W::U32,
) -> (Seq<W::Field>, Seq<(Seq<W::Field>, W::U16, usize)>, Seq<(Seq<W::Field>, W::U16, W::Mask)>) {
    let w = s.0;
    let c = s.1;
    let mk = s.2;
    let v_0 = w[4];
    let v_1 = place_as_mask::<Mersenne31Field, W>(w[20]);
    let v_2 = mem[14];
    let v_3 = W::Field::spec_select(v_1, v_2, v_0);
    let w = w.update(52, v_3);
    (w, c, mk)
}

#[allow(unused_variables)]
fn eval_fn_9<
    'a,
    'b: 'a,
    W: WitnessTypeSet<Mersenne31Field>,
    P: WitnessProxy<Mersenne31Field, W> + 'b,
>(
    witness_proxy: &'a mut P,
) where
    W::Field: Copy,
    W::Mask: Copy,
    W::U32: Copy,
    W::U16: Copy,
    W::U8: Copy,
    W::I32: Copy,
    requires
        old(witness_proxy).witness().len() >= 53,
        old(witness_proxy).memory().len() >= 15,
    ensures
        final(witness_proxy).memory() == old(witness_proxy).memory(),
        final(witness_proxy).witness().len() == old(witness_proxy).witness().len(),
        forall|j: int| 0 <= j < old(witness_proxy).witness().len() && j != 52 ==> #[trigger] final(witness_proxy).witness()[j] == old(witness_proxy).witness()[j],
        row_state::<Mersenne31Field, W, P>(*final(witness_proxy)) == spec_eval_fn_9::<W>(
            row_state::<Mersenne31Field, W, P>(*old(witness_proxy)),
            old(witness_proxy).memory(),
            old(witness_proxy).lookup_table(),
            old(witness_proxy).maybe_lookup_table(),
            old(witness_proxy).oracle_u32(),
        ),
        final(witness_proxy).lookup_table() == old(witness_proxy).lookup_table(),
        final(witness_proxy).maybe_lookup_table() == old(witness_proxy).maybe_lookup_table(),
        final(witness_proxy).oracle_u32() == old(witness_proxy).oracle_u32(),
{
    proof {
        reveal(spec_eval_fn_9);
    }
    let v_0 = witness_proxy.get_witness_place(4usize);
    let v_1 = witness_proxy.get_witness_place_boolean(20usize);
    let v_2 = witness_proxy.get_memory_place(14usize);
    let v_3 = W::Field::select(&v_1, &v_2, &v_0);
    witness_proxy.set_witness_place(52usize, v_3);
}
/// The row after `eval_fn_10`: its witness places and lookup records.
#[verifier::opaque]
pub open spec fn spec_eval_fn_10<W: WitnessTypeSet<Mersenne31Field>>(
    s: (Seq<W::Field>, Seq<(Seq<W::Field>, W::U16, usize)>, Seq<(Seq<W::Field>, W::U16, W::Mask)>),
    mem: Seq<W::Field>,
    lt: spec_fn(Seq<W::Field>, W::U16, nat) -> Seq<W::Field>,
    mlt: spec_fn(Seq<W::Field>, W::U16, W::Mask, nat) -> Seq<W::Field>,
    orc: spec_fn(Placeholder) -> W::U32,
) -> (Seq<W::Field>, Seq<(Seq<W::Field>, W::U16, usize)>, Seq<(Seq<W::Field>, W::U16, W::Mask)>) {
    let w = s.0;
    let c = s.1;
    let mk = s.2;
    let v_0 = place_as_u16::<Mersenne31Field, W>(mem[31]);
    let v_1 = W::U16::spec_constant(4u16);
    let v_2 = W::U16::spec_overflowing_add(v_0, v_1).1;
    let v_3 = W::U16::spec_constant(0u16);
    let v_4 = v_0;
    let v_4 = W::U16::spec_plus(v_4, v_1);
    let v_5 = W::U16::spec_select(v_2, v_3, v_4);
    let w = w.update(72, place_of_u16::<Mersenne31Field, W>(v_5));
    let v_7 = W::U16::spec_widen(v_0);
    let v_8 = W::Field::spec_from_integer(v_7);
    let v_9 = W::Field::spec_constant(Mersenne31Field(4u32));
    let v_10 = v_8;
    let v_10 = W::Field::spec_plus(v_10, v_9);
    let v_11 = W::Field::spec_constant(Mersenne31Field(65536u32));
    let v_12 = v_10;
    let v_12 = W::Field::spec_minus(v_12, v_11);
    let v_13 = W::Field::spec_inverse_or_zero(v_12);
    let w = w.update(74, v_13);
    let w = w.update(37, W::Field::spec_from_mask(v_2));
    (w, c, mk)
}

#[allow(unused_variables)]
fn eval_fn_10<
    'a,
    'b: 'a,
    W: WitnessTypeSet<Mersenne31Field>,
    P: WitnessProxy<Mersenne31Field, W> + 'b,
>(
    witness_proxy: &'a mut P,
) where
    W::Field: Copy,
    W::Mask: Copy,
    W::U32: Copy,
    W::U16: Copy,
    W::U8: Copy,
    W::I32: Copy,
    requires
        old(witness_proxy).witness().len() >= 75,
        old(witness_proxy).memory().len() >= 32,
    ensures
        final(witness_proxy).memory() == old(witness_proxy).memory(),
        final(witness_proxy).witness().len() == old(witness_proxy).witness().len(),
        forall|j: int| 0 <= j < old(witness_proxy).witness().len() && j != 37 && j != 72 && j != 74 ==> #[trigger] final(witness_proxy).witness()[j] == old(witness_proxy).witness()[j],
        row_state::<Mersenne31Field, W, P>(*final(witness_proxy)) == spec_eval_fn_10::<W>(
            row_state::<Mersenne31Field, W, P>(*old(witness_proxy)),
            old(witness_proxy).memory(),
            old(witness_proxy).lookup_table(),
            old(witness_proxy).maybe_lookup_table(),
            old(witness_proxy).oracle_u32(),
        ),
        final(witness_proxy).lookup_table() == old(witness_proxy).lookup_table(),
        final(witness_proxy).maybe_lookup_table() == old(witness_proxy).maybe_lookup_table(),
        final(witness_proxy).oracle_u32() == old(witness_proxy).oracle_u32(),
{
    proof {
        reveal(spec_eval_fn_10);
    }
    let v_0 = witness_proxy.get_memory_place_u16(31usize);
    let v_1 = W::U16::constant(4u16);
    let v_2 = W::U16::overflowing_add(&v_0, &v_1).1;
    let v_3 = W::U16::constant(0u16);
    let mut v_4 = v_0;
    W::U16::add_assign(&mut v_4, &v_1);
    let v_5 = WitnessComputationCore::select(&v_2, &v_3, &v_4);
    witness_proxy.set_witness_place_u16(72usize, v_5);
    let v_7 = v_0.widen();
    let v_8 = W::Field::from_integer(v_7);
    let v_9 = W::Field::constant(Mersenne31Field(4u32));
    let mut v_10 = v_8;
    W::Field::add_assign(&mut v_10, &v_9);
    let v_11 = W::Field::constant(Mersenne31Field(65536u32));
    let mut v_12 = v_10;
    W::Field::sub_assign(&mut v_12, &v_11);
    let v_13 = W::Field::inverse_or_zero(&v_12);
    witness_proxy.set_witness_place(74usize, v_13);
    witness_proxy.set_witness_place_boolean(37usize, v_2);
}
/// The row after `eval_fn_11`: its witness places and lookup records.
#[verifier::opaque]
pub open spec fn spec_eval_fn_11<W: WitnessTypeSet<Mersenne31Field>>(
    s: (Seq<W::Field>, Seq<(Seq<W::Field>, W::U16, usize)>, Seq<(Seq<W::Field>, W::U16, W::Mask)>),
    mem: Seq<W::Field>,
    lt: spec_fn(Seq<W::Field>, W::U16, nat) -> Seq<W::Field>,
    mlt: spec_fn(Seq<W::Field>, W::U16, W::Mask, nat) -> Seq<W::Field>,
    orc: spec_fn(Placeholder) -> W::U32,
) -> (Seq<W::Field>, Seq<(Seq<W::Field>, W::U16, usize)>, Seq<(Seq<W::Field>, W::U16, W::Mask)>) {
    let w = s.0;
    let c = s.1;
    let mk = s.2;
    let v_0 = place_as_u16::<Mersenne31Field, W>(mem[32]);
    let v_1 = place_as_u16::<Mersenne31Field, W>(w[37]);
    let v_2 = W::U16::spec_overflowing_add(v_0, v_1).1;
    let v_3 = W::U16::spec_constant(0u16);
    let v_4 = v_0;
    let v_4 = W::U16::spec_plus(v_4, v_1);
    let v_5 = W::U16::spec_select(v_2, v_3, v_4);
    let w = w.update(73, place_of_u16::<Mersenne31Field, W>(v_5));
    let v_7 = W::U16::spec_widen(v_0);
    let v_8 = W::Field::spec_from_integer(v_7);
    let v_9 = W::U16::spec_widen(v_1);
    let v_10 = W::Field::spec_from_integer(v_9);
    let v_11 = v_8;
    let v_11 = W::Field::spec_plus(v_11, v_10);
    let v_12 = W::Field::spec_constant(Mersenne31Field(65536u32));
    let v_13 = v_11;
    let v_13 = W::Field::spec_minus(v_13, v_12);
    let v_14 = W::Field::spec_inverse_or_zero(v_13);
    let w = w.update(75, v_14);
    let w = w.update(38, W::Field::spec_from_mask(v_2));
    (w, c, mk)
}

#[allow(unused_variables)]
fn eval_fn_11<
    'a,
    'b: 'a,
    W: WitnessTypeSet<Mersenne31Field>,
    P: WitnessProxy<Mersenne31Field, W> + 'b,
>(
    witness_proxy: &'a mut P,
) where
    W::Field: Copy,
    W::Mask: Copy,
    W::U32: Copy,
    W::U16: Copy,
    W::U8: Copy,
    W::I32: Copy,
    requires
        old(witness_proxy).witness().len() >= 76,
        old(witness_proxy).memory().len() >= 33,
    ensures
        final(witness_proxy).memory() == old(witness_proxy).memory(),
        final(witness_proxy).witness().len() == old(witness_proxy).witness().len(),
        forall|j: int| 0 <= j < old(witness_proxy).witness().len() && j != 38 && j != 73 && j != 75 ==> #[trigger] final(witness_proxy).witness()[j] == old(witness_proxy).witness()[j],
        row_state::<Mersenne31Field, W, P>(*final(witness_proxy)) == spec_eval_fn_11::<W>(
            row_state::<Mersenne31Field, W, P>(*old(witness_proxy)),
            old(witness_proxy).memory(),
            old(witness_proxy).lookup_table(),
            old(witness_proxy).maybe_lookup_table(),
            old(witness_proxy).oracle_u32(),
        ),
        final(witness_proxy).lookup_table() == old(witness_proxy).lookup_table(),
        final(witness_proxy).maybe_lookup_table() == old(witness_proxy).maybe_lookup_table(),
        final(witness_proxy).oracle_u32() == old(witness_proxy).oracle_u32(),
{
    proof {
        reveal(spec_eval_fn_11);
    }
    let v_0 = witness_proxy.get_memory_place_u16(32usize);
    let v_1 = witness_proxy.get_witness_place_u16(37usize);
    let v_2 = W::U16::overflowing_add(&v_0, &v_1).1;
    let v_3 = W::U16::constant(0u16);
    let mut v_4 = v_0;
    W::U16::add_assign(&mut v_4, &v_1);
    let v_5 = WitnessComputationCore::select(&v_2, &v_3, &v_4);
    witness_proxy.set_witness_place_u16(73usize, v_5);
    let v_7 = v_0.widen();
    let v_8 = W::Field::from_integer(v_7);
    let v_9 = v_1.widen();
    let v_10 = W::Field::from_integer(v_9);
    let mut v_11 = v_8;
    W::Field::add_assign(&mut v_11, &v_10);
    let v_12 = W::Field::constant(Mersenne31Field(65536u32));
    let mut v_13 = v_11;
    W::Field::sub_assign(&mut v_13, &v_12);
    let v_14 = W::Field::inverse_or_zero(&v_13);
    witness_proxy.set_witness_place(75usize, v_14);
    witness_proxy.set_witness_place_boolean(38usize, v_2);
}
/// The row after `eval_fn_12`: its witness places and lookup records.
#[verifier::opaque]
pub open spec fn spec_eval_fn_12<W: WitnessTypeSet<Mersenne31Field>>(
    s: (Seq<W::Field>, Seq<(Seq<W::Field>, W::U16, usize)>, Seq<(Seq<W::Field>, W::U16, W::Mask)>),
    mem: Seq<W::Field>,
    lt: spec_fn(Seq<W::Field>, W::U16, nat) -> Seq<W::Field>,
    mlt: spec_fn(Seq<W::Field>, W::U16, W::Mask, nat) -> Seq<W::Field>,
    orc: spec_fn(Placeholder) -> W::U32,
) -> (Seq<W::Field>, Seq<(Seq<W::Field>, W::U16, usize)>, Seq<(Seq<W::Field>, W::U16, W::Mask)>) {
    let w = s.0;
    let c = s.1;
    let mk = s.2;
    let v_0 = place_as_u16::<Mersenne31Field, W>(mem[8]);
    let v_1 = W::U16::spec_truncate(v_0);
    let w = w.update(76, place_of_u8::<Mersenne31Field, W>(v_1));
    (w, c, mk)
}

#[allow(unused_variables)]
fn eval_fn_12<
    'a,
    'b: 'a,
    W: WitnessTypeSet<Mersenne31Field>,
    P: WitnessProxy<Mersenne31Field, W> + 'b,
>(
    witness_proxy: &'a mut P,
) where
    W::Field: Copy,
    W::Mask: Copy,
    W::U32: Copy,
    W::U16: Copy,
    W::U8: Copy,
    W::I32: Copy,
    requires
        old(witness_proxy).witness().len() >= 77,
        old(witness_proxy).memory().len() >= 9,
    ensures
        final(witness_proxy).memory() == old(witness_proxy).memory(),
        final(witness_proxy).witness().len() == old(witness_proxy).witness().len(),
        forall|j: int| 0 <= j < old(witness_proxy).witness().len() && j != 76 ==> #[trigger] final(witness_proxy).witness()[j] == old(witness_proxy).witness()[j],
        row_state::<Mersenne31Field, W, P>(*final(witness_proxy)) == spec_eval_fn_12::<W>(
            row_state::<Mersenne31Field, W, P>(*old(witness_proxy)),
            old(witness_proxy).memory(),
            old(witness_proxy).lookup_table(),
            old(witness_proxy).maybe_lookup_table(),
            old(witness_proxy).oracle_u32(),
        ),
        final(witness_proxy).lookup_table() == old(witness_proxy).lookup_table(),
        final(witness_proxy).maybe_lookup_table() == old(witness_proxy).maybe_lookup_table(),
        final(witness_proxy).oracle_u32() == old(witness_proxy).oracle_u32(),
{
    proof {
        reveal(spec_eval_fn_12);
    }
    let v_0 = witness_proxy.get_memory_place_u16(8usize);
    let v_1 = v_0.truncate();
    witness_proxy.set_witness_place_u8(76usize, v_1);
}
/// The row after `eval_fn_13`: its witness places and lookup records.
#[verifier::opaque]
pub open spec fn spec_eval_fn_13<W: WitnessTypeSet<Mersenne31Field>>(
    s: (Seq<W::Field>, Seq<(Seq<W::Field>, W::U16, usize)>, Seq<(Seq<W::Field>, W::U16, W::Mask)>),
    mem: Seq<W::Field>,
    lt: spec_fn(Seq<W::Field>, W::U16, nat) -> Seq<W::Field>,
    mlt: spec_fn(Seq<W::Field>, W::U16, W::Mask, nat) -> Seq<W::Field>,
    orc: spec_fn(Placeholder) -> W::U32,
) -> (Seq<W::Field>, Seq<(Seq<W::Field>, W::U16, usize)>, Seq<(Seq<W::Field>, W::U16, W::Mask)>) {
    let w = s.0;
    let c = s.1;
    let mk = s.2;
    let v_0 = mem[9];
    let v_1 = W::U16::spec_constant(16u16);
    let v_2 = lt(seq![v_0], v_1, 2);
    let c = c.push((seq![v_0], v_1, 0usize));
    let v_3 = v_2[0];
    let w = w.update(50, v_3);
    let v_5 = v_2[1];
    let w = w.update(51, v_5);
    (w, c, mk)
}

#[allow(unused_variables)]
fn eval_fn_13<
    'a,
    'b: 'a,
    W: WitnessTypeSet<Mersenne31Field>,
    P: WitnessProxy<Mersenne31Field, W> + 'b,
>(
    witness_proxy: &'a mut P,
) where
    W::Field: Copy,
    W::Mask: Copy,
    W::U32: Copy,
    W::U16: Copy,
    W::U8: Copy,
    W::I32: Copy,
    requires
        old(witness_proxy).witness().len() >= 52,
        old(witness_proxy).memory().len() >= 10,
    ensures
        final(witness_proxy).memory() == old(witness_proxy).memory(),
        final(witness_proxy).witness().len() == old(witness_proxy).witness().len(),
        forall|j: int| 0 <= j < old(witness_proxy).witness().len() && j != 50 && j != 51 ==> #[trigger] final(witness_proxy).witness()[j] == old(witness_proxy).witness()[j],
        row_state::<Mersenne31Field, W, P>(*final(witness_proxy)) == spec_eval_fn_13::<W>(
            row_state::<Mersenne31Field, W, P>(*old(witness_proxy)),
            old(witness_proxy).memory(),
            old(witness_proxy).lookup_table(),
            old(witness_proxy).maybe_lookup_table(),
            old(witness_proxy).oracle_u32(),
        ),
        final(witness_proxy).lookup_table() == old(witness_proxy).lookup_table(),
        final(witness_proxy).maybe_lookup_table() == old(witness_proxy).maybe_lookup_table(),
        final(witness_proxy).oracle_u32() == old(witness_proxy).oracle_u32(),
{
    proof {
        reveal(spec_eval_fn_13);
    }
    let v_0 = witness_proxy.get_memory_place(9usize);
    let v_1 = W::U16::constant(16u16);
    let v_2_inputs = [v_0];
    proof {
        assert(v_2_inputs@ =~= seq![v_0]);
    }
    let v_2 = witness_proxy.lookup::<1usize, 2usize>(&v_2_inputs, v_1, 0usize);
    let v_3 = v_2[0usize];
    witness_proxy.set_witness_place(50usize, v_3);
    let v_5 = v_2[1usize];
    witness_proxy.set_witness_place(51usize, v_5);
}
/// The row after `eval_fn_14`: its witness places and lookup records.
#[verifier::opaque]
pub open spec fn spec_eval_fn_14<W: WitnessTypeSet<Mersenne31Field>>(
    s: (Seq<W::Field>, Seq<(Seq<W::Field>, W::U16, usize)>, Seq<(Seq<W::Field>, W::U16, W::Mask)>),
    mem: Seq<W::Field>,
    lt: spec_fn(Seq<W::Field>, W::U16, nat) -> Seq<W::Field>,
    mlt: spec_fn(Seq<W::Field>, W::U16, W::Mask, nat) -> Seq<W::Field>,
    orc: spec_fn(Placeholder) -> W::U32,
) -> (Seq<W::Field>, Seq<(Seq<W::Field>, W::U16, usize)>, Seq<(Seq<W::Field>, W::U16, W::Mask)>) {
    let w = s.0;
    let c = s.1;
    let mk = s.2;
    let v_0 = place_as_u16::<Mersenne31Field, W>(w[71]);
    let v_1 = W::U16::spec_truncate(v_0);
    let w = w.update(77, place_of_u8::<Mersenne31Field, W>(v_1));
    (w, c, mk)
}

#[allow(unused_variables)]
fn eval_fn_14<
    'a,
    'b: 'a,
    W: WitnessTypeSet<Mersenne31Field>,
    P: WitnessProxy<Mersenne31Field, W> + 'b,
>(
    witness_proxy: &'a mut P,
) where
    W::Field: Copy,
    W::Mask: Copy,
    W::U32: Copy,
    W::U16: Copy,
    W::U8: Copy,
    W::I32: Copy,
    requires
        old(witness_proxy).witness().len() >= 78,
    ensures
        final(witness_proxy).memory() == old(witness_proxy).memory(),
        final(witness_proxy).witness().len() == old(witness_proxy).witness().len(),
        forall|j: int| 0 <= j < old(witness_proxy).witness().len() && j != 77 ==> #[trigger] final(witness_proxy).witness()[j] == old(witness_proxy).witness()[j],
        row_state::<Mersenne31Field, W, P>(*final(witness_proxy)) == spec_eval_fn_14::<W>(
            row_state::<Mersenne31Field, W, P>(*old(witness_proxy)),
            old(witness_proxy).memory(),
            old(witness_proxy).lookup_table(),
            old(witness_proxy).maybe_lookup_table(),
            old(witness_proxy).oracle_u32(),
        ),
        final(witness_proxy).lookup_table() == old(witness_proxy).lookup_table(),
        final(witness_proxy).maybe_lookup_table() == old(witness_proxy).maybe_lookup_table(),
        final(witness_proxy).oracle_u32() == old(witness_proxy).oracle_u32(),
{
    proof {
        reveal(spec_eval_fn_14);
    }
    let v_0 = witness_proxy.get_witness_place_u16(71usize);
    let v_1 = v_0.truncate();
    witness_proxy.set_witness_place_u8(77usize, v_1);
}
/// The row after `eval_fn_15`: its witness places and lookup records.
#[verifier::opaque]
pub open spec fn spec_eval_fn_15<W: WitnessTypeSet<Mersenne31Field>>(
    s: (Seq<W::Field>, Seq<(Seq<W::Field>, W::U16, usize)>, Seq<(Seq<W::Field>, W::U16, W::Mask)>),
    mem: Seq<W::Field>,
    lt: spec_fn(Seq<W::Field>, W::U16, nat) -> Seq<W::Field>,
    mlt: spec_fn(Seq<W::Field>, W::U16, W::Mask, nat) -> Seq<W::Field>,
    orc: spec_fn(Placeholder) -> W::U32,
) -> (Seq<W::Field>, Seq<(Seq<W::Field>, W::U16, usize)>, Seq<(Seq<W::Field>, W::U16, W::Mask)>) {
    let w = s.0;
    let c = s.1;
    let mk = s.2;
    let v_0 = w[52];
    let v_1 = W::U16::spec_constant(16u16);
    let v_2 = lt(seq![v_0], v_1, 2);
    let c = c.push((seq![v_0], v_1, 1usize));
    let v_3 = v_2[0];
    let w = w.update(53, v_3);
    let v_5 = v_2[1];
    let w = w.update(54, v_5);
    (w, c, mk)
}

#[allow(unused_variables)]
fn eval_fn_15<
    'a,
    'b: 'a,
    W: WitnessTypeSet<Mersenne31Field>,
    P: WitnessProxy<Mersenne31Field, W> + 'b,
>(
    witness_proxy: &'a mut P,
) where
    W::Field: Copy,
    W::Mask: Copy,
    W::U32: Copy,
    W::U16: Copy,
    W::U8: Copy,
    W::I32: Copy,
    requires
        old(witness_proxy).witness().len() >= 55,
    ensures
        final(witness_proxy).memory() == old(witness_proxy).memory(),
        final(witness_proxy).witness().len() == old(witness_proxy).witness().len(),
        forall|j: int| 0 <= j < old(witness_proxy).witness().len() && j != 53 && j != 54 ==> #[trigger] final(witness_proxy).witness()[j] == old(witness_proxy).witness()[j],
        row_state::<Mersenne31Field, W, P>(*final(witness_proxy)) == spec_eval_fn_15::<W>(
            row_state::<Mersenne31Field, W, P>(*old(witness_proxy)),
            old(witness_proxy).memory(),
            old(witness_proxy).lookup_table(),
            old(witness_proxy).maybe_lookup_table(),
            old(witness_proxy).oracle_u32(),
        ),
        final(witness_proxy).lookup_table() == old(witness_proxy).lookup_table(),
        final(witness_proxy).maybe_lookup_table() == old(witness_proxy).maybe_lookup_table(),
        final(witness_proxy).oracle_u32() == old(witness_proxy).oracle_u32(),
{
    proof {
        reveal(spec_eval_fn_15);
    }
    let v_0 = witness_proxy.get_witness_place(52usize);
    let v_1 = W::U16::constant(16u16);
    let v_2_inputs = [v_0];
    proof {
        assert(v_2_inputs@ =~= seq![v_0]);
    }
    let v_2 = witness_proxy.lookup::<1usize, 2usize>(&v_2_inputs, v_1, 1usize);
    let v_3 = v_2[0usize];
    witness_proxy.set_witness_place(53usize, v_3);
    let v_5 = v_2[1usize];
    witness_proxy.set_witness_place(54usize, v_5);
}
/// The row after `eval_fn_16`: its witness places and lookup records.
#[verifier::opaque]
pub open spec fn spec_eval_fn_16<W: WitnessTypeSet<Mersenne31Field>>(
    s: (Seq<W::Field>, Seq<(Seq<W::Field>, W::U16, usize)>, Seq<(Seq<W::Field>, W::U16, W::Mask)>),
    mem: Seq<W::Field>,
    lt: spec_fn(Seq<W::Field>, W::U16, nat) -> Seq<W::Field>,
    mlt: spec_fn(Seq<W::Field>, W::U16, W::Mask, nat) -> Seq<W::Field>,
    orc: spec_fn(Placeholder) -> W::U32,
) -> (Seq<W::Field>, Seq<(Seq<W::Field>, W::U16, usize)>, Seq<(Seq<W::Field>, W::U16, W::Mask)>) {
    let w = s.0;
    let c = s.1;
    let mk = s.2;
    let v_0 = place_as_mask::<Mersenne31Field, W>(w[22]);
    let v_1 = place_as_u16::<Mersenne31Field, W>(mem[8]);
    let v_2 = place_as_u16::<Mersenne31Field, W>(mem[9]);
    let v_3 = place_as_u16::<Mersenne31Field, W>(w[71]);
    let v_4 = place_as_u16::<Mersenne31Field, W>(w[52]);
    let v_5 = W::U16::spec_widen(v_2);
    let v_6 = W::U32::spec_shift_left(v_5, 16u32);
    let v_7 = W::U16::spec_widen(v_1);
    let v_8 = v_6;
    let v_8 = W::U32::spec_plus(v_8, v_7);
    let v_9 = W::U16::spec_widen(v_4);
    let v_10 = W::U32::spec_shift_left(v_9, 16u32);
    let v_11 = W::U16::spec_widen(v_3);
    let v_12 = v_10;
    let v_12 = W::U32::spec_plus(v_12, v_11);
    let v_13 = v_8;
    let v_13 = W::U32::spec_plus(v_13, v_12);
    let v_14 = W::U32::spec_truncate(v_13);
    let w = w.update(11, place_of_u16::<Mersenne31Field, W>(W::U16::spec_select(v_0, v_14, place_as_u16::<Mersenne31Field, W>(w[11]))));
    let v_16 = W::U32::spec_shift_right(v_13, 16u32);
    let v_17 = W::U32::spec_truncate(v_16);
    let w = w.update(12, place_of_u16::<Mersenne31Field, W>(W::U16::spec_select(v_0, v_17, place_as_u16::<Mersenne31Field, W>(w[12]))));
    let v_19 = W::U32::spec_overflowing_add(v_8, v_12).1;
    let w = w.update(39, W::Field::spec_from_mask(W::Mask::spec_select(v_0, v_19, place_as_mask::<Mersenne31Field, W>(w[39]))));
    (w, c, mk)
}

#[allow(unused_variables)]
fn eval_fn_16<
    'a,
    'b: 'a,
    W: WitnessTypeSet<Mersenne31Field>,
    P: WitnessProxy<Mersenne31Field, W> + 'b,
>(
    witness_proxy: &'a mut P,
) where
    W::Field: Copy,
    W::Mask: Copy,
    W::U32: Copy,
    W::U16: Copy,
    W::U8: Copy,
    W::I32: Copy,
    requires
        old(witness_proxy).witness().len() >= 72,
        old(witness_proxy).memory().len() >= 10,
    ensures
        final(witness_proxy).memory() == old(witness_proxy).memory(),
        final(witness_proxy).witness().len() == old(witness_proxy).witness().len(),
        forall|j: int| 0 <= j < old(witness_proxy).witness().len() && j != 11 && j != 12 && j != 39 ==> #[trigger] final(witness_proxy).witness()[j] == old(witness_proxy).witness()[j],
        row_state::<Mersenne31Field, W, P>(*final(witness_proxy)) == spec_eval_fn_16::<W>(
            row_state::<Mersenne31Field, W, P>(*old(witness_proxy)),
            old(witness_proxy).memory(),
            old(witness_proxy).lookup_table(),
            old(witness_proxy).maybe_lookup_table(),
            old(witness_proxy).oracle_u32(),
        ),
        final(witness_proxy).lookup_table() == old(witness_proxy).lookup_table(),
        final(witness_proxy).maybe_lookup_table() == old(witness_proxy).maybe_lookup_table(),
        final(witness_proxy).oracle_u32() == old(witness_proxy).oracle_u32(),
{
    proof {
        reveal(spec_eval_fn_16);
    }
    let v_0 = witness_proxy.get_witness_place_boolean(22usize);
    let v_1 = witness_proxy.get_memory_place_u16(8usize);
    let v_2 = witness_proxy.get_memory_place_u16(9usize);
    let v_3 = witness_proxy.get_witness_place_u16(71usize);
    let v_4 = witness_proxy.get_witness_place_u16(52usize);
    let v_5 = v_2.widen();
    let v_6 = v_5.shl(16u32);
    let v_7 = v_1.widen();
    let mut v_8 = v_6;
    W::U32::add_assign(&mut v_8, &v_7);
    let v_9 = v_4.widen();
    let v_10 = v_9.shl(16u32);
    let v_11 = v_3.widen();
    let mut v_12 = v_10;
    W::U32::add_assign(&mut v_12, &v_11);
    let mut v_13 = v_8;
    W::U32::add_assign(&mut v_13, &v_12);
    let v_14 = v_13.truncate();
    witness_proxy.set_witness_place_u16(
        11usize,
        W::U16::select(&v_0, &v_14, &witness_proxy.get_witness_place_u16(11usize)),
    );
    let v_16 = v_13.shr(16u32);
    let v_17 = v_16.truncate();
    witness_proxy.set_witness_place_u16(
        12usize,
        W::U16::select(&v_0, &v_17, &witness_proxy.get_witness_place_u16(12usize)),
    );
    let v_19 = W::U32::overflowing_add(&v_8, &v_12).1;
    witness_proxy.set_witness_place_boolean(
        39usize,
        W::Mask::select(
            &v_0,
            &v_19,
            &witness_proxy.get_witness_place_boolean(39usize),
        ),
    );
}
/// The row after `eval_fn_17`: its witness places and lookup records.
#[verifier::opaque]
pub open spec fn spec_eval_fn_17<W: WitnessTypeSet<Mersenne31Field>>(
    s: (Seq<W::Field>, Seq<(Seq<W::Field>, W::U16, usize)>, Seq<(Seq<W::Field>, W::U16, W::Mask)>),
    mem: Seq<W::Field>,
    lt: spec_fn(Seq<W::Field>, W::U16, nat) -> Seq<W::Field>,
    mlt: spec_fn(Seq<W::Field>, W::U16, W::Mask, nat) -> Seq<W::Field>,
    orc: spec_fn(Placeholder) -> W::U32,
) -> (Seq<W::Field>, Seq<(Seq<W::Field>, W::U16, usize)>, Seq<(Seq<W::Field>, W::U16, W::Mask)>) {
    let w = s.0;
    let c = s.1;
    let mk = s.2;
    let v_0 = place_as_mask::<Mersenne31Field, W>(w[32]);
    let v_1 = place_as_u16::<Mersenne31Field, W>(mem[8]);
    let v_2 = place_as_u16::<Mersenne31Field, W>(mem[9]);
    let v_3 = place_as_u16::<Mersenne31Field, W>(w[71]);
    let v_4 = place_as_u16::<Mersenne31Field, W>(w[52]);
    let v_5 = W::U16::spec_widen(v_2);
    let v_6 = W::U32::spec_shift_left(v_5, 16u32);
    let v_7 = W::U16::spec_widen(v_1);
    let v_8 = v_6;
    let v_8 = W::U32::spec_plus(v_8, v_7);
    let v_9 = W::U16::spec_widen(v_4);
    let v_10 = W::U32::spec_shift_left(v_9, 16u32);
    let v_11 = W::U16::spec_widen(v_3);
    let v_12 = v_10;
    let v_12 = W::U32::spec_plus(v_12, v_11);
    let v_13 = v_8;
    let v_13 = W::U32::spec_minus(v_13, v_12);
    let v_14 = W::U32::spec_truncate(v_13);
    let w = w.update(11, place_of_u16::<Mersenne31Field, W>(W::U16::spec_select(v_0, v_14, place_as_u16::<Mersenne31Field, W>(w[11]))));
    let v_16 = W::U32::spec_shift_right(v_13, 16u32);
    let v_17 = W::U32::spec_truncate(v_16);
    let w = w.update(12, place_of_u16::<Mersenne31Field, W>(W::U16::spec_select(v_0, v_17, place_as_u16::<Mersenne31Field, W>(w[12]))));
    let v_19 = W::U32::spec_overflowing_sub(v_8, v_12).1;
    let w = w.update(39, W::Field::spec_from_mask(W::Mask::spec_select(v_0, v_19, place_as_mask::<Mersenne31Field, W>(w[39]))));
    (w, c, mk)
}

#[allow(unused_variables)]
fn eval_fn_17<
    'a,
    'b: 'a,
    W: WitnessTypeSet<Mersenne31Field>,
    P: WitnessProxy<Mersenne31Field, W> + 'b,
>(
    witness_proxy: &'a mut P,
) where
    W::Field: Copy,
    W::Mask: Copy,
    W::U32: Copy,
    W::U16: Copy,
    W::U8: Copy,
    W::I32: Copy,
    requires
        old(witness_proxy).witness().len() >= 72,
        old(witness_proxy).memory().len() >= 10,
    ensures
        final(witness_proxy).memory() == old(witness_proxy).memory(),
        final(witness_proxy).witness().len() == old(witness_proxy).witness().len(),
        forall|j: int| 0 <= j < old(witness_proxy).witness().len() && j != 11 && j != 12 && j != 39 ==> #[trigger] final(witness_proxy).witness()[j] == old(witness_proxy).witness()[j],
        row_state::<Mersenne31Field, W, P>(*final(witness_proxy)) == spec_eval_fn_17::<W>(
            row_state::<Mersenne31Field, W, P>(*old(witness_proxy)),
            old(witness_proxy).memory(),
            old(witness_proxy).lookup_table(),
            old(witness_proxy).maybe_lookup_table(),
            old(witness_proxy).oracle_u32(),
        ),
        final(witness_proxy).lookup_table() == old(witness_proxy).lookup_table(),
        final(witness_proxy).maybe_lookup_table() == old(witness_proxy).maybe_lookup_table(),
        final(witness_proxy).oracle_u32() == old(witness_proxy).oracle_u32(),
{
    proof {
        reveal(spec_eval_fn_17);
    }
    let v_0 = witness_proxy.get_witness_place_boolean(32usize);
    let v_1 = witness_proxy.get_memory_place_u16(8usize);
    let v_2 = witness_proxy.get_memory_place_u16(9usize);
    let v_3 = witness_proxy.get_witness_place_u16(71usize);
    let v_4 = witness_proxy.get_witness_place_u16(52usize);
    let v_5 = v_2.widen();
    let v_6 = v_5.shl(16u32);
    let v_7 = v_1.widen();
    let mut v_8 = v_6;
    W::U32::add_assign(&mut v_8, &v_7);
    let v_9 = v_4.widen();
    let v_10 = v_9.shl(16u32);
    let v_11 = v_3.widen();
    let mut v_12 = v_10;
    W::U32::add_assign(&mut v_12, &v_11);
    let mut v_13 = v_8;
    W::U32::sub_assign(&mut v_13, &v_12);
    let v_14 = v_13.truncate();
    witness_proxy.set_witness_place_u16(
        11usize,
        W::U16::select(&v_0, &v_14, &witness_proxy.get_witness_place_u16(11usize)),
    );
    let v_16 = v_13.shr(16u32);
    let v_17 = v_16.truncate();
    witness_proxy.set_witness_place_u16(
        12usize,
        W::U16::select(&v_0, &v_17, &witness_proxy.get_witness_place_u16(12usize)),
    );
    let v_19 = W::U32::overflowing_sub(&v_8, &v_12).1;
    witness_proxy.set_witness_place_boolean(
        39usize,
        W::Mask::select(
            &v_0,
            &v_19,
            &witness_proxy.get_witness_place_boolean(39usize),
        ),
    );
}
/// The row after `eval_fn_18`: its witness places and lookup records.
#[verifier::opaque]
pub open spec fn spec_eval_fn_18<W: WitnessTypeSet<Mersenne31Field>>(
    s: (Seq<W::Field>, Seq<(Seq<W::Field>, W::U16, usize)>, Seq<(Seq<W::Field>, W::U16, W::Mask)>),
    mem: Seq<W::Field>,
    lt: spec_fn(Seq<W::Field>, W::U16, nat) -> Seq<W::Field>,
    mlt: spec_fn(Seq<W::Field>, W::U16, W::Mask, nat) -> Seq<W::Field>,
    orc: spec_fn(Placeholder) -> W::U32,
) -> (Seq<W::Field>, Seq<(Seq<W::Field>, W::U16, usize)>, Seq<(Seq<W::Field>, W::U16, W::Mask)>) {
    let w = s.0;
    let c = s.1;
    let mk = s.2;
    let v_0 = place_as_u16::<Mersenne31Field, W>(mem[31]);
    let v_1 = place_as_u16::<Mersenne31Field, W>(mem[32]);
    let v_2 = place_as_u16::<Mersenne31Field, W>(w[3]);
    let v_3 = place_as_u16::<Mersenne31Field, W>(w[4]);
    let v_4 = place_as_mask::<Mersenne31Field, W>(w[23]);
    let v_5 = W::U16::spec_widen(v_1);
    let v_6 = W::U32::spec_shift_left(v_5, 16u32);
    let v_7 = W::U16::spec_widen(v_0);
    let v_8 = v_6;
    let v_8 = W::U32::spec_plus(v_8, v_7);
    let v_9 = W::U16::spec_widen(v_3);
    let v_10 = W::U32::spec_shift_left(v_9, 16u32);
    let v_11 = W::U16::spec_widen(v_2);
    let v_12 = v_10;
    let v_12 = W::U32::spec_plus(v_12, v_11);
    let v_13 = v_8;
    let v_13 = W::U32::spec_plus(v_13, v_12);
    let v_14 = W::U32::spec_truncate(v_13);
    let w = w.update(11, place_of_u16::<Mersenne31Field, W>(W::U16::spec_select(v_4, v_14, place_as_u16::<Mersenne31Field, W>(w[11]))));
    let v_16 = W::U32::spec_shift_right(v_13, 16u32);
    let v_17 = W::U32::spec_truncate(v_16);
    let w = w.update(12, place_of_u16::<Mersenne31Field, W>(W::U16::spec_select(v_4, v_17, place_as_u16::<Mersenne31Field, W>(w[12]))));
    let v_19 = W::U32::spec_overflowing_add(v_8, v_12).1;
    let w = w.update(39, W::Field::spec_from_mask(W::Mask::spec_select(v_4, v_19, place_as_mask::<Mersenne31Field, W>(w[39]))));
    (w, c, mk)
}

#[allow(unused_variables)]
fn eval_fn_18<
    'a,
    'b: 'a,
    W: WitnessTypeSet<Mersenne31Field>,
    P: WitnessProxy<Mersenne31Field, W> + 'b,
>(
    witness_proxy: &'a mut P,
) where
    W::Field: Copy,
    W::Mask: Copy,
    W::U32: Copy,
    W::U16: Copy,
    W::U8: Copy,
    W::I32: Copy,
    requires
        old(witness_proxy).witness().len() >= 40,
        old(witness_proxy).memory().len() >= 33,
    ensures
        final(witness_proxy).memory() == old(witness_proxy).memory(),
        final(witness_proxy).witness().len() == old(witness_proxy).witness().len(),
        forall|j: int| 0 <= j < old(witness_proxy).witness().len() && j != 11 && j != 12 && j != 39 ==> #[trigger] final(witness_proxy).witness()[j] == old(witness_proxy).witness()[j],
        row_state::<Mersenne31Field, W, P>(*final(witness_proxy)) == spec_eval_fn_18::<W>(
            row_state::<Mersenne31Field, W, P>(*old(witness_proxy)),
            old(witness_proxy).memory(),
            old(witness_proxy).lookup_table(),
            old(witness_proxy).maybe_lookup_table(),
            old(witness_proxy).oracle_u32(),
        ),
        final(witness_proxy).lookup_table() == old(witness_proxy).lookup_table(),
        final(witness_proxy).maybe_lookup_table() == old(witness_proxy).maybe_lookup_table(),
        final(witness_proxy).oracle_u32() == old(witness_proxy).oracle_u32(),
{
    proof {
        reveal(spec_eval_fn_18);
    }
    let v_0 = witness_proxy.get_memory_place_u16(31usize);
    let v_1 = witness_proxy.get_memory_place_u16(32usize);
    let v_2 = witness_proxy.get_witness_place_u16(3usize);
    let v_3 = witness_proxy.get_witness_place_u16(4usize);
    let v_4 = witness_proxy.get_witness_place_boolean(23usize);
    let v_5 = v_1.widen();
    let v_6 = v_5.shl(16u32);
    let v_7 = v_0.widen();
    let mut v_8 = v_6;
    W::U32::add_assign(&mut v_8, &v_7);
    let v_9 = v_3.widen();
    let v_10 = v_9.shl(16u32);
    let v_11 = v_2.widen();
    let mut v_12 = v_10;
    W::U32::add_assign(&mut v_12, &v_11);
    let mut v_13 = v_8;
    W::U32::add_assign(&mut v_13, &v_12);
    let v_14 = v_13.truncate();
    witness_proxy.set_witness_place_u16(
        11usize,
        W::U16::select(&v_4, &v_14, &witness_proxy.get_witness_place_u16(11usize)),
    );
    let v_16 = v_13.shr(16u32);
    let v_17 = v_16.truncate();
    witness_proxy.set_witness_place_u16(
        12usize,
        W::U16::select(&v_4, &v_17, &witness_proxy.get_witness_place_u16(12usize)),
    );
    let v_19 = W::U32::overflowing_add(&v_8, &v_12).1;
    witness_proxy.set_witness_place_boolean(
        39usize,
        W::Mask::select(
            &v_4,
            &v_19,
            &witness_proxy.get_witness_place_boolean(39usize),
        ),
    );
}
/// The row after `eval_fn_19`: its witness places and lookup records.
#[verifier::opaque]
pub open spec fn spec_eval_fn_19<W: WitnessTypeSet<Mersenne31Field>>(
    s: (Seq<W::Field>, Seq<(Seq<W::Field>, W::U16, usize)>, Seq<(Seq<W::Field>, W::U16, W::Mask)>),
    mem: Seq<W::Field>,
    lt: spec_fn(Seq<W::Field>, W::U16, nat) -> Seq<W::Field>,
    mlt: spec_fn(Seq<W::Field>, W::U16, W::Mask, nat) -> Seq<W::Field>,
    orc: spec_fn(Placeholder) -> W::U32,
) -> (Seq<W::Field>, Seq<(Seq<W::Field>, W::U16, usize)>, Seq<(Seq<W::Field>, W::U16, W::Mask)>) {
    let w = s.0;
    let c = s.1;
    let mk = s.2;
    let v_0 = place_as_u16::<Mersenne31Field, W>(w[5]);
    let v_1 = place_as_mask::<Mersenne31Field, W>(w[24]);
    let v_2 = w[76];
    let v_3 = w[77];
    let v_4 = W::Field::spec_constant(Mersenne31Field(0u32));
    let v_5 = W::Field::spec_constant(Mersenne31Field(1u32));
    let v_6 = v_4;
    let v_6 = W::Field::spec_add_product(v_6, v_5, v_2);
    let v_7 = v_4;
    let v_7 = W::Field::spec_add_product(v_7, v_5, v_3);
    let v_8 = mlt(seq![v_6, v_7], v_0, v_1, 1);
    let mk = mk.push((seq![v_6, v_7], v_0, v_1));
    let v_9 = v_8[0];
    let w = w.update(78, W::Field::spec_select(v_1, v_9, w[78]));
    (w, c, mk)
}

#[allow(unused_variables)]
fn eval_fn_19<
    'a,
    'b: 'a,
    W: WitnessTypeSet<Mersenne31Field>,
    P: WitnessProxy<Mersenne31Field, W> + 'b,
>(
    witness_proxy: &'a mut P,
) where
    W::Field: Copy,
    W::Mask: Copy,
    W::U32: Copy,
    W::U16: Copy,
    W::U8: Copy,
    W::I32: Copy,
    requires
        old(witness_proxy).witness().len() >= 79,
    ensures
        final(witness_proxy).memory() == old(witness_proxy).memory(),
        final(witness_proxy).witness().len() == old(witness_proxy).witness().len(),
        forall|j: int| 0 <= j < old(witness_proxy).witness().len() && j != 78 ==> #[trigger] final(witness_proxy).witness()[j] == old(witness_proxy).witness()[j],
        row_state::<Mersenne31Field, W, P>(*final(witness_proxy)) == spec_eval_fn_19::<W>(
            row_state::<Mersenne31Field, W, P>(*old(witness_proxy)),
            old(witness_proxy).memory(),
            old(witness_proxy).lookup_table(),
            old(witness_proxy).maybe_lookup_table(),
            old(witness_proxy).oracle_u32(),
        ),
        final(witness_proxy).lookup_table() == old(witness_proxy).lookup_table(),
        final(witness_proxy).maybe_lookup_table() == old(witness_proxy).maybe_lookup_table(),
        final(witness_proxy).oracle_u32() == old(witness_proxy).oracle_u32(),
{
    proof {
        reveal(spec_eval_fn_19);
    }
    let v_0 = witness_proxy.get_witness_place_u16(5usize);
    let v_1 = witness_proxy.get_witness_place_boolean(24usize);
    let v_2 = witness_proxy.get_witness_place(76usize);
    let v_3 = witness_proxy.get_witness_place(77usize);
    let v_4 = W::Field::constant(Mersenne31Field(0u32));
    let v_5 = W::Field::constant(Mersenne31Field(1u32));
    let mut v_6 = v_4;
    W::Field::add_assign_product(&mut v_6, &v_5, &v_2);
    let mut v_7 = v_4;
    W::Field::add_assign_product(&mut v_7, &v_5, &v_3);
    let v_8_inputs = [v_6, v_7];
    proof {
        assert(v_8_inputs@ =~= seq![v_6, v_7]);
    }
    let v_8 = witness_proxy.maybe_lookup::<2usize, 1usize>(&v_8_inputs, v_0, v_1);
    let v_9 = v_8[0usize];
    witness_proxy.set_witness_place(
        78usize,
        W::Field::select(&v_1, &v_9, &witness_proxy.get_witness_place(78usize)),
    );
}
/// The row after `eval_fn_20`: its witness places and lookup records.
#[verifier::opaque]
pub open spec fn spec_eval_fn_20<W: WitnessTypeSet<Mersenne31Field>>(
    s: (Seq<W::Field>, Seq<(Seq<W::Field>, W::U16, usize)>, Seq<(Seq<W::Field>, W::U16, W::Mask)>),
    mem: Seq<W::Field>,
    lt: spec_fn(Seq<W::Field>, W::U16, nat) -> Seq<W::Field>,
    mlt: spec_fn(Seq<W::Field>, W::U16, W::Mask, nat) -> Seq<W::Field>,
    orc: spec_fn(Placeholder) -> W::U32,
) -> (Seq<W::Field>, Seq<(Seq<W::Field>, W::U16, usize)>, Seq<(Seq<W::Field>, W::U16, W::Mask)>) {
    let w = s.0;
    let c = s.1;
    let mk = s.2;
    let v_0 = place_as_u16::<Mersenne31Field, W>(w[5]);
    let v_1 = place_as_mask::<Mersenne31Field, W>(w[24]);
    let v_2 = mem[8];
    let v_3 = w[71];
    let v_4 = w[76];
    let v_5 = w[77];
    let v_6 = W::Field::spec_constant(Mersenne31Field(0u32));
    let v_7 = W::Field::spec_constant(Mersenne31Field(8388608u32));
    let v_8 = v_6;
    let v_8 = W::Field::spec_add_product(v_8, v_7, v_2);
    let v_9 = W::Field::spec_constant(Mersenne31Field(2139095039u32));
    let v_10 = v_8;
    let v_10 = W::Field::spec_add_product(v_10, v_9, v_4);
    let v_11 = v_6;
    let v_11 = W::Field::spec_add_product(v_11, v_7, v_3);
    let v_12 = v_11;
    let v_12 = W::Field::spec_add_product(v_12, v_9, v_5);
    let v_13 = mlt(seq![v_10, v_12], v_0, v_1, 1);
    let mk = mk.push((seq![v_10, v_12], v_0, v_1));
    let v_14 = v_13[0];
    let w = w.update(79, W::Field::spec_select(v_1, v_14, w[79]));
    (w, c, mk)
}

#[allow(unused_variables)]
fn eval_fn_20<
    'a,
    'b: 'a,
    W: WitnessTypeSet<Mersenne31Field>,
    P: WitnessProxy<Mersenne31Field, W> + 'b,
>(
    witness_proxy: &'a mut P,
) where
    W::Field: Copy,
    W::Mask: Copy,
    W::U32: Copy,
    W::U16: Copy,
    W::U8: Copy,
    W::I32: Copy,
    requires
        old(witness_proxy).witness().len() >= 80,
        old(witness_proxy).memory().len() >= 9,
    ensures
        final(witness_proxy).memory() == old(witness_proxy).memory(),
        final(witness_proxy).witness().len() == old(witness_proxy).witness().len(),
        forall|j: int| 0 <= j < old(witness_proxy).witness().len() && j != 79 ==> #[trigger] final(witness_proxy).witness()[j] == old(witness_proxy).witness()[j],
        row_state::<Mersenne31Field, W, P>(*final(witness_proxy)) == spec_eval_fn_20::<W>(
            row_state::<Mersenne31Field, W, P>(*old(witness_proxy)),
            old(witness_proxy).memory(),
            old(witness_proxy).lookup_table(),
            old(witness_proxy).maybe_lookup_table(),
            old(witness_proxy).oracle_u32(),
        ),
        final(witness_proxy).lookup_table() == old(witness_proxy).lookup_table(),
        final(witness_proxy).maybe_lookup_table() == old(witness_proxy).maybe_lookup_table(),
        final(witness_proxy).oracle_u32() == old(witness_proxy).oracle_u32(),
{
    proof {
        reveal(spec_eval_fn_20);
    }
    let v_0 = witness_proxy.get_witness_place_u16(5usize);
    let v_1 = witness_proxy.get_witness_place_boolean(24usize);
    let v_2 = witness_proxy.get_memory_place(8usize);
    let v_3 = witness_proxy.get_witness_place(71usize);
    let v_4 = witness_proxy.get_witness_place(76usize);
    let v_5 = witness_proxy.get_witness_place(77usize);
    let v_6 = W::Field::constant(Mersenne31Field(0u32));
    let v_7 = W::Field::constant(Mersenne31Field(8388608u32));
    let mut v_8 = v_6;
    W::Field::add_assign_product(&mut v_8, &v_7, &v_2);
    let v_9 = W::Field::constant(Mersenne31Field(2139095039u32));
    let mut v_10 = v_8;
    W::Field::add_assign_product(&mut v_10, &v_9, &v_4);
    let mut v_11 = v_6;
    W::Field::add_assign_product(&mut v_11, &v_7, &v_3);
    let mut v_12 = v_11;
    W::Field::add_assign_product(&mut v_12, &v_9, &v_5);
    let v_13_inputs = [v_10, v_12];
    proof {
        assert(v_13_inputs@ =~= seq![v_10, v_12]);
    }
    let v_13 = witness_proxy.maybe_lookup::<2usize, 1usize>(&v_13_inputs, v_0, v_1);
    let v_14 = v_13[0usize];
    witness_proxy.set_witness_place(
        79usize,
        W::Field::select(&v_1, &v_14, &witness_proxy.get_witness_place(79usize)),
    );
}
/// The row after `eval_fn_21`: its witness places and lookup records.
#[verifier::opaque]
pub open spec fn spec_eval_fn_21<W: WitnessTypeSet<Mersenne31Field>>(
    s: (Seq<W::Field>, Seq<(Seq<W::Field>, W::U16, usize)>, Seq<(Seq<W::Field>, W::U16, W::Mask)>),
    mem: Seq<W::Field>,
    lt: spec_fn(Seq<W::Field>, W::U16, nat) -> Seq<W::Field>,
    mlt: spec_fn(Seq<W::Field>, W::U16, W::Mask, nat) -> Seq<W::Field>,
    orc: spec_fn(Placeholder) -> W::U32,
) -> (Seq<W::Field>, Seq<(Seq<W::Field>, W::U16, usize)>, Seq<(Seq<W::Field>, W::U16, W::Mask)>) {
    let w = s.0;
    let c = s.1;
    let mk = s.2;
    let v_0 = place_as_u16::<Mersenne31Field, W>(w[5]);
    let v_1 = place_as_mask::<Mersenne31Field, W>(w[24]);
    let v_2 = mem[9];
    let v_3 = w[52];
    let v_4 = w[51];
    let v_5 = w[54];
    let v_6 = W::Field::spec_constant(Mersenne31Field(0u32));
    let v_7 = W::Field::spec_constant(Mersenne31Field(1u32));
    let v_8 = v_6;
    let v_8 = W::Field::spec_add_product(v_8, v_7, v_2);
    let v_9 = W::Field::spec_constant(Mersenne31Field(2147483391u32));
    let v_10 = v_8;
    let v_10 = W::Field::spec_add_product(v_10, v_9, v_4);
    let v_11 = v_6;
    let v_11 = W::Field::spec_add_product(v_11, v_7, v_3);
    let v_12 = v_11;
    let v_12 = W::Field::spec_add_product(v_12, v_9, v_5);
    let v_13 = mlt(seq![v_10, v_12], v_0, v_1, 1);
    let mk = mk.push((seq![v_10, v_12], v_0, v_1));
    let v_14 = v_13[0];
    let w = w.update(80, W::Field::spec_select(v_1, v_14, w[80]));
    (w, c, mk)
}

#[allow(unused_variables)]
fn eval_fn_21<
    'a,
    'b: 'a,
    W: WitnessTypeSet<Mersenne31Field>,
    P: WitnessProxy<Mersenne31Field, W> + 'b,
>(
    witness_proxy: &'a mut P,
) where
    W::Field: Copy,
    W::Mask: Copy,
    W::U32: Copy,
    W::U16: Copy,
    W::U8: Copy,
    W::I32: Copy,
    requires
        old(witness_proxy).witness().len() >= 81,
        old(witness_proxy).memory().len() >= 10,
    ensures
        final(witness_proxy).memory() == old(witness_proxy).memory(),
        final(witness_proxy).witness().len() == old(witness_proxy).witness().len(),
        forall|j: int| 0 <= j < old(witness_proxy).witness().len() && j != 80 ==> #[trigger] final(witness_proxy).witness()[j] == old(witness_proxy).witness()[j],
        row_state::<Mersenne31Field, W, P>(*final(witness_proxy)) == spec_eval_fn_21::<W>(
            row_state::<Mersenne31Field, W, P>(*old(witness_proxy)),
            old(witness_proxy).memory(),
            old(witness_proxy).lookup_table(),
            old(witness_proxy).maybe_lookup_table(),
            old(witness_proxy).oracle_u32(),
        ),
        final(witness_proxy).lookup_table() == old(witness_proxy).lookup_table(),
        final(witness_proxy).maybe_lookup_table() == old(witness_proxy).maybe_lookup_table(),
        final(witness_proxy).oracle_u32() == old(witness_proxy).oracle_u32(),
{
    proof {
        reveal(spec_eval_fn_21);
    }
    let v_0 = witness_proxy.get_witness_place_u16(5usize);
    let v_1 = witness_proxy.get_witness_place_boolean(24usize);
    let v_2 = witness_proxy.get_memory_place(9usize);
    let v_3 = witness_proxy.get_witness_place(52usize);
    let v_4 = witness_proxy.get_witness_place(51usize);
    let v_5 = witness_proxy.get_witness_place(54usize);
    let v_6 = W::Field::constant(Mersenne31Field(0u32));
    let v_7 = W::Field::constant(Mersenne31Field(1u32));
    let mut v_8 = v_6;
    W::Field::add_assign_product(&mut v_8, &v_7, &v_2);
    let v_9 = W::Field::constant(Mersenne31Field(2147483391u32));
    let mut v_10 = v_8;
    W::Field::add_assign_product(&mut v_10, &v_9, &v_4);
    let mut v_11 = v_6;
    W::Field::add_assign_product(&mut v_11, &v_7, &v_3);
    let mut v_12 = v_11;
    W::Field::add_assign_product(&mut v_12, &v_9, &v_5);
    let v_13_inputs = [v_10, v_12];
    proof {
        assert(v_13_inputs@ =~= seq![v_10, v_12]);
    }
    let v_13 = witness_proxy.maybe_lookup::<2usize, 1usize>(&v_13_inputs, v_0, v_1);
    let v_14 = v_13[0usize];
    witness_proxy.set_witness_place(
        80usize,
        W::Field::select(&v_1, &v_14, &witness_proxy.get_witness_place(80usize)),
    );
}
/// The row after `eval_fn_22`: its witness places and lookup records.
#[verifier::opaque]
pub open spec fn spec_eval_fn_22<W: WitnessTypeSet<Mersenne31Field>>(
    s: (Seq<W::Field>, Seq<(Seq<W::Field>, W::U16, usize)>, Seq<(Seq<W::Field>, W::U16, W::Mask)>),
    mem: Seq<W::Field>,
    lt: spec_fn(Seq<W::Field>, W::U16, nat) -> Seq<W::Field>,
    mlt: spec_fn(Seq<W::Field>, W::U16, W::Mask, nat) -> Seq<W::Field>,
    orc: spec_fn(Placeholder) -> W::U32,
) -> (Seq<W::Field>, Seq<(Seq<W::Field>, W::U16, usize)>, Seq<(Seq<W::Field>, W::U16, W::Mask)>) {
    let w = s.0;
    let c = s.1;
    let mk = s.2;
    let v_0 = place_as_u16::<Mersenne31Field, W>(w[5]);
    let v_1 = place_as_mask::<Mersenne31Field, W>(w[24]);
    let v_2 = w[51];
    let v_3 = w[54];
    let v_4 = W::Field::spec_constant(Mersenne31Field(0u32));
    let v_5 = W::Field::spec_constant(Mersenne31Field(1u32));
    let v_6 = v_4;
    let v_6 = W::Field::spec_add_product(v_6, v_5, v_2);
    let v_7 = v_4;
    let v_7 = W::Field::spec_add_product(v_7, v_5, v_3);
    let v_8 = mlt(seq![v_6, v_7], v_0, v_1, 1);
    let mk = mk.push((seq![v_6, v_7], v_0, v_1));
    let v_9 = v_8[0];
    let w = w.update(81, W::Field::spec_select(v_1, v_9, w[81]));
    (w, c, mk)
}

#[allow(unused_variables)]
fn eval_fn_22<
    'a,
    'b: 'a,
    W: WitnessTypeSet<Mersenne31Field>,
    P: WitnessProxy<Mersenne31Field, W> + 'b,
>(
    witness_proxy: &'a mut P,
) where
    W::Field: Copy,
    W::Mask: Copy,
    W::U32: Copy,
    W::U16: Copy,
    W::U8: Copy,
    W::I32: Copy,
    requires
        old(witness_proxy).witness().len() >= 82,
    ensures
        final(witness_proxy).memory() == old(witness_proxy).memory(),
        final(witness_proxy).witness().len() == old(witness_proxy).witness().len(),
        forall|j: int| 0 <= j < old(witness_proxy).witness().len() && j != 81 ==> #[trigger] final(witness_proxy).witness()[j] == old(witness_proxy).witness()[j],
        row_state::<Mersenne31Field, W, P>(*final(witness_proxy)) == spec_eval_fn_22::<W>(
            row_state::<Mersenne31Field, W, P>(*old(witness_proxy)),
            old(witness_proxy).memory(),
            old(witness_proxy).lookup_table(),
            old(witness_proxy).maybe_lookup_table(),
            old(witness_proxy).oracle_u32(),
        ),
        final(witness_proxy).lookup_table() == old(witness_proxy).lookup_table(),
        final(witness_proxy).maybe_lookup_table() == old(witness_proxy).maybe_lookup_table(),
        final(witness_proxy).oracle_u32() == old(witness_proxy).oracle_u32(),
{
    proof {
        reveal(spec_eval_fn_22);
    }
    let v_0 = witness_proxy.get_witness_place_u16(5usize);
    let v_1 = witness_proxy.get_witness_place_boolean(24usize);
    let v_2 = witness_proxy.get_witness_place(51usize);
    let v_3 = witness_proxy.get_witness_place(54usize);
    let v_4 = W::Field::constant(Mersenne31Field(0u32));
    let v_5 = W::Field::constant(Mersenne31Field(1u32));
    let mut v_6 = v_4;
    W::Field::add_assign_product(&mut v_6, &v_5, &v_2);
    let mut v_7 = v_4;
    W::Field::add_assign_product(&mut v_7, &v_5, &v_3);
    let v_8_inputs = [v_6, v_7];
    proof {
        assert(v_8_inputs@ =~= seq![v_6, v_7]);
    }
    let v_8 = witness_proxy.maybe_lookup::<2usize, 1usize>(&v_8_inputs, v_0, v_1);
    let v_9 = v_8[0usize];
    witness_proxy.set_witness_place(
        81usize,
        W::Field::select(&v_1, &v_9, &witness_proxy.get_witness_place(81usize)),
    );
}
/// The row after `eval_fn_23`: its witness places and lookup records.
#[verifier::opaque]
pub open spec fn spec_eval_fn_23<W: WitnessTypeSet<Mersenne31Field>>(
    s: (Seq<W::Field>, Seq<(Seq<W::Field>, W::U16, usize)>, Seq<(Seq<W::Field>, W::U16, W::Mask)>),
    mem: Seq<W::Field>,
    lt: spec_fn(Seq<W::Field>, W::U16, nat) -> Seq<W::Field>,
    mlt: spec_fn(Seq<W::Field>, W::U16, W::Mask, nat) -> Seq<W::Field>,
    orc: spec_fn(Placeholder) -> W::U32,
) -> (Seq<W::Field>, Seq<(Seq<W::Field>, W::U16, usize)>, Seq<(Seq<W::Field>, W::U16, W::Mask)>) {
    let w = s.0;
    let c = s.1;
    let mk = s.2;
    let v_0 = place_as_mask::<Mersenne31Field, W>(w[25]);
    let v_1 = place_as_u16::<Mersenne31Field, W>(mem[8]);
    let v_2 = place_as_u16::<Mersenne31Field, W>(mem[9]);
    let v_3 = place_as_u16::<Mersenne31Field, W>(w[71]);
    let v_4 = place_as_u16::<Mersenne31Field, W>(w[52]);
    let v_5 = W::U16::spec_widen(v_2);
    let v_6 = W::U32::spec_shift_left(v_5, 16u32);
    let v_7 = W::U16::spec_widen(v_1);
    let v_8 = v_6;
    let v_8 = W::U32::spec_plus(v_8, v_7);
    let v_9 = W::U16::spec_widen(v_4);
    let v_10 = W::U32::spec_shift_left(v_9, 16u32);
    let v_11 = W::U16::spec_widen(v_3);
    let v_12 = v_10;
    let v_12 = W::U32::spec_plus(v_12, v_11);
    let v_13 = v_8;
    let v_13 = W::U32::spec_minus(v_13, v_12);
    let v_14 = W::U32::spec_truncate(v_13);
    let w = w.update(11, place_of_u16::<Mersenne31Field, W>(W::U16::spec_select(v_0, v_14, place_as_u16::<Mersenne31Field, W>(w[11]))));
    let v_16 = W::U32::spec_shift_right(v_13, 16u32);
    let v_17 = W::U32::spec_truncate(v_16);
    let w = w.update(12, place_of_u16::<Mersenne31Field, W>(W::U16::spec_select(v_0, v_17, place_as_u16::<Mersenne31Field, W>(w[12]))));
    let v_19 = W::U32::spec_overflowing_sub(v_8, v_12).1;
    let w = w.update(39, W::Field::spec_from_mask(W::Mask::spec_select(v_0, v_19, place_as_mask::<Mersenne31Field, W>(w[39]))));
    (w, c, mk)
}

#[allow(unused_variables)]
fn eval_fn_23<
    'a,
    'b: 'a,
    W: WitnessTypeSet<Mersenne31Field>,
    P: WitnessProxy<Mersenne31Field, W> + 'b,
>(
    witness_proxy: &'a mut P,
) where
    W::Field: Copy,
    W::Mask: Copy,
    W::U32: Copy,
    W::U16: Copy,
    W::U8: Copy,
    W::I32: Copy,
    requires
        old(witness_proxy).witness().len() >= 72,
        old(witness_proxy).memory().len() >= 10,
    ensures
        final(witness_proxy).memory() == old(witness_proxy).memory(),
        final(witness_proxy).witness().len() == old(witness_proxy).witness().len(),
        forall|j: int| 0 <= j < old(witness_proxy).witness().len() && j != 11 && j != 12 && j != 39 ==> #[trigger] final(witness_proxy).witness()[j] == old(witness_proxy).witness()[j],
        row_state::<Mersenne31Field, W, P>(*final(witness_proxy)) == spec_eval_fn_23::<W>(
            row_state::<Mersenne31Field, W, P>(*old(witness_proxy)),
            old(witness_proxy).memory(),
            old(witness_proxy).lookup_table(),
            old(witness_proxy).maybe_lookup_table(),
            old(witness_proxy).oracle_u32(),
        ),
        final(witness_proxy).lookup_table() == old(witness_proxy).lookup_table(),
        final(witness_proxy).maybe_lookup_table() == old(witness_proxy).maybe_lookup_table(),
        final(witness_proxy).oracle_u32() == old(witness_proxy).oracle_u32(),
{
    proof {
        reveal(spec_eval_fn_23);
    }
    let v_0 = witness_proxy.get_witness_place_boolean(25usize);
    let v_1 = witness_proxy.get_memory_place_u16(8usize);
    let v_2 = witness_proxy.get_memory_place_u16(9usize);
    let v_3 = witness_proxy.get_witness_place_u16(71usize);
    let v_4 = witness_proxy.get_witness_place_u16(52usize);
    let v_5 = v_2.widen();
    let v_6 = v_5.shl(16u32);
    let v_7 = v_1.widen();
    let mut v_8 = v_6;
    W::U32::add_assign(&mut v_8, &v_7);
    let v_9 = v_4.widen();
    let v_10 = v_9.shl(16u32);
    let v_11 = v_3.widen();
    let mut v_12 = v_10;
    W::U32::add_assign(&mut v_12, &v_11);
    let mut v_13 = v_8;
    W::U32::sub_assign(&mut v_13, &v_12);
    let v_14 = v_13.truncate();
    witness_proxy.set_witness_place_u16(
        11usize,
        W::U16::select(&v_0, &v_14, &witness_proxy.get_witness_place_u16(11usize)),
    );
    let v_16 = v_13.shr(16u32);
    let v_17 = v_16.truncate();
    witness_proxy.set_witness_place_u16(
        12usize,
        W::U16::select(&v_0, &v_17, &witness_proxy.get_witness_place_u16(12usize)),
    );
    let v_19 = W::U32::overflowing_sub(&v_8, &v_12).1;
    witness_proxy.set_witness_place_boolean(
        39usize,
        W::Mask::select(
            &v_0,
            &v_19,
            &witness_proxy.get_witness_place_boolean(39usize),
        ),
    );
}
/// The row after `eval_fn_24`: its witness places and lookup records.
#[verifier::opaque]
pub open spec fn spec_eval_fn_24<W: WitnessTypeSet<Mersenne31Field>>(
    s: (Seq<W::Field>, Seq<(Seq<W::Field>, W::U16, usize)>, Seq<(Seq<W::Field>, W::U16, W::Mask)>),
    mem: Seq<W::Field>,
    lt: spec_fn(Seq<W::Field>, W::U16, nat) -> Seq<W::Field>,
    mlt: spec_fn(Seq<W::Field>, W::U16, W::Mask, nat) -> Seq<W::Field>,
    orc: spec_fn(Placeholder) -> W::U32,
) -> (Seq<W::Field>, Seq<(Seq<W::Field>, W::U16, usize)>, Seq<(Seq<W::Field>, W::U16, W::Mask)>) {
    let w = s.0;
    let c = s.1;
    let mk = s.2;
    let v_0 = place_as_u16::<Mersenne31Field, W>(mem[31]);
    let v_1 = place_as_u16::<Mersenne31Field, W>(mem[32]);
    let v_2 = place_as_u16::<Mersenne31Field, W>(w[3]);
    let v_3 = place_as_u16::<Mersenne31Field, W>(w[4]);
    let v_4 = place_as_mask::<Mersenne31Field, W>(w[25]);
    let v_5 = W::U16::spec_widen(v_1);
    let v_6 = W::U32::spec_shift_left(v_5, 16u32);
    let v_7 = W::U16::spec_widen(v_0);
    let v_8 = v_6;
    let v_8 = W::U32::spec_plus(v_8, v_7);
    let v_9 = W::U16::spec_widen(v_3);
    let v_10 = W::U32::spec_shift_left(v_9, 16u32);
    let v_11 = W::U16::spec_widen(v_2);
    let v_12 = v_10;
    let v_12 = W::U32::spec_plus(v_12, v_11);
    let v_13 = v_8;
    let v_13 = W::U32::spec_plus(v_13, v_12);
    let v_14 = W::U32::spec_truncate(v_13);
    let w = w.update(13, place_of_u16::<Mersenne31Field, W>(W::U16::spec_select(v_4, v_14, place_as_u16::<Mersenne31Field, W>(w[13]))));
    let v_16 = W::U32::spec_shift_right(v_13, 16u32);
    let v_17 = W::U32::spec_truncate(v_16);
    let w = w.update(14, place_of_u16::<Mersenne31Field, W>(W::U16::spec_select(v_4, v_17, place_as_u16::<Mersenne31Field, W>(w[14]))));
    let v_19 = W::U32::spec_overflowing_add(v_8, v_12).1;
    let w = w.update(41, W::Field::spec_from_mask(W::Mask::spec_select(v_4, v_19, place_as_mask::<Mersenne31Field, W>(w[41]))));
    (w, c, mk)
}

#[allow(unused_variables)]
fn eval_fn_24<
    'a,
    'b: 'a,
    W: WitnessTypeSet<Mersenne31Field>,
    P: WitnessProxy<Mersenne31Field, W> + 'b,
>(
    witness_proxy: &'a mut P,
) where
    W::Field: Copy,
    W::Mask: Copy,
    W::U32: Copy,
    W::U16: Copy,
    W::U8: Copy,
    W::I32: Copy,
    requires
        old(witness_proxy).witness().len() >= 42,
        old(witness_proxy).memory().len() >= 33,
    ensures
        final(witness_proxy).memory() == old(witness_proxy).memory(),
        final(witness_proxy).witness().len() == old(witness_proxy).witness().len(),
        forall|j: int| 0 <= j < old(witness_proxy).witness().len() && j != 13 && j != 14 && j != 41 ==> #[trigger] final(witness_proxy).witness()[j] == old(witness_proxy).witness()[j],
        row_state::<Mersenne31Field, W, P>(*final(witness_proxy)) == spec_eval_fn_24::<W>(
            row_state::<Mersenne31Field, W, P>(*old(witness_proxy)),
            old(witness_proxy).memory(),
            old(witness_proxy).lookup_table(),
            old(witness_proxy).maybe_lookup_table(),
            old(witness_proxy).oracle_u32(),
        ),
        final(witness_proxy).lookup_table() == old(witness_proxy).lookup_table(),
        final(witness_proxy).maybe_lookup_table() == old(witness_proxy).maybe_lookup_table(),
        final(witness_proxy).oracle_u32() == old(witness_proxy).oracle_u32(),
{
    proof {
        reveal(spec_eval_fn_24);
    }
    let v_0 = witness_proxy.get_memory_place_u16(31usize);
    let v_1 = witness_proxy.get_memory_place_u16(32usize);
    let v_2 = witness_proxy.get_witness_place_u16(3usize);
    let v_3 = witness_proxy.get_witness_place_u16(4usize);
    let v_4 = witness_proxy.get_witness_place_boolean(25usize);
    let v_5 = v_1.widen();
    let v_6 = v_5.shl(16u32);
    let v_7 = v_0.widen();
    let mut v_8 = v_6;
    W::U32::add_assign(&mut v_8, &v_7);
    let v_9 = v_3.widen();
    let v_10 = v_9.shl(16u32);
    let v_11 = v_2.widen();
    let mut v_12 = v_10;
    W::U32::add_assign(&mut v_12, &v_11);
    let mut v_13 = v_8;
    W::U32::add_assign(&mut v_13, &v_12);
    let v_14 = v_13.truncate();
    witness_proxy.set_witness_place_u16(
        13usize,
        W::U16::select(&v_4, &v_14, &witness_proxy.get_witness_place_u16(13usize)),
    );
    let v_16 = v_13.shr(16u32);
    let v_17 = v_16.truncate();
    witness_proxy.set_witness_place_u16(
        14usize,
        W::U16::select(&v_4, &v_17, &witness_proxy.get_witness_place_u16(14usize)),
    );
    let v_19 = W::U32::overflowing_add(&v_8, &v_12).1;
    witness_proxy.set_witness_place_boolean(
        41usize,
        W::Mask::select(
            &v_4,
            &v_19,
            &witness_proxy.get_witness_place_boolean(41usize),
        ),
    );
}
/// The row after `eval_fn_25`: its witness places and lookup records.
#[verifier::opaque]
pub open spec fn spec_eval_fn_25<W: WitnessTypeSet<Mersenne31Field>>(
    s: (Seq<W::Field>, Seq<(Seq<W::Field>, W::U16, usize)>, Seq<(Seq<W::Field>, W::U16, W::Mask)>),
    mem: Seq<W::Field>,
    lt: spec_fn(Seq<W::Field>, W::U16, nat) -> Seq<W::Field>,
    mlt: spec_fn(Seq<W::Field>, W::U16, W::Mask, nat) -> Seq<W::Field>,
    orc: spec_fn(Placeholder) -> W::U32,
) -> (Seq<W::Field>, Seq<(Seq<W::Field>, W::U16, usize)>, Seq<(Seq<W::Field>, W::U16, W::Mask)>) {
    let w = s.0;
    let c = s.1;
    let mk = s.2;
    let v_0 = place_as_mask::<Mersenne31Field, W>(w[31]);
    let v_1 = w[71];
    let v_2 = W::Field::spec_constant(Mersenne31Field(0u32));
    let v_3 = W::Field::spec_constant(Mersenne31Field(1u32));
    let v_4 = v_2;
    let v_4 = W::Field::spec_add_product(v_4, v_3, v_1);
    let v_5 = W::U16::spec_constant(47u16);
    let v_6 = mlt(seq![v_4], v_5, v_0, 2);
    let mk = mk.push((seq![v_4], v_5, v_0));
    let v_7 = v_6[0];
    let w = w.update(78, W::Field::spec_select(v_0, v_7, w[78]));
    let v_9 = v_6[1];
    let w = w.update(79, W::Field::spec_select(v_0, v_9, w[79]));
    (w, c, mk)
}

#[allow(unused_variables)]
fn eval_fn_25<
    'a,
    'b: 'a,
    W: WitnessTypeSet<Mersenne31Field>,
    P: WitnessProxy<Mersenne31Field, W> + 'b,
>(
    witness_proxy: &'a mut P,
) where
    W::Field: Copy,
    W::Mask: Copy,
    W::U32: Copy,
    W::U16: Copy,
    W::U8: Copy,
    W::I32: Copy,
    requires
        old(witness_proxy).witness().len() >= 80,
    ensures
        final(witness_proxy).memory() == old(witness_proxy).memory(),
        final(witness_proxy).witness().len() == old(witness_proxy).witness().len(),
        forall|j: int| 0 <= j < old(witness_proxy).witness().len() && j != 78 && j != 79 ==> #[trigger] final(witness_proxy).witness()[j] == old(witness_proxy).witness()[j],
        row_state::<Mersenne31Field, W, P>(*final(witness_proxy)) == spec_eval_fn_25::<W>(
            row_state::<Mersenne31Field, W, P>(*old(witness_proxy)),
            old(witness_proxy).memory(),
            old(witness_proxy).lookup_table(),
            old(witness_proxy).maybe_lookup_table(),
            old(witness_proxy).oracle_u32(),
        ),
        final(witness_proxy).lookup_table() == old(witness_proxy).lookup_table(),
        final(witness_proxy).maybe_lookup_table() == old(witness_proxy).maybe_lookup_table(),
        final(witness_proxy).oracle_u32() == old(witness_proxy).oracle_u32(),
{
    proof {
        reveal(spec_eval_fn_25);
    }
    let v_0 = witness_proxy.get_witness_place_boolean(31usize);
    let v_1 = witness_proxy.get_witness_place(71usize);
    let v_2 = W::Field::constant(Mersenne31Field(0u32));
    let v_3 = W::Field::constant(Mersenne31Field(1u32));
    let mut v_4 = v_2;
    W::Field::add_assign_product(&mut v_4, &v_3, &v_1);
    let v_5 = W::U16::constant(47u16);
    let v_6_inputs = [v_4];
    proof {
        assert(v_6_inputs@ =~= seq![v_4]);
    }
    let v_6 = witness_proxy.maybe_lookup::<1usize, 2usize>(&v_6_inputs, v_5, v_0);
    let v_7 = v_6[0usize];
    witness_proxy.set_witness_place(
        78usize,
        W::Field::select(&v_0, &v_7, &witness_proxy.get_witness_place(78usize)),
    );
    let v_9 = v_6[1usize];
    witness_proxy.set_witness_place(
        79usize,
        W::Field::select(&v_0, &v_9, &witness_proxy.get_witness_place(79usize)),
    );
}
/// The row after `eval_fn_26`: its witness places and lookup records.
#[verifier::opaque]
pub open spec fn spec_eval_fn_26<W: WitnessTypeSet<Mersenne31Field>>(
    s: (Seq<W::Field>, Seq<(Seq<W::Field>, W::U16, usize)>, Seq<(Seq<W::Field>, W::U16, W::Mask)>),
    mem: Seq<W::Field>,
    lt: spec_fn(Seq<W::Field>, W::U16, nat) -> Seq<W::Field>,
    mlt: spec_fn(Seq<W::Field>, W::U16, W::Mask, nat) -> Seq<W::Field>,
    orc: spec_fn(Placeholder) -> W::U32,
) -> (Seq<W::Field>, Seq<(Seq<W::Field>, W::U16, usize)>, Seq<(Seq<W::Field>, W::U16, W::Mask)>) {
    let w = s.0;
    let c = s.1;
    let mk = s.2;
    let v_0 = mem[31];
    let v_1 = place_as_mask::<Mersenne31Field, W>(w[34]);
    let v_2 = mem[8];
    let v_3 = W::Field::spec_select(v_1, v_0, v_2);
    let w = w.update(91, v_3);
    (w, c, mk)
}

#[allow(unused_variables)]
fn eval_fn_26<
    'a,
    'b: 'a,
    W: WitnessTypeSet<Mersenne31Field>,
    P: WitnessProxy<Mersenne31Field, W> + 'b,
>(
    witness_proxy: &'a mut P,
) where
    W::Field: Copy,
    W::Mask: Copy,
    W::U32: Copy,
    W::U16: Copy,
    W::U8: Copy,
    W::I32: Copy,
    requires
        old(witness_proxy).witness().len() >= 92,
        old(witness_proxy).memory().len() >= 32,
    ensures
        final(witness_proxy).memory() == old(witness_proxy).memory(),
        final(witness_proxy).witness().len() == old(witness_proxy).witness().len(),
        forall|j: int| 0 <= j < old(witness_proxy).witness().len() && j != 91 ==> #[trigger] final(witness_proxy).witness()[j] == old(witness_proxy).witness()[j],
        row_state::<Mersenne31Field, W, P>(*final(witness_proxy)) == spec_eval_fn_26::<W>(
            row_state::<Mersenne31Field, W, P>(*old(witness_proxy)),
            old(witness_proxy).memory(),
            old(witness_proxy).lookup_table(),
            old(witness_proxy).maybe_lookup_table(),
            old(witness_proxy).oracle_u32(),
        ),
        final(witness_proxy).lookup_table() == old(witness_proxy).lookup_table(),
        final(witness_proxy).maybe_lookup_table() == old(witness_proxy).maybe_lookup_table(),
        final(witness_proxy).oracle_u32() == old(witness_proxy).oracle_u32(),
{
    proof {
        reveal(spec_eval_fn_26);
    }
    let v_0 = witness_proxy.get_memory_place(31usize);
    let v_1 = witness_proxy.get_witness_place_boolean(34usize);
    let v_2 = witness_proxy.get_memory_place(8usize);
    let v_3 = W::Field::select(&v_1, &v_0, &v_2);
    witness_proxy.set_witness_place(91usize, v_3);
}
/// The row after `eval_fn_27`: its witness places and lookup records.
#[verifier::opaque]
pub open spec fn spec_eval_fn_27<W: WitnessTypeSet<Mersenne31Field>>(
    s: (Seq<W::Field>, Seq<(Seq<W::Field>, W::U16, usize)>, Seq<(Seq<W::Field>, W::U16, W::Mask)>),
    mem: Seq<W::Field>,
    lt: spec_fn(Seq<W::Field>, W::U16, nat) -> Seq<W::Field>,
    mlt: spec_fn(Seq<W::Field>, W::U16, W::Mask, nat) -> Seq<W::Field>,
    orc: spec_fn(Placeholder) -> W::U32,
) -> (Seq<W::Field>, Seq<(Seq<W::Field>, W::U16, usize)>, Seq<(Seq<W::Field>, W::U16, W::Mask)>) {
    let w = s.0;
    let c = s.1;
    let mk = s.2;
    let v_0 = mem[32];
    let v_1 = place_as_mask::<Mersenne31Field, W>(w[34]);
    let v_2 = mem[9];
    let v_3 = W::Field::spec_select(v_1, v_0, v_2);
    let w = w.update(92, v_3);
    (w, c, mk)
}

#[allow(unused_variables)]
fn eval_fn_27<
    'a,
    'b: 'a,
    W: WitnessTypeSet<Mersenne31Field>,
    P: WitnessProxy<Mersenne31Field, W> + 'b,
>(
    witness_proxy: &'a mut P,
) where
    W::Field: Copy,
    W::Mask: Copy,
    W::U32: Copy,
    W::U16: Copy,
    W::U8: Copy,
    W::I32: Copy,
    requires
        old(witness_proxy).witness().len() >= 93,
        old(witness_proxy).memory().len() >= 33,
    ensures
        final(witness_proxy).memory() == old(witness_proxy).memory(),
        final(witness_proxy).witness().len() == old(witness_proxy).witness().len(),
        forall|j: int| 0 <= j < old(witness_proxy).witness().len() && j != 92 ==> #[trigger] final(witness_proxy).witness()[j] == old(witness_proxy).witness()[j],
        row_state::<Mersenne31Field, W, P>(*final(witness_proxy)) == spec_eval_fn_27::<W>(
            row_state::<Mersenne31Field, W, P>(*old(witness_proxy)),
            old(witness_proxy).memory(),
            old(witness_proxy).lookup_table(),
            old(witness_proxy).maybe_lookup_table(),
            old(witness_proxy).oracle_u32(),
        ),
        final(witness_proxy).lookup_table() == old(witness_proxy).lookup_table(),
        final(witness_proxy).maybe_lookup_table() == old(witness_proxy).maybe_lookup_table(),
        final(witness_proxy).oracle_u32() == old(witness_proxy).oracle_u32(),
{
    proof {
        reveal(spec_eval_fn_27);
    }
    let v_0 = witness_proxy.get_memory_place(32usize);
    let v_1 = witness_proxy.get_witness_place_boolean(34usize);
    let v_2 = witness_proxy.get_memory_place(9usize);
    let v_3 = W::Field::select(&v_1, &v_0, &v_2);
    witness_proxy.set_witness_place(92usize, v_3);
}
/// The row after `eval_fn_28`: its witness places and lookup records.
#[verifier::opaque]
pub open spec fn spec_eval_fn_28<W: WitnessTypeSet<Mersenne31Field>>(
    s: (Seq<W::Field>, Seq<(Seq<W::Field>, W::U16, usize)>, Seq<(Seq<W::Field>, W::U16, W::Mask)>),
    mem: Seq<W::Field>,
    lt: spec_fn(Seq<W::Field>, W::U16, nat) -> Seq<W::Field>,
    mlt: spec_fn(Seq<W::Field>, W::U16, W::Mask, nat) -> Seq<W::Field>,
    orc: spec_fn(Placeholder) -> W::U32,
) -> (Seq<W::Field>, Seq<(Seq<W::Field>, W::U16, usize)>, Seq<(Seq<W::Field>, W::U16, W::Mask)>) {
    let w = s.0;
    let c = s.1;
    let mk = s.2;
    let v_0 = place_as_u16::<Mersenne31Field, W>(w[3]);
    let v_1 = place_as_u16::<Mersenne31Field, W>(w[4]);
    let v_2 = place_as_mask::<Mersenne31Field, W>(w[27]);
    let v_3 = place_as_u16::<Mersenne31Field, W>(w[91]);
    let v_4 = place_as_u16::<Mersenne31Field, W>(w[92]);
    let v_5 = W::U16::spec_widen(v_4);
    let v_6 = W::U32::spec_shift_left(v_5, 16u32);
    let v_7 = W::U16::spec_widen(v_3);
    let v_8 = v_6;
    let v_8 = W::U32::spec_plus(v_8, v_7);
    let v_9 = W::U16::spec_widen(v_1);
    let v_10 = W::U32::spec_shift_left(v_9, 16u32);
    let v_11 = W::U16::spec_widen(v_0);
    let v_12 = v_10;
    let v_12 = W::U32::spec_plus(v_12, v_11);
    let v_13 = v_8;
    let v_13 = W::U32::spec_plus(v_13, v_12);
    let v_14 = W::U32::spec_truncate(v_13);
    let w = w.update(11, place_of_u16::<Mersenne31Field, W>(W::U16::spec_select(v_2, v_14, place_as_u16::<Mersenne31Field, W>(w[11]))));
    let v_16 = W::U32::spec_shift_right(v_13, 16u32);
    let v_17 = W::U32::spec_truncate(v_16);
    let w = w.update(12, place_of_u16::<Mersenne31Field, W>(W::U16::spec_select(v_2, v_17, place_as_u16::<Mersenne31Field, W>(w[12]))));
    let v_19 = W::U32::spec_overflowing_add(v_8, v_12).1;
    let w = w.update(39, W::Field::spec_from_mask(W::Mask::spec_select(v_2, v_19, place_as_mask::<Mersenne31Field, W>(w[39]))));
    (w, c, mk)
}

#[allow(unused_variables)]
fn eval_fn_28<
    'a,
    'b: 'a,
    W: WitnessTypeSet<Mersenne31Field>,
    P: WitnessProxy<Mersenne31Field, W> + 'b,
>(
    witness_proxy: &'a mut P,
) where
    W::Field: Copy,
    W::Mask: Copy,
    W::U32: Copy,
    W::U16: Copy,
    W::U8: Copy,
    W::I32: Copy,
    requires
        old(witness_proxy).witness().len() >= 93,
    ensures
        final(witness_proxy).memory() == old(witness_proxy).memory(),
        final(witness_proxy).witness().len() == old(witness_proxy).witness().len(),
        forall|j: int| 0 <= j < old(witness_proxy).witness().len() && j != 11 && j != 12 && j != 39 ==> #[trigger] final(witness_proxy).witness()[j] == old(witness_proxy).witness()[j],
        row_state::<Mersenne31Field, W, P>(*final(witness_proxy)) == spec_eval_fn_28::<W>(
            row_state::<Mersenne31Field, W, P>(*old(witness_proxy)),
            old(witness_proxy).memory(),
            old(witness_proxy).lookup_table(),
            old(witness_proxy).maybe_lookup_table(),
            old(witness_proxy).oracle_u32(),
        ),
        final(witness_proxy).lookup_table() == old(witness_proxy).lookup_table(),
        final(witness_proxy).maybe_lookup_table() == old(witness_proxy).maybe_lookup_table(),
        final(witness_proxy).oracle_u32() == old(witness_proxy).oracle_u32(),
{
    proof {
        reveal(spec_eval_fn_28);
    }
    let v_0 = witness_proxy.get_witness_place_u16(3usize);
    let v_1 = witness_proxy.get_witness_place_u16(4usize);
    let v_2 = witness_proxy.get_witness_place_boolean(27usize);
    let v_3 = witness_proxy.get_witness_place_u16(91usize);
    let v_4 = witness_proxy.get_witness_place_u16(92usize);
    let v_5 = v_4.widen();
    let v_6 = v_5.shl(16u32);
    let v_7 = v_3.widen();
    let mut v_8 = v_6;
    W::U32::add_assign(&mut v_8, &v_7);
    let v_9 = v_1.widen();
    let v_10 = v_9.shl(16u32);
    let v_11 = v_0.widen();
    let mut v_12 = v_10;
    W::U32::add_assign(&mut v_12, &v_11);
    let mut v_13 = v_8;
    W::U32::add_assign(&mut v_13, &v_12);
    let v_14 = v_13.truncate();
    witness_proxy.set_witness_place_u16(
        11usize,
        W::U16::select(&v_2, &v_14, &witness_proxy.get_witness_place_u16(11usize)),
    );
    let v_16 = v_13.shr(16u32);
    let v_17 = v_16.truncate();
    witness_proxy.set_witness_place_u16(
        12usize,
        W::U16::select(&v_2, &v_17, &witness_proxy.get_witness_place_u16(12usize)),
    );
    let v_19 = W::U32::overflowing_add(&v_8, &v_12).1;
    witness_proxy.set_witness_place_boolean(
        39usize,
        W::Mask::select(
            &v_2,
            &v_19,
            &witness_proxy.get_witness_place_boolean(39usize),
        ),
    );
}
/// The row after `eval_fn_29`: its witness places and lookup records.
#[verifier::opaque]
pub open spec fn spec_eval_fn_29<W: WitnessTypeSet<Mersenne31Field>>(
    s: (Seq<W::Field>, Seq<(Seq<W::Field>, W::U16, usize)>, Seq<(Seq<W::Field>, W::U16, W::Mask)>),
    mem: Seq<W::Field>,
    lt: spec_fn(Seq<W::Field>, W::U16, nat) -> Seq<W::Field>,
    mlt: spec_fn(Seq<W::Field>, W::U16, W::Mask, nat) -> Seq<W::Field>,
    orc: spec_fn(Placeholder) -> W::U32,
) -> (Seq<W::Field>, Seq<(Seq<W::Field>, W::U16, usize)>, Seq<(Seq<W::Field>, W::U16, W::Mask)>) {
    let w = s.0;
    let c = s.1;
    let mk = s.2;
    let v_0 = mem[8];
    let v_1 = mem[9];
    let v_2 = w[71];
    let v_3 = w[52];
    let v_4 = W::Field::spec_constant(Mersenne31Field(0u32));
    let v_5 = v_4;
    let v_5 = W::Field::spec_add_product(v_5, v_0, v_2);
    let v_6 = W::Field::spec_constant(Mersenne31Field(65536u32));
    let v_7 = v_0;
    let v_7 = W::Field::spec_times(v_7, v_6);
    let v_8 = v_5;
    let v_8 = W::Field::spec_add_product(v_8, v_7, v_3);
    let v_9 = v_1;
    let v_9 = W::Field::spec_times(v_9, v_6);
    let v_10 = v_8;
    let v_10 = W::Field::spec_add_product(v_10, v_9, v_2);
    let v_11 = W::Field::spec_constant(Mersenne31Field(2u32));
    let v_12 = v_1;
    let v_12 = W::Field::spec_times(v_12, v_11);
    let v_13 = v_10;
    let v_13 = W::Field::spec_add_product(v_13, v_12, v_3);
    let w = w.update(93, v_13);
    (w, c, mk)
}

#[allow(unused_variables)]
fn eval_fn_29<
    'a,
    'b: 'a,
    W: WitnessTypeSet<Mersenne31Field>,
    P: WitnessProxy<Mersenne31Field, W> + 'b,
>(
    witness_proxy: &'a mut P,
) where
    W::Field: Copy,
    W::Mask: Copy,
    W::U32: Copy,
    W::U16: Copy,
    W::U8: Copy,
    W::I32: Copy,
    requires
        old(witness_proxy).witness().len() >= 94,
        old(witness_proxy).memory().len() >= 10,
    ensures
        final(witness_proxy).memory() == old(witness_proxy).memory(),
        final(witness_proxy).witness().len() == old(witness_proxy).witness().len(),
        forall|j: int| 0 <= j < old(witness_proxy).witness().len() && j != 93 ==> #[trigger] final(witness_proxy).witness()[j] == old(witness_proxy).witness()[j],
        row_state::<Mersenne31Field, W, P>(*final(witness_proxy)) == spec_eval_fn_29::<W>(
            row_state::<Mersenne31Field, W, P>(*old(witness_proxy)),
            old(witness_proxy).memory(),
            old(witness_proxy).lookup_table(),
            old(witness_proxy).maybe_lookup_table(),
            old(witness_proxy).oracle_u32(),
        ),
        final(witness_proxy).lookup_table() == old(witness_proxy).lookup_table(),
        final(witness_proxy).maybe_lookup_table() == old(witness_proxy).maybe_lookup_table(),
        final(witness_proxy).oracle_u32() == old(witness_proxy).oracle_u32(),
{
    proof {
        reveal(spec_eval_fn_29);
    }
    let v_0 = witness_proxy.get_memory_place(8usize);
    let v_1 = witness_proxy.get_memory_place(9usize);
    let v_2 = witness_proxy.get_witness_place(71usize);
    let v_3 = witness_proxy.get_witness_place(52usize);
    let v_4 = W::Field::constant(Mersenne31Field(0u32));
    let mut v_5 = v_4;
    W::Field::add_assign_product(&mut v_5, &v_0, &v_2);
    let v_6 = W::Field::constant(Mersenne31Field(65536u32));
    let mut v_7 = v_0;
    W::Field::mul_assign(&mut v_7, &v_6);
    let mut v_8 = v_5;
    W::Field::add_assign_product(&mut v_8, &v_7, &v_3);
    let mut v_9 = v_1;
    W::Field::mul_assign(&mut v_9, &v_6);
    let mut v_10 = v_8;
    W::Field::add_assign_product(&mut v_10, &v_9, &v_2);
    let v_11 = W::Field::constant(Mersenne31Field(2u32));
    let mut v_12 = v_1;
    W::Field::mul_assign(&mut v_12, &v_11);
    let mut v_13 = v_10;
    W::Field::add_assign_product(&mut v_13, &v_12, &v_3);
    witness_proxy.set_witness_place(93usize, v_13);
}
/// The row after `eval_fn_30`: its witness places and lookup records.
#[verifier::opaque]
pub open spec fn spec_eval_fn_30<W: WitnessTypeSet<Mersenne31Field>>(
    s: (Seq<W::Field>, Seq<(Seq<W::Field>, W::U16, usize)>, Seq<(Seq<W::Field>, W::U16, W::Mask)>),
    mem: Seq<W::Field>,
    lt: spec_fn(Seq<W::Field>, W::U16, nat) -> Seq<W::Field>,
    mlt: spec_fn(Seq<W::Field>, W::U16, W::Mask, nat) -> Seq<W::Field>,
    orc: spec_fn(Placeholder) -> W::U32,
) -> (Seq<W::Field>, Seq<(Seq<W::Field>, W::U16, usize)>, Seq<(Seq<W::Field>, W::U16, W::Mask)>) {
    let w = s.0;
    let c = s.1;
    let mk = s.2;
    let v_0 = place_as_mask::<Mersenne31Field, W>(w[34]);
    let v_1 = place_as_mask::<Mersenne31Field, W>(w[35]);
    let v_2 = place_as_mask::<Mersenne31Field, W>(w[36]);
    let v_3 = place_as_u16::<Mersenne31Field, W>(mem[8]);
    let v_4 = place_as_u16::<Mersenne31Field, W>(mem[9]);
    let v_5 = place_as_u16::<Mersenne31Field, W>(w[71]);
    let v_6 = place_as_u16::<Mersenne31Field, W>(w[52]);
    let v_7 = W::Field::spec_constant(Mersenne31Field(0u32));
    let v_8 = W::U16::spec_widen(v_4);
    let v_9 = W::U32::spec_shift_left(v_8, 16u32);
    let v_10 = W::U16::spec_widen(v_3);
    let v_11 = v_9;
    let v_11 = W::U32::spec_plus(v_11, v_10);
    let v_12 = W::Field::spec_from_integer(v_11);
    let v_13 = W::U16::spec_widen(v_6);
    let v_14 = W::U32::spec_shift_left(v_13, 16u32);
    let v_15 = W::U16::spec_widen(v_5);
    let v_16 = v_14;
    let v_16 = W::U32::spec_plus(v_16, v_15);
    let v_17 = W::Field::spec_from_integer(v_16);
    let v_18 = v_12;
    let v_18 = W::Field::spec_plus(v_18, v_17);
    let v_19 = v_7;
    let v_19 = W::Field::spec_plus(v_19, v_18);
    let v_20 = W::Field::spec_select(v_0, v_19, v_7);
    let v_21 = v_12;
    let v_21 = W::Field::spec_minus(v_21, v_17);
    let v_22 = v_20;
    let v_22 = W::Field::spec_plus(v_22, v_21);
    let v_23 = W::Field::spec_select(v_2, v_22, v_20);
    let v_24 = v_23;
    let v_24 = W::Field::spec_add_product(v_24, v_12, v_17);
    let v_25 = W::Field::spec_select(v_1, v_24, v_23);
    let v_26 = W::Field::spec_as_integer(v_25);
    let v_27 = W::U32::spec_truncate(v_26);
    let w = w.update(94, place_of_u16::<Mersenne31Field, W>(v_27));
    let v_29 = W::U32::spec_shift_right(v_26, 16u32);
    let v_30 = W::U32::spec_truncate(v_29);
    let w = w.update(95, place_of_u16::<Mersenne31Field, W>(v_30));
    (w, c, mk)
}

#[allow(unused_variables)]
fn eval_fn_30<
    'a,
    'b: 'a,
    W: WitnessTypeSet<Mersenne31Field>,
    P: WitnessProxy<Mersenne31Field, W> + 'b,
>(
    witness_proxy: &'a mut P,
) where
    W::Field: Copy,
    W::Mask: Copy,
    W::U32: Copy,
    W::U16: Copy,
    W::U8: Copy,
    W::I32: Copy,
    requires
        old(witness_proxy).witness().len() >= 96,
        old(witness_proxy).memory().len() >= 10,
    ensures
        final(witness_proxy).memory() == old(witness_proxy).memory(),
        final(witness_proxy).witness().len() == old(witness_proxy).witness().len(),
        forall|j: int| 0 <= j < old(witness_proxy).witness().len() && j != 94 && j != 95 ==> #[trigger] final(witness_proxy).witness()[j] == old(witness_proxy).witness()[j],
        row_state::<Mersenne31Field, W, P>(*final(witness_proxy)) == spec_eval_fn_30::<W>(
            row_state::<Mersenne31Field, W, P>(*old(witness_proxy)),
            old(witness_proxy).memory(),
            old(witness_proxy).lookup_table(),
            old(witness_proxy).maybe_lookup_table(),
            old(witness_proxy).oracle_u32(),
        ),
        final(witness_proxy).lookup_table() == old(witness_proxy).lookup_table(),
        final(witness_proxy).maybe_lookup_table() == old(witness_proxy).maybe_lookup_table(),
        final(witness_proxy).oracle_u32() == old(witness_proxy).oracle_u32(),
{
    proof {
        reveal(spec_eval_fn_30);
    }
    let v_0 = witness_proxy.get_witness_place_boolean(34usize);
    let v_1 = witness_proxy.get_witness_place_boolean(35usize);
    let v_2 = witness_proxy.get_witness_place_boolean(36usize);
    let v_3 = witness_proxy.get_memory_place_u16(8usize);
    let v_4 = witness_proxy.get_memory_place_u16(9usize);
    let v_5 = witness_proxy.get_witness_place_u16(71usize);
    let v_6 = witness_proxy.get_witness_place_u16(52usize);
    let v_7 = W::Field::constant(Mersenne31Field(0u32));
    let v_8 = v_4.widen();
    let v_9 = v_8.shl(16u32);
    let v_10 = v_3.widen();
    let mut v_11 = v_9;
    W::U32::add_assign(&mut v_11, &v_10);
    let v_12 = W::Field::from_integer(v_11);
    let v_13 = v_6.widen();
    let v_14 = v_13.shl(16u32);
    let v_15 = v_5.widen();
    let mut v_16 = v_14;
    W::U32::add_assign(&mut v_16, &v_15);
    let v_17 = W::Field::from_integer(v_16);
    let mut v_18 = v_12;
    W::Field::add_assign(&mut v_18, &v_17);
    let mut v_19 = v_7;
    W::Field::add_assign(&mut v_19, &v_18);
    let v_20 = W::Field::select(&v_0, &v_19, &v_7);
    let mut v_21 = v_12;
    W::Field::sub_assign(&mut v_21, &v_17);
    let mut v_22 = v_20;
    W::Field::add_assign(&mut v_22, &v_21);
    let v_23 = W::Field::select(&v_2, &v_22, &v_20);
    let mut v_24 = v_23;
    W::Field::add_assign_product(&mut v_24, &v_12, &v_17);
    let v_25 = W::Field::select(&v_1, &v_24, &v_23);
    let v_26 = v_25.as_integer();
    let v_27 = v_26.truncate();
    witness_proxy.set_witness_place_u16(94usize, v_27);
    let v_29 = v_26.shr(16u32);
    let v_30 = v_29.truncate();
    witness_proxy.set_witness_place_u16(95usize, v_30);
}
/// The row after `eval_fn_31`: its witness places and lookup records.
#[verifier::opaque]
pub open spec fn spec_eval_fn_31<W: WitnessTypeSet<Mersenne31Field>>(
    s: (Seq<W::Field>, Seq<(Seq<W::Field>, W::U16, usize)>, Seq<(Seq<W::Field>, W::U16, W::Mask)>),
    mem: Seq<W::Field>,
    lt: spec_fn(Seq<W::Field>, W::U16, nat) -> Seq<W::Field>,
    mlt: spec_fn(Seq<W::Field>, W::U16, W::Mask, nat) -> Seq<W::Field>,
    orc: spec_fn(Placeholder) -> W::U32,
) -> (Seq<W::Field>, Seq<(Seq<W::Field>, W::U16, usize)>, Seq<(Seq<W::Field>, W::U16, W::Mask)>) {
    let w = s.0;
    let c = s.1;
    let mk = s.2;
    let v_0 = place_as_mask::<Mersenne31Field, W>(w[30]);
    let v_1 = place_as_u16::<Mersenne31Field, W>(w[94]);
    let v_2 = place_as_u16::<Mersenne31Field, W>(w[95]);
    let v_3 = W::U16::spec_widen(v_2);
    let v_4 = W::U32::spec_shift_left(v_3, 16u32);
    let v_5 = W::U16::spec_widen(v_1);
    let v_6 = v_4;
    let v_6 = W::U32::spec_plus(v_6, v_5);
    let v_7 = W::U32::spec_truncate(v_6);
    let w = w.update(11, place_of_u16::<Mersenne31Field, W>(W::U16::spec_select(v_0, v_7, place_as_u16::<Mersenne31Field, W>(w[11]))));
    let v_9 = W::U32::spec_shift_right(v_6, 16u32);
    let v_10 = W::U32::spec_truncate(v_9);
    let w = w.update(12, place_of_u16::<Mersenne31Field, W>(W::U16::spec_select(v_0, v_10, place_as_u16::<Mersenne31Field, W>(w[12]))));
    (w, c, mk)
}

#[allow(unused_variables)]
fn eval_fn_31<
    'a,
    'b: 'a,
    W: WitnessTypeSet<Mersenne31Field>,
    P: WitnessProxy<Mersenne31Field, W> + 'b,
>(
    witness_proxy: &'a mut P,
) where
    W::Field: Copy,
    W::Mask: Copy,
    W::U32: Copy,
    W::U16: Copy,
    W::U8: Copy,
    W::I32: Copy,
    requires
        old(witness_proxy).witness().len() >= 96,
    ensures
        final(witness_proxy).memory() == old(witness_proxy).memory(),
        final(witness_proxy).witness().len() == old(witness_proxy).witness().len(),
        forall|j: int| 0 <= j < old(witness_proxy).witness().len() && j != 11 && j != 12 ==> #[trigger] final(witness_proxy).witness()[j] == old(witness_proxy).witness()[j],
        row_state::<Mersenne31Field, W, P>(*final(witness_proxy)) == spec_eval_fn_31::<W>(
            row_state::<Mersenne31Field, W, P>(*old(witness_proxy)),
            old(witness_proxy).memory(),
            old(witness_proxy).lookup_table(),
            old(witness_proxy).maybe_lookup_table(),
            old(witness_proxy).oracle_u32(),
        ),
        final(witness_proxy).lookup_table() == old(witness_proxy).lookup_table(),
        final(witness_proxy).maybe_lookup_table() == old(witness_proxy).maybe_lookup_table(),
        final(witness_proxy).oracle_u32() == old(witness_proxy).oracle_u32(),
{
    proof {
        reveal(spec_eval_fn_31);
    }
    let v_0 = witness_proxy.get_witness_place_boolean(30usize);
    let v_1 = witness_proxy.get_witness_place_u16(94usize);
    let v_2 = witness_proxy.get_witness_place_u16(95usize);
    let v_3 = v_2.widen();
    let v_4 = v_3.shl(16u32);
    let v_5 = v_1.widen();
    let mut v_6 = v_4;
    W::U32::add_assign(&mut v_6, &v_5);
    let v_7 = v_6.truncate();
    witness_proxy.set_witness_place_u16(
        11usize,
        W::U16::select(&v_0, &v_7, &witness_proxy.get_witness_place_u16(11usize)),
    );
    let v_9 = v_6.shr(16u32);
    let v_10 = v_9.truncate();
    witness_proxy.set_witness_place_u16(
        12usize,
        W::U16::select(&v_0, &v_10, &witness_proxy.get_witness_place_u16(12usize)),
    );
}
/// The row after `eval_fn_32`: its witness places and lookup records.
#[verifier::opaque]
pub open spec fn spec_eval_fn_32<W: WitnessTypeSet<Mersenne31Field>>(
    s: (Seq<W::Field>, Seq<(Seq<W::Field>, W::U16, usize)>, Seq<(Seq<W::Field>, W::U16, W::Mask)>),
    mem: Seq<W::Field>,
    lt: spec_fn(Seq<W::Field>, W::U16, nat) -> Seq<W::Field>,
    mlt: spec_fn(Seq<W::Field>, W::U16, W::Mask, nat) -> Seq<W::Field>,
    orc: spec_fn(Placeholder) -> W::U32,
) -> (Seq<W::Field>, Seq<(Seq<W::Field>, W::U16, usize)>, Seq<(Seq<W::Field>, W::U16, W::Mask)>) {
    let w = s.0;
    let c = s.1;
    let mk = s.2;
    let v_0 = place_as_u16::<Mersenne31Field, W>(w[3]);
    let v_1 = place_as_u16::<Mersenne31Field, W>(w[4]);
    let v_2 = place_as_mask::<Mersenne31Field, W>(w[29]);
    let v_3 = place_as_u16::<Mersenne31Field, W>(mem[8]);
    let v_4 = place_as_u16::<Mersenne31Field, W>(mem[9]);
    let v_5 = W::U16::spec_widen(v_4);
    let v_6 = W::U32::spec_shift_left(v_5, 16u32);
    let v_7 = W::U16::spec_widen(v_3);
    let v_8 = v_6;
    let v_8 = W::U32::spec_plus(v_8, v_7);
    let v_9 = W::U16::spec_widen(v_1);
    let v_10 = W::U32::spec_shift_left(v_9, 16u32);
    let v_11 = W::U16::spec_widen(v_0);
    let v_12 = v_10;
    let v_12 = W::U32::spec_plus(v_12, v_11);
    let v_13 = v_8;
    let v_13 = W::U32::spec_plus(v_13, v_12);
    let v_14 = W::U32::spec_truncate(v_13);
    let w = w.update(11, place_of_u16::<Mersenne31Field, W>(W::U16::spec_select(v_2, v_14, place_as_u16::<Mersenne31Field, W>(w[11]))));
    let v_16 = W::U32::spec_shift_right(v_13, 16u32);
    let v_17 = W::U32::spec_truncate(v_16);
    let w = w.update(12, place_of_u16::<Mersenne31Field, W>(W::U16::spec_select(v_2, v_17, place_as_u16::<Mersenne31Field, W>(w[12]))));
    let v_19 = W::U32::spec_overflowing_add(v_8, v_12).1;
    let w = w.update(39, W::Field::spec_from_mask(W::Mask::spec_select(v_2, v_19, place_as_mask::<Mersenne31Field, W>(w[39]))));
    (w, c, mk)
}

#[allow(unused_variables)]
fn eval_fn_32<
    'a,
    'b: 'a,
    W: WitnessTypeSet<Mersenne31Field>,
    P: WitnessProxy<Mersenne31Field, W> + 'b,
>(
    witness_proxy: &'a mut P,
) where
    W::Field: Copy,
    W::Mask: Copy,
    W::U32: Copy,
    W::U16: Copy,
    W::U8: Copy,
    W::I32: Copy,
    requires
        old(witness_proxy).witness().len() >= 40,
        old(witness_proxy).memory().len() >= 10,
    ensures
        final(witness_proxy).memory() == old(witness_proxy).memory(),
        final(witness_proxy).witness().len() == old(witness_proxy).witness().len(),
        forall|j: int| 0 <= j < old(witness_proxy).witness().len() && j != 11 && j != 12 && j != 39 ==> #[trigger] final(witness_proxy).witness()[j] == old(witness_proxy).witness()[j],
        row_state::<Mersenne31Field, W, P>(*final(witness_proxy)) == spec_eval_fn_32::<W>(
            row_state::<Mersenne31Field, W, P>(*old(witness_proxy)),
            old(witness_proxy).memory(),
            old(witness_proxy).lookup_table(),
            old(witness_proxy).maybe_lookup_table(),
            old(witness_proxy).oracle_u32(),
        ),
        final(witness_proxy).lookup_table() == old(witness_proxy).lookup_table(),
        final(witness_proxy).maybe_lookup_table() == old(witness_proxy).maybe_lookup_table(),
        final(witness_proxy).oracle_u32() == old(witness_proxy).oracle_u32(),
{
    proof {
        reveal(spec_eval_fn_32);
    }
    let v_0 = witness_proxy.get_witness_place_u16(3usize);
    let v_1 = witness_proxy.get_witness_place_u16(4usize);
    let v_2 = witness_proxy.get_witness_place_boolean(29usize);
    let v_3 = witness_proxy.get_memory_place_u16(8usize);
    let v_4 = witness_proxy.get_memory_place_u16(9usize);
    let v_5 = v_4.widen();
    let v_6 = v_5.shl(16u32);
    let v_7 = v_3.widen();
    let mut v_8 = v_6;
    W::U32::add_assign(&mut v_8, &v_7);
    let v_9 = v_1.widen();
    let v_10 = v_9.shl(16u32);
    let v_11 = v_0.widen();
    let mut v_12 = v_10;
    W::U32::add_assign(&mut v_12, &v_11);
    let mut v_13 = v_8;
    W::U32::add_assign(&mut v_13, &v_12);
    let v_14 = v_13.truncate();
    witness_proxy.set_witness_place_u16(
        11usize,
        W::U16::select(&v_2, &v_14, &witness_proxy.get_witness_place_u16(11usize)),
    );
    let v_16 = v_13.shr(16u32);
    let v_17 = v_16.truncate();
    witness_proxy.set_witness_place_u16(
        12usize,
        W::U16::select(&v_2, &v_17, &witness_proxy.get_witness_place_u16(12usize)),
    );
    let v_19 = W::U32::overflowing_add(&v_8, &v_12).1;
    witness_proxy.set_witness_place_boolean(
        39usize,
        W::Mask::select(
            &v_2,
            &v_19,
            &witness_proxy.get_witness_place_boolean(39usize),
        ),
    );
}
/// The row after `eval_fn_34`: its witness places and lookup records.
#[verifier::opaque]
pub open spec fn spec_eval_fn_34<W: WitnessTypeSet<Mersenne31Field>>(
    s: (Seq<W::Field>, Seq<(Seq<W::Field>, W::U16, usize)>, Seq<(Seq<W::Field>, W::U16, W::Mask)>),
    mem: Seq<W::Field>,
    lt: spec_fn(Seq<W::Field>, W::U16, nat) -> Seq<W::Field>,
    mlt: spec_fn(Seq<W::Field>, W::U16, W::Mask, nat) -> Seq<W::Field>,
    orc: spec_fn(Placeholder) -> W::U32,
) -> (Seq<W::Field>, Seq<(Seq<W::Field>, W::U16, usize)>, Seq<(Seq<W::Field>, W::U16, W::Mask)>) {
    let w = s.0;
    let c = s.1;
    let mk = s.2;
    let v_0 = place_as_u16::<Mersenne31Field, W>(w[3]);
    let v_1 = place_as_u16::<Mersenne31Field, W>(w[4]);
    let v_2 = place_as_mask::<Mersenne31Field, W>(w[33]);
    let v_3 = place_as_u16::<Mersenne31Field, W>(mem[8]);
    let v_4 = place_as_u16::<Mersenne31Field, W>(mem[9]);
    let v_5 = W::U16::spec_widen(v_4);
    let v_6 = W::U32::spec_shift_left(v_5, 16u32);
    let v_7 = W::U16::spec_widen(v_3);
    let v_8 = v_6;
    let v_8 = W::U32::spec_plus(v_8, v_7);
    let v_9 = W::U16::spec_widen(v_1);
    let v_10 = W::U32::spec_shift_left(v_9, 16u32);
    let v_11 = W::U16::spec_widen(v_0);
    let v_12 = v_10;
    let v_12 = W::U32::spec_plus(v_12, v_11);
    let v_13 = v_8;
    let v_13 = W::U32::spec_plus(v_13, v_12);
    let v_14 = W::U32::spec_truncate(v_13);
    let w = w.update(11, place_of_u16::<Mersenne31Field, W>(W::U16::spec_select(v_2, v_14, place_as_u16::<Mersenne31Field, W>(w[11]))));
    let v_16 = W::U32::spec_shift_right(v_13, 16u32);
    let v_17 = W::U32::spec_truncate(v_16);
    let w = w.update(12, place_of_u16::<Mersenne31Field, W>(W::U16::spec_select(v_2, v_17, place_as_u16::<Mersenne31Field, W>(w[12]))));
    let v_19 = W::U32::spec_overflowing_add(v_8, v_12).1;
    let w = w.update(39, W::Field::spec_from_mask(W::Mask::spec_select(v_2, v_19, place_as_mask::<Mersenne31Field, W>(w[39]))));
    (w, c, mk)
}

#[allow(unused_variables)]
fn eval_fn_34<
    'a,
    'b: 'a,
    W: WitnessTypeSet<Mersenne31Field>,
    P: WitnessProxy<Mersenne31Field, W> + 'b,
>(
    witness_proxy: &'a mut P,
) where
    W::Field: Copy,
    W::Mask: Copy,
    W::U32: Copy,
    W::U16: Copy,
    W::U8: Copy,
    W::I32: Copy,
    requires
        old(witness_proxy).witness().len() >= 40,
        old(witness_proxy).memory().len() >= 10,
    ensures
        final(witness_proxy).memory() == old(witness_proxy).memory(),
        final(witness_proxy).witness().len() == old(witness_proxy).witness().len(),
        forall|j: int| 0 <= j < old(witness_proxy).witness().len() && j != 11 && j != 12 && j != 39 ==> #[trigger] final(witness_proxy).witness()[j] == old(witness_proxy).witness()[j],
        row_state::<Mersenne31Field, W, P>(*final(witness_proxy)) == spec_eval_fn_34::<W>(
            row_state::<Mersenne31Field, W, P>(*old(witness_proxy)),
            old(witness_proxy).memory(),
            old(witness_proxy).lookup_table(),
            old(witness_proxy).maybe_lookup_table(),
            old(witness_proxy).oracle_u32(),
        ),
        final(witness_proxy).lookup_table() == old(witness_proxy).lookup_table(),
        final(witness_proxy).maybe_lookup_table() == old(witness_proxy).maybe_lookup_table(),
        final(witness_proxy).oracle_u32() == old(witness_proxy).oracle_u32(),
{
    proof {
        reveal(spec_eval_fn_34);
    }
    let v_0 = witness_proxy.get_witness_place_u16(3usize);
    let v_1 = witness_proxy.get_witness_place_u16(4usize);
    let v_2 = witness_proxy.get_witness_place_boolean(33usize);
    let v_3 = witness_proxy.get_memory_place_u16(8usize);
    let v_4 = witness_proxy.get_memory_place_u16(9usize);
    let v_5 = v_4.widen();
    let v_6 = v_5.shl(16u32);
    let v_7 = v_3.widen();
    let mut v_8 = v_6;
    W::U32::add_assign(&mut v_8, &v_7);
    let v_9 = v_1.widen();
    let v_10 = v_9.shl(16u32);
    let v_11 = v_0.widen();
    let mut v_12 = v_10;
    W::U32::add_assign(&mut v_12, &v_11);
    let mut v_13 = v_8;
    W::U32::add_assign(&mut v_13, &v_12);
    let v_14 = v_13.truncate();
    witness_proxy.set_witness_place_u16(
        11usize,
        W::U16::select(&v_2, &v_14, &witness_proxy.get_witness_place_u16(11usize)),
    );
    let v_16 = v_13.shr(16u32);
    let v_17 = v_16.truncate();
    witness_proxy.set_witness_place_u16(
        12usize,
        W::U16::select(&v_2, &v_17, &witness_proxy.get_witness_place_u16(12usize)),
    );
    let v_19 = W::U32::overflowing_add(&v_8, &v_12).1;
    witness_proxy.set_witness_place_boolean(
        39usize,
        W::Mask::select(
            &v_2,
            &v_19,
            &witness_proxy.get_witness_place_boolean(39usize),
        ),
    );
}
/// The row after `eval_fn_35`: its witness places and lookup records.
#[verifier::opaque]
pub open spec fn spec_eval_fn_35<W: WitnessTypeSet<Mersenne31Field>>(
    s: (Seq<W::Field>, Seq<(Seq<W::Field>, W::U16, usize)>, Seq<(Seq<W::Field>, W::U16, W::Mask)>),
    mem: Seq<W::Field>,
    lt: spec_fn(Seq<W::Field>, W::U16, nat) -> Seq<W::Field>,
    mlt: spec_fn(Seq<W::Field>, W::U16, W::Mask, nat) -> Seq<W::Field>,
    orc: spec_fn(Placeholder) -> W::U32,
) -> (Seq<W::Field>, Seq<(Seq<W::Field>, W::U16, usize)>, Seq<(Seq<W::Field>, W::U16, W::Mask)>) {
    let w = s.0;
    let c = s.1;
    let mk = s.2;
    let v_0 = place_as_mask::<Mersenne31Field, W>(w[33]);
    let v_1 = w[11];
    let v_2 = W::U16::spec_constant(18u16);
    let v_3 = mlt(seq![v_1], v_2, v_0, 2);
    let mk = mk.push((seq![v_1], v_2, v_0));
    let v_4 = v_3[0];
    let w = w.update(78, W::Field::spec_select(v_0, v_4, w[78]));
    let v_6 = v_3[1];
    let w = w.update(79, W::Field::spec_select(v_0, v_6, w[79]));
    (w, c, mk)
}

#[allow(unused_variables)]
fn eval_fn_35<
    'a,
    'b: 'a,
    W: WitnessTypeSet<Mersenne31Field>,
    P: WitnessProxy<Mersenne31Field, W> + 'b,
>(
    witness_proxy: &'a mut P,
) where
    W::Field: Copy,
    W::Mask: Copy,
    W::U32: Copy,
    W::U16: Copy,
    W::U8: Copy,
    W::I32: Copy,
    requires
        old(witness_proxy).witness().len() >= 80,
    ensures
        final(witness_proxy).memory() == old(witness_proxy).memory(),
        final(witness_proxy).witness().len() == old(witness_proxy).witness().len(),
        forall|j: int| 0 <= j < old(witness_proxy).witness().len() && j != 78 && j != 79 ==> #[trigger] final(witness_proxy).witness()[j] == old(witness_proxy).witness()[j],
        row_state::<Mersenne31Field, W, P>(*final(witness_proxy)) == spec_eval_fn_35::<W>(
            row_state::<Mersenne31Field, W, P>(*old(witness_proxy)),
            old(witness_proxy).memory(),
            old(witness_proxy).lookup_table(),
            old(witness_proxy).maybe_lookup_table(),
            old(witness_proxy).oracle_u32(),
        ),
        final(witness_proxy).lookup_table() == old(witness_proxy).lookup_table(),
        final(witness_proxy).maybe_lookup_table() == old(witness_proxy).maybe_lookup_table(),
        final(witness_proxy).oracle_u32() == old(witness_proxy).oracle_u32(),
{
    proof {
        reveal(spec_eval_fn_35);
    }
    let v_0 = witness_proxy.get_witness_place_boolean(33usize);
    let v_1 = witness_proxy.get_witness_place(11usize);
    let v_2 = W::U16::constant(18u16);
    let v_3_inputs = [v_1];
    proof {
        assert(v_3_inputs@ =~= seq![v_1]);
    }
    let v_3 = witness_proxy.maybe_lookup::<1usize, 2usize>(&v_3_inputs, v_2, v_0);
    let v_4 = v_3[0usize];
    witness_proxy.set_witness_place(
        78usize,
        W::Field::select(&v_0, &v_4, &witness_proxy.get_witness_place(78usize)),
    );
    let v_6 = v_3[1usize];
    witness_proxy.set_witness_place(
        79usize,
        W::Field::select(&v_0, &v_6, &witness_proxy.get_witness_place(79usize)),
    );
}
/// The row after `eval_fn_36`: its witness places and lookup records.
#[verifier::opaque]
pub open spec fn spec_eval_fn_36<W: WitnessTypeSet<Mersenne31Field>>(
    s: (Seq<W::Field>, Seq<(Seq<W::Field>, W::U16, usize)>, Seq<(Seq<W::Field>, W::U16, W::Mask)>),
    mem: Seq<W::Field>,
    lt: spec_fn(Seq<W::Field>, W::U16, nat) -> Seq<W::Field>,
    mlt: spec_fn(Seq<W::Field>, W::U16, W::Mask, nat) -> Seq<W::Field>,
    orc: spec_fn(Placeholder) -> W::U32,
) -> (Seq<W::Field>, Seq<(Seq<W::Field>, W::U16, usize)>, Seq<(Seq<W::Field>, W::U16, W::Mask)>) {
    let w = s.0;
    let c = s.1;
    let mk = s.2;
    let v_0 = place_as_mask::<Mersenne31Field, W>(w[33]);
    let v_1 = w[12];
    let v_2 = W::U16::spec_constant(23u16);
    let v_3 = mlt(seq![v_1], v_2, v_0, 2);
    let mk = mk.push((seq![v_1], v_2, v_0));
    let v_4 = v_3[0];
    let w = w.update(80, W::Field::spec_select(v_0, v_4, w[80]));
    let v_6 = v_3[1];
    let w = w.update(81, W::Field::spec_select(v_0, v_6, w[81]));
    (w, c, mk)
}

#[allow(unused_variables)]
fn eval_fn_36<
    'a,
    'b: 'a,
    W: WitnessTypeSet<Mersenne31Field>,
    P: WitnessProxy<Mersenne31Field, W> + 'b,
>(
    witness_proxy: &'a mut P,
) where
    W::Field: Copy,
    W::Mask: Copy,
    W::U32: Copy,
    W::U16: Copy,
    W::U8: Copy,
    W::I32: Copy,
    requires
        old(witness_proxy).witness().len() >= 82,
    ensures
        final(witness_proxy).memory() == old(witness_proxy).memory(),
        final(witness_proxy).witness().len() == old(witness_proxy).witness().len(),
        forall|j: int| 0 <= j < old(witness_proxy).witness().len() && j != 80 && j != 81 ==> #[trigger] final(witness_proxy).witness()[j] == old(witness_proxy).witness()[j],
        row_state::<Mersenne31Field, W, P>(*final(witness_proxy)) == spec_eval_fn_36::<W>(
            row_state::<Mersenne31Field, W, P>(*old(witness_proxy)),
            old(witness_proxy).memory(),
            old(witness_proxy).lookup_table(),
            old(witness_proxy).maybe_lookup_table(),
            old(witness_proxy).oracle_u32(),
        ),
        final(witness_proxy).lookup_table() == old(witness_proxy).lookup_table(),
        final(witness_proxy).maybe_lookup_table() == old(witness_proxy).maybe_lookup_table(),
        final(witness_proxy).oracle_u32() == old(witness_proxy).oracle_u32(),
{
    proof {
        reveal(spec_eval_fn_36);
    }
    let v_0 = witness_proxy.get_witness_place_boolean(33usize);
    let v_1 = witness_proxy.get_witness_place(12usize);
    let v_2 = W::U16::constant(23u16);
    let v_3_inputs = [v_1];
    proof {
        assert(v_3_inputs@ =~= seq![v_1]);
    }
    let v_3 = witness_proxy.maybe_lookup::<1usize, 2usize>(&v_3_inputs, v_2, v_0);
    let v_4 = v_3[0usize];
    witness_proxy.set_witness_place(
        80usize,
        W::Field::select(&v_0, &v_4, &witness_proxy.get_witness_place(80usize)),
    );
    let v_6 = v_3[1usize];
    witness_proxy.set_witness_place(
        81usize,
        W::Field::select(&v_0, &v_6, &witness_proxy.get_witness_place(81usize)),
    );
}
/// The row after `eval_fn_38`: its witness places and lookup records.
#[verifier::opaque]
pub open spec fn spec_eval_fn_38<W: WitnessTypeSet<Mersenne31Field>>(
    s: (Seq<W::Field>, Seq<(Seq<W::Field>, W::U16, usize)>, Seq<(Seq<W::Field>, W::U16, W::Mask)>),
    mem: Seq<W::Field>,
    lt: spec_fn(Seq<W::Field>, W::U16, nat) -> Seq<W::Field>,
    mlt: spec_fn(Seq<W::Field>, W::U16, W::Mask, nat) -> Seq<W::Field>,
    orc: spec_fn(Placeholder) -> W::U32,
) -> (Seq<W::Field>, Seq<(Seq<W::Field>, W::U16, usize)>, Seq<(Seq<W::Field>, W::U16, W::Mask)>) {
    let w = s.0;
    let c = s.1;
    let mk = s.2;
    let v_0 = orc(Placeholder::ExternalOracle);
    let v_1 = W::U32::spec_truncate(v_0);
    let w = w.update(15, place_of_u16::<Mersenne31Field, W>(v_1));
    let v_3 = W::U32::spec_shift_right(v_0, 16u32);
    let v_4 = W::U32::spec_truncate(v_3);
    let w = w.update(16, place_of_u16::<Mersenne31Field, W>(v_4));
    (w, c, mk)
}

#[allow(unused_variables)]
fn eval_fn_38<
    'a,
    'b: 'a,
    W: WitnessTypeSet<Mersenne31Field>,
    P: WitnessProxy<Mersenne31Field, W> + 'b,
>(
    witness_proxy: &'a mut P,
) where
    W::Field: Copy,
    W::Mask: Copy,
    W::U32: Copy,
    W::U16: Copy,
    W::U8: Copy,
    W::I32: Copy,
    requires
        old(witness_proxy).witness().len() >= 17,
    ensures
        final(witness_proxy).memory() == old(witness_proxy).memory(),
        final(witness_proxy).witness().len() == old(witness_proxy).witness().len(),
        forall|j: int| 0 <= j < old(witness_proxy).witness().len() && j != 15 && j != 16 ==> #[trigger] final(witness_proxy).witness()[j] == old(witness_proxy).witness()[j],
        row_state::<Mersenne31Field, W, P>(*final(witness_proxy)) == spec_eval_fn_38::<W>(
            row_state::<Mersenne31Field, W, P>(*old(witness_proxy)),
            old(witness_proxy).memory(),
            old(witness_proxy).lookup_table(),
            old(witness_proxy).maybe_lookup_table(),
            old(witness_proxy).oracle_u32(),
        ),
        final(witness_proxy).lookup_table() == old(witness_proxy).lookup_table(),
        final(witness_proxy).maybe_lookup_table() == old(witness_proxy).maybe_lookup_table(),
        final(witness_proxy).oracle_u32() == old(witness_proxy).oracle_u32(),
{
    proof {
        reveal(spec_eval_fn_38);
    }
    let v_0 = witness_proxy.get_oracle_value_u32(Placeholder::ExternalOracle);
    let v_1 = v_0.truncate();
    witness_proxy.set_witness_place_u16(15usize, v_1);
    let v_3 = v_0.shr(16u32);
    let v_4 = v_3.truncate();
    witness_proxy.set_witness_place_u16(16usize, v_4);
}
/// The row after `eval_fn_39`: its witness places and lookup records.
#[verifier::opaque]
pub open spec fn spec_eval_fn_39<W: WitnessTypeSet<Mersenne31Field>>(
    s: (Seq<W::Field>, Seq<(Seq<W::Field>, W::U16, usize)>, Seq<(Seq<W::Field>, W::U16, W::Mask)>),
    mem: Seq<W::Field>,
    lt: spec_fn(Seq<W::Field>, W::U16, nat) -> Seq<W::Field>,
    mlt: spec_fn(Seq<W::Field>, W::U16, W::Mask, nat) -> Seq<W::Field>,
    orc: spec_fn(Placeholder) -> W::U32,
) -> (Seq<W::Field>, Seq<(Seq<W::Field>, W::U16, usize)>, Seq<(Seq<W::Field>, W::U16, W::Mask)>) {
    let w = s.0;
    let c = s.1;
    let mk = s.2;
    let v_0 = w[3];
    let v_1 = place_as_mask::<Mersenne31Field, W>(w[26]);
    let v_2 = W::Field::spec_constant(Mersenne31Field(0u32));
    let v_3 = W::Field::spec_constant(Mersenne31Field(1u32));
    let v_4 = v_2;
    let v_4 = W::Field::spec_add_product(v_4, v_3, v_0);
    let v_5 = W::U16::spec_constant(25u16);
    let v_6 = mlt(seq![v_4], v_5, v_1, 2);
    let mk = mk.push((seq![v_4], v_5, v_1));
    let v_7 = v_6[0];
    let w = w.update(78, W::Field::spec_select(v_1, v_7, w[78]));
    let v_9 = v_6[1];
    let w = w.update(79, W::Field::spec_select(v_1, v_9, w[79]));
    (w, c, mk)
}

#[allow(unused_variables)]
fn eval_fn_39<
    'a,
    'b: 'a,
    W: WitnessTypeSet<Mersenne31Field>,
    P: WitnessProxy<Mersenne31Field, W> + 'b,
>(
    witness_proxy: &'a mut P,
) where
    W::Field: Copy,
    W::Mask: Copy,
    W::U32: Copy,
    W::U16: Copy,
    W::U8: Copy,
    W::I32: Copy,
    requires
        old(witness_proxy).witness().len() >= 80,
    ensures
        final(witness_proxy).memory() == old(witness_proxy).memory(),
        final(witness_proxy).witness().len() == old(witness_proxy).witness().len(),
        forall|j: int| 0 <= j < old(witness_proxy).witness().len() && j != 78 && j != 79 ==> #[trigger] final(witness_proxy).witness()[j] == old(witness_proxy).witness()[j],
        row_state::<Mersenne31Field, W, P>(*final(witness_proxy)) == spec_eval_fn_39::<W>(
            row_state::<Mersenne31Field, W, P>(*old(witness_proxy)),
            old(witness_proxy).memory(),
            old(witness_proxy).lookup_table(),
            old(witness_proxy).maybe_lookup_table(),
            old(witness_proxy).oracle_u32(),
        ),
        final(witness_proxy).lookup_table() == old(witness_proxy).lookup_table(),
        final(witness_proxy).maybe_lookup_table() == old(witness_proxy).maybe_lookup_table(),
        final(witness_proxy).oracle_u32() == old(witness_proxy).oracle_u32(),
{
    proof {
        reveal(spec_eval_fn_39);
    }
    let v_0 = witness_proxy.get_witness_place(3usize);
    let v_1 = witness_proxy.get_witness_place_boolean(26usize);
    let v_2 = W::Field::constant(Mersenne31Field(0u32));
    let v_3 = W::Field::constant(Mersenne31Field(1u32));
    let mut v_4 = v_2;
    W::Field::add_assign_product(&mut v_4, &v_3, &v_0);
    let v_5 = W::U16::constant(25u16);
    let v_6_inputs = [v_4];
    proof {
        assert(v_6_inputs@ =~= seq![v_4]);
    }
    let v_6 = witness_proxy.maybe_lookup::<1usize, 2usize>(&v_6_inputs, v_5, v_1);
    let v_7 = v_6[0usize];
    witness_proxy.set_witness_place(
        78usize,
        W::Field::select(&v_1, &v_7, &witness_proxy.get_witness_place(78usize)),
    );
    let v_9 = v_6[1usize];
    witness_proxy.set_witness_place(
        79usize,
        W::Field::select(&v_1, &v_9, &witness_proxy.get_witness_place(79usize)),
    );
}
/// The row after `eval_fn_40`: its witness places and lookup records.
#[verifier::opaque]
pub open spec fn spec_eval_fn_40<W: WitnessTypeSet<Mersenne31Field>>(
    s: (Seq<W::Field>, Seq<(Seq<W::Field>, W::U16, usize)>, Seq<(Seq<W::Field>, W::U16, W::Mask)>),
    mem: Seq<W::Field>,
    lt: spec_fn(Seq<W::Field>, W::U16, nat) -> Seq<W::Field>,
    mlt: spec_fn(Seq<W::Field>, W::U16, W::Mask, nat) -> Seq<W::Field>,
    orc: spec_fn(Placeholder) -> W::U32,
) -> (Seq<W::Field>, Seq<(Seq<W::Field>, W::U16, usize)>, Seq<(Seq<W::Field>, W::U16, W::Mask)>) {
    let w = s.0;
    let c = s.1;
    let mk = s.2;
    let v_0 = place_as_mask::<Mersenne31Field, W>(w[25]);
    let v_1 = w[11];
    let v_2 = W::Field::spec_constant(Mersenne31Field(0u32));
    let v_3 = v_2;
    let v_3 = W::Field::spec_plus(v_3, v_1);
    let v_4 = W::Field::spec_select(v_0, v_3, v_2);
    let w = w.update(98, v_4);
    (w, c, mk)
}

#[allow(unused_variables)]
fn eval_fn_40<
    'a,
    'b: 'a,
    W: WitnessTypeSet<Mersenne31Field>,
    P: WitnessProxy<Mersenne31Field, W> + 'b,
>(
    witness_proxy: &'a mut P,
) where
    W::Field: Copy,
    W::Mask: Copy,
    W::U32: Copy,
    W::U16: Copy,
    W::U8: Copy,
    W::I32: Copy,
    requires
        old(witness_proxy).witness().len() >= 99,
    ensures
        final(witness_proxy).memory() == old(witness_proxy).memory(),
        final(witness_proxy).witness().len() == old(witness_proxy).witness().len(),
        forall|j: int| 0 <= j < old(witness_proxy).witness().len() && j != 98 ==> #[trigger] final(witness_proxy).witness()[j] == old(witness_proxy).witness()[j],
        row_state::<Mersenne31Field, W, P>(*final(witness_proxy)) == spec_eval_fn_40::<W>(
            row_state::<Mersenne31Field, W, P>(*old(witness_proxy)),
            old(witness_proxy).memory(),
            old(witness_proxy).lookup_table(),
            old(witness_proxy).maybe_lookup_table(),
            old(witness_proxy).oracle_u32(),
        ),
        final(witness_proxy).lookup_table() == old(witness_proxy).lookup_table(),
        final(witness_proxy).maybe_lookup_table() == old(witness_proxy).maybe_lookup_table(),
        final(witness_proxy).oracle_u32() == old(witness_proxy).oracle_u32(),
{
    proof {
        reveal(spec_eval_fn_40);
    }
    let v_0 = witness_proxy.get_witness_place_boolean(25usize);
    let v_1 = witness_proxy.get_witness_place(11usize);
    let v_2 = W::Field::constant(Mersenne31Field(0u32));
    let mut v_3 = v_2;
    W::Field::add_assign(&mut v_3, &v_1);
    let v_4 = W::Field::select(&v_0, &v_3, &v_2);
    witness_proxy.set_witness_place(98usize, v_4);
}
/// The row after `eval_fn_41`: its witness places and lookup records.
#[verifier::opaque]
pub open spec fn spec_eval_fn_41<W: WitnessTypeSet<Mersenne31Field>>(
    s: (Seq<W::Field>, Seq<(Seq<W::Field>, W::U16, usize)>, Seq<(Seq<W::Field>, W::U16, W::Mask)>),
    mem: Seq<W::Field>,
    lt: spec_fn(Seq<W::Field>, W::U16, nat) -> Seq<W::Field>,
    mlt: spec_fn(Seq<W::Field>, W::U16, W::Mask, nat) -> Seq<W::Field>,
    orc: spec_fn(Placeholder) -> W::U32,
) -> (Seq<W::Field>, Seq<(Seq<W::Field>, W::U16, usize)>, Seq<(Seq<W::Field>, W::U16, W::Mask)>) {
    let w = s.0;
    let c = s.1;
    let mk = s.2;
    let v_0 = place_as_mask::<Mersenne31Field, W>(w[25]);
    let v_1 = w[12];
    let v_2 = W::Field::spec_constant(Mersenne31Field(0u32));
    let v_3 = v_2;
    let v_3 = W::Field::spec_plus(v_3, v_1);
    let v_4 = W::Field::spec_select(v_0, v_3, v_2);
    let w = w.update(99, v_4);
    (w, c, mk)
}

#[allow(unused_variables)]
fn eval_fn_41<
    'a,
    'b: 'a,
    W: WitnessTypeSet<Mersenne31Field>,
    P: WitnessProxy<Mersenne31Field, W> + 'b,
>(
    witness_proxy: &'a mut P,
) where
    W::Field: Copy,
    W::Mask: Copy,
    W::U32: Copy,
    W::U16: Copy,
    W::U8: Copy,
    W::I32: Copy,
    requires
        old(witness_proxy).witness().len() >= 100,
    ensures
        final(witness_proxy).memory() == old(witness_proxy).memory(),
        final(witness_proxy).witness().len() == old(witness_proxy).witness().len(),
        forall|j: int| 0 <= j < old(witness_proxy).witness().len() && j != 99 ==> #[trigger] final(witness_proxy).witness()[j] == old(witness_proxy).witness()[j],
        row_state::<Mersenne31Field, W, P>(*final(witness_proxy)) == spec_eval_fn_41::<W>(
            row_state::<Mersenne31Field, W, P>(*old(witness_proxy)),
            old(witness_proxy).memory(),
            old(witness_proxy).lookup_table(),
            old(witness_proxy).maybe_lookup_table(),
            old(witness_proxy).oracle_u32(),
        ),
        final(witness_proxy).lookup_table() == old(witness_proxy).lookup_table(),
        final(witness_proxy).maybe_lookup_table() == old(witness_proxy).maybe_lookup_table(),
        final(witness_proxy).oracle_u32() == old(witness_proxy).oracle_u32(),
{
    proof {
        reveal(spec_eval_fn_41);
    }
    let v_0 = witness_proxy.get_witness_place_boolean(25usize);
    let v_1 = witness_proxy.get_witness_place(12usize);
    let v_2 = W::Field::constant(Mersenne31Field(0u32));
    let mut v_3 = v_2;
    W::Field::add_assign(&mut v_3, &v_1);
    let v_4 = W::Field::select(&v_0, &v_3, &v_2);
    witness_proxy.set_witness_place(99usize, v_4);
}
/// The row after `eval_fn_42`: its witness places and lookup records.
#[verifier::opaque]
pub open spec fn spec_eval_fn_42<W: WitnessTypeSet<Mersenne31Field>>(
    s: (Seq<W::Field>, Seq<(Seq<W::Field>, W::U16, usize)>, Seq<(Seq<W::Field>, W::U16, W::Mask)>),
    mem: Seq<W::Field>,
    lt: spec_fn(Seq<W::Field>, W::U16, nat) -> Seq<W::Field>,
    mlt: spec_fn(Seq<W::Field>, W::U16, W::Mask, nat) -> Seq<W::Field>,
    orc: spec_fn(Placeholder) -> W::U32,
) -> (Seq<W::Field>, Seq<(Seq<W::Field>, W::U16, usize)>, Seq<(Seq<W::Field>, W::U16, W::Mask)>) {
    let w = s.0;
    let c = s.1;
    let mk = s.2;
    let v_0 = w[98];
    let v_1 = w[99];
    let v_2 = v_0;
    let v_2 = W::Field::spec_plus(v_2, v_1);
    let v_3 = W::Field::spec_constant(Mersenne31Field(0u32));
    let v_4 = W::Field::spec_equal(v_2, v_3);
    let w = w.update(40, W::Field::spec_from_mask(v_4));
    let v_6 = W::Field::spec_inverse_or_zero(v_2);
    let w = w.update(100, v_6);
    (w, c, mk)
}

#[allow(unused_variables)]
fn eval_fn_42<
    'a,
    'b: 'a,
    W: WitnessTypeSet<Mersenne31Field>,
    P: WitnessProxy<Mersenne31Field, W> + 'b,
>(
    witness_proxy: &'a mut P,
) where
    W::Field: Copy,
    W::Mask: Copy,
    W::U32: Copy,
    W::U16: Copy,
    W::U8: Copy,
    W::I32: Copy,
    requires
        old(witness_proxy).witness().len() >= 101,
    ensures
        final(witness_proxy).memory() == old(witness_proxy).memory(),
        final(witness_proxy).witness().len() == old(witness_proxy).witness().len(),
        forall|j: int| 0 <= j < old(witness_proxy).witness().len() && j != 40 && j != 100 ==> #[trigger] final(witness_proxy).witness()[j] == old(witness_proxy).witness()[j],
        row_state::<Mersenne31Field, W, P>(*final(witness_proxy)) == spec_eval_fn_42::<W>(
            row_state::<Mersenne31Field, W, P>(*old(witness_proxy)),
            old(witness_proxy).memory(),
            old(witness_proxy).lookup_table(),
            old(witness_proxy).maybe_lookup_table(),
            old(witness_proxy).oracle_u32(),
        ),
        final(witness_proxy).lookup_table() == old(witness_proxy).lookup_table(),
        final(witness_proxy).maybe_lookup_table() == old(witness_proxy).maybe_lookup_table(),
        final(witness_proxy).oracle_u32() == old(witness_proxy).oracle_u32(),
{
    proof {
        reveal(spec_eval_fn_42);
    }
    let v_0 = witness_proxy.get_witness_place(98usize);
    let v_1 = witness_proxy.get_witness_place(99usize);
    let mut v_2 = v_0;
    W::Field::add_assign(&mut v_2, &v_1);
    let v_3 = W::Field::constant(Mersenne31Field(0u32));
    let v_4 = W::Field::equal(&v_2, &v_3);
    witness_proxy.set_witness_place_boolean(40usize, v_4);
    let v_6 = W::Field::inverse_or_zero(&v_2);
    witness_proxy.set_witness_place(100usize, v_6);
}
/// The row after `eval_fn_43`: its witness places and lookup records.
#[verifier::opaque]
pub open spec fn spec_eval_fn_43<W: WitnessTypeSet<Mersenne31Field>>(
    s: (Seq<W::Field>, Seq<(Seq<W::Field>, W::U16, usize)>, Seq<(Seq<W::Field>, W::U16, W::Mask)>),
    mem: Seq<W::Field>,
    lt: spec_fn(Seq<W::Field>, W::U16, nat) -> Seq<W::Field>,
    mlt: spec_fn(Seq<W::Field>, W::U16, W::Mask, nat) -> Seq<W::Field>,
    orc: spec_fn(Placeholder) -> W::U32,
) -> (Seq<W::Field>, Seq<(Seq<W::Field>, W::U16, usize)>, Seq<(Seq<W::Field>, W::U16, W::Mask)>) {
    let w = s.0;
    let c = s.1;
    let mk = s.2;
    let v_0 = w[5];
    let v_1 = place_as_mask::<Mersenne31Field, W>(w[24]);
    let v_2 = place_as_mask::<Mersenne31Field, W>(w[25]);
    let v_3 = place_as_mask::<Mersenne31Field, W>(w[26]);
    let v_4 = place_as_mask::<Mersenne31Field, W>(w[27]);
    let v_5 = place_as_mask::<Mersenne31Field, W>(w[29]);
    let v_6 = place_as_mask::<Mersenne31Field, W>(w[31]);
    let v_7 = place_as_mask::<Mersenne31Field, W>(w[33]);
    let v_8 = W::Field::spec_constant(Mersenne31Field(0u32));
    let v_9 = v_8;
    let v_9 = W::Field::spec_plus(v_9, v_0);
    let v_10 = W::Field::spec_select(v_1, v_9, v_8);
    let v_11 = W::Field::spec_constant(Mersenne31Field(17u32));
    let v_12 = v_10;
    let v_12 = W::Field::spec_plus(v_12, v_11);
    let v_13 = W::Field::spec_select(v_2, v_12, v_10);
    let v_14 = W::Field::spec_constant(Mersenne31Field(47u32));
    let v_15 = v_13;
    let v_15 = W::Field::spec_plus(v_15, v_14);
    let v_16 = W::Field::spec_select(v_6, v_15, v_13);
    let v_17 = v_16;
    let v_17 = W::Field::spec_plus(v_17, v_11);
    let v_18 = W::Field::spec_select(v_4, v_17, v_16);
    let v_19 = W::Field::spec_constant(Mersenne31Field(23u32));
    let v_20 = v_18;
    let v_20 = W::Field::spec_plus(v_20, v_19);
    let v_21 = W::Field::spec_select(v_5, v_20, v_18);
    let v_22 = W::Field::spec_constant(Mersenne31Field(18u32));
    let v_23 = v_21;
    let v_23 = W::Field::spec_plus(v_23, v_22);
    let v_24 = W::Field::spec_select(v_7, v_23, v_21);
    let v_25 = W::Field::spec_constant(Mersenne31Field(25u32));
    let v_26 = v_24;
    let v_26 = W::Field::spec_plus(v_26, v_25);
    let v_27 = W::Field::spec_select(v_3, v_26, v_24);
    let w = w.update(58, v_27);
    (w, c, mk)
}

#[allow(unused_variables)]
fn eval_fn_43<
    'a,
    'b: 'a,
    W: WitnessTypeSet<Mersenne31Field>,
    P: WitnessProxy<Mersenne31Field, W> + 'b,
>(
    witness_proxy: &'a mut P,
) where
    W::Field: Copy,
    W::Mask: Copy,
    W::U32: Copy,
    W::U16: Copy,
    W::U8: Copy,
    W::I32: Copy,
    requires
        old(witness_proxy).witness().len() >= 59,
    ensures
        final(witness_proxy).memory() == old(witness_proxy).memory(),
        final(witness_proxy).witness().len() == old(witness_proxy).witness().len(),
        forall|j: int| 0 <= j < old(witness_proxy).witness().len() && j != 58 ==> #[trigger] final(witness_proxy).witness()[j] == old(witness_proxy).witness()[j],
        row_state::<Mersenne31Field, W, P>(*final(witness_proxy)) == spec_eval_fn_43::<W>(
            row_state::<Mersenne31Field, W, P>(*old(witness_proxy)),
            old(witness_proxy).memory(),
            old(witness_proxy).lookup_table(),
            old(witness_proxy).maybe_lookup_table(),
            old(witness_proxy).oracle_u32(),
        ),
        final(witness_proxy).lookup_table() == old(witness_proxy).lookup_table(),
        final(witness_proxy).maybe_lookup_table() == old(witness_proxy).maybe_lookup_table(),
        final(witness_proxy).oracle_u32() == old(witness_proxy).oracle_u32(),
{
    proof {
        reveal(spec_eval_fn_43);
    }
    let v_0 = witness_proxy.get_witness_place(5usize);
    let v_1 = witness_proxy.get_witness_place_boolean(24usize);
    let v_2 = witness_proxy.get_witness_place_boolean(25usize);
    let v_3 = witness_proxy.get_witness_place_boolean(26usize);
    let v_4 = witness_proxy.get_witness_place_boolean(27usize);
    let v_5 = witness_proxy.get_witness_place_boolean(29usize);
    let v_6 = witness_proxy.get_witness_place_boolean(31usize);
    let v_7 = witness_proxy.get_witness_place_boolean(33usize);
    let v_8 = W::Field::constant(Mersenne31Field(0u32));
    let mut v_9 = v_8;
    W::Field::add_assign(&mut v_9, &v_0);
    let v_10 = W::Field::select(&v_1, &v_9, &v_8);
    let v_11 = W::Field::constant(Mersenne31Field(17u32));
    let mut v_12 = v_10;
    W::Field::add_assign(&mut v_12, &v_11);
    let v_13 = W::Field::select(&v_2, &v_12, &v_10);
    let v_14 = W::Field::constant(Mersenne31Field(47u32));
    let mut v_15 = v_13;
    W::Field::add_assign(&mut v_15, &v_14);
    let v_16 = W::Field::select(&v_6, &v_15, &v_13);
    let mut v_17 = v_16;
    W::Field::add_assign(&mut v_17, &v_11);
    let v_18 = W::Field::select(&v_4, &v_17, &v_16);
    let v_19 = W::Field::constant(Mersenne31Field(23u32));
    let mut v_20 = v_18;
    W::Field::add_assign(&mut v_20, &v_19);
    let v_21 = W::Field::select(&v_5, &v_20, &v_18);
    let v_22 = W::Field::constant(Mersenne31Field(18u32));
    let mut v_23 = v_21;
    W::Field::add_assign(&mut v_23, &v_22);
    let v_24 = W::Field::select(&v_7, &v_23, &v_21);
    let v_25 = W::Field::constant(Mersenne31Field(25u32));
    let mut v_26 = v_24;
    W::Field::add_assign(&mut v_26, &v_25);
    let v_27 = W::Field::select(&v_3, &v_26, &v_24);
    witness_proxy.set_witness_place(58usize, v_27);
}
/// The row after `eval_fn_44`: its witness places and lookup records.
#[verifier::opaque]
pub open spec fn spec_eval_fn_44<W: WitnessTypeSet<Mersenne31Field>>(
    s: (Seq<W::Field>, Seq<(Seq<W::Field>, W::U16, usize)>, Seq<(Seq<W::Field>, W::U16, W::Mask)>),
    mem: Seq<W::Field>,
    lt: spec_fn(Seq<W::Field>, W::U16, nat) -> Seq<W::Field>,
    mlt: spec_fn(Seq<W::Field>, W::U16, W::Mask, nat) -> Seq<W::Field>,
    orc: spec_fn(Placeholder) -> W::U32,
) -> (Seq<W::Field>, Seq<(Seq<W::Field>, W::U16, usize)>, Seq<(Seq<W::Field>, W::U16, W::Mask)>) {
    let w = s.0;
    let c = s.1;
    let mk = s.2;
    let v_0 = w[5];
    let v_1 = place_as_mask::<Mersenne31Field, W>(w[24]);
    let v_2 = place_as_mask::<Mersenne31Field, W>(w[25]);
    let v_3 = place_as_mask::<Mersenne31Field, W>(w[29]);
    let v_4 = place_as_mask::<Mersenne31Field, W>(w[31]);
    let v_5 = place_as_mask::<Mersenne31Field, W>(w[33]);
    let v_6 = W::Field::spec_constant(Mersenne31Field(0u32));
    let v_7 = v_6;
    let v_7 = W::Field::spec_plus(v_7, v_0);
    let v_8 = W::Field::spec_select(v_1, v_7, v_6);
    let v_9 = W::Field::spec_constant(Mersenne31Field(22u32));
    let v_10 = v_8;
    let v_10 = W::Field::spec_plus(v_10, v_9);
    let v_11 = W::Field::spec_select(v_2, v_10, v_8);
    let v_12 = W::Field::spec_constant(Mersenne31Field(37u32));
    let v_13 = v_11;
    let v_13 = W::Field::spec_plus(v_13, v_12);
    let v_14 = W::Field::spec_select(v_4, v_13, v_11);
    let v_15 = W::Field::spec_constant(Mersenne31Field(24u32));
    let v_16 = v_14;
    let v_16 = W::Field::spec_plus(v_16, v_15);
    let v_17 = W::Field::spec_select(v_3, v_16, v_14);
    let v_18 = W::Field::spec_constant(Mersenne31Field(23u32));
    let v_19 = v_17;
    let v_19 = W::Field::spec_plus(v_19, v_18);
    let v_20 = W::Field::spec_select(v_5, v_19, v_17);
    let w = w.update(62, v_20);
    (w, c, mk)
}

#[allow(unused_variables)]
fn eval_fn_44<
    'a,
    'b: 'a,
    W: WitnessTypeSet<Mersenne31Field>,
    P: WitnessProxy<Mersenne31Field, W> + 'b,
>(
    witness_proxy: &'a mut P,
) where
    W::Field: Copy,
    W::Mask: Copy,
    W::U32: Copy,
    W::U16: Copy,
    W::U8: Copy,
    W::I32: Copy,
    requires
        old(witness_proxy).witness().len() >= 63,
    ensures
        final(witness_proxy).memory() == old(witness_proxy).memory(),
        final(witness_proxy).witness().len() == old(witness_proxy).witness().len(),
        forall|j: int| 0 <= j < old(witness_proxy).witness().len() && j != 62 ==> #[trigger] final(witness_proxy).witness()[j] == old(witness_proxy).witness()[j],
        row_state::<Mersenne31Field, W, P>(*final(witness_proxy)) == spec_eval_fn_44::<W>(
            row_state::<Mersenne31Field, W, P>(*old(witness_proxy)),
            old(witness_proxy).memory(),
            old(witness_proxy).lookup_table(),
            old(witness_proxy).maybe_lookup_table(),
            old(witness_proxy).oracle_u32(),
        ),
        final(witness_proxy).lookup_table() == old(witness_proxy).lookup_table(),
        final(witness_proxy).maybe_lookup_table() == old(witness_proxy).maybe_lookup_table(),
        final(witness_proxy).oracle_u32() == old(witness_proxy).oracle_u32(),
{
    proof {
        reveal(spec_eval_fn_44);
    }
    let v_0 = witness_proxy.get_witness_place(5usize);
    let v_1 = witness_proxy.get_witness_place_boolean(24usize);
    let v_2 = witness_proxy.get_witness_place_boolean(25usize);
    let v_3 = witness_proxy.get_witness_place_boolean(29usize);
    let v_4 = witness_proxy.get_witness_place_boolean(31usize);
    let v_5 = witness_proxy.get_witness_place_boolean(33usize);
    let v_6 = W::Field::constant(Mersenne31Field(0u32));
    let mut v_7 = v_6;
    W::Field::add_assign(&mut v_7, &v_0);
    let v_8 = W::Field::select(&v_1, &v_7, &v_6);
    let v_9 = W::Field::constant(Mersenne31Field(22u32));
    let mut v_10 = v_8;
    W::Field::add_assign(&mut v_10, &v_9);
    let v_11 = W::Field::select(&v_2, &v_10, &v_8);
    let v_12 = W::Field::constant(Mersenne31Field(37u32));
    let mut v_13 = v_11;
    W::Field::add_assign(&mut v_13, &v_12);
    let v_14 = W::Field::select(&v_4, &v_13, &v_11);
    let v_15 = W::Field::constant(Mersenne31Field(24u32));
    let mut v_16 = v_14;
    W::Field::add_assign(&mut v_16, &v_15);
    let v_17 = W::Field::select(&v_3, &v_16, &v_14);
    let v_18 = W::Field::constant(Mersenne31Field(23u32));
    let mut v_19 = v_17;
    W::Field::add_assign(&mut v_19, &v_18);
    let v_20 = W::Field::select(&v_5, &v_19, &v_17);
    witness_proxy.set_witness_place(62usize, v_20);
}
/// The row after `eval_fn_45`: its witness places and lookup records.
#[verifier::opaque]
pub open spec fn spec_eval_fn_45<W: WitnessTypeSet<Mersenne31Field>>(
    s: (Seq<W::Field>, Seq<(Seq<W::Field>, W::U16, usize)>, Seq<(Seq<W::Field>, W::U16, W::Mask)>),
    mem: Seq<W::Field>,
    lt: spec_fn(Seq<W::Field>, W::U16, nat) -> Seq<W::Field>,
    mlt: spec_fn(Seq<W::Field>, W::U16, W::Mask, nat) -> Seq<W::Field>,
    orc: spec_fn(Placeholder) -> W::U32,
) -> (Seq<W::Field>, Seq<(Seq<W::Field>, W::U16, usize)>, Seq<(Seq<W::Field>, W::U16, W::Mask)>) {
    let w = s.0;
    let c = s.1;
    let mk = s.2;
    let v_0 = w[5];
    let v_1 = place_as_mask::<Mersenne31Field, W>(w[24]);
    let v_2 = place_as_mask::<Mersenne31Field, W>(w[31]);
    let v_3 = W::Field::spec_constant(Mersenne31Field(0u32));
    let v_4 = v_3;
    let v_4 = W::Field::spec_plus(v_4, v_0);
    let v_5 = W::Field::spec_select(v_1, v_4, v_3);
    let v_6 = W::Field::spec_constant(Mersenne31Field(37u32));
    let v_7 = v_5;
    let v_7 = W::Field::spec_plus(v_7, v_6);
    let v_8 = W::Field::spec_select(v_2, v_7, v_5);
    let w = w.update(66, v_8);
    (w, c, mk)
}

#[allow(unused_variables)]
fn eval_fn_45<
    'a,
    'b: 'a,
    W: WitnessTypeSet<Mersenne31Field>,
    P: WitnessProxy<Mersenne31Field, W> + 'b,
>(
    witness_proxy: &'a mut P,
) where
    W::Field: Copy,
    W::Mask: Copy,
    W::U32: Copy,
    W::U16: Copy,
    W::U8: Copy,
    W::I32: Copy,
    requires
        old(witness_proxy).witness().len() >= 67,
    ensures
        final(witness_proxy).memory() == old(witness_proxy).memory(),
        final(witness_proxy).witness().len() == old(witness_proxy).witness().len(),
        forall|j: int| 0 <= j < old(witness_proxy).witness().len() && j != 66 ==> #[trigger] final(witness_proxy).witness()[j] == old(witness_proxy).witness()[j],
        row_state::<Mersenne31Field, W, P>(*final(witness_proxy)) == spec_eval_fn_45::<W>(
            row_state::<Mersenne31Field, W, P>(*old(witness_proxy)),
            old(witness_proxy).memory(),
            old(witness_proxy).lookup_table(),
            old(witness_proxy).maybe_lookup_table(),
            old(witness_proxy).oracle_u32(),
        ),
        final(witness_proxy).lookup_table() == old(witness_proxy).lookup_table(),
        final(witness_proxy).maybe_lookup_table() == old(witness_proxy).maybe_lookup_table(),
        final(witness_proxy).oracle_u32() == old(witness_proxy).oracle_u32(),
{
    proof {
        reveal(spec_eval_fn_45);
    }
    let v_0 = witness_proxy.get_witness_place(5usize);
    let v_1 = witness_proxy.get_witness_place_boolean(24usize);
    let v_2 = witness_proxy.get_witness_place_boolean(31usize);
    let v_3 = W::Field::constant(Mersenne31Field(0u32));
    let mut v_4 = v_3;
    W::Field::add_assign(&mut v_4, &v_0);
    let v_5 = W::Field::select(&v_1, &v_4, &v_3);
    let v_6 = W::Field::constant(Mersenne31Field(37u32));
    let mut v_7 = v_5;
    W::Field::add_assign(&mut v_7, &v_6);
    let v_8 = W::Field::select(&v_2, &v_7, &v_5);
    witness_proxy.set_witness_place(66usize, v_8);
}
/// The row after `eval_fn_46`: its witness places and lookup records.
#[verifier::opaque]
pub open spec fn spec_eval_fn_46<W: WitnessTypeSet<Mersenne31Field>>(
    s: (Seq<W::Field>, Seq<(Seq<W::Field>, W::U16, usize)>, Seq<(Seq<W::Field>, W::U16, W::Mask)>),
    mem: Seq<W::Field>,
    lt: spec_fn(Seq<W::Field>, W::U16, nat) -> Seq<W::Field>,
    mlt: spec_fn(Seq<W::Field>, W::U16, W::Mask, nat) -> Seq<W::Field>,
    orc: spec_fn(Placeholder) -> W::U32,
) -> (Seq<W::Field>, Seq<(Seq<W::Field>, W::U16, usize)>, Seq<(Seq<W::Field>, W::U16, W::Mask)>) {
    let w = s.0;
    let c = s.1;
    let mk = s.2;
    let v_0 = w[5];
    let v_1 = place_as_mask::<Mersenne31Field, W>(w[24]);
    let v_2 = place_as_mask::<Mersenne31Field, W>(w[31]);
    let v_3 = W::Field::spec_constant(Mersenne31Field(0u32));
    let v_4 = v_3;
    let v_4 = W::Field::spec_plus(v_4, v_0);
    let v_5 = W::Field::spec_select(v_1, v_4, v_3);
    let v_6 = W::Field::spec_constant(Mersenne31Field(20u32));
    let v_7 = v_5;
    let v_7 = W::Field::spec_plus(v_7, v_6);
    let v_8 = W::Field::spec_select(v_2, v_7, v_5);
    let w = w.update(70, v_8);
    (w, c, mk)
}

#[allow(unused_variables)]
fn eval_fn_46<
    'a,
    'b: 'a,
    W: WitnessTypeSet<Mersenne31Field>,
    P: WitnessProxy<Mersenne31Field, W> + 'b,
>(
    witness_proxy: &'a mut P,
) where
    W::Field: Copy,
    W::Mask: Copy,
    W::U32: Copy,
    W::U16: Copy,
    W::U8: Copy,
    W::I32: Copy,
    requires
        old(witness_proxy).witness().len() >= 71,
    ensures
        final(witness_proxy).memory() == old(witness_proxy).memory(),
        final(witness_proxy).witness().len() == old(witness_proxy).witness().len(),
        forall|j: int| 0 <= j < old(witness_proxy).witness().len() && j != 70 ==> #[trigger] final(witness_proxy).witness()[j] == old(witness_proxy).witness()[j],
        row_state::<Mersenne31Field, W, P>(*final(witness_proxy)) == spec_eval_fn_46::<W>(
            row_state::<Mersenne31Field, W, P>(*old(witness_proxy)),
            old(witness_proxy).memory(),
            old(witness_proxy).lookup_table(),
            old(witness_proxy).maybe_lookup_table(),
            old(witness_proxy).oracle_u32(),
        ),
        final(witness_proxy).lookup_table() == old(witness_proxy).lookup_table(),
        final(witness_proxy).maybe_lookup_table() == old(witness_proxy).maybe_lookup_table(),
        final(witness_proxy).oracle_u32() == old(witness_proxy).oracle_u32(),
{
    proof {
        reveal(spec_eval_fn_46);
    }
    let v_0 = witness_proxy.get_witness_place(5usize);
    let v_1 = witness_proxy.get_witness_place_boolean(24usize);
    let v_2 = witness_proxy.get_witness_place_boolean(31usize);
    let v_3 = W::Field::constant(Mersenne31Field(0u32));
    let mut v_4 = v_3;
    W::Field::add_assign(&mut v_4, &v_0);
    let v_5 = W::Field::select(&v_1, &v_4, &v_3);
    let v_6 = W::Field::constant(Mersenne31Field(20u32));
    let mut v_7 = v_5;
    W::Field::add_assign(&mut v_7, &v_6);
    let v_8 = W::Field::select(&v_2, &v_7, &v_5);
    witness_proxy.set_witness_place(70usize, v_8);
}
/// The row after `eval_fn_47`: its witness places and lookup records.
#[verifier::opaque]
pub open spec fn spec_eval_fn_47<W: WitnessTypeSet<Mersenne31Field>>(
    s: (Seq<W::Field>, Seq<(Seq<W::Field>, W::U16, usize)>, Seq<(Seq<W::Field>, W::U16, W::Mask)>),
    mem: Seq<W::Field>,
    lt: spec_fn(Seq<W::Field>, W::U16, nat) -> Seq<W::Field>,
    mlt: spec_fn(Seq<W::Field>, W::U16, W::Mask, nat) -> Seq<W::Field>,
    orc: spec_fn(Placeholder) -> W::U32,
) -> (Seq<W::Field>, Seq<(Seq<W::Field>, W::U16, usize)>, Seq<(Seq<W::Field>, W::U16, W::Mask)>) {
    let w = s.0;
    let c = s.1;
    let mk = s.2;
    let v_0 = place_as_mask::<Mersenne31Field, W>(w[27]);
    let v_1 = w[11];
    let v_2 = W::U16::spec_constant(17u16);
    let v_3 = mlt(seq![v_1], v_2, v_0, 2);
    let mk = mk.push((seq![v_1], v_2, v_0));
    let v_4 = v_3[0];
    let w = w.update(78, W::Field::spec_select(v_0, v_4, w[78]));
    let v_6 = v_3[1];
    let w = w.update(79, W::Field::spec_select(v_0, v_6, w[79]));
    (w, c, mk)
}

#[allow(unused_variables)]
fn eval_fn_47<
    'a,
    'b: 'a,
    W: WitnessTypeSet<Mersenne31Field>,
    P: WitnessProxy<Mersenne31Field, W> + 'b,
>(
    witness_proxy: &'a mut P,
) where
    W::Field: Copy,
    W::Mask: Copy,
    W::U32: Copy,
    W::U16: Copy,
    W::U8: Copy,
    W::I32: Copy,
    requires
        old(witness_proxy).witness().len() >= 80,
    ensures
        final(witness_proxy).memory() == old(witness_proxy).memory(),
        final(witness_proxy).witness().len() == old(witness_proxy).witness().len(),
        forall|j: int| 0 <= j < old(witness_proxy).witness().len() && j != 78 && j != 79 ==> #[trigger] final(witness_proxy).witness()[j] == old(witness_proxy).witness()[j],
        row_state::<Mersenne31Field, W, P>(*final(witness_proxy)) == spec_eval_fn_47::<W>(
            row_state::<Mersenne31Field, W, P>(*old(witness_proxy)),
            old(witness_proxy).memory(),
            old(witness_proxy).lookup_table(),
            old(witness_proxy).maybe_lookup_table(),
            old(witness_proxy).oracle_u32(),
        ),
        final(witness_proxy).lookup_table() == old(witness_proxy).lookup_table(),
        final(witness_proxy).maybe_lookup_table() == old(witness_proxy).maybe_lookup_table(),
        final(witness_proxy).oracle_u32() == old(witness_proxy).oracle_u32(),
{
    proof {
        reveal(spec_eval_fn_47);
    }
    let v_0 = witness_proxy.get_witness_place_boolean(27usize);
    let v_1 = witness_proxy.get_witness_place(11usize);
    let v_2 = W::U16::constant(17u16);
    let v_3_inputs = [v_1];
    proof {
        assert(v_3_inputs@ =~= seq![v_1]);
    }
    let v_3 = witness_proxy.maybe_lookup::<1usize, 2usize>(&v_3_inputs, v_2, v_0);
    let v_4 = v_3[0usize];
    witness_proxy.set_witness_place(
        78usize,
        W::Field::select(&v_0, &v_4, &witness_proxy.get_witness_place(78usize)),
    );
    let v_6 = v_3[1usize];
    witness_proxy.set_witness_place(
        79usize,
        W::Field::select(&v_0, &v_6, &witness_proxy.get_witness_place(79usize)),
    );
}
/// The row after `eval_fn_48`: its witness places and lookup records.
#[verifier::opaque]
pub open spec fn spec_eval_fn_48<W: WitnessTypeSet<Mersenne31Field>>(
    s: (Seq<W::Field>, Seq<(Seq<W::Field>, W::U16, usize)>, Seq<(Seq<W::Field>, W::U16, W::Mask)>),
    mem: Seq<W::Field>,
    lt: spec_fn(Seq<W::Field>, W::U16, nat) -> Seq<W::Field>,
    mlt: spec_fn(Seq<W::Field>, W::U16, W::Mask, nat) -> Seq<W::Field>,
    orc: spec_fn(Placeholder) -> W::U32,
) -> (Seq<W::Field>, Seq<(Seq<W::Field>, W::U16, usize)>, Seq<(Seq<W::Field>, W::U16, W::Mask)>) {
    let w = s.0;
    let c = s.1;
    let mk = s.2;
    let v_0 = place_as_mask::<Mersenne31Field, W>(w[30]);
    let v_1 = place_as_u16::<Mersenne31Field, W>(w[11]);
    let v_2 = place_as_u16::<Mersenne31Field, W>(w[12]);
    let v_3 = W::U16::spec_widen(v_2);
    let v_4 = W::U32::spec_shift_left(v_3, 16u32);
    let v_5 = W::U16::spec_widen(v_1);
    let v_6 = v_4;
    let v_6 = W::U32::spec_plus(v_6, v_5);
    let v_7 = W::U32::spec_constant(2147483647u32);
    let v_8 = W::U32::spec_overflowing_sub(v_6, v_7).1;
    let w = w.update(39, W::Field::spec_from_mask(W::Mask::spec_select(v_0, v_8, place_as_mask::<Mersenne31Field, W>(w[39]))));
    let v_10 = v_6;
    let v_10 = W::U32::spec_minus(v_10, v_7);
    let v_11 = W::U32::spec_truncate(v_10);
    let w = w.update(13, place_of_u16::<Mersenne31Field, W>(W::U16::spec_select(v_0, v_11, place_as_u16::<Mersenne31Field, W>(w[13]))));
    let v_13 = W::U32::spec_shift_right(v_10, 16u32);
    let v_14 = W::U32::spec_truncate(v_13);
    let w = w.update(14, place_of_u16::<Mersenne31Field, W>(W::U16::spec_select(v_0, v_14, place_as_u16::<Mersenne31Field, W>(w[14]))));
    (w, c, mk)
}

#[allow(unused_variables)]
fn eval_fn_48<
    'a,
    'b: 'a,
    W: WitnessTypeSet<Mersenne31Field>,
    P: WitnessProxy<Mersenne31Field, W> + 'b,
>(
    witness_proxy: &'a mut P,
) where
    W::Field: Copy,
    W::Mask: Copy,
    W::U32: Copy,
    W::U16: Copy,
    W::U8: Copy,
    W::I32: Copy,
    requires
        old(witness_proxy).witness().len() >= 40,
    ensures
        final(witness_proxy).memory() == old(witness_proxy).memory(),
        final(witness_proxy).witness().len() == old(witness_proxy).witness().len(),
        forall|j: int| 0 <= j < old(witness_proxy).witness().len() && j != 13 && j != 14 && j != 39 ==> #[trigger] final(witness_proxy).witness()[j] == old(witness_proxy).witness()[j],
        row_state::<Mersenne31Field, W, P>(*final(witness_proxy)) == spec_eval_fn_48::<W>(
            row_state::<Mersenne31Field, W, P>(*old(witness_proxy)),
            old(witness_proxy).memory(),
            old(witness_proxy).lookup_table(),
            old(witness_proxy).maybe_lookup_table(),
            old(witness_proxy).oracle_u32(),
        ),
        final(witness_proxy).lookup_table() == old(witness_proxy).lookup_table(),
        final(witness_proxy).maybe_lookup_table() == old(witness_proxy).maybe_lookup_table(),
        final(witness_proxy).oracle_u32() == old(witness_proxy).oracle_u32(),
{
    proof {
        reveal(spec_eval_fn_48);
    }
    let v_0 = witness_proxy.get_witness_place_boolean(30usize);
    let v_1 = witness_proxy.get_witness_place_u16(11usize);
    let v_2 = witness_proxy.get_witness_place_u16(12usize);
    let v_3 = v_2.widen();
    let v_4 = v_3.shl(16u32);
    let v_5 = v_1.widen();
    let mut v_6 = v_4;
    W::U32::add_assign(&mut v_6, &v_5);
    let v_7 = W::U32::constant(2147483647u32);
    let v_8 = W::U32::overflowing_sub(&v_6, &v_7).1;
    witness_proxy.set_witness_place_boolean(
        39usize,
        W::Mask::select(
            &v_0,
            &v_8,
            &witness_proxy.get_witness_place_boolean(39usize),
        ),
    );
    let mut v_10 = v_6;
    W::U32::sub_assign(&mut v_10, &v_7);
    let v_11 = v_10.truncate();
    witness_proxy.set_witness_place_u16(
        13usize,
        W::U16::select(&v_0, &v_11, &witness_proxy.get_witness_place_u16(13usize)),
    );
    let v_13 = v_10.shr(16u32);
    let v_14 = v_13.truncate();
    witness_proxy.set_witness_place_u16(
        14usize,
        W::U16::select(&v_0, &v_14, &witness_proxy.get_witness_place_u16(14usize)),
    );
}
/// The row after `eval_fn_49`: its witness places and lookup records.
#[verifier::opaque]
pub open spec fn spec_eval_fn_49<W: WitnessTypeSet<Mersenne31Field>>(
    s: (Seq<W::Field>, Seq<(Seq<W::Field>, W::U16, usize)>, Seq<(Seq<W::Field>, W::U16, W::Mask)>),
    mem: Seq<W::Field>,
    lt: spec_fn(Seq<W::Field>, W::U16, nat) -> Seq<W::Field>,
    mlt: spec_fn(Seq<W::Field>, W::U16, W::Mask, nat) -> Seq<W::Field>,
    orc: spec_fn(Placeholder) -> W::U32,
) -> (Seq<W::Field>, Seq<(Seq<W::Field>, W::U16, usize)>, Seq<(Seq<W::Field>, W::U16, W::Mask)>) {
    let w = s.0;
    let c = s.1;
    let mk = s.2;
    let v_0 = place_as_mask::<Mersenne31Field, W>(w[29]);
    let v_1 = w[12];
    let v_2 = W::U16::spec_constant(23u16);
    let v_3 = mlt(seq![v_1], v_2, v_0, 2);
    let mk = mk.push((seq![v_1], v_2, v_0));
    let v_4 = v_3[0];
    let w = w.update(78, W::Field::spec_select(v_0, v_4, w[78]));
    let v_6 = v_3[1];
    let w = w.update(79, W::Field::spec_select(v_0, v_6, w[79]));
    (w, c, mk)
}

#[allow(unused_variables)]
fn eval_fn_49<
    'a,
    'b: 'a,
    W: WitnessTypeSet<Mersenne31Field>,
    P: WitnessProxy<Mersenne31Field, W> + 'b,
>(
    witness_proxy: &'a mut P,
) where
    W::Field: Copy,
    W::Mask: Copy,
    W::U32: Copy,
    W::U16: Copy,
    W::U8: Copy,
    W::I32: Copy,
    requires
        old(witness_proxy).witness().len() >= 80,
    ensures
        final(witness_proxy).memory() == old(witness_proxy).memory(),
        final(witness_proxy).witness().len() == old(witness_proxy).witness().len(),
        forall|j: int| 0 <= j < old(witness_proxy).witness().len() && j != 78 && j != 79 ==> #[trigger] final(witness_proxy).witness()[j] == old(witness_proxy).witness()[j],
        row_state::<Mersenne31Field, W, P>(*final(witness_proxy)) == spec_eval_fn_49::<W>(
            row_state::<Mersenne31Field, W, P>(*old(witness_proxy)),
            old(witness_proxy).memory(),
            old(witness_proxy).lookup_table(),
            old(witness_proxy).maybe_lookup_table(),
            old(witness_proxy).oracle_u32(),
        ),
        final(witness_proxy).lookup_table() == old(witness_proxy).lookup_table(),
        final(witness_proxy).maybe_lookup_table() == old(witness_proxy).maybe_lookup_table(),
        final(witness_proxy).oracle_u32() == old(witness_proxy).oracle_u32(),
{
    proof {
        reveal(spec_eval_fn_49);
    }
    let v_0 = witness_proxy.get_witness_place_boolean(29usize);
    let v_1 = witness_proxy.get_witness_place(12usize);
    let v_2 = W::U16::constant(23u16);
    let v_3_inputs = [v_1];
    proof {
        assert(v_3_inputs@ =~= seq![v_1]);
    }
    let v_3 = witness_proxy.maybe_lookup::<1usize, 2usize>(&v_3_inputs, v_2, v_0);
    let v_4 = v_3[0usize];
    witness_proxy.set_witness_place(
        78usize,
        W::Field::select(&v_0, &v_4, &witness_proxy.get_witness_place(78usize)),
    );
    let v_6 = v_3[1usize];
    witness_proxy.set_witness_place(
        79usize,
        W::Field::select(&v_0, &v_6, &witness_proxy.get_witness_place(79usize)),
    );
}
/// The row after `eval_fn_50`: its witness places and lookup records.
#[verifier::opaque]
pub open spec fn spec_eval_fn_50<W: WitnessTypeSet<Mersenne31Field>>(
    s: (Seq<W::Field>, Seq<(Seq<W::Field>, W::U16, usize)>, Seq<(Seq<W::Field>, W::U16, W::Mask)>),
    mem: Seq<W::Field>,
    lt: spec_fn(Seq<W::Field>, W::U16, nat) -> Seq<W::Field>,
    mlt: spec_fn(Seq<W::Field>, W::U16, W::Mask, nat) -> Seq<W::Field>,
    orc: spec_fn(Placeholder) -> W::U32,
) -> (Seq<W::Field>, Seq<(Seq<W::Field>, W::U16, usize)>, Seq<(Seq<W::Field>, W::U16, W::Mask)>) {
    let w = s.0;
    let c = s.1;
    let mk = s.2;
    let v_0 = place_as_u16::<Mersenne31Field, W>(mem[31]);
    let v_1 = place_as_u16::<Mersenne31Field, W>(w[3]);
    let v_2 = place_as_mask::<Mersenne31Field, W>(w[22]);
    let v_3 = place_as_mask::<Mersenne31Field, W>(w[23]);
    let v_4 = place_as_mask::<Mersenne31Field, W>(w[25]);
    let v_5 = place_as_mask::<Mersenne31Field, W>(w[27]);
    let v_6 = place_as_mask::<Mersenne31Field, W>(w[29]);
    let v_7 = place_as_mask::<Mersenne31Field, W>(w[30]);
    let v_8 = place_as_mask::<Mersenne31Field, W>(w[32]);
    let v_9 = place_as_mask::<Mersenne31Field, W>(w[33]);
    let v_10 = place_as_u16::<Mersenne31Field, W>(mem[8]);
    let v_11 = place_as_u16::<Mersenne31Field, W>(w[71]);
    let v_12 = place_as_u16::<Mersenne31Field, W>(w[11]);
    let v_13 = place_as_u16::<Mersenne31Field, W>(w[13]);
    let v_14 = place_as_u16::<Mersenne31Field, W>(w[91]);
    let v_15 = W::U16::spec_widen(v_10);
    let v_16 = W::U16::spec_widen(v_1);
    let v_17 = v_15;
    let v_17 = W::U32::spec_plus(v_17, v_16);
    let v_18 = W::U16::spec_widen(v_12);
    let v_19 = v_17;
    let v_19 = W::U32::spec_minus(v_19, v_18);
    let v_20 = W::U32::spec_shift_right(v_19, 16u32);
    let v_21 = W::U32::spec_lowest_bits(v_20, 1u32);
    let v_22 = W::U32::spec_into_mask(v_21);
    let v_23 = W::U16::spec_widen(v_13);
    let v_24 = W::U32::spec_constant(65535u32);
    let v_25 = v_23;
    let v_25 = W::U32::spec_plus(v_25, v_24);
    let v_26 = v_25;
    let v_26 = W::U32::spec_minus(v_26, v_18);
    let v_27 = W::U32::spec_shift_right(v_26, 16u32);
    let v_28 = W::U32::spec_lowest_bits(v_27, 1u32);
    let v_29 = W::U32::spec_into_mask(v_28);
    let v_30 = W::U16::spec_widen(v_14);
    let v_31 = v_30;
    let v_31 = W::U32::spec_plus(v_31, v_16);
    let v_32 = v_31;
    let v_32 = W::U32::spec_minus(v_32, v_18);
    let v_33 = W::U32::spec_shift_right(v_32, 16u32);
    let v_34 = W::U32::spec_lowest_bits(v_33, 1u32);
    let v_35 = W::U32::spec_into_mask(v_34);
    let v_36 = W::U16::spec_widen(v_11);
    let v_37 = v_18;
    let v_37 = W::U32::spec_plus(v_37, v_36);
    let v_38 = v_37;
    let v_38 = W::U32::spec_minus(v_38, v_15);
    let v_39 = W::U32::spec_shift_right(v_38, 16u32);
    let v_40 = W::U32::spec_lowest_bits(v_39, 1u32);
    let v_41 = W::U32::spec_into_mask(v_40);
    let v_42 = W::U16::spec_widen(v_0);
    let v_43 = v_42;
    let v_43 = W::U32::spec_plus(v_43, v_16);
    let v_44 = v_43;
    let v_44 = W::U32::spec_minus(v_44, v_18);
    let v_45 = W::U32::spec_shift_right(v_44, 16u32);
    let v_46 = W::U32::spec_lowest_bits(v_45, 1u32);
    let v_47 = W::U32::spec_into_mask(v_46);
    let v_48 = v_15;
    let v_48 = W::U32::spec_plus(v_48, v_36);
    let v_49 = v_48;
    let v_49 = W::U32::spec_minus(v_49, v_18);
    let v_50 = W::U32::spec_shift_right(v_49, 16u32);
    let v_51 = W::U32::spec_lowest_bits(v_50, 1u32);
    let v_52 = W::U32::spec_into_mask(v_51);
    let v_53 = W::Mask::spec_constant(false);
    let v_54 = W::Mask::spec_select(v_2, v_52, v_53);
    let v_55 = W::Mask::spec_select(v_8, v_41, v_54);
    let v_56 = W::Mask::spec_select(v_3, v_47, v_55);
    let v_57 = W::Mask::spec_select(v_4, v_41, v_56);
    let v_58 = W::Mask::spec_select(v_5, v_35, v_57);
    let v_59 = W::Mask::spec_select(v_7, v_29, v_58);
    let v_60 = W::Mask::spec_select(v_6, v_22, v_59);
    let v_61 = W::Mask::spec_select(v_9, v_22, v_60);
    let w = w.update(42, W::Field::spec_from_mask(v_61));
    (w, c, mk)
}

#[allow(unused_variables)]
fn eval_fn_50<
    'a,
    'b: 'a,
    W: WitnessTypeSet<Mersenne31Field>,
    P: WitnessProxy<Mersenne31Field, W> + 'b,
>(
    witness_proxy: &'a mut P,
) where
    W::Field: Copy,
    W::Mask: Copy,
    W::U32: Copy,
    W::U16: Copy,
    W::U8: Copy,
    W::I32: Copy,
    requires
        W::U32::spec_low_bits_valid(1u32),
        old(witness_proxy).witness().len() >= 92,
        old(witness_proxy).memory().len() >= 32,
    ensures
        final(witness_proxy).memory() == old(witness_proxy).memory(),
        final(witness_proxy).witness().len() == old(witness_proxy).witness().len(),
        forall|j: int| 0 <= j < old(witness_proxy).witness().len() && j != 42 ==> #[trigger] final(witness_proxy).witness()[j] == old(witness_proxy).witness()[j],
        row_state::<Mersenne31Field, W, P>(*final(witness_proxy)) == spec_eval_fn_50::<W>(
            row_state::<Mersenne31Field, W, P>(*old(witness_proxy)),
            old(witness_proxy).memory(),
            old(witness_proxy).lookup_table(),
            old(witness_proxy).maybe_lookup_table(),
            old(witness_proxy).oracle_u32(),
        ),
        final(witness_proxy).lookup_table() == old(witness_proxy).lookup_table(),
        final(witness_proxy).maybe_lookup_table() == old(witness_proxy).maybe_lookup_table(),
        final(witness_proxy).oracle_u32() == old(witness_proxy).oracle_u32(),
{
    proof {
        reveal(spec_eval_fn_50);
    }
    let v_0 = witness_proxy.get_memory_place_u16(31usize);
    let v_1 = witness_proxy.get_witness_place_u16(3usize);
    let v_2 = witness_proxy.get_witness_place_boolean(22usize);
    let v_3 = witness_proxy.get_witness_place_boolean(23usize);
    let v_4 = witness_proxy.get_witness_place_boolean(25usize);
    let v_5 = witness_proxy.get_witness_place_boolean(27usize);
    let v_6 = witness_proxy.get_witness_place_boolean(29usize);
    let v_7 = witness_proxy.get_witness_place_boolean(30usize);
    let v_8 = witness_proxy.get_witness_place_boolean(32usize);
    let v_9 = witness_proxy.get_witness_place_boolean(33usize);
    let v_10 = witness_proxy.get_memory_place_u16(8usize);
    let v_11 = witness_proxy.get_witness_place_u16(71usize);
    let v_12 = witness_proxy.get_witness_place_u16(11usize);
    let v_13 = witness_proxy.get_witness_place_u16(13usize);
    let v_14 = witness_proxy.get_witness_place_u16(91usize);
    let v_15 = v_10.widen();
    let v_16 = v_1.widen();
    let mut v_17 = v_15;
    W::U32::add_assign(&mut v_17, &v_16);
    let v_18 = v_12.widen();
    let mut v_19 = v_17;
    W::U32::sub_assign(&mut v_19, &v_18);
    let v_20 = v_19.shr(16u32);
    let v_21 = v_20.get_lowest_bits(1u32);
    let v_22 = WitnessComputationCore::into_mask(v_21);
    let v_23 = v_13.widen();
    let v_24 = W::U32::constant(65535u32);
    let mut v_25 = v_23;
    W::U32::add_assign(&mut v_25, &v_24);
    let mut v_26 = v_25;
    W::U32::sub_assign(&mut v_26, &v_18);
    let v_27 = v_26.shr(16u32);
    let v_28 = v_27.get_lowest_bits(1u32);
    let v_29 = WitnessComputationCore::into_mask(v_28);
    let v_30 = v_14.widen();
    let mut v_31 = v_30;
    W::U32::add_assign(&mut v_31, &v_16);
    let mut v_32 = v_31;
    W::U32::sub_assign(&mut v_32, &v_18);
    let v_33 = v_32.shr(16u32);
    let v_34 = v_33.get_lowest_bits(1u32);
    let v_35 = WitnessComputationCore::into_mask(v_34);
    let v_36 = v_11.widen();
    let mut v_37 = v_18;
    W::U32::add_assign(&mut v_37, &v_36);
    let mut v_38 = v_37;
    W::U32::sub_assign(&mut v_38, &v_15);
    let v_39 = v_38.shr(16u32);
    let v_40 = v_39.get_lowest_bits(1u32);
    let v_41 = WitnessComputationCore::into_mask(v_40);
    let v_42 = v_0.widen();
    let mut v_43 = v_42;
    W::U32::add_assign(&mut v_43, &v_16);
    let mut v_44 = v_43;
    W::U32::sub_assign(&mut v_44, &v_18);
    let v_45 = v_44.shr(16u32);
    let v_46 = v_45.get_lowest_bits(1u32);
    let v_47 = WitnessComputationCore::into_mask(v_46);
    let mut v_48 = v_15;
    W::U32::add_assign(&mut v_48, &v_36);
    let mut v_49 = v_48;
    W::U32::sub_assign(&mut v_49, &v_18);
    let v_50 = v_49.shr(16u32);
    let v_51 = v_50.get_lowest_bits(1u32);
    let v_52 = WitnessComputationCore::into_mask(v_51);
    let v_53 = W::Mask::constant(false);
    let v_54 = W::Mask::select(&v_2, &v_52, &v_53);
    let v_55 = W::Mask::select(&v_8, &v_41, &v_54);
    let v_56 = W::Mask::select(&v_3, &v_47, &v_55);
    let v_57 = W::Mask::select(&v_4, &v_41, &v_56);
    let v_58 = W::Mask::select(&v_5, &v_35, &v_57);
    let v_59 = W::Mask::select(&v_7, &v_29, &v_58);
    let v_60 = W::Mask::select(&v_6, &v_22, &v_59);
    let v_61 = W::Mask::select(&v_9, &v_22, &v_60);
    witness_proxy.set_witness_place_boolean(42usize, v_61);
}
/// The row after `eval_fn_51`: its witness places and lookup records.
#[verifier::opaque]
pub open spec fn spec_eval_fn_51<W: WitnessTypeSet<Mersenne31Field>>(
    s: (Seq<W::Field>, Seq<(Seq<W::Field>, W::U16, usize)>, Seq<(Seq<W::Field>, W::U16, W::Mask)>),
    mem: Seq<W::Field>,
    lt: spec_fn(Seq<W::Field>, W::U16, nat) -> Seq<W::Field>,
    mlt: spec_fn(Seq<W::Field>, W::U16, W::Mask, nat) -> Seq<W::Field>,
    orc: spec_fn(Placeholder) -> W::U32,
) -> (Seq<W::Field>, Seq<(Seq<W::Field>, W::U16, usize)>, Seq<(Seq<W::Field>, W::U16, W::Mask)>) {
    let w = s.0;
    let c = s.1;
    let mk = s.2;
    let v_0 = place_as_u16::<Mersenne31Field, W>(mem[31]);
    let v_1 = place_as_u16::<Mersenne31Field, W>(w[3]);
    let v_2 = place_as_mask::<Mersenne31Field, W>(w[25]);
    let v_3 = place_as_u16::<Mersenne31Field, W>(w[13]);
    let v_4 = W::U16::spec_widen(v_0);
    let v_5 = W::U16::spec_widen(v_1);
    let v_6 = v_4;
    let v_6 = W::U32::spec_plus(v_6, v_5);
    let v_7 = W::U16::spec_widen(v_3);
    let v_8 = v_6;
    let v_8 = W::U32::spec_minus(v_8, v_7);
    let v_9 = W::U32::spec_shift_right(v_8, 16u32);
    let v_10 = W::U32::spec_lowest_bits(v_9, 1u32);
    let v_11 = W::U32::spec_into_mask(v_10);
    let v_12 = W::Mask::spec_constant(false);
    let v_13 = W::Mask::spec_select(v_2, v_11, v_12);
    let w = w.update(43, W::Field::spec_from_mask(v_13));
    (w, c, mk)
}

#[allow(unused_variables)]
fn eval_fn_51<
    'a,
    'b: 'a,
    W: WitnessTypeSet<Mersenne31Field>,
    P: WitnessProxy<Mersenne31Field, W> + 'b,
>(
    witness_proxy: &'a mut P,
) where
    W::Field: Copy,
    W::Mask: Copy,
    W::U32: Copy,
    W::U16: Copy,
    W::U8: Copy,
    W::I32: Copy,
    requires
        W::U32::spec_low_bits_valid(1u32),
        old(witness_proxy).witness().len() >= 44,
        old(witness_proxy).memory().len() >= 32,
    ensures
        final(witness_proxy).memory() == old(witness_proxy).memory(),
        final(witness_proxy).witness().len() == old(witness_proxy).witness().len(),
        forall|j: int| 0 <= j < old(witness_proxy).witness().len() && j != 43 ==> #[trigger] final(witness_proxy).witness()[j] == old(witness_proxy).witness()[j],
        row_state::<Mersenne31Field, W, P>(*final(witness_proxy)) == spec_eval_fn_51::<W>(
            row_state::<Mersenne31Field, W, P>(*old(witness_proxy)),
            old(witness_proxy).memory(),
            old(witness_proxy).lookup_table(),
            old(witness_proxy).maybe_lookup_table(),
            old(witness_proxy).oracle_u32(),
        ),
        final(witness_proxy).lookup_table() == old(witness_proxy).lookup_table(),
        final(witness_proxy).maybe_lookup_table() == old(witness_proxy).maybe_lookup_table(),
        final(witness_proxy).oracle_u32() == old(witness_proxy).oracle_u32(),
{
    proof {
        reveal(spec_eval_fn_51);
    }
    let v_0 = witness_proxy.get_memory_place_u16(31usize);
    let v_1 = witness_proxy.get_witness_place_u16(3usize);
    let v_2 = witness_proxy.get_witness_place_boolean(25usize);
    let v_3 = witness_proxy.get_witness_place_u16(13usize);
    let v_4 = v_0.widen();
    let v_5 = v_1.widen();
    let mut v_6 = v_4;
    W::U32::add_assign(&mut v_6, &v_5);
    let v_7 = v_3.widen();
    let mut v_8 = v_6;
    W::U32::sub_assign(&mut v_8, &v_7);
    let v_9 = v_8.shr(16u32);
    let v_10 = v_9.get_lowest_bits(1u32);
    let v_11 = WitnessComputationCore::into_mask(v_10);
    let v_12 = W::Mask::constant(false);
    let v_13 = W::Mask::select(&v_2, &v_11, &v_12);
    witness_proxy.set_witness_place_boolean(43usize, v_13);
}
/// The row after `eval_fn_52`: its witness places and lookup records.
#[verifier::opaque]
pub open spec fn spec_eval_fn_52<W: WitnessTypeSet<Mersenne31Field>>(
    s: (Seq<W::Field>, Seq<(Seq<W::Field>, W::U16, usize)>, Seq<(Seq<W::Field>, W::U16, W::Mask)>),
    mem: Seq<W::Field>,
    lt: spec_fn(Seq<W::Field>, W::U16, nat) -> Seq<W::Field>,
    mlt: spec_fn(Seq<W::Field>, W::U16, W::Mask, nat) -> Seq<W::Field>,
    orc: spec_fn(Placeholder) -> W::U32,
) -> (Seq<W::Field>, Seq<(Seq<W::Field>, W::U16, usize)>, Seq<(Seq<W::Field>, W::U16, W::Mask)>) {
    let w = s.0;
    let c = s.1;
    let mk = s.2;
    let v_0 = w[3];
    let v_1 = place_as_mask::<Mersenne31Field, W>(w[24]);
    let v_2 = place_as_mask::<Mersenne31Field, W>(w[25]);
    let v_3 = place_as_mask::<Mersenne31Field, W>(w[26]);
    let v_4 = place_as_mask::<Mersenne31Field, W>(w[27]);
    let v_5 = place_as_mask::<Mersenne31Field, W>(w[29]);
    let v_6 = place_as_mask::<Mersenne31Field, W>(w[31]);
    let v_7 = place_as_mask::<Mersenne31Field, W>(w[33]);
    let v_8 = w[71];
    let v_9 = w[76];
    let v_10 = w[11];
    let v_11 = w[12];
    let v_12 = w[13];
    let v_13 = W::Field::spec_constant(Mersenne31Field(0u32));
    let v_14 = v_13;
    let v_14 = W::Field::spec_plus(v_14, v_0);
    let v_15 = W::Field::spec_select(v_3, v_14, v_13);
    let v_16 = v_15;
    let v_16 = W::Field::spec_plus(v_16, v_9);
    let v_17 = W::Field::spec_select(v_1, v_16, v_15);
    let v_18 = v_17;
    let v_18 = W::Field::spec_plus(v_18, v_12);
    let v_19 = W::Field::spec_select(v_2, v_18, v_17);
    let v_20 = v_19;
    let v_20 = W::Field::spec_plus(v_20, v_10);
    let v_21 = W::Field::spec_select(v_4, v_20, v_19);
    let v_22 = v_21;
    let v_22 = W::Field::spec_plus(v_22, v_11);
    let v_23 = W::Field::spec_select(v_5, v_22, v_21);
    let v_24 = v_23;
    let v_24 = W::Field::spec_plus(v_24, v_8);
    let v_25 = W::Field::spec_select(v_6, v_24, v_23);
    let v_26 = v_25;
    let v_26 = W::Field::spec_plus(v_26, v_10);
    let v_27 = W::Field::spec_select(v_7, v_26, v_25);
    let w = w.update(55, v_27);
    (w, c, mk)
}

#[allow(unused_variables)]
fn eval_fn_52<
    'a,
    'b: 'a,
    W: WitnessTypeSet<Mersenne31Field>,
    P: WitnessProxy<Mersenne31Field, W> + 'b,
>(
    witness_proxy: &'a mut P,
) where
    W::Field: Copy,
    W::Mask: Copy,
    W::U32: Copy,
    W::U16: Copy,
    W::U8: Copy,
    W::I32: Copy,
    requires
        old(witness_proxy).witness().len() >= 77,
    ensures
        final(witness_proxy).memory() == old(witness_proxy).memory(),
        final(witness_proxy).witness().len() == old(witness_proxy).witness().len(),
        forall|j: int| 0 <= j < old(witness_proxy).witness().len() && j != 55 ==> #[trigger] final(witness_proxy).witness()[j] == old(witness_proxy).witness()[j],
        row_state::<Mersenne31Field, W, P>(*final(witness_proxy)) == spec_eval_fn_52::<W>(
            row_state::<Mersenne31Field, W, P>(*old(witness_proxy)),
            old(witness_proxy).memory(),
            old(witness_proxy).lookup_table(),
            old(witness_proxy).maybe_lookup_table(),
            old(witness_proxy).oracle_u32(),
        ),
        final(witness_proxy).lookup_table() == old(witness_proxy).lookup_table(),
        final(witness_proxy).maybe_lookup_table() == old(witness_proxy).maybe_lookup_table(),
        final(witness_proxy).oracle_u32() == old(witness_proxy).oracle_u32(),
{
    proof {
        reveal(spec_eval_fn_52);
    }
    let v_0 = witness_proxy.get_witness_place(3usize);
    let v_1 = witness_proxy.get_witness_place_boolean(24usize);
    let v_2 = witness_proxy.get_witness_place_boolean(25usize);
    let v_3 = witness_proxy.get_witness_place_boolean(26usize);
    let v_4 = witness_proxy.get_witness_place_boolean(27usize);
    let v_5 = witness_proxy.get_witness_place_boolean(29usize);
    let v_6 = witness_proxy.get_witness_place_boolean(31usize);
    let v_7 = witness_proxy.get_witness_place_boolean(33usize);
    let v_8 = witness_proxy.get_witness_place(71usize);
    let v_9 = witness_proxy.get_witness_place(76usize);
    let v_10 = witness_proxy.get_witness_place(11usize);
    let v_11 = witness_proxy.get_witness_place(12usize);
    let v_12 = witness_proxy.get_witness_place(13usize);
    let v_13 = W::Field::constant(Mersenne31Field(0u32));
    let mut v_14 = v_13;
    W::Field::add_assign(&mut v_14, &v_0);
    let v_15 = W::Field::select(&v_3, &v_14, &v_13);
    let mut v_16 = v_15;
    W::Field::add_assign(&mut v_16, &v_9);
    let v_17 = W::Field::select(&v_1, &v_16, &v_15);
    let mut v_18 = v_17;
    W::Field::add_assign(&mut v_18, &v_12);
    let v_19 = W::Field::select(&v_2, &v_18, &v_17);
    let mut v_20 = v_19;
    W::Field::add_assign(&mut v_20, &v_10);
    let v_21 = W::Field::select(&v_4, &v_20, &v_19);
    let mut v_22 = v_21;
    W::Field::add_assign(&mut v_22, &v_11);
    let v_23 = W::Field::select(&v_5, &v_22, &v_21);
    let mut v_24 = v_23;
    W::Field::add_assign(&mut v_24, &v_8);
    let v_25 = W::Field::select(&v_6, &v_24, &v_23);
    let mut v_26 = v_25;
    W::Field::add_assign(&mut v_26, &v_10);
    let v_27 = W::Field::select(&v_7, &v_26, &v_25);
    witness_proxy.set_witness_place(55usize, v_27);
}
/// The row after `eval_fn_53`: its witness places and lookup records.
#[verifier::opaque]
pub open spec fn spec_eval_fn_53<W: WitnessTypeSet<Mersenne31Field>>(
    s: (Seq<W::Field>, Seq<(Seq<W::Field>, W::U16, usize)>, Seq<(Seq<W::Field>, W::U16, W::Mask)>),
    mem: Seq<W::Field>,
    lt: spec_fn(Seq<W::Field>, W::U16, nat) -> Seq<W::Field>,
    mlt: spec_fn(Seq<W::Field>, W::U16, W::Mask, nat) -> Seq<W::Field>,
    orc: spec_fn(Placeholder) -> W::U32,
) -> (Seq<W::Field>, Seq<(Seq<W::Field>, W::U16, usize)>, Seq<(Seq<W::Field>, W::U16, W::Mask)>) {
    let w = s.0;
    let c = s.1;
    let mk = s.2;
    let v_0 = place_as_mask::<Mersenne31Field, W>(w[25]);
    let v_1 = w[13];
    let v_2 = W::U16::spec_constant(17u16);
    let v_3 = mlt(seq![v_1], v_2, v_0, 2);
    let mk = mk.push((seq![v_1], v_2, v_0));
    let v_4 = v_3[0];
    let w = w.update(78, W::Field::spec_select(v_0, v_4, w[78]));
    let v_6 = v_3[1];
    let w = w.update(79, W::Field::spec_select(v_0, v_6, w[79]));
    (w, c, mk)
}

#[allow(unused_variables)]
fn eval_fn_53<
    'a,
    'b: 'a,
    W: WitnessTypeSet<Mersenne31Field>,
    P: WitnessProxy<Mersenne31Field, W> + 'b,
>(
    witness_proxy: &'a mut P,
) where
    W::Field: Copy,
    W::Mask: Copy,
    W::U32: Copy,
    W::U16: Copy,
    W::U8: Copy,
    W::I32: Copy,
    requires
        old(witness_proxy).witness().len() >= 80,
    ensures
        final(witness_proxy).memory() == old(witness_proxy).memory(),
        final(witness_proxy).witness().len() == old(witness_proxy).witness().len(),
        forall|j: int| 0 <= j < old(witness_proxy).witness().len() && j != 78 && j != 79 ==> #[trigger] final(witness_proxy).witness()[j] == old(witness_proxy).witness()[j],
        row_state::<Mersenne31Field, W, P>(*final(witness_proxy)) == spec_eval_fn_53::<W>(
            row_state::<Mersenne31Field, W, P>(*old(witness_proxy)),
            old(witness_proxy).memory(),
            old(witness_proxy).lookup_table(),
            old(witness_proxy).maybe_lookup_table(),
            old(witness_proxy).oracle_u32(),
        ),
        final(witness_proxy).lookup_table() == old(witness_proxy).lookup_table(),
        final(witness_proxy).maybe_lookup_table() == old(witness_proxy).maybe_lookup_table(),
        final(witness_proxy).oracle_u32() == old(witness_proxy).oracle_u32(),
{
    proof {
        reveal(spec_eval_fn_53);
    }
    let v_0 = witness_proxy.get_witness_place_boolean(25usize);
    let v_1 = witness_proxy.get_witness_place(13usize);
    let v_2 = W::U16::constant(17u16);
    let v_3_inputs = [v_1];
    proof {
        assert(v_3_inputs@ =~= seq![v_1]);
    }
    let v_3 = witness_proxy.maybe_lookup::<1usize, 2usize>(&v_3_inputs, v_2, v_0);
    let v_4 = v_3[0usize];
    witness_proxy.set_witness_place(
        78usize,
        W::Field::select(&v_0, &v_4, &witness_proxy.get_witness_place(78usize)),
    );
    let v_6 = v_3[1usize];
    witness_proxy.set_witness_place(
        79usize,
        W::Field::select(&v_0, &v_6, &witness_proxy.get_witness_place(79usize)),
    );
}
/// The row after `eval_fn_54`: its witness places and lookup records.
#[verifier::opaque]
pub open spec fn spec_eval_fn_54<W: WitnessTypeSet<Mersenne31Field>>(
    s: (Seq<W::Field>, Seq<(Seq<W::Field>, W::U16, usize)>, Seq<(Seq<W::Field>, W::U16, W::Mask)>),
    mem: Seq<W::Field>,
    lt: spec_fn(Seq<W::Field>, W::U16, nat) -> Seq<W::Field>,
    mlt: spec_fn(Seq<W::Field>, W::U16, W::Mask, nat) -> Seq<W::Field>,
    orc: spec_fn(Placeholder) -> W::U32,
) -> (Seq<W::Field>, Seq<(Seq<W::Field>, W::U16, usize)>, Seq<(Seq<W::Field>, W::U16, W::Mask)>) {
    let w = s.0;
    let c = s.1;
    let mk = s.2;
    let v_0 = w[5];
    let v_1 = place_as_mask::<Mersenne31Field, W>(w[25]);
    let v_2 = w[50];
    let v_3 = w[53];
    let v_4 = w[39];
    let v_5 = w[40];
    let v_6 = W::Field::spec_constant(Mersenne31Field(0u32));
    let v_7 = W::Field::spec_constant(Mersenne31Field(1u32));
    let v_8 = v_6;
    let v_8 = W::Field::spec_add_product(v_8, v_7, v_0);
    let v_9 = W::Field::spec_constant(Mersenne31Field(32u32));
    let v_10 = v_8;
    let v_10 = W::Field::spec_add_product(v_10, v_9, v_2);
    let v_11 = W::Field::spec_constant(Mersenne31Field(64u32));
    let v_12 = v_10;
    let v_12 = W::Field::spec_add_product(v_12, v_11, v_3);
    let v_13 = W::Field::spec_constant(Mersenne31Field(8u32));
    let v_14 = v_12;
    let v_14 = W::Field::spec_add_product(v_14, v_13, v_4);
    let v_15 = W::Field::spec_constant(Mersenne31Field(16u32));
    let v_16 = v_14;
    let v_16 = W::Field::spec_add_product(v_16, v_15, v_5);
    let v_17 = W::U16::spec_constant(22u16);
    let v_18 = mlt(seq![v_16], v_17, v_1, 2);
    let mk = mk.push((seq![v_16], v_17, v_1));
    let v_19 = v_18[0];
    let w = w.update(80, W::Field::spec_select(v_1, v_19, w[80]));
    let v_21 = v_18[1];
    let w = w.update(81, W::Field::spec_select(v_1, v_21, w[81]));
    (w, c, mk)
}

#[allow(unused_variables)]
fn eval_fn_54<
    'a,
    'b: 'a,
    W: WitnessTypeSet<Mersenne31Field>,
    P: WitnessProxy<Mersenne31Field, W> + 'b,
>(
    witness_proxy: &'a mut P,
) where
    W::Field: Copy,
    W::Mask: Copy,
    W::U32: Copy,
    W::U16: Copy,
    W::U8: Copy,
    W::I32: Copy,
    requires
        old(witness_proxy).witness().len() >= 82,
    ensures
        final(witness_proxy).memory() == old(witness_proxy).memory(),
        final(witness_proxy).witness().len() == old(witness_proxy).witness().len(),
        forall|j: int| 0 <= j < old(witness_proxy).witness().len() && j != 80 && j != 81 ==> #[trigger] final(witness_proxy).witness()[j] == old(witness_proxy).witness()[j],
        row_state::<Mersenne31Field, W, P>(*final(witness_proxy)) == spec_eval_fn_54::<W>(
            row_state::<Mersenne31Field, W, P>(*old(witness_proxy)),
            old(witness_proxy).memory(),
            old(witness_proxy).lookup_table(),
            old(witness_proxy).maybe_lookup_table(),
            old(witness_proxy).oracle_u32(),
        ),
        final(witness_proxy).lookup_table() == old(witness_proxy).lookup_table(),
        final(witness_proxy).maybe_lookup_table() == old(witness_proxy).maybe_lookup_table(),
        final(witness_proxy).oracle_u32() == old(witness_proxy).oracle_u32(),
{
    proof {
        reveal(spec_eval_fn_54);
    }
    let v_0 = witness_proxy.get_witness_place(5usize);
    let v_1 = witness_proxy.get_witness_place_boolean(25usize);
    let v_2 = witness_proxy.get_witness_place(50usize);
    let v_3 = witness_proxy.get_witness_place(53usize);
    let v_4 = witness_proxy.get_witness_place(39usize);
    let v_5 = witness_proxy.get_witness_place(40usize);
    let v_6 = W::Field::constant(Mersenne31Field(0u32));
    let v_7 = W::Field::constant(Mersenne31Field(1u32));
    let mut v_8 = v_6;
    W::Field::add_assign_product(&mut v_8, &v_7, &v_0);
    let v_9 = W::Field::constant(Mersenne31Field(32u32));
    let mut v_10 = v_8;
    W::Field::add_assign_product(&mut v_10, &v_9, &v_2);
    let v_11 = W::Field::constant(Mersenne31Field(64u32));
    let mut v_12 = v_10;
    W::Field::add_assign_product(&mut v_12, &v_11, &v_3);
    let v_13 = W::Field::constant(Mersenne31Field(8u32));
    let mut v_14 = v_12;
    W::Field::add_assign_product(&mut v_14, &v_13, &v_4);
    let v_15 = W::Field::constant(Mersenne31Field(16u32));
    let mut v_16 = v_14;
    W::Field::add_assign_product(&mut v_16, &v_15, &v_5);
    let v_17 = W::U16::constant(22u16);
    let v_18_inputs = [v_16];
    proof {
        assert(v_18_inputs@ =~= seq![v_16]);
    }
    let v_18 = witness_proxy.maybe_lookup::<1usize, 2usize>(&v_18_inputs, v_17, v_1);
    let v_19 = v_18[0usize];
    witness_proxy.set_witness_place(
        80usize,
        W::Field::select(&v_1, &v_19, &witness_proxy.get_witness_place(80usize)),
    );
    let v_21 = v_18[1usize];
    witness_proxy.set_witness_place(
        81usize,
        W::Field::select(&v_1, &v_21, &witness_proxy.get_witness_place(81usize)),
    );
}
/// The row after `eval_fn_55`: its witness places and lookup records.
#[verifier::opaque]
pub open spec fn spec_eval_fn_55<W: WitnessTypeSet<Mersenne31Field>>(
    s: (Seq<W::Field>, Seq<(Seq<W::Field>, W::U16, usize)>, Seq<(Seq<W::Field>, W::U16, W::Mask)>),
    mem: Seq<W::Field>,
    lt: spec_fn(Seq<W::Field>, W::U16, nat) -> Seq<W::Field>,
    mlt: spec_fn(Seq<W::Field>, W::U16, W::Mask, nat) -> Seq<W::Field>,
    orc: spec_fn(Placeholder) -> W::U32,
) -> (Seq<W::Field>, Seq<(Seq<W::Field>, W::U16, usize)>, Seq<(Seq<W::Field>, W::U16, W::Mask)>) {
    let w = s.0;
    let c = s.1;
    let mk = s.2;
    let v_0 = place_as_mask::<Mersenne31Field, W>(w[31]);
    let v_1 = w[35];
    let v_2 = mem[8];
    let v_3 = w[78];
    let v_4 = W::Field::spec_constant(Mersenne31Field(0u32));
    let v_5 = W::Field::spec_constant(Mersenne31Field(2097152u32));
    let v_6 = v_4;
    let v_6 = W::Field::spec_add_product(v_6, v_5, v_1);
    let v_7 = W::Field::spec_constant(Mersenne31Field(1u32));
    let v_8 = v_6;
    let v_8 = W::Field::spec_add_product(v_8, v_7, v_2);
    let v_9 = W::Field::spec_constant(Mersenne31Field(65536u32));
    let v_10 = v_8;
    let v_10 = W::Field::spec_add_product(v_10, v_9, v_3);
    let v_11 = W::U16::spec_constant(37u16);
    let v_12 = mlt(seq![v_10], v_11, v_0, 2);
    let mk = mk.push((seq![v_10], v_11, v_0));
    let v_13 = v_12[0];
    let w = w.update(80, W::Field::spec_select(v_0, v_13, w[80]));
    let v_15 = v_12[1];
    let w = w.update(81, W::Field::spec_select(v_0, v_15, w[81]));
    (w, c, mk)
}

#[allow(unused_variables)]
fn eval_fn_55<
    'a,
    'b: 'a,
    W: WitnessTypeSet<Mersenne31Field>,
    P: WitnessProxy<Mersenne31Field, W> + 'b,
>(
    witness_proxy: &'a mut P,
) where
    W::Field: Copy,
    W::Mask: Copy,
    W::U32: Copy,
    W::U16: Copy,
    W::U8: Copy,
    W::I32: Copy,
    requires
        old(witness_proxy).witness().len() >= 82,
        old(witness_proxy).memory().len() >= 9,
    ensures
        final(witness_proxy).memory() == old(witness_proxy).memory(),
        final(witness_proxy).witness().len() == old(witness_proxy).witness().len(),
        forall|j: int| 0 <= j < old(witness_proxy).witness().len() && j != 80 && j != 81 ==> #[trigger] final(witness_proxy).witness()[j] == old(witness_proxy).witness()[j],
        row_state::<Mersenne31Field, W, P>(*final(witness_proxy)) == spec_eval_fn_55::<W>(
            row_state::<Mersenne31Field, W, P>(*old(witness_proxy)),
            old(witness_proxy).memory(),
            old(witness_proxy).lookup_table(),
            old(witness_proxy).maybe_lookup_table(),
            old(witness_proxy).oracle_u32(),
        ),
        final(witness_proxy).lookup_table() == old(witness_proxy).lookup_table(),
        final(witness_proxy).maybe_lookup_table() == old(witness_proxy).maybe_lookup_table(),
        final(witness_proxy).oracle_u32() == old(witness_proxy).oracle_u32(),
{
    proof {
        reveal(spec_eval_fn_55);
    }
    let v_0 = witness_proxy.get_witness_place_boolean(31usize);
    let v_1 = witness_proxy.get_witness_place(35usize);
    let v_2 = witness_proxy.get_memory_place(8usize);
    let v_3 = witness_proxy.get_witness_place(78usize);
    let v_4 = W::Field::constant(Mersenne31Field(0u32));
    let v_5 = W::Field::constant(Mersenne31Field(2097152u32));
    let mut v_6 = v_4;
    W::Field::add_assign_product(&mut v_6, &v_5, &v_1);
    let v_7 = W::Field::constant(Mersenne31Field(1u32));
    let mut v_8 = v_6;
    W::Field::add_assign_product(&mut v_8, &v_7, &v_2);
    let v_9 = W::Field::constant(Mersenne31Field(65536u32));
    let mut v_10 = v_8;
    W::Field::add_assign_product(&mut v_10, &v_9, &v_3);
    let v_11 = W::U16::constant(37u16);
    let v_12_inputs = [v_10];
    proof {
        assert(v_12_inputs@ =~= seq![v_10]);
    }
    let v_12 = witness_proxy.maybe_lookup::<1usize, 2usize>(&v_12_inputs, v_11, v_0);
    let v_13 = v_12[0usize];
    witness_proxy.set_witness_place(
        80usize,
        W::Field::select(&v_0, &v_13, &witness_proxy.get_witness_place(80usize)),
    );
    let v_15 = v_12[1usize];
    witness_proxy.set_witness_place(
        81usize,
        W::Field::select(&v_0, &v_15, &witness_proxy.get_witness_place(81usize)),
    );
}
/// The row after `eval_fn_56`: its witness places and lookup records.
#[verifier::opaque]
pub open spec fn spec_eval_fn_56<W: WitnessTypeSet<Mersenne31Field>>(
    s: (Seq<W::Field>, Seq<(Seq<W::Field>, W::U16, usize)>, Seq<(Seq<W::Field>, W::U16, W::Mask)>),
    mem: Seq<W::Field>,
    lt: spec_fn(Seq<W::Field>, W::U16, nat) -> Seq<W::Field>,
    mlt: spec_fn(Seq<W::Field>, W::U16, W::Mask, nat) -> Seq<W::Field>,
    orc: spec_fn(Placeholder) -> W::U32,
) -> (Seq<W::Field>, Seq<(Seq<W::Field>, W::U16, usize)>, Seq<(Seq<W::Field>, W::U16, W::Mask)>) {
    let w = s.0;
    let c = s.1;
    let mk = s.2;
    let v_0 = place_as_mask::<Mersenne31Field, W>(w[31]);
    let v_1 = w[35];
    let v_2 = mem[9];
    let v_3 = w[78];
    let v_4 = W::Field::spec_constant(Mersenne31Field(0u32));
    let v_5 = W::Field::spec_constant(Mersenne31Field(2097152u32));
    let v_6 = v_4;
    let v_6 = W::Field::spec_add_product(v_6, v_5, v_1);
    let v_7 = W::Field::spec_constant(Mersenne31Field(1u32));
    let v_8 = v_6;
    let v_8 = W::Field::spec_add_product(v_8, v_7, v_2);
    let v_9 = W::Field::spec_constant(Mersenne31Field(65536u32));
    let v_10 = v_8;
    let v_10 = W::Field::spec_add_product(v_10, v_9, v_3);
    let v_11 = W::U16::spec_constant(37u16);
    let v_12 = mlt(seq![v_10], v_11, v_0, 2);
    let mk = mk.push((seq![v_10], v_11, v_0));
    let v_13 = v_12[0];
    let w = w.update(85, W::Field::spec_select(v_0, v_13, w[85]));
    let v_15 = v_12[1];
    let w = w.update(86, W::Field::spec_select(v_0, v_15, w[86]));
    (w, c, mk)
}

#[allow(unused_variables)]
fn eval_fn_56<
    'a,
    'b: 'a,
    W: WitnessTypeSet<Mersenne31Field>,
    P: WitnessProxy<Mersenne31Field, W> + 'b,
>(
    witness_proxy: &'a mut P,
) where
    W::Field: Copy,
    W::Mask: Copy,
    W::U32: Copy,
    W::U16: Copy,
    W::U8: Copy,
    W::I32: Copy,
    requires
        old(witness_proxy).witness().len() >= 87,
        old(witness_proxy).memory().len() >= 10,
    ensures
        final(witness_proxy).memory() == old(witness_proxy).memory(),
        final(witness_proxy).witness().len() == old(witness_proxy).witness().len(),
        forall|j: int| 0 <= j < old(witness_proxy).witness().len() && j != 85 && j != 86 ==> #[trigger] final(witness_proxy).witness()[j] == old(witness_proxy).witness()[j],
        row_state::<Mersenne31Field, W, P>(*final(witness_proxy)) == spec_eval_fn_56::<W>(
            row_state::<Mersenne31Field, W, P>(*old(witness_proxy)),
            old(witness_proxy).memory(),
            old(witness_proxy).lookup_table(),
            old(witness_proxy).maybe_lookup_table(),
            old(witness_proxy).oracle_u32(),
        ),
        final(witness_proxy).lookup_table() == old(witness_proxy).lookup_table(),
        final(witness_proxy).maybe_lookup_table() == old(witness_proxy).maybe_lookup_table(),
        final(witness_proxy).oracle_u32() == old(witness_proxy).oracle_u32(),
{
    proof {
        reveal(spec_eval_fn_56);
    }
    let v_0 = witness_proxy.get_witness_place_boolean(31usize);
    let v_1 = witness_proxy.get_witness_place(35usize);
    let v_2 = witness_proxy.get_memory_place(9usize);
    let v_3 = witness_proxy.get_witness_place(78usize);
    let v_4 = W::Field::constant(Mersenne31Field(0u32));
    let v_5 = W::Field::constant(Mersenne31Field(2097152u32));
    let mut v_6 = v_4;
    W::Field::add_assign_product(&mut v_6, &v_5, &v_1);
    let v_7 = W::Field::constant(Mersenne31Field(1u32));
    let mut v_8 = v_6;
    W::Field::add_assign_product(&mut v_8, &v_7, &v_2);
    let v_9 = W::Field::constant(Mersenne31Field(65536u32));
    let mut v_10 = v_8;
    W::Field::add_assign_product(&mut v_10, &v_9, &v_3);
    let v_11 = W::U16::constant(37u16);
    let v_12_inputs = [v_10];
    proof {
        assert(v_12_inputs@ =~= seq![v_10]);
    }
    let v_12 = witness_proxy.maybe_lookup::<1usize, 2usize>(&v_12_inputs, v_11, v_0);
    let v_13 = v_12[0usize];
    witness_proxy.set_witness_place(
        85usize,
        W::Field::select(&v_0, &v_13, &witness_proxy.get_witness_place(85usize)),
    );
    let v_15 = v_12[1usize];
    witness_proxy.set_witness_place(
        86usize,
        W::Field::select(&v_0, &v_15, &witness_proxy.get_witness_place(86usize)),
    );
}
/// The row after `eval_fn_57`: its witness places and lookup records.
#[verifier::opaque]
pub open spec fn spec_eval_fn_57<W: WitnessTypeSet<Mersenne31Field>>(
    s: (Seq<W::Field>, Seq<(Seq<W::Field>, W::U16, usize)>, Seq<(Seq<W::Field>, W::U16, W::Mask)>),
    mem: Seq<W::Field>,
    lt: spec_fn(Seq<W::Field>, W::U16, nat) -> Seq<W::Field>,
    mlt: spec_fn(Seq<W::Field>, W::U16, W::Mask, nat) -> Seq<W::Field>,
    orc: spec_fn(Placeholder) -> W::U32,
) -> (Seq<W::Field>, Seq<(Seq<W::Field>, W::U16, usize)>, Seq<(Seq<W::Field>, W::U16, W::Mask)>) {
    let w = s.0;
    let c = s.1;
    let mk = s.2;
    let v_0 = place_as_mask::<Mersenne31Field, W>(w[31]);
    let v_1 = w[34];
    let v_2 = w[50];
    let v_3 = w[78];
    let v_4 = W::Field::spec_constant(Mersenne31Field(0u32));
    let v_5 = W::Field::spec_constant(Mersenne31Field(2u32));
    let v_6 = v_4;
    let v_6 = W::Field::spec_add_product(v_6, v_5, v_1);
    let v_7 = W::Field::spec_constant(Mersenne31Field(1u32));
    let v_8 = v_6;
    let v_8 = W::Field::spec_add_product(v_8, v_7, v_2);
    let v_9 = W::Field::spec_constant(Mersenne31Field(4u32));
    let v_10 = v_8;
    let v_10 = W::Field::spec_add_product(v_10, v_9, v_3);
    let v_11 = W::U16::spec_constant(20u16);
    let v_12 = mlt(seq![v_10], v_11, v_0, 2);
    let mk = mk.push((seq![v_10], v_11, v_0));
    let v_13 = v_12[0];
    let w = w.update(89, W::Field::spec_select(v_0, v_13, w[89]));
    let v_15 = v_12[1];
    let w = w.update(90, W::Field::spec_select(v_0, v_15, w[90]));
    (w, c, mk)
}

#[allow(unused_variables)]
fn eval_fn_57<
    'a,
    'b: 'a,
    W: WitnessTypeSet<Mersenne31Field>,
    P: WitnessProxy<Mersenne31Field, W> + 'b,
>(
    witness_proxy: &'a mut P,
) where
    W::Field: Copy,
    W::Mask: Copy,
    W::U32: Copy,
    W::U16: Copy,
    W::U8: Copy,
    W::I32: Copy,
    requires
        old(witness_proxy).witness().len() >= 91,
    ensures
        final(witness_proxy).memory() == old(witness_proxy).memory(),
        final(witness_proxy).witness().len() == old(witness_proxy).witness().len(),
        forall|j: int| 0 <= j < old(witness_proxy).witness().len() && j != 89 && j != 90 ==> #[trigger] final(witness_proxy).witness()[j] == old(witness_proxy).witness()[j],
        row_state::<Mersenne31Field, W, P>(*final(witness_proxy)) == spec_eval_fn_57::<W>(
            row_state::<Mersenne31Field, W, P>(*old(witness_proxy)),
            old(witness_proxy).memory(),
            old(witness_proxy).lookup_table(),
            old(witness_proxy).maybe_lookup_table(),
            old(witness_proxy).oracle_u32(),
        ),
        final(witness_proxy).lookup_table() == old(witness_proxy).lookup_table(),
        final(witness_proxy).maybe_lookup_table() == old(witness_proxy).maybe_lookup_table(),
        final(witness_proxy).oracle_u32() == old(witness_proxy).oracle_u32(),
{
    proof {
        reveal(spec_eval_fn_57);
    }
    let v_0 = witness_proxy.get_witness_place_boolean(31usize);
    let v_1 = witness_proxy.get_witness_place(34usize);
    let v_2 = witness_proxy.get_witness_place(50usize);
    let v_3 = witness_proxy.get_witness_place(78usize);
    let v_4 = W::Field::constant(Mersenne31Field(0u32));
    let v_5 = W::Field::constant(Mersenne31Field(2u32));
    let mut v_6 = v_4;
    W::Field::add_assign_product(&mut v_6, &v_5, &v_1);
    let v_7 = W::Field::constant(Mersenne31Field(1u32));
    let mut v_8 = v_6;
    W::Field::add_assign_product(&mut v_8, &v_7, &v_2);
    let v_9 = W::Field::constant(Mersenne31Field(4u32));
    let mut v_10 = v_8;
    W::Field::add_assign_product(&mut v_10, &v_9, &v_3);
    let v_11 = W::U16::constant(20u16);
    let v_12_inputs = [v_10];
    proof {
        assert(v_12_inputs@ =~= seq![v_10]);
    }
    let v_12 = witness_proxy.maybe_lookup::<1usize, 2usize>(&v_12_inputs, v_11, v_0);
    let v_13 = v_12[0usize];
    witness_proxy.set_witness_place(
        89usize,
        W::Field::select(&v_0, &v_13, &witness_proxy.get_witness_place(89usize)),
    );
    let v_15 = v_12[1usize];
    witness_proxy.set_witness_place(
        90usize,
        W::Field::select(&v_0, &v_15, &witness_proxy.get_witness_place(90usize)),
    );
}
/// The row after `eval_fn_58`: its witness places and lookup records.
#[verifier::opaque]
pub open spec fn spec_eval_fn_58<W: WitnessTypeSet<Mersenne31Field>>(
    s: (Seq<W::Field>, Seq<(Seq<W::Field>, W::U16, usize)>, Seq<(Seq<W::Field>, W::U16, W::Mask)>),
    mem: Seq<W::Field>,
    lt: spec_fn(Seq<W::Field>, W::U16, nat) -> Seq<W::Field>,
    mlt: spec_fn(Seq<W::Field>, W::U16, W::Mask, nat) -> Seq<W::Field>,
    orc: spec_fn(Placeholder) -> W::U32,
) -> (Seq<W::Field>, Seq<(Seq<W::Field>, W::U16, usize)>, Seq<(Seq<W::Field>, W::U16, W::Mask)>) {
    let w = s.0;
    let c = s.1;
    let mk = s.2;
    let v_0 = place_as_mask::<Mersenne31Field, W>(w[29]);
    let v_1 = w[11];
    let v_2 = w[79];
    let v_3 = W::Field::spec_constant(Mersenne31Field(0u32));
    let v_4 = W::Field::spec_constant(Mersenne31Field(1u32));
    let v_5 = v_3;
    let v_5 = W::Field::spec_add_product(v_5, v_4, v_1);
    let v_6 = W::Field::spec_constant(Mersenne31Field(65536u32));
    let v_7 = v_5;
    let v_7 = W::Field::spec_add_product(v_7, v_6, v_2);
    let v_8 = W::U16::spec_constant(24u16);
    let v_9 = mlt(seq![v_7], v_8, v_0, 2);
    let mk = mk.push((seq![v_7], v_8, v_0));
    let v_10 = v_9[0];
    let w = w.update(80, W::Field::spec_select(v_0, v_10, w[80]));
    let v_12 = v_9[1];
    let w = w.update(81, W::Field::spec_select(v_0, v_12, w[81]));
    (w, c, mk)
}

#[allow(unused_variables)]
fn eval_fn_58<
    'a,
    'b: 'a,
    W: WitnessTypeSet<Mersenne31Field>,
    P: WitnessProxy<Mersenne31Field, W> + 'b,
>(
    witness_proxy: &'a mut P,
) where
    W::Field: Copy,
    W::Mask: Copy,
    W::U32: Copy,
    W::U16: Copy,
    W::U8: Copy,
    W::I32: Copy,
    requires
        old(witness_proxy).witness().len() >= 82,
    ensures
        final(witness_proxy).memory() == old(witness_proxy).memory(),
        final(witness_proxy).witness().len() == old(witness_proxy).witness().len(),
        forall|j: int| 0 <= j < old(witness_proxy).witness().len() && j != 80 && j != 81 ==> #[trigger] final(witness_proxy).witness()[j] == old(witness_proxy).witness()[j],
        row_state::<Mersenne31Field, W, P>(*final(witness_proxy)) == spec_eval_fn_58::<W>(
            row_state::<Mersenne31Field, W, P>(*old(witness_proxy)),
            old(witness_proxy).memory(),
            old(witness_proxy).lookup_table(),
            old(witness_proxy).maybe_lookup_table(),
            old(witness_proxy).oracle_u32(),
        ),
        final(witness_proxy).lookup_table() == old(witness_proxy).lookup_table(),
        final(witness_proxy).maybe_lookup_table() == old(witness_proxy).maybe_lookup_table(),
        final(witness_proxy).oracle_u32() == old(witness_proxy).oracle_u32(),
{
    proof {
        reveal(spec_eval_fn_58);
    }
    let v_0 = witness_proxy.get_witness_place_boolean(29usize);
    let v_1 = witness_proxy.get_witness_place(11usize);
    let v_2 = witness_proxy.get_witness_place(79usize);
    let v_3 = W::Field::constant(Mersenne31Field(0u32));
    let v_4 = W::Field::constant(Mersenne31Field(1u32));
    let mut v_5 = v_3;
    W::Field::add_assign_product(&mut v_5, &v_4, &v_1);
    let v_6 = W::Field::constant(Mersenne31Field(65536u32));
    let mut v_7 = v_5;
    W::Field::add_assign_product(&mut v_7, &v_6, &v_2);
    let v_8 = W::U16::constant(24u16);
    let v_9_inputs = [v_7];
    proof {
        assert(v_9_inputs@ =~= seq![v_7]);
    }
    let v_9 = witness_proxy.maybe_lookup::<1usize, 2usize>(&v_9_inputs, v_8, v_0);
    let v_10 = v_9[0usize];
    witness_proxy.set_witness_place(
        80usize,
        W::Field::select(&v_0, &v_10, &witness_proxy.get_witness_place(80usize)),
    );
    let v_12 = v_9[1usize];
    witness_proxy.set_witness_place(
        81usize,
        W::Field::select(&v_0, &v_12, &witness_proxy.get_witness_place(81usize)),
    );
}
/// The row after `eval_fn_59`: its witness places and lookup records.
#[verifier::opaque]
pub open spec fn spec_eval_fn_59<W: WitnessTypeSet<Mersenne31Field>>(
    s: (Seq<W::Field>, Seq<(Seq<W::Field>, W::U16, usize)>, Seq<(Seq<W::Field>, W::U16, W::Mask)>),
    mem: Seq<W::Field>,
    lt: spec_fn(Seq<W::Field>, W::U16, nat) -> Seq<W::Field>,
    mlt: spec_fn(Seq<W::Field>, W::U16, W::Mask, nat) -> Seq<W::Field>,
    orc: spec_fn(Placeholder) -> W::U32,
) -> (Seq<W::Field>, Seq<(Seq<W::Field>, W::U16, usize)>, Seq<(Seq<W::Field>, W::U16, W::Mask)>) {
    let w = s.0;
    let c = s.1;
    let mk = s.2;
    let v_0 = w[29];
    let v_1 = w[78];
    let v_2 = W::Field::spec_constant(Mersenne31Field(0u32));
    let v_3 = v_0;
    let v_3 = W::Field::spec_times(v_3, v_1);
    let v_4 = v_2;
    let v_4 = W::Field::spec_minus(v_4, v_3);
    let v_5 = v_4;
    let v_5 = W::Field::spec_plus(v_5, v_0);
    let w = w.update(96, v_5);
    (w, c, mk)
}

#[allow(unused_variables)]
fn eval_fn_59<
    'a,
    'b: 'a,
    W: WitnessTypeSet<Mersenne31Field>,
    P: WitnessProxy<Mersenne31Field, W> + 'b,
>(
    witness_proxy: &'a mut P,
) where
    W::Field: Copy,
    W::Mask: Copy,
    W::U32: Copy,
    W::U16: Copy,
    W::U8: Copy,
    W::I32: Copy,
    requires
        old(witness_proxy).witness().len() >= 97,
    ensures
        final(witness_proxy).memory() == old(witness_proxy).memory(),
        final(witness_proxy).witness().len() == old(witness_proxy).witness().len(),
        forall|j: int| 0 <= j < old(witness_proxy).witness().len() && j != 96 ==> #[trigger] final(witness_proxy).witness()[j] == old(witness_proxy).witness()[j],
        row_state::<Mersenne31Field, W, P>(*final(witness_proxy)) == spec_eval_fn_59::<W>(
            row_state::<Mersenne31Field, W, P>(*old(witness_proxy)),
            old(witness_proxy).memory(),
            old(witness_proxy).lookup_table(),
            old(witness_proxy).maybe_lookup_table(),
            old(witness_proxy).oracle_u32(),
        ),
        final(witness_proxy).lookup_table() == old(witness_proxy).lookup_table(),
        final(witness_proxy).maybe_lookup_table() == old(witness_proxy).maybe_lookup_table(),
        final(witness_proxy).oracle_u32() == old(witness_proxy).oracle_u32(),
{
    proof {
        reveal(spec_eval_fn_59);
    }
    let v_0 = witness_proxy.get_witness_place(29usize);
    let v_1 = witness_proxy.get_witness_place(78usize);
    let v_2 = W::Field::constant(Mersenne31Field(0u32));
    let mut v_3 = v_0;
    W::Field::mul_assign(&mut v_3, &v_1);
    let mut v_4 = v_2;
    W::Field::sub_assign(&mut v_4, &v_3);
    let mut v_5 = v_4;
    W::Field::add_assign(&mut v_5, &v_0);
    witness_proxy.set_witness_place(96usize, v_5);
}
/// The row after `eval_fn_60`: its witness places and lookup records.
#[verifier::opaque]
pub open spec fn spec_eval_fn_60<W: WitnessTypeSet<Mersenne31Field>>(
    s: (Seq<W::Field>, Seq<(Seq<W::Field>, W::U16, usize)>, Seq<(Seq<W::Field>, W::U16, W::Mask)>),
    mem: Seq<W::Field>,
    lt: spec_fn(Seq<W::Field>, W::U16, nat) -> Seq<W::Field>,
    mlt: spec_fn(Seq<W::Field>, W::U16, W::Mask, nat) -> Seq<W::Field>,
    orc: spec_fn(Placeholder) -> W::U32,
) -> (Seq<W::Field>, Seq<(Seq<W::Field>, W::U16, usize)>, Seq<(Seq<W::Field>, W::U16, W::Mask)>) {
    let w = s.0;
    let c = s.1;
    let mk = s.2;
    let v_0 = w[29];
    let v_1 = w[78];
    let v_2 = W::Field::spec_constant(Mersenne31Field(0u32));
    let v_3 = v_2;
    let v_3 = W::Field::spec_add_product(v_3, v_0, v_1);
    let w = w.update(97, v_3);
    (w, c, mk)
}

#[allow(unused_variables)]
fn eval_fn_60<
    'a,
    'b: 'a,
    W: WitnessTypeSet<Mersenne31Field>,
    P: WitnessProxy<Mersenne31Field, W> + 'b,
>(
    witness_proxy: &'a mut P,
) where
    W::Field: Copy,
    W::Mask: Copy,
    W::U32: Copy,
    W::U16: Copy,
    W::U8: Copy,
    W::I32: Copy,
    requires
        old(witness_proxy).witness().len() >= 98,
    ensures
        final(witness_proxy).memory() == old(witness_proxy).memory(),
        final(witness_proxy).witness().len() == old(witness_proxy).witness().len(),
        forall|j: int| 0 <= j < old(witness_proxy).witness().len() && j != 97 ==> #[trigger] final(witness_proxy).witness()[j] == old(witness_proxy).witness()[j],
        row_state::<Mersenne31Field, W, P>(*final(witness_proxy)) == spec_eval_fn_60::<W>(
            row_state::<Mersenne31Field, W, P>(*old(witness_proxy)),
            old(witness_proxy).memory(),
            old(witness_proxy).lookup_table(),
            old(witness_proxy).maybe_lookup_table(),
            old(witness_proxy).oracle_u32(),
        ),
        final(witness_proxy).lookup_table() == old(witness_proxy).lookup_table(),
        final(witness_proxy).maybe_lookup_table() == old(witness_proxy).maybe_lookup_table(),
        final(witness_proxy).oracle_u32() == old(witness_proxy).oracle_u32(),
{
    proof {
        reveal(spec_eval_fn_60);
    }
    let v_0 = witness_proxy.get_witness_place(29usize);
    let v_1 = witness_proxy.get_witness_place(78usize);
    let v_2 = W::Field::constant(Mersenne31Field(0u32));
    let mut v_3 = v_2;
    W::Field::add_assign_product(&mut v_3, &v_0, &v_1);
    witness_proxy.set_witness_place(97usize, v_3);
}
/// The row after `eval_fn_64`: its witness places and lookup records.
#[verifier::opaque]
pub open spec fn spec_eval_fn_64<W: WitnessTypeSet<Mersenne31Field>>(
    s: (Seq<W::Field>, Seq<(Seq<W::Field>, W::U16, usize)>, Seq<(Seq<W::Field>, W::U16, W::Mask)>),
    mem: Seq<W::Field>,
    lt: spec_fn(Seq<W::Field>, W::U16, nat) -> Seq<W::Field>,
    mlt: spec_fn(Seq<W::Field>, W::U16, W::Mask, nat) -> Seq<W::Field>,
    orc: spec_fn(Placeholder) -> W::U32,
) -> (Seq<W::Field>, Seq<(Seq<W::Field>, W::U16, usize)>, Seq<(Seq<W::Field>, W::U16, W::Mask)>) {
    let w = s.0;
    let c = s.1;
    let mk = s.2;
    let v_0 = place_as_mask::<Mersenne31Field, W>(w[24]);
    let v_1 = place_as_mask::<Mersenne31Field, W>(w[25]);
    let v_2 = place_as_mask::<Mersenne31Field, W>(w[26]);
    let v_3 = place_as_mask::<Mersenne31Field, W>(w[27]);
    let v_4 = place_as_mask::<Mersenne31Field, W>(w[29]);
    let v_5 = place_as_mask::<Mersenne31Field, W>(w[31]);
    let v_6 = place_as_mask::<Mersenne31Field, W>(w[33]);
    let v_7 = w[77];
    let v_8 = w[78];
    let v_9 = W::Field::spec_constant(Mersenne31Field(0u32));
    let v_10 = v_9;
    let v_10 = W::Field::spec_plus(v_10, v_7);
    let v_11 = W::Field::spec_select(v_0, v_10, v_9);
    let v_12 = v_11;
    let v_12 = W::Field::spec_plus(v_12, v_8);
    let v_13 = W::Field::spec_select(v_1, v_12, v_11);
    let v_14 = v_13;
    let v_14 = W::Field::spec_plus(v_14, v_8);
    let v_15 = W::Field::spec_select(v_2, v_14, v_13);
    let v_16 = v_15;
    let v_16 = W::Field::spec_plus(v_16, v_8);
    let v_17 = W::Field::spec_select(v_3, v_16, v_15);
    let v_18 = v_17;
    let v_18 = W::Field::spec_plus(v_18, v_8);
    let v_19 = W::Field::spec_select(v_4, v_18, v_17);
    let v_20 = v_19;
    let v_20 = W::Field::spec_plus(v_20, v_8);
    let v_21 = W::Field::spec_select(v_5, v_20, v_19);
    let v_22 = v_21;
    let v_22 = W::Field::spec_plus(v_22, v_8);
    let v_23 = W::Field::spec_select(v_6, v_22, v_21);
    let w = w.update(56, v_23);
    (w, c, mk)
}

#[allow(unused_variables)]
fn eval_fn_64<
    'a,
    'b: 'a,
    W: WitnessTypeSet<Mersenne31Field>,
    P: WitnessProxy<Mersenne31Field, W> + 'b,
>(
    witness_proxy: &'a mut P,
) where
    W::Field: Copy,
    W::Mask: Copy,
    W::U32: Copy,
    W::U16: Copy,
    W::U8: Copy,
    W::I32: Copy,
    requires
        old(witness_proxy).witness().len() >= 79,
    ensures
        final(witness_proxy).memory() == old(witness_proxy).memory(),
        final(witness_proxy).witness().len() == old(witness_proxy).witness().len(),
        forall|j: int| 0 <= j < old(witness_proxy).witness().len() && j != 56 ==> #[trigger] final(witness_proxy).witness()[j] == old(witness_proxy).witness()[j],
        row_state::<Mersenne31Field, W, P>(*final(witness_proxy)) == spec_eval_fn_64::<W>(
            row_state::<Mersenne31Field, W, P>(*old(witness_proxy)),
            old(witness_proxy).memory(),
            old(witness_proxy).lookup_table(),
            old(witness_proxy).maybe_lookup_table(),
            old(witness_proxy).oracle_u32(),
        ),
        final(witness_proxy).lookup_table() == old(witness_proxy).lookup_table(),
        final(witness_proxy).maybe_lookup_table() == old(witness_proxy).maybe_lookup_table(),
        final(witness_proxy).oracle_u32() == old(witness_proxy).oracle_u32(),
{
    proof {
        reveal(spec_eval_fn_64);
    }
    let v_0 = witness_proxy.get_witness_place_boolean(24usize);
    let v_1 = witness_proxy.get_witness_place_boolean(25usize);
    let v_2 = witness_proxy.get_witness_place_boolean(26usize);
    let v_3 = witness_proxy.get_witness_place_boolean(27usize);
    let v_4 = witness_proxy.get_witness_place_boolean(29usize);
    let v_5 = witness_proxy.get_witness_place_boolean(31usize);
    let v_6 = witness_proxy.get_witness_place_boolean(33usize);
    let v_7 = witness_proxy.get_witness_place(77usize);
    let v_8 = witness_proxy.get_witness_place(78usize);
    let v_9 = W::Field::constant(Mersenne31Field(0u32));
    let mut v_10 = v_9;
    W::Field::add_assign(&mut v_10, &v_7);
    let v_11 = W::Field::select(&v_0, &v_10, &v_9);
    let mut v_12 = v_11;
    W::Field::add_assign(&mut v_12, &v_8);
    let v_13 = W::Field::select(&v_1, &v_12, &v_11);
    let mut v_14 = v_13;
    W::Field::add_assign(&mut v_14, &v_8);
    let v_15 = W::Field::select(&v_2, &v_14, &v_13);
    let mut v_16 = v_15;
    W::Field::add_assign(&mut v_16, &v_8);
    let v_17 = W::Field::select(&v_3, &v_16, &v_15);
    let mut v_18 = v_17;
    W::Field::add_assign(&mut v_18, &v_8);
    let v_19 = W::Field::select(&v_4, &v_18, &v_17);
    let mut v_20 = v_19;
    W::Field::add_assign(&mut v_20, &v_8);
    let v_21 = W::Field::select(&v_5, &v_20, &v_19);
    let mut v_22 = v_21;
    W::Field::add_assign(&mut v_22, &v_8);
    let v_23 = W::Field::select(&v_6, &v_22, &v_21);
    witness_proxy.set_witness_place(56usize, v_23);
}
/// The row after `eval_fn_65`: its witness places and lookup records.
#[verifier::opaque]
pub open spec fn spec_eval_fn_65<W: WitnessTypeSet<Mersenne31Field>>(
    s: (Seq<W::Field>, Seq<(Seq<W::Field>, W::U16, usize)>, Seq<(Seq<W::Field>, W::U16, W::Mask)>),
    mem: Seq<W::Field>,
    lt: spec_fn(Seq<W::Field>, W::U16, nat) -> Seq<W::Field>,
    mlt: spec_fn(Seq<W::Field>, W::U16, W::Mask, nat) -> Seq<W::Field>,
    orc: spec_fn(Placeholder) -> W::U32,
) -> (Seq<W::Field>, Seq<(Seq<W::Field>, W::U16, usize)>, Seq<(Seq<W::Field>, W::U16, W::Mask)>) {
    let w = s.0;
    let c = s.1;
    let mk = s.2;
    let v_0 = place_as_mask::<Mersenne31Field, W>(w[24]);
    let v_1 = place_as_mask::<Mersenne31Field, W>(w[25]);
    let v_2 = place_as_mask::<Mersenne31Field, W>(w[26]);
    let v_3 = place_as_mask::<Mersenne31Field, W>(w[27]);
    let v_4 = place_as_mask::<Mersenne31Field, W>(w[29]);
    let v_5 = place_as_mask::<Mersenne31Field, W>(w[31]);
    let v_6 = place_as_mask::<Mersenne31Field, W>(w[33]);
    let v_7 = w[78];
    let v_8 = w[79];
    let v_9 = W::Field::spec_constant(Mersenne31Field(0u32));
    let v_10 = v_9;
    let v_10 = W::Field::spec_plus(v_10, v_7);
    let v_11 = W::Field::spec_select(v_0, v_10, v_9);
    let v_12 = v_11;
    let v_12 = W::Field::spec_plus(v_12, v_8);
    let v_13 = W::Field::spec_select(v_1, v_12, v_11);
    let v_14 = v_13;
    let v_14 = W::Field::spec_plus(v_14, v_8);
    let v_15 = W::Field::spec_select(v_2, v_14, v_13);
    let v_16 = v_15;
    let v_16 = W::Field::spec_plus(v_16, v_8);
    let v_17 = W::Field::spec_select(v_3, v_16, v_15);
    let v_18 = v_17;
    let v_18 = W::Field::spec_plus(v_18, v_8);
    let v_19 = W::Field::spec_select(v_4, v_18, v_17);
    let v_20 = v_19;
    let v_20 = W::Field::spec_plus(v_20, v_8);
    let v_21 = W::Field::spec_select(v_5, v_20, v_19);
    let v_22 = v_21;
    let v_22 = W::Field::spec_plus(v_22, v_8);
    let v_23 = W::Field::spec_select(v_6, v_22, v_21);
    let w = w.update(57, v_23);
    (w, c, mk)
}

#[allow(unused_variables)]
fn eval_fn_65<
    'a,
    'b: 'a,
    W: WitnessTypeSet<Mersenne31Field>,
    P: WitnessProxy<Mersenne31Field, W> + 'b,
>(
    witness_proxy: &'a mut P,
) where
    W::Field: Copy,
    W::Mask: Copy,
    W::U32: Copy,
    W::U16: Copy,
    W::U8: Copy,
    W::I32: Copy,
    requires
        old(witness_proxy).witness().len() >= 80,
    ensures
        final(witness_proxy).memory() == old(witness_proxy).memory(),
        final(witness_proxy).witness().len() == old(witness_proxy).witness().len(),
        forall|j: int| 0 <= j < old(witness_proxy).witness().len() && j != 57 ==> #[trigger] final(witness_proxy).witness()[j] == old(witness_proxy).witness()[j],
        row_state::<Mersenne31Field, W, P>(*final(witness_proxy)) == spec_eval_fn_65::<W>(
            row_state::<Mersenne31Field, W, P>(*old(witness_proxy)),
            old(witness_proxy).memory(),
            old(witness_proxy).lookup_table(),
            old(witness_proxy).maybe_lookup_table(),
            old(witness_proxy).oracle_u32(),
        ),
        final(witness_proxy).lookup_table() == old(witness_proxy).lookup_table(),
        final(witness_proxy).maybe_lookup_table() == old(witness_proxy).maybe_lookup_table(),
        final(witness_proxy).oracle_u32() == old(witness_proxy).oracle_u32(),
{
    proof {
        reveal(spec_eval_fn_65);
    }
    let v_0 = witness_proxy.get_witness_place_boolean(24usize);
    let v_1 = witness_proxy.get_witness_place_boolean(25usize);
    let v_2 = witness_proxy.get_witness_place_boolean(26usize);
    let v_3 = witness_proxy.get_witness_place_boolean(27usize);
    let v_4 = witness_proxy.get_witness_place_boolean(29usize);
    let v_5 = witness_proxy.get_witness_place_boolean(31usize);
    let v_6 = witness_proxy.get_witness_place_boolean(33usize);
    let v_7 = witness_proxy.get_witness_place(78usize);
    let v_8 = witness_proxy.get_witness_place(79usize);
    let v_9 = W::Field::constant(Mersenne31Field(0u32));
    let mut v_10 = v_9;
    W::Field::add_assign(&mut v_10, &v_7);
    let v_11 = W::Field::select(&v_0, &v_10, &v_9);
    let mut v_12 = v_11;
    W::Field::add_assign(&mut v_12, &v_8);
    let v_13 = W::Field::select(&v_1, &v_12, &v_11);
    let mut v_14 = v_13;
    W::Field::add_assign(&mut v_14, &v_8);
    let v_15 = W::Field::select(&v_2, &v_14, &v_13);
    let mut v_16 = v_15;
    W::Field::add_assign(&mut v_16, &v_8);
    let v_17 = W::Field::select(&v_3, &v_16, &v_15);
    let mut v_18 = v_17;
    W::Field::add_assign(&mut v_18, &v_8);
    let v_19 = W::Field::select(&v_4, &v_18, &v_17);
    let mut v_20 = v_19;
    W::Field::add_assign(&mut v_20, &v_8);
    let v_21 = W::Field::select(&v_5, &v_20, &v_19);
    let mut v_22 = v_21;
    W::Field::add_assign(&mut v_22, &v_8);
    let v_23 = W::Field::select(&v_6, &v_22, &v_21);
    witness_proxy.set_witness_place(57usize, v_23);
}
/// The row after `eval_fn_66`: its witness places and lookup records.
#[verifier::opaque]
pub open spec fn spec_eval_fn_66<W: WitnessTypeSet<Mersenne31Field>>(
    s: (Seq<W::Field>, Seq<(Seq<W::Field>, W::U16, usize)>, Seq<(Seq<W::Field>, W::U16, W::Mask)>),
    mem: Seq<W::Field>,
    lt: spec_fn(Seq<W::Field>, W::U16, nat) -> Seq<W::Field>,
    mlt: spec_fn(Seq<W::Field>, W::U16, W::Mask, nat) -> Seq<W::Field>,
    orc: spec_fn(Placeholder) -> W::U32,
) -> (Seq<W::Field>, Seq<(Seq<W::Field>, W::U16, usize)>, Seq<(Seq<W::Field>, W::U16, W::Mask)>) {
    let w = s.0;
    let c = s.1;
    let mk = s.2;
    let v_0 = w[55];
    let v_1 = w[56];
    let v_2 = w[57];
    let v_3 = place_as_u16::<Mersenne31Field, W>(w[58]);
    let c = c.push((seq![v_0, v_1, v_2], v_3, 2usize));
    (w, c, mk)
}

#[allow(unused_variables)]
fn eval_fn_66<
    'a,
    'b: 'a,
    W: WitnessTypeSet<Mersenne31Field>,
    P: WitnessProxy<Mersenne31Field, W> + 'b,
>(
    witness_proxy: &'a mut P,
) where
    W::Field: Copy,
    W::Mask: Copy,
    W::U32: Copy,
    W::U16: Copy,
    W::U8: Copy,
    W::I32: Copy,
    requires
        old(witness_proxy).witness().len() >= 59,
    ensures
        final(witness_proxy).memory() == old(witness_proxy).memory(),
        final(witness_proxy).witness().len() == old(witness_proxy).witness().len(),
        final(witness_proxy).witness() == old(witness_proxy).witness(),
        row_state::<Mersenne31Field, W, P>(*final(witness_proxy)) == spec_eval_fn_66::<W>(
            row_state::<Mersenne31Field, W, P>(*old(witness_proxy)),
            old(witness_proxy).memory(),
            old(witness_proxy).lookup_table(),
            old(witness_proxy).maybe_lookup_table(),
            old(witness_proxy).oracle_u32(),
        ),
        final(witness_proxy).lookup_table() == old(witness_proxy).lookup_table(),
        final(witness_proxy).maybe_lookup_table() == old(witness_proxy).maybe_lookup_table(),
        final(witness_proxy).oracle_u32() == old(witness_proxy).oracle_u32(),
{
    proof {
        reveal(spec_eval_fn_66);
    }
    let v_0 = witness_proxy.get_witness_place(55usize);
    let v_1 = witness_proxy.get_witness_place(56usize);
    let v_2 = witness_proxy.get_witness_place(57usize);
    let v_3 = witness_proxy.get_witness_place_u16(58usize);
    let v_4_inputs = [v_0, v_1, v_2];
    proof {
        assert(v_4_inputs@ =~= seq![v_0, v_1, v_2]);
    }
    let v_4 = witness_proxy.lookup_enforce::<3usize>(&v_4_inputs, v_3, 2usize);
}
/// The row after `eval_fn_67`: its witness places and lookup records.
#[verifier::opaque]
pub open spec fn spec_eval_fn_67<W: WitnessTypeSet<Mersenne31Field>>(
    s: (Seq<W::Field>, Seq<(Seq<W::Field>, W::U16, usize)>, Seq<(Seq<W::Field>, W::U16, W::Mask)>),
    mem: Seq<W::Field>,
    lt: spec_fn(Seq<W::Field>, W::U16, nat) -> Seq<W::Field>,
    mlt: spec_fn(Seq<W::Field>, W::U16, W::Mask, nat) -> Seq<W::Field>,
    orc: spec_fn(Placeholder) -> W::U32,
) -> (Seq<W::Field>, Seq<(Seq<W::Field>, W::U16, usize)>, Seq<(Seq<W::Field>, W::U16, W::Mask)>) {
    let w = s.0;
    let c = s.1;
    let mk = s.2;
    let v_0 = w[5];
    let v_1 = place_as_mask::<Mersenne31Field, W>(w[24]);
    let v_2 = place_as_mask::<Mersenne31Field, W>(w[25]);
    let v_3 = place_as_mask::<Mersenne31Field, W>(w[29]);
    let v_4 = place_as_mask::<Mersenne31Field, W>(w[31]);
    let v_5 = place_as_mask::<Mersenne31Field, W>(w[33]);
    let v_6 = w[35];
    let v_7 = mem[8];
    let v_8 = w[76];
    let v_9 = w[50];
    let v_10 = w[53];
    let v_11 = w[11];
    let v_12 = w[12];
    let v_13 = w[39];
    let v_14 = w[78];
    let v_15 = w[79];
    let v_16 = w[40];
    let v_17 = W::Field::spec_constant(Mersenne31Field(0u32));
    let v_18 = v_17;
    let v_18 = W::Field::spec_plus(v_18, v_0);
    let v_19 = W::Field::spec_select(v_2, v_18, v_17);
    let v_20 = v_19;
    let v_20 = W::Field::spec_plus(v_20, v_11);
    let v_21 = W::Field::spec_select(v_3, v_20, v_19);
    let v_22 = v_21;
    let v_22 = W::Field::spec_plus(v_22, v_7);
    let v_23 = W::Field::spec_select(v_4, v_22, v_21);
    let v_24 = v_23;
    let v_24 = W::Field::spec_plus(v_24, v_12);
    let v_25 = W::Field::spec_select(v_5, v_24, v_23);
    let v_26 = W::Field::spec_constant(Mersenne31Field(8388608u32));
    let v_27 = v_25;
    let v_27 = W::Field::spec_add_product(v_27, v_26, v_7);
    let v_28 = W::Field::spec_select(v_1, v_27, v_25);
    let v_29 = W::Field::spec_constant(Mersenne31Field(2139095039u32));
    let v_30 = v_28;
    let v_30 = W::Field::spec_add_product(v_30, v_29, v_8);
    let v_31 = W::Field::spec_select(v_1, v_30, v_28);
    let v_32 = W::Field::spec_constant(Mersenne31Field(32u32));
    let v_33 = v_31;
    let v_33 = W::Field::spec_add_product(v_33, v_32, v_9);
    let v_34 = W::Field::spec_select(v_2, v_33, v_31);
    let v_35 = W::Field::spec_constant(Mersenne31Field(64u32));
    let v_36 = v_34;
    let v_36 = W::Field::spec_add_product(v_36, v_35, v_10);
    let v_37 = W::Field::spec_select(v_2, v_36, v_34);
    let v_38 = W::Field::spec_constant(Mersenne31Field(8u32));
    let v_39 = v_37;
    let v_39 = W::Field::spec_add_product(v_39, v_38, v_13);
    let v_40 = W::Field::spec_select(v_2, v_39, v_37);
    let v_41 = W::Field::spec_constant(Mersenne31Field(16u32));
    let v_42 = v_40;
    let v_42 = W::Field::spec_add_product(v_42, v_41, v_16);
    let v_43 = W::Field::spec_select(v_2, v_42, v_40);
    let v_44 = W::Field::spec_constant(Mersenne31Field(65536u32));
    let v_45 = v_43;
    let v_45 = W::Field::spec_add_product(v_45, v_44, v_15);
    let v_46 = W::Field::spec_select(v_3, v_45, v_43);
    let v_47 = W::Field::spec_constant(Mersenne31Field(2097152u32));
    let v_48 = v_46;
    let v_48 = W::Field::spec_add_product(v_48, v_47, v_6);
    let v_49 = W::Field::spec_select(v_4, v_48, v_46);
    let v_50 = v_49;
    let v_50 = W::Field::spec_add_product(v_50, v_44, v_14);
    let v_51 = W::Field::spec_select(v_4, v_50, v_49);
    let w = w.update(59, v_51);
    (w, c, mk)
}

#[allow(unused_variables)]
fn eval_fn_67<
    'a,
    'b: 'a,
    W: WitnessTypeSet<Mersenne31Field>,
    P: WitnessProxy<Mersenne31Field, W> + 'b,
>(
    witness_proxy: &'a mut P,
) where
    W::Field: Copy,
    W::Mask: Copy,
    W::U32: Copy,
    W::U16: Copy,
    W::U8: Copy,
    W::I32: Copy,
    requires
        old(witness_proxy).witness().len() >= 80,
        old(witness_proxy).memory().len() >= 9,
    ensures
        final(witness_proxy).memory() == old(witness_proxy).memory(),
        final(witness_proxy).witness().len() == old(witness_proxy).witness().len(),
        forall|j: int| 0 <= j < old(witness_proxy).witness().len() && j != 59 ==> #[trigger] final(witness_proxy).witness()[j] == old(witness_proxy).witness()[j],
        row_state::<Mersenne31Field, W, P>(*final(witness_proxy)) == spec_eval_fn_67::<W>(
            row_state::<Mersenne31Field, W, P>(*old(witness_proxy)),
            old(witness_proxy).memory(),
            old(witness_proxy).lookup_table(),
            old(witness_proxy).maybe_lookup_table(),
            old(witness_proxy).oracle_u32(),
        ),
        final(witness_proxy).lookup_table() == old(witness_proxy).lookup_table(),
        final(witness_proxy).maybe_lookup_table() == old(witness_proxy).maybe_lookup_table(),
        final(witness_proxy).oracle_u32() == old(witness_proxy).oracle_u32(),
{
    proof {
        reveal(spec_eval_fn_67);
    }
    let v_0 = witness_proxy.get_witness_place(5usize);
    let v_1 = witness_proxy.get_witness_place_boolean(24usize);
    let v_2 = witness_proxy.get_witness_place_boolean(25usize);
    let v_3 = witness_proxy.get_witness_place_boolean(29usize);
    let v_4 = witness_proxy.get_witness_place_boolean(31usize);
    let v_5 = witness_proxy.get_witness_place_boolean(33usize);
    let v_6 = witness_proxy.get_witness_place(35usize);
    let v_7 = witness_proxy.get_memory_place(8usize);
    let v_8 = witness_proxy.get_witness_place(76usize);
    let v_9 = witness_proxy.get_witness_place(50usize);
    let v_10 = witness_proxy.get_witness_place(53usize);
    let v_11 = witness_proxy.get_witness_place(11usize);
    let v_12 = witness_proxy.get_witness_place(12usize);
    let v_13 = witness_proxy.get_witness_place(39usize);
    let v_14 = witness_proxy.get_witness_place(78usize);
    let v_15 = witness_proxy.get_witness_place(79usize);
    let v_16 = witness_proxy.get_witness_place(40usize);
    let v_17 = W::Field::constant(Mersenne31Field(0u32));
    let mut v_18 = v_17;
    W::Field::add_assign(&mut v_18, &v_0);
    let v_19 = W::Field::select(&v_2, &v_18, &v_17);
    let mut v_20 = v_19;
    W::Field::add_assign(&mut v_20, &v_11);
    let v_21 = W::Field::select(&v_3, &v_20, &v_19);
    let mut v_22 = v_21;
    W::Field::add_assign(&mut v_22, &v_7);
    let v_23 = W::Field::select(&v_4, &v_22, &v_21);
    let mut v_24 = v_23;
    W::Field::add_assign(&mut v_24, &v_12);
    let v_25 = W::Field::select(&v_5, &v_24, &v_23);
    let v_26 = W::Field::constant(Mersenne31Field(8388608u32));
    let mut v_27 = v_25;
    W::Field::add_assign_product(&mut v_27, &v_26, &v_7);
    let v_28 = W::Field::select(&v_1, &v_27, &v_25);
    let v_29 = W::Field::constant(Mersenne31Field(2139095039u32));
    let mut v_30 = v_28;
    W::Field::add_assign_product(&mut v_30, &v_29, &v_8);
    let v_31 = W::Field::select(&v_1, &v_30, &v_28);
    let v_32 = W::Field::constant(Mersenne31Field(32u32));
    let mut v_33 = v_31;
    W::Field::add_assign_product(&mut v_33, &v_32, &v_9);
    let v_34 = W::Field::select(&v_2, &v_33, &v_31);
    let v_35 = W::Field::constant(Mersenne31Field(64u32));
    let mut v_36 = v_34;
    W::Field::add_assign_product(&mut v_36, &v_35, &v_10);
    let v_37 = W::Field::select(&v_2, &v_36, &v_34);
    let v_38 = W::Field::constant(Mersenne31Field(8u32));
    let mut v_39 = v_37;
    W::Field::add_assign_product(&mut v_39, &v_38, &v_13);
    let v_40 = W::Field::select(&v_2, &v_39, &v_37);
    let v_41 = W::Field::constant(Mersenne31Field(16u32));
    let mut v_42 = v_40;
    W::Field::add_assign_product(&mut v_42, &v_41, &v_16);
    let v_43 = W::Field::select(&v_2, &v_42, &v_40);
    let v_44 = W::Field::constant(Mersenne31Field(65536u32));
    let mut v_45 = v_43;
    W::Field::add_assign_product(&mut v_45, &v_44, &v_15);
    let v_46 = W::Field::select(&v_3, &v_45, &v_43);
    let v_47 = W::Field::constant(Mersenne31Field(2097152u32));
    let mut v_48 = v_46;
    W::Field::add_assign_product(&mut v_48, &v_47, &v_6);
    let v_49 = W::Field::select(&v_4, &v_48, &v_46);
    let mut v_50 = v_49;
    W::Field::add_assign_product(&mut v_50, &v_44, &v_14);
    let v_51 = W::Field::select(&v_4, &v_50, &v_49);
    witness_proxy.set_witness_place(59usize, v_51);
}
/// The row after `eval_fn_68`: its witness places and lookup records.
#[verifier::opaque]
pub open spec fn spec_eval_fn_68<W: WitnessTypeSet<Mersenne31Field>>(
    s: (Seq<W::Field>, Seq<(Seq<W::Field>, W::U16, usize)>, Seq<(Seq<W::Field>, W::U16, W::Mask)>),
    mem: Seq<W::Field>,
    lt: spec_fn(Seq<W::Field>, W::U16, nat) -> Seq<W::Field>,
    mlt: spec_fn(Seq<W::Field>, W::U16, W::Mask, nat) -> Seq<W::Field>,
    orc: spec_fn(Placeholder) -> W::U32,
) -> (Seq<W::Field>, Seq<(Seq<W::Field>, W::U16, usize)>, Seq<(Seq<W::Field>, W::U16, W::Mask)>) {
    let w = s.0;
    let c = s.1;
    let mk = s.2;
    let v_0 = place_as_mask::<Mersenne31Field, W>(w[24]);
    let v_1 = place_as_mask::<Mersenne31Field, W>(w[25]);
    let v_2 = place_as_mask::<Mersenne31Field, W>(w[29]);
    let v_3 = place_as_mask::<Mersenne31Field, W>(w[31]);
    let v_4 = place_as_mask::<Mersenne31Field, W>(w[33]);
    let v_5 = w[71];
    let v_6 = w[77];
    let v_7 = w[80];
    let v_8 = W::Field::spec_constant(Mersenne31Field(0u32));
    let v_9 = v_8;
    let v_9 = W::Field::spec_plus(v_9, v_7);
    let v_10 = W::Field::spec_select(v_1, v_9, v_8);
    let v_11 = v_10;
    let v_11 = W::Field::spec_plus(v_11, v_7);
    let v_12 = W::Field::spec_select(v_2, v_11, v_10);
    let v_13 = v_12;
    let v_13 = W::Field::spec_plus(v_13, v_7);
    let v_14 = W::Field::spec_select(v_3, v_13, v_12);
    let v_15 = v_14;
    let v_15 = W::Field::spec_plus(v_15, v_7);
    let v_16 = W::Field::spec_select(v_4, v_15, v_14);
    let v_17 = W::Field::spec_constant(Mersenne31Field(8388608u32));
    let v_18 = v_16;
    let v_18 = W::Field::spec_add_product(v_18, v_17, v_5);
    let v_19 = W::Field::spec_select(v_0, v_18, v_16);
    let v_20 = W::Field::spec_constant(Mersenne31Field(2139095039u32));
    let v_21 = v_19;
    let v_21 = W::Field::spec_add_product(v_21, v_20, v_6);
    let v_22 = W::Field::spec_select(v_0, v_21, v_19);
    let w = w.update(60, v_22);
    (w, c, mk)
}

#[allow(unused_variables)]
fn eval_fn_68<
    'a,
    'b: 'a,
    W: WitnessTypeSet<Mersenne31Field>,
    P: WitnessProxy<Mersenne31Field, W> + 'b,
>(
    witness_proxy: &'a mut P,
) where
    W::Field: Copy,
    W::Mask: Copy,
    W::U32: Copy,
    W::U16: Copy,
    W::U8: Copy,
    W::I32: Copy,
    requires
        old(witness_proxy).witness().len() >= 81,
    ensures
        final(witness_proxy).memory() == old(witness_proxy).memory(),
        final(witness_proxy).witness().len() == old(witness_proxy).witness().len(),
        forall|j: int| 0 <= j < old(witness_proxy).witness().len() && j != 60 ==> #[trigger] final(witness_proxy).witness()[j] == old(witness_proxy).witness()[j],
        row_state::<Mersenne31Field, W, P>(*final(witness_proxy)) == spec_eval_fn_68::<W>(
            row_state::<Mersenne31Field, W, P>(*old(witness_proxy)),
            old(witness_proxy).memory(),
            old(witness_proxy).lookup_table(),
            old(witness_proxy).maybe_lookup_table(),
            old(witness_proxy).oracle_u32(),
        ),
        final(witness_proxy).lookup_table() == old(witness_proxy).lookup_table(),
        final(witness_proxy).maybe_lookup_table() == old(witness_proxy).maybe_lookup_table(),
        final(witness_proxy).oracle_u32() == old(witness_proxy).oracle_u32(),
{
    proof {
        reveal(spec_eval_fn_68);
    }
    let v_0 = witness_proxy.get_witness_place_boolean(24usize);
    let v_1 = witness_proxy.get_witness_place_boolean(25usize);
    let v_2 = witness_proxy.get_witness_place_boolean(29usize);
    let v_3 = witness_proxy.get_witness_place_boolean(31usize);
    let v_4 = witness_proxy.get_witness_place_boolean(33usize);
    let v_5 = witness_proxy.get_witness_place(71usize);
    let v_6 = witness_proxy.get_witness_place(77usize);
    let v_7 = witness_proxy.get_witness_place(80usize);
    let v_8 = W::Field::constant(Mersenne31Field(0u32));
    let mut v_9 = v_8;
    W::Field::add_assign(&mut v_9, &v_7);
    let v_10 = W::Field::select(&v_1, &v_9, &v_8);
    let mut v_11 = v_10;
    W::Field::add_assign(&mut v_11, &v_7);
    let v_12 = W::Field::select(&v_2, &v_11, &v_10);
    let mut v_13 = v_12;
    W::Field::add_assign(&mut v_13, &v_7);
    let v_14 = W::Field::select(&v_3, &v_13, &v_12);
    let mut v_15 = v_14;
    W::Field::add_assign(&mut v_15, &v_7);
    let v_16 = W::Field::select(&v_4, &v_15, &v_14);
    let v_17 = W::Field::constant(Mersenne31Field(8388608u32));
    let mut v_18 = v_16;
    W::Field::add_assign_product(&mut v_18, &v_17, &v_5);
    let v_19 = W::Field::select(&v_0, &v_18, &v_16);
    let v_20 = W::Field::constant(Mersenne31Field(2139095039u32));
    let mut v_21 = v_19;
    W::Field::add_assign_product(&mut v_21, &v_20, &v_6);
    let v_22 = W::Field::select(&v_0, &v_21, &v_19);
    witness_proxy.set_witness_place(60usize, v_22);
}
/// The row after `eval_fn_69`: its witness places and lookup records.
#[verifier::opaque]
pub open spec fn spec_eval_fn_69<W: WitnessTypeSet<Mersenne31Field>>(
    s: (Seq<W::Field>, Seq<(Seq<W::Field>, W::U16, usize)>, Seq<(Seq<W::Field>, W::U16, W::Mask)>),
    mem: Seq<W::Field>,
    lt: spec_fn(Seq<W::Field>, W::U16, nat) -> Seq<W::Field>,
    mlt: spec_fn(Seq<W::Field>, W::U16, W::Mask, nat) -> Seq<W::Field>,
    orc: spec_fn(Placeholder) -> W::U32,
) -> (Seq<W::Field>, Seq<(Seq<W::Field>, W::U16, usize)>, Seq<(Seq<W::Field>, W::U16, W::Mask)>) {
    let w = s.0;
    let c = s.1;
    let mk = s.2;
    let v_0 = place_as_mask::<Mersenne31Field, W>(w[24]);
    let v_1 = place_as_mask::<Mersenne31Field, W>(w[25]);
    let v_2 = place_as_mask::<Mersenne31Field, W>(w[29]);
    let v_3 = place_as_mask::<Mersenne31Field, W>(w[31]);
    let v_4 = place_as_mask::<Mersenne31Field, W>(w[33]);
    let v_5 = w[79];
    let v_6 = w[81];
    let v_7 = W::Field::spec_constant(Mersenne31Field(0u32));
    let v_8 = v_7;
    let v_8 = W::Field::spec_plus(v_8, v_5);
    let v_9 = W::Field::spec_select(v_0, v_8, v_7);
    let v_10 = v_9;
    let v_10 = W::Field::spec_plus(v_10, v_6);
    let v_11 = W::Field::spec_select(v_1, v_10, v_9);
    let v_12 = v_11;
    let v_12 = W::Field::spec_plus(v_12, v_6);
    let v_13 = W::Field::spec_select(v_2, v_12, v_11);
    let v_14 = v_13;
    let v_14 = W::Field::spec_plus(v_14, v_6);
    let v_15 = W::Field::spec_select(v_3, v_14, v_13);
    let v_16 = v_15;
    let v_16 = W::Field::spec_plus(v_16, v_6);
    let v_17 = W::Field::spec_select(v_4, v_16, v_15);
    let w = w.update(61, v_17);
    (w, c, mk)
}

#[allow(unused_variables)]
fn eval_fn_69<
    'a,
    'b: 'a,
    W: WitnessTypeSet<Mersenne31Field>,
    P: WitnessProxy<Mersenne31Field, W> + 'b,
>(
    witness_proxy: &'a mut P,
) where
    W::Field: Copy,
    W::Mask: Copy,
    W::U32: Copy,
    W::U16: Copy,
    W::U8: Copy,
    W::I32: Copy,
    requires
        old(witness_proxy).witness().len() >= 82,
    ensures
        final(witness_proxy).memory() == old(witness_proxy).memory(),
        final(witness_proxy).witness().len() == old(witness_proxy).witness().len(),
        forall|j: int| 0 <= j < old(witness_proxy).witness().len() && j != 61 ==> #[trigger] final(witness_proxy).witness()[j] == old(witness_proxy).witness()[j],
        row_state::<Mersenne31Field, W, P>(*final(witness_proxy)) == spec_eval_fn_69::<W>(
            row_state::<Mersenne31Field, W, P>(*old(witness_proxy)),
            old(witness_proxy).memory(),
            old(witness_proxy).lookup_table(),
            old(witness_proxy).maybe_lookup_table(),
            old(witness_proxy).oracle_u32(),
        ),
        final(witness_proxy).lookup_table() == old(witness_proxy).lookup_table(),
        final(witness_proxy).maybe_lookup_table() == old(witness_proxy).maybe_lookup_table(),
        final(witness_proxy).oracle_u32() == old(witness_proxy).oracle_u32(),
{
    proof {
        reveal(spec_eval_fn_69);
    }
    let v_0 = witness_proxy.get_witness_place_boolean(24usize);
    let v_1 = witness_proxy.get_witness_place_boolean(25usize);
    let v_2 = witness_proxy.get_witness_place_boolean(29usize);
    let v_3 = witness_proxy.get_witness_place_boolean(31usize);
    let v_4 = witness_proxy.get_witness_place_boolean(33usize);
    let v_5 = witness_proxy.get_witness_place(79usize);
    let v_6 = witness_proxy.get_witness_place(81usize);
    let v_7 = W::Field::constant(Mersenne31Field(0u32));
    let mut v_8 = v_7;
    W::Field::add_assign(&mut v_8, &v_5);
    let v_9 = W::Field::select(&v_0, &v_8, &v_7);
    let mut v_10 = v_9;
    W::Field::add_assign(&mut v_10, &v_6);
    let v_11 = W::Field::select(&v_1, &v_10, &v_9);
    let mut v_12 = v_11;
    W::Field::add_assign(&mut v_12, &v_6);
    let v_13 = W::Field::select(&v_2, &v_12, &v_11);
    let mut v_14 = v_13;
    W::Field::add_assign(&mut v_14, &v_6);
    let v_15 = W::Field::select(&v_3, &v_14, &v_13);
    let mut v_16 = v_15;
    W::Field::add_assign(&mut v_16, &v_6);
    let v_17 = W::Field::select(&v_4, &v_16, &v_15);
    witness_proxy.set_witness_place(61usize, v_17);
}
/// The row after `eval_fn_70`: its witness places and lookup records.
#[verifier::opaque]
pub open spec fn spec_eval_fn_70<W: WitnessTypeSet<Mersenne31Field>>(
    s: (Seq<W::Field>, Seq<(Seq<W::Field>, W::U16, usize)>, Seq<(Seq<W::Field>, W::U16, W::Mask)>),
    mem: Seq<W::Field>,
    lt: spec_fn(Seq<W::Field>, W::U16, nat) -> Seq<W::Field>,
    mlt: spec_fn(Seq<W::Field>, W::U16, W::Mask, nat) -> Seq<W::Field>,
    orc: spec_fn(Placeholder) -> W::U32,
) -> (Seq<W::Field>, Seq<(Seq<W::Field>, W::U16, usize)>, Seq<(Seq<W::Field>, W::U16, W::Mask)>) {
    let w = s.0;
    let c = s.1;
    let mk = s.2;
    let v_0 = w[59];
    let v_1 = w[60];
    let v_2 = w[61];
    let v_3 = place_as_u16::<Mersenne31Field, W>(w[62]);
    let c = c.push((seq![v_0, v_1, v_2], v_3, 3usize));
    (w, c, mk)
}

#[allow(unused_variables)]
fn eval_fn_70<
    'a,
    'b: 'a,
    W: WitnessTypeSet<Mersenne31Field>,
    P: WitnessProxy<Mersenne31Field, W> + 'b,
>(
    witness_proxy: &'a mut P,
) where
    W::Field: Copy,
    W::Mask: Copy,
    W::U32: Copy,
    W::U16: Copy,
    W::U8: Copy,
    W::I32: Copy,
    requires
        old(witness_proxy).witness().len() >= 63,
    ensures
        final(witness_proxy).memory() == old(witness_proxy).memory(),
        final(witness_proxy).witness().len() == old(witness_proxy).witness().len(),
        final(witness_proxy).witness() == old(witness_proxy).witness(),
        row_state::<Mersenne31Field, W, P>(*final(witness_proxy)) == spec_eval_fn_70::<W>(
            row_state::<Mersenne31Field, W, P>(*old(witness_proxy)),
            old(witness_proxy).memory(),
            old(witness_proxy).lookup_table(),
            old(witness_proxy).maybe_lookup_table(),
            old(witness_proxy).oracle_u32(),
        ),
        final(witness_proxy).lookup_table() == old(witness_proxy).lookup_table(),
        final(witness_proxy).maybe_lookup_table() == old(witness_proxy).maybe_lookup_table(),
        final(witness_proxy).oracle_u32() == old(witness_proxy).oracle_u32(),
{
    proof {
        reveal(spec_eval_fn_70);
    }
    let v_0 = witness_proxy.get_witness_place(59usize);
    let v_1 = witness_proxy.get_witness_place(60usize);
    let v_2 = witness_proxy.get_witness_place(61usize);
    let v_3 = witness_proxy.get_witness_place_u16(62usize);
    let v_4_inputs = [v_0, v_1, v_2];
    proof {
        assert(v_4_inputs@ =~= seq![v_0, v_1, v_2]);
    }
    let v_4 = witness_proxy.lookup_enforce::<3usize>(&v_4_inputs, v_3, 3usize);
}
/// The row after `eval_fn_71`: its witness places and lookup records.
#[verifier::opaque]
pub open spec fn spec_eval_fn_71<W: WitnessTypeSet<Mersenne31Field>>(
    s: (Seq<W::Field>, Seq<(Seq<W::Field>, W::U16, usize)>, Seq<(Seq<W::Field>, W::U16, W::Mask)>),
    mem: Seq<W::Field>,
    lt: spec_fn(Seq<W::Field>, W::U16, nat) -> Seq<W::Field>,
    mlt: spec_fn(Seq<W::Field>, W::U16, W::Mask, nat) -> Seq<W::Field>,
    orc: spec_fn(Placeholder) -> W::U32,
) -> (Seq<W::Field>, Seq<(Seq<W::Field>, W::U16, usize)>, Seq<(Seq<W::Field>, W::U16, W::Mask)>) {
    let w = s.0;
    let c = s.1;
    let mk = s.2;
    let v_0 = place_as_mask::<Mersenne31Field, W>(w[24]);
    let v_1 = place_as_mask::<Mersenne31Field, W>(w[31]);
    let v_2 = w[35];
    let v_3 = mem[9];
    let v_4 = w[51];
    let v_5 = w[78];
    let v_6 = W::Field::spec_constant(Mersenne31Field(0u32));
    let v_7 = v_6;
    let v_7 = W::Field::spec_plus(v_7, v_3);
    let v_8 = W::Field::spec_select(v_0, v_7, v_6);
    let v_9 = v_8;
    let v_9 = W::Field::spec_plus(v_9, v_3);
    let v_10 = W::Field::spec_select(v_1, v_9, v_8);
    let v_11 = W::Field::spec_constant(Mersenne31Field(2147483391u32));
    let v_12 = v_10;
    let v_12 = W::Field::spec_add_product(v_12, v_11, v_4);
    let v_13 = W::Field::spec_select(v_0, v_12, v_10);
    let v_14 = W::Field::spec_constant(Mersenne31Field(2097152u32));
    let v_15 = v_13;
    let v_15 = W::Field::spec_add_product(v_15, v_14, v_2);
    let v_16 = W::Field::spec_select(v_1, v_15, v_13);
    let v_17 = W::Field::spec_constant(Mersenne31Field(65536u32));
    let v_18 = v_16;
    let v_18 = W::Field::spec_add_product(v_18, v_17, v_5);
    let v_19 = W::Field::spec_select(v_1, v_18, v_16);
    let w = w.update(63, v_19);
    (w, c, mk)
}

#[allow(unused_variables)]
fn eval_fn_71<
    'a,
    'b: 'a,
    W: WitnessTypeSet<Mersenne31Field>,
    P: WitnessProxy<Mersenne31Field, W> + 'b,
>(
    witness_proxy: &'a mut P,
) where
    W::Field: Copy,
    W::Mask: Copy,
    W::U32: Copy,
    W::U16: Copy,
    W::U8: Copy,
    W::I32: Copy,
    requires
        old(witness_proxy).witness().len() >= 79,
        old(witness_proxy).memory().len() >= 10,
    ensures
        final(witness_proxy).memory() == old(witness_proxy).memory(),
        final(witness_proxy).witness().len() == old(witness_proxy).witness().len(),
        forall|j: int| 0 <= j < old(witness_proxy).witness().len() && j != 63 ==> #[trigger] final(witness_proxy).witness()[j] == old(witness_proxy).witness()[j],
        row_state::<Mersenne31Field, W, P>(*final(witness_proxy)) == spec_eval_fn_71::<W>(
            row_state::<Mersenne31Field, W, P>(*old(witness_proxy)),
            old(witness_proxy).memory(),
            old(witness_proxy).lookup_table(),
            old(witness_proxy).maybe_lookup_table(),
            old(witness_proxy).oracle_u32(),
        ),
        final(witness_proxy).lookup_table() == old(witness_proxy).lookup_table(),
        final(witness_proxy).maybe_lookup_table() == old(witness_proxy).maybe_lookup_table(),
        final(witness_proxy).oracle_u32() == old(witness_proxy).oracle_u32(),
{
    proof {
        reveal(spec_eval_fn_71);
    }
    let v_0 = witness_proxy.get_witness_place_boolean(24usize);
    let v_1 = witness_proxy.get_witness_place_boolean(31usize);
    let v_2 = witness_proxy.get_witness_place(35usize);
    let v_3 = witness_proxy.get_memory_place(9usize);
    let v_4 = witness_proxy.get_witness_place(51usize);
    let v_5 = witness_proxy.get_witness_place(78usize);
    let v_6 = W::Field::constant(Mersenne31Field(0u32));
    let mut v_7 = v_6;
    W::Field::add_assign(&mut v_7, &v_3);
    let v_8 = W::Field::select(&v_0, &v_7, &v_6);
    let mut v_9 = v_8;
    W::Field::add_assign(&mut v_9, &v_3);
    let v_10 = W::Field::select(&v_1, &v_9, &v_8);
    let v_11 = W::Field::constant(Mersenne31Field(2147483391u32));
    let mut v_12 = v_10;
    W::Field::add_assign_product(&mut v_12, &v_11, &v_4);
    let v_13 = W::Field::select(&v_0, &v_12, &v_10);
    let v_14 = W::Field::constant(Mersenne31Field(2097152u32));
    let mut v_15 = v_13;
    W::Field::add_assign_product(&mut v_15, &v_14, &v_2);
    let v_16 = W::Field::select(&v_1, &v_15, &v_13);
    let v_17 = W::Field::constant(Mersenne31Field(65536u32));
    let mut v_18 = v_16;
    W::Field::add_assign_product(&mut v_18, &v_17, &v_5);
    let v_19 = W::Field::select(&v_1, &v_18, &v_16);
    witness_proxy.set_witness_place(63usize, v_19);
}
/// The row after `eval_fn_72`: its witness places and lookup records.
#[verifier::opaque]
pub open spec fn spec_eval_fn_72<W: WitnessTypeSet<Mersenne31Field>>(
    s: (Seq<W::Field>, Seq<(Seq<W::Field>, W::U16, usize)>, Seq<(Seq<W::Field>, W::U16, W::Mask)>),
    mem: Seq<W::Field>,
    lt: spec_fn(Seq<W::Field>, W::U16, nat) -> Seq<W::Field>,
    mlt: spec_fn(Seq<W::Field>, W::U16, W::Mask, nat) -> Seq<W::Field>,
    orc: spec_fn(Placeholder) -> W::U32,
) -> (Seq<W::Field>, Seq<(Seq<W::Field>, W::U16, usize)>, Seq<(Seq<W::Field>, W::U16, W::Mask)>) {
    let w = s.0;
    let c = s.1;
    let mk = s.2;
    let v_0 = place_as_mask::<Mersenne31Field, W>(w[24]);
    let v_1 = place_as_mask::<Mersenne31Field, W>(w[31]);
    let v_2 = w[52];
    let v_3 = w[54];
    let v_4 = w[85];
    let v_5 = W::Field::spec_constant(Mersenne31Field(0u32));
    let v_6 = v_5;
    let v_6 = W::Field::spec_plus(v_6, v_2);
    let v_7 = W::Field::spec_select(v_0, v_6, v_5);
    let v_8 = v_7;
    let v_8 = W::Field::spec_plus(v_8, v_4);
    let v_9 = W::Field::spec_select(v_1, v_8, v_7);
    let v_10 = W::Field::spec_constant(Mersenne31Field(2147483391u32));
    let v_11 = v_9;
    let v_11 = W::Field::spec_add_product(v_11, v_10, v_3);
    let v_12 = W::Field::spec_select(v_0, v_11, v_9);
    let w = w.update(64, v_12);
    (w, c, mk)
}

#[allow(unused_variables)]
fn eval_fn_72<
    'a,
    'b: 'a,
    W: WitnessTypeSet<Mersenne31Field>,
    P: WitnessProxy<Mersenne31Field, W> + 'b,
>(
    witness_proxy: &'a mut P,
) where
    W::Field: Copy,
    W::Mask: Copy,
    W::U32: Copy,
    W::U16: Copy,
    W::U8: Copy,
    W::I32: Copy,
    requires
        old(witness_proxy).witness().len() >= 86,
    ensures
        final(witness_proxy).memory() == old(witness_proxy).memory(),
        final(witness_proxy).witness().len() == old(witness_proxy).witness().len(),
        forall|j: int| 0 <= j < old(witness_proxy).witness().len() && j != 64 ==> #[trigger] final(witness_proxy).witness()[j] == old(witness_proxy).witness()[j],
        row_state::<Mersenne31Field, W, P>(*final(witness_proxy)) == spec_eval_fn_72::<W>(
            row_state::<Mersenne31Field, W, P>(*old(witness_proxy)),
            old(witness_proxy).memory(),
            old(witness_proxy).lookup_table(),
            old(witness_proxy).maybe_lookup_table(),
            old(witness_proxy).oracle_u32(),
        ),
        final(witness_proxy).lookup_table() == old(witness_proxy).lookup_table(),
        final(witness_proxy).maybe_lookup_table() == old(witness_proxy).maybe_lookup_table(),
        final(witness_proxy).oracle_u32() == old(witness_proxy).oracle_u32(),
{
    proof {
        reveal(spec_eval_fn_72);
    }
    let v_0 = witness_proxy.get_witness_place_boolean(24usize);
    let v_1 = witness_proxy.get_witness_place_boolean(31usize);
    let v_2 = witness_proxy.get_witness_place(52usize);
    let v_3 = witness_proxy.get_witness_place(54usize);
    let v_4 = witness_proxy.get_witness_place(85usize);
    let v_5 = W::Field::constant(Mersenne31Field(0u32));
    let mut v_6 = v_5;
    W::Field::add_assign(&mut v_6, &v_2);
    let v_7 = W::Field::select(&v_0, &v_6, &v_5);
    let mut v_8 = v_7;
    W::Field::add_assign(&mut v_8, &v_4);
    let v_9 = W::Field::select(&v_1, &v_8, &v_7);
    let v_10 = W::Field::constant(Mersenne31Field(2147483391u32));
    let mut v_11 = v_9;
    W::Field::add_assign_product(&mut v_11, &v_10, &v_3);
    let v_12 = W::Field::select(&v_0, &v_11, &v_9);
    witness_proxy.set_witness_place(64usize, v_12);
}
/// The row after `eval_fn_73`: its witness places and lookup records.
#[verifier::opaque]
pub open spec fn spec_eval_fn_73<W: WitnessTypeSet<Mersenne31Field>>(
    s: (Seq<W::Field>, Seq<(Seq<W::Field>, W::U16, usize)>, Seq<(Seq<W::Field>, W::U16, W::Mask)>),
    mem: Seq<W::Field>,
    lt: spec_fn(Seq<W::Field>, W::U16, nat) -> Seq<W::Field>,
    mlt: spec_fn(Seq<W::Field>, W::U16, W::Mask, nat) -> Seq<W::Field>,
    orc: spec_fn(Placeholder) -> W::U32,
) -> (Seq<W::Field>, Seq<(Seq<W::Field>, W::U16, usize)>, Seq<(Seq<W::Field>, W::U16, W::Mask)>) {
    let w = s.0;
    let c = s.1;
    let mk = s.2;
    let v_0 = place_as_mask::<Mersenne31Field, W>(w[24]);
    let v_1 = place_as_mask::<Mersenne31Field, W>(w[31]);
    let v_2 = w[80];
    let v_3 = w[86];
    let v_4 = W::Field::spec_constant(Mersenne31Field(0u32));
    let v_5 = v_4;
    let v_5 = W::Field::spec_plus(v_5, v_2);
    let v_6 = W::Field::spec_select(v_0, v_5, v_4);
    let v_7 = v_6;
    let v_7 = W::Field::spec_plus(v_7, v_3);
    let v_8 = W::Field::spec_select(v_1, v_7, v_6);
    let w = w.update(65, v_8);
    (w, c, mk)
}

#[allow(unused_variables)]
fn eval_fn_73<
    'a,
    'b: 'a,
    W: WitnessTypeSet<Mersenne31Field>,
    P: WitnessProxy<Mersenne31Field, W> + 'b,
>(
    witness_proxy: &'a mut P,
) where
    W::Field: Copy,
    W::Mask: Copy,
    W::U32: Copy,
    W::U16: Copy,
    W::U8: Copy,
    W::I32: Copy,
    requires
        old(witness_proxy).witness().len() >= 87,
    ensures
        final(witness_proxy).memory() == old(witness_proxy).memory(),
        final(witness_proxy).witness().len() == old(witness_proxy).witness().len(),
        forall|j: int| 0 <= j < old(witness_proxy).witness().len() && j != 65 ==> #[trigger] final(witness_proxy).witness()[j] == old(witness_proxy).witness()[j],
        row_state::<Mersenne31Field, W, P>(*final(witness_proxy)) == spec_eval_fn_73::<W>(
            row_state::<Mersenne31Field, W, P>(*old(witness_proxy)),
            old(witness_proxy).memory(),
            old(witness_proxy).lookup_table(),
            old(witness_proxy).maybe_lookup_table(),
            old(witness_proxy).oracle_u32(),
        ),
        final(witness_proxy).lookup_table() == old(witness_proxy).lookup_table(),
        final(witness_proxy).maybe_lookup_table() == old(witness_proxy).maybe_lookup_table(),
        final(witness_proxy).oracle_u32() == old(witness_proxy).oracle_u32(),
{
    proof {
        reveal(spec_eval_fn_73);
    }
    let v_0 = witness_proxy.get_witness_place_boolean(24usize);
    let v_1 = witness_proxy.get_witness_place_boolean(31usize);
    let v_2 = witness_proxy.get_witness_place(80usize);
    let v_3 = witness_proxy.get_witness_place(86usize);
    let v_4 = W::Field::constant(Mersenne31Field(0u32));
    let mut v_5 = v_4;
    W::Field::add_assign(&mut v_5, &v_2);
    let v_6 = W::Field::select(&v_0, &v_5, &v_4);
    let mut v_7 = v_6;
    W::Field::add_assign(&mut v_7, &v_3);
    let v_8 = W::Field::select(&v_1, &v_7, &v_6);
    witness_proxy.set_witness_place(65usize, v_8);
}
/// The row after `eval_fn_74`: its witness places and lookup records.
#[verifier::opaque]
pub open spec fn spec_eval_fn_74<W: WitnessTypeSet<Mersenne31Field>>(
    s: (Seq<W::Field>, Seq<(Seq<W::Field>, W::U16, usize)>, Seq<(Seq<W::Field>, W::U16, W::Mask)>),
    mem: Seq<W::Field>,
    lt: spec_fn(Seq<W::Field>, W::U16, nat) -> Seq<W::Field>,
    mlt: spec_fn(Seq<W::Field>, W::U16, W::Mask, nat) -> Seq<W::Field>,
    orc: spec_fn(Placeholder) -> W::U32,
) -> (Seq<W::Field>, Seq<(Seq<W::Field>, W::U16, usize)>, Seq<(Seq<W::Field>, W::U16, W::Mask)>) {
    let w = s.0;
    let c = s.1;
    let mk = s.2;
    let v_0 = w[63];
    let v_1 = w[64];
    let v_2 = w[65];
    let v_3 = place_as_u16::<Mersenne31Field, W>(w[66]);
    let c = c.push((seq![v_0, v_1, v_2], v_3, 4usize));
    (w, c, mk)
}

#[allow(unused_variables)]
fn eval_fn_74<
    'a,
    'b: 'a,
    W: WitnessTypeSet<Mersenne31Field>,
    P: WitnessProxy<Mersenne31Field, W> + 'b,
>(
    witness_proxy: &'a mut P,
) where
    W::Field: Copy,
    W::Mask: Copy,
    W::U32: Copy,
    W::U16: Copy,
    W::U8: Copy,
    W::I32: Copy,
    requires
        old(witness_proxy).witness().len() >= 67,
    ensures
        final(witness_proxy).memory() == old(witness_proxy).memory(),
        final(witness_proxy).witness().len() == old(witness_proxy).witness().len(),
        final(witness_proxy).witness() == old(witness_proxy).witness(),
        row_state::<Mersenne31Field, W, P>(*final(witness_proxy)) == spec_eval_fn_74::<W>(
            row_state::<Mersenne31Field, W, P>(*old(witness_proxy)),
            old(witness_proxy).memory(),
            old(witness_proxy).lookup_table(),
            old(witness_proxy).maybe_lookup_table(),
            old(witness_proxy).oracle_u32(),
        ),
        final(witness_proxy).lookup_table() == old(witness_proxy).lookup_table(),
        final(witness_proxy).maybe_lookup_table() == old(witness_proxy).maybe_lookup_table(),
        final(witness_proxy).oracle_u32() == old(witness_proxy).oracle_u32(),
{
    proof {
        reveal(spec_eval_fn_74);
    }
    let v_0 = witness_proxy.get_witness_place(63usize);
    let v_1 = witness_proxy.get_witness_place(64usize);
    let v_2 = witness_proxy.get_witness_place(65usize);
    let v_3 = witness_proxy.get_witness_place_u16(66usize);
    let v_4_inputs = [v_0, v_1, v_2];
    proof {
        assert(v_4_inputs@ =~= seq![v_0, v_1, v_2]);
    }
    let v_4 = witness_proxy.lookup_enforce::<3usize>(&v_4_inputs, v_3, 4usize);
}
/// The row after `eval_fn_75`: its witness places and lookup records.
#[verifier::opaque]
pub open spec fn spec_eval_fn_75<W: WitnessTypeSet<Mersenne31Field>>(
    s: (Seq<W::Field>, Seq<(Seq<W::Field>, W::U16, usize)>, Seq<(Seq<W::Field>, W::U16, W::Mask)>),
    mem: Seq<W::Field>,
    lt: spec_fn(Seq<W::Field>, W::U16, nat) -> Seq<W::Field>,
    mlt: spec_fn(Seq<W::Field>, W::U16, W::Mask, nat) -> Seq<W::Field>,
    orc: spec_fn(Placeholder) -> W::U32,
) -> (Seq<W::Field>, Seq<(Seq<W::Field>, W::U16, usize)>, Seq<(Seq<W::Field>, W::U16, W::Mask)>) {
    let w = s.0;
    let c = s.1;
    let mk = s.2;
    let v_0 = place_as_mask::<Mersenne31Field, W>(w[24]);
    let v_1 = place_as_mask::<Mersenne31Field, W>(w[31]);
    let v_2 = w[34];
    let v_3 = w[50];
    let v_4 = w[51];
    let v_5 = w[78];
    let v_6 = W::Field::spec_constant(Mersenne31Field(0u32));
    let v_7 = v_6;
    let v_7 = W::Field::spec_plus(v_7, v_4);
    let v_8 = W::Field::spec_select(v_0, v_7, v_6);
    let v_9 = v_8;
    let v_9 = W::Field::spec_plus(v_9, v_3);
    let v_10 = W::Field::spec_select(v_1, v_9, v_8);
    let v_11 = W::Field::spec_constant(Mersenne31Field(2u32));
    let v_12 = v_10;
    let v_12 = W::Field::spec_add_product(v_12, v_11, v_2);
    let v_13 = W::Field::spec_select(v_1, v_12, v_10);
    let v_14 = W::Field::spec_constant(Mersenne31Field(4u32));
    let v_15 = v_13;
    let v_15 = W::Field::spec_add_product(v_15, v_14, v_5);
    let v_16 = W::Field::spec_select(v_1, v_15, v_13);
    let w = w.update(67, v_16);
    (w, c, mk)
}

#[allow(unused_variables)]
fn eval_fn_75<
    'a,
    'b: 'a,
    W: WitnessTypeSet<Mersenne31Field>,
    P: WitnessProxy<Mersenne31Field, W> + 'b,
>(
    witness_proxy: &'a mut P,
) where
    W::Field: Copy,
    W::Mask: Copy,
    W::U32: Copy,
    W::U16: Copy,
    W::U8: Copy,
    W::I32: Copy,
    requires
        old(witness_proxy).witness().len() >= 79,
    ensures
        final(witness_proxy).memory() == old(witness_proxy).memory(),
        final(witness_proxy).witness().len() == old(witness_proxy).witness().len(),
        forall|j: int| 0 <= j < old(witness_proxy).witness().len() && j != 67 ==> #[trigger] final(witness_proxy).witness()[j] == old(witness_proxy).witness()[j],
        row_state::<Mersenne31Field, W, P>(*final(witness_proxy)) == spec_eval_fn_75::<W>(
            row_state::<Mersenne31Field, W, P>(*old(witness_proxy)),
            old(witness_proxy).memory(),
            old(witness_proxy).lookup_table(),
            old(witness_proxy).maybe_lookup_table(),
            old(witness_proxy).oracle_u32(),
        ),
        final(witness_proxy).lookup_table() == old(witness_proxy).lookup_table(),
        final(witness_proxy).maybe_lookup_table() == old(witness_proxy).maybe_lookup_table(),
        final(witness_proxy).oracle_u32() == old(witness_proxy).oracle_u32(),
{
    proof {
        reveal(spec_eval_fn_75);
    }
    let v_0 = witness_proxy.get_witness_place_boolean(24usize);
    let v_1 = witness_proxy.get_witness_place_boolean(31usize);
    let v_2 = witness_proxy.get_witness_place(34usize);
    let v_3 = witness_proxy.get_witness_place(50usize);
    let v_4 = witness_proxy.get_witness_place(51usize);
    let v_5 = witness_proxy.get_witness_place(78usize);
    let v_6 = W::Field::constant(Mersenne31Field(0u32));
    let mut v_7 = v_6;
    W::Field::add_assign(&mut v_7, &v_4);
    let v_8 = W::Field::select(&v_0, &v_7, &v_6);
    let mut v_9 = v_8;
    W::Field::add_assign(&mut v_9, &v_3);
    let v_10 = W::Field::select(&v_1, &v_9, &v_8);
    let v_11 = W::Field::constant(Mersenne31Field(2u32));
    let mut v_12 = v_10;
    W::Field::add_assign_product(&mut v_12, &v_11, &v_2);
    let v_13 = W::Field::select(&v_1, &v_12, &v_10);
    let v_14 = W::Field::constant(Mersenne31Field(4u32));
    let mut v_15 = v_13;
    W::Field::add_assign_product(&mut v_15, &v_14, &v_5);
    let v_16 = W::Field::select(&v_1, &v_15, &v_13);
    witness_proxy.set_witness_place(67usize, v_16);
}
/// The row after `eval_fn_76`: its witness places and lookup records.
#[verifier::opaque]
pub open spec fn spec_eval_fn_76<W: WitnessTypeSet<Mersenne31Field>>(
    s: (Seq<W::Field>, Seq<(Seq<W::Field>, W::U16, usize)>, Seq<(Seq<W::Field>, W::U16, W::Mask)>),
    mem: Seq<W::Field>,
    lt: spec_fn(Seq<W::Field>, W::U16, nat) -> Seq<W::Field>,
    mlt: spec_fn(Seq<W::Field>, W::U16, W::Mask, nat) -> Seq<W::Field>,
    orc: spec_fn(Placeholder) -> W::U32,
) -> (Seq<W::Field>, Seq<(Seq<W::Field>, W::U16, usize)>, Seq<(Seq<W::Field>, W::U16, W::Mask)>) {
    let w = s.0;
    let c = s.1;
    let mk = s.2;
    let v_0 = place_as_mask::<Mersenne31Field, W>(w[24]);
    let v_1 = place_as_mask::<Mersenne31Field, W>(w[31]);
    let v_2 = w[54];
    let v_3 = w[89];
    let v_4 = W::Field::spec_constant(Mersenne31Field(0u32));
    let v_5 = v_4;
    let v_5 = W::Field::spec_plus(v_5, v_2);
    let v_6 = W::Field::spec_select(v_0, v_5, v_4);
    let v_7 = v_6;
    let v_7 = W::Field::spec_plus(v_7, v_3);
    let v_8 = W::Field::spec_select(v_1, v_7, v_6);
    let w = w.update(68, v_8);
    (w, c, mk)
}

#[allow(unused_variables)]
fn eval_fn_76<
    'a,
    'b: 'a,
    W: WitnessTypeSet<Mersenne31Field>,
    P: WitnessProxy<Mersenne31Field, W> + 'b,
>(
    witness_proxy: &'a mut P,
) where
    W::Field: Copy,
    W::Mask: Copy,
    W::U32: Copy,
    W::U16: Copy,
    W::U8: Copy,
    W::I32: Copy,
    requires
        old(witness_proxy).witness().len() >= 90,
    ensures
        final(witness_proxy).memory() == old(witness_proxy).memory(),
        final(witness_proxy).witness().len() == old(witness_proxy).witness().len(),
        forall|j: int| 0 <= j < old(witness_proxy).witness().len() && j != 68 ==> #[trigger] final(witness_proxy).witness()[j] == old(witness_proxy).witness()[j],
        row_state::<Mersenne31Field, W, P>(*final(witness_proxy)) == spec_eval_fn_76::<W>(
            row_state::<Mersenne31Field, W, P>(*old(witness_proxy)),
            old(witness_proxy).memory(),
            old(witness_proxy).lookup_table(),
            old(witness_proxy).maybe_lookup_table(),
            old(witness_proxy).oracle_u32(),
        ),
        final(witness_proxy).lookup_table() == old(witness_proxy).lookup_table(),
        final(witness_proxy).maybe_lookup_table() == old(witness_proxy).maybe_lookup_table(),
        final(witness_proxy).oracle_u32() == old(witness_proxy).oracle_u32(),
{
    proof {
        reveal(spec_eval_fn_76);
    }
    let v_0 = witness_proxy.get_witness_place_boolean(24usize);
    let v_1 = witness_proxy.get_witness_place_boolean(31usize);
    let v_2 = witness_proxy.get_witness_place(54usize);
    let v_3 = witness_proxy.get_witness_place(89usize);
    let v_4 = W::Field::constant(Mersenne31Field(0u32));
    let mut v_5 = v_4;
    W::Field::add_assign(&mut v_5, &v_2);
    let v_6 = W::Field::select(&v_0, &v_5, &v_4);
    let mut v_7 = v_6;
    W::Field::add_assign(&mut v_7, &v_3);
    let v_8 = W::Field::select(&v_1, &v_7, &v_6);
    witness_proxy.set_witness_place(68usize, v_8);
}
/// The row after `eval_fn_77`: its witness places and lookup records.
#[verifier::opaque]
pub open spec fn spec_eval_fn_77<W: WitnessTypeSet<Mersenne31Field>>(
    s: (Seq<W::Field>, Seq<(Seq<W::Field>, W::U16, usize)>, Seq<(Seq<W::Field>, W::U16, W::Mask)>),
    mem: Seq<W::Field>,
    lt: spec_fn(Seq<W::Field>, W::U16, nat) -> Seq<W::Field>,
    mlt: spec_fn(Seq<W::Field>, W::U16, W::Mask, nat) -> Seq<W::Field>,
    orc: spec_fn(Placeholder) -> W::U32,
) -> (Seq<W::Field>, Seq<(Seq<W::Field>, W::U16, usize)>, Seq<(Seq<W::Field>, W::U16, W::Mask)>) {
    let w = s.0;
    let c = s.1;
    let mk = s.2;
    let v_0 = place_as_mask::<Mersenne31Field, W>(w[24]);
    let v_1 = place_as_mask::<Mersenne31Field, W>(w[31]);
    let v_2 = w[81];
    let v_3 = w[90];
    let v_4 = W::Field::spec_constant(Mersenne31Field(0u32));
    let v_5 = v_4;
    let v_5 = W::Field::spec_plus(v_5, v_2);
    let v_6 = W::Field::spec_select(v_0, v_5, v_4);
    let v_7 = v_6;
    let v_7 = W::Field::spec_plus(v_7, v_3);
    let v_8 = W::Field::spec_select(v_1, v_7, v_6);
    let w = w.update(69, v_8);
    (w, c, mk)
}

#[allow(unused_variables)]
fn eval_fn_77<
    'a,
    'b: 'a,
    W: WitnessTypeSet<Mersenne31Field>,
    P: WitnessProxy<Mersenne31Field, W> + 'b,
>(
    witness_proxy: &'a mut P,
) where
    W::Field: Copy,
    W::Mask: Copy,
    W::U32: Copy,
    W::U16: Copy,
    W::U8: Copy,
    W::I32: Copy,
    requires
        old(witness_proxy).witness().len() >= 91,
    ensures
        final(witness_proxy).memory() == old(witness_proxy).memory(),
        final(witness_proxy).witness().len() == old(witness_proxy).witness().len(),
        forall|j: int| 0 <= j < old(witness_proxy).witness().len() && j != 69 ==> #[trigger] final(witness_proxy).witness()[j] == old(witness_proxy).witness()[j],
        row_state::<Mersenne31Field, W, P>(*final(witness_proxy)) == spec_eval_fn_77::<W>(
            row_state::<Mersenne31Field, W, P>(*old(witness_proxy)),
            old(witness_proxy).memory(),
            old(witness_proxy).lookup_table(),
            old(witness_proxy).maybe_lookup_table(),
            old(witness_proxy).oracle_u32(),
        ),
        final(witness_proxy).lookup_table() == old(witness_proxy).lookup_table(),
        final(witness_proxy).maybe_lookup_table() == old(witness_proxy).maybe_lookup_table(),
        final(witness_proxy).oracle_u32() == old(witness_proxy).oracle_u32(),
{
    proof {
        reveal(spec_eval_fn_77);
    }
    let v_0 = witness_proxy.get_witness_place_boolean(24usize);
    let v_1 = witness_proxy.get_witness_place_boolean(31usize);
    let v_2 = witness_proxy.get_witness_place(81usize);
    let v_3 = witness_proxy.get_witness_place(90usize);
    let v_4 = W::Field::constant(Mersenne31Field(0u32));
    let mut v_5 = v_4;
    W::Field::add_assign(&mut v_5, &v_2);
    let v_6 = W::Field::select(&v_0, &v_5, &v_4);
    let mut v_7 = v_6;
    W::Field::add_assign(&mut v_7, &v_3);
    let v_8 = W::Field::select(&v_1, &v_7, &v_6);
    witness_proxy.set_witness_place(69usize, v_8);
}
/// The row after `eval_fn_78`: its witness places and lookup records.
#[verifier::opaque]
pub open spec fn spec_eval_fn_78<W: WitnessTypeSet<Mersenne31Field>>(
    s: (Seq<W::Field>, Seq<(Seq<W::Field>, W::U16, usize)>, Seq<(Seq<W::Field>, W::U16, W::Mask)>),
    mem: Seq<W::Field>,
    lt: spec_fn(Seq<W::Field>, W::U16, nat) -> Seq<W::Field>,
    mlt: spec_fn(Seq<W::Field>, W::U16, W::Mask, nat) -> Seq<W::Field>,
    orc: spec_fn(Placeholder) -> W::U32,
) -> (Seq<W::Field>, Seq<(Seq<W::Field>, W::U16, usize)>, Seq<(Seq<W::Field>, W::U16, W::Mask)>) {
    let w = s.0;
    let c = s.1;
    let mk = s.2;
    let v_0 = w[67];
    let v_1 = w[68];
    let v_2 = w[69];
    let v_3 = place_as_u16::<Mersenne31Field, W>(w[70]);
    let c = c.push((seq![v_0, v_1, v_2], v_3, 5usize));
    (w, c, mk)
}

#[allow(unused_variables)]
fn eval_fn_78<
    'a,
    'b: 'a,
    W: WitnessTypeSet<Mersenne31Field>,
    P: WitnessProxy<Mersenne31Field, W> + 'b,
>(
    witness_proxy: &'a mut P,
) where
    W::Field: Copy,
    W::Mask: Copy,
    W::U32: Copy,
    W::U16: Copy,
    W::U8: Copy,
    W::I32: Copy,
    requires
        old(witness_proxy).witness().len() >= 71,
    ensures
        final(witness_proxy).memory() == old(witness_proxy).memory(),
        final(witness_proxy).witness().len() == old(witness_proxy).witness().len(),
        final(witness_proxy).witness() == old(witness_proxy).witness(),
        row_state::<Mersenne31Field, W, P>(*final(witness_proxy)) == spec_eval_fn_78::<W>(
            row_state::<Mersenne31Field, W, P>(*old(witness_proxy)),
            old(witness_proxy).memory(),
            old(witness_proxy).lookup_table(),
            old(witness_proxy).maybe_lookup_table(),
            old(witness_proxy).oracle_u32(),
        ),
        final(witness_proxy).lookup_table() == old(witness_proxy).lookup_table(),
        final(witness_proxy).maybe_lookup_table() == old(witness_proxy).maybe_lookup_table(),
        final(witness_proxy).oracle_u32() == old(witness_proxy).oracle_u32(),
{
    proof {
        reveal(spec_eval_fn_78);
    }
    let v_0 = witness_proxy.get_witness_place(67usize);
    let v_1 = witness_proxy.get_witness_place(68usize);
    let v_2 = witness_proxy.get_witness_place(69usize);
    let v_3 = witness_proxy.get_witness_place_u16(70usize);
    let v_4_inputs = [v_0, v_1, v_2];
    proof {
        assert(v_4_inputs@ =~= seq![v_0, v_1, v_2]);
    }
    let v_4 = witness_proxy.lookup_enforce::<3usize>(&v_4_inputs, v_3, 5usize);
}
/// The row after `eval_fn_79`: its witness places and lookup records.
#[verifier::opaque]
pub open spec fn spec_eval_fn_79<W: WitnessTypeSet<Mersenne31Field>>(
    s: (Seq<W::Field>, Seq<(Seq<W::Field>, W::U16, usize)>, Seq<(Seq<W::Field>, W::U16, W::Mask)>),
    mem: Seq<W::Field>,
    lt: spec_fn(Seq<W::Field>, W::U16, nat) -> Seq<W::Field>,
    mlt: spec_fn(Seq<W::Field>, W::U16, W::Mask, nat) -> Seq<W::Field>,
    orc: spec_fn(Placeholder) -> W::U32,
) -> (Seq<W::Field>, Seq<(Seq<W::Field>, W::U16, usize)>, Seq<(Seq<W::Field>, W::U16, W::Mask)>) {
    let w = s.0;
    let c = s.1;
    let mk = s.2;
    let v_0 = w[78];
    let v_1 = w[80];
    let v_2 = W::Field::spec_constant(Mersenne31Field(0u32));
    let v_3 = v_2;
    let v_3 = W::Field::spec_add_product(v_3, v_0, v_1);
    let w = w.update(82, v_3);
    (w, c, mk)
}

#[allow(unused_variables)]
fn eval_fn_79<
    'a,
    'b: 'a,
    W: WitnessTypeSet<Mersenne31Field>,
    P: WitnessProxy<Mersenne31Field, W> + 'b,
>(
    witness_proxy: &'a mut P,
) where
    W::Field: Copy,
    W::Mask: Copy,
    W::U32: Copy,
    W::U16: Copy,
    W::U8: Copy,
    W::I32: Copy,
    requires
        old(witness_proxy).witness().len() >= 83,
    ensures
        final(witness_proxy).memory() == old(witness_proxy).memory(),
        final(witness_proxy).witness().len() == old(witness_proxy).witness().len(),
        forall|j: int| 0 <= j < old(witness_proxy).witness().len() && j != 82 ==> #[trigger] final(witness_proxy).witness()[j] == old(witness_proxy).witness()[j],
        row_state::<Mersenne31Field, W, P>(*final(witness_proxy)) == spec_eval_fn_79::<W>(
            row_state::<Mersenne31Field, W, P>(*old(witness_proxy)),
            old(witness_proxy).memory(),
            old(witness_proxy).lookup_table(),
            old(witness_proxy).maybe_lookup_table(),
            old(witness_proxy).oracle_u32(),
        ),
        final(witness_proxy).lookup_table() == old(witness_proxy).lookup_table(),
        final(witness_proxy).maybe_lookup_table() == old(witness_proxy).maybe_lookup_table(),
        final(witness_proxy).oracle_u32() == old(witness_proxy).oracle_u32(),
{
    proof {
        reveal(spec_eval_fn_79);
    }
    let v_0 = witness_proxy.get_witness_place(78usize);
    let v_1 = witness_proxy.get_witness_place(80usize);
    let v_2 = W::Field::constant(Mersenne31Field(0u32));
    let mut v_3 = v_2;
    W::Field::add_assign_product(&mut v_3, &v_0, &v_1);
    witness_proxy.set_witness_place(82usize, v_3);
}
/// The row after `eval_fn_80`: its witness places and lookup records.
#[verifier::opaque]
pub open spec fn spec_eval_fn_80<W: WitnessTypeSet<Mersenne31Field>>(
    s: (Seq<W::Field>, Seq<(Seq<W::Field>, W::U16, usize)>, Seq<(Seq<W::Field>, W::U16, W::Mask)>),
    mem: Seq<W::Field>,
    lt: spec_fn(Seq<W::Field>, W::U16, nat) -> Seq<W::Field>,
    mlt: spec_fn(Seq<W::Field>, W::U16, W::Mask, nat) -> Seq<W::Field>,
    orc: spec_fn(Placeholder) -> W::U32,
) -> (Seq<W::Field>, Seq<(Seq<W::Field>, W::U16, usize)>, Seq<(Seq<W::Field>, W::U16, W::Mask)>) {
    let w = s.0;
    let c = s.1;
    let mk = s.2;
    let v_0 = w[72];
    let v_1 = w[80];
    let v_2 = w[13];
    let v_3 = W::Field::spec_constant(Mersenne31Field(0u32));
    let v_4 = v_3;
    let v_4 = W::Field::spec_add_product(v_4, v_1, v_2);
    let v_5 = v_0;
    let v_5 = W::Field::spec_times(v_5, v_1);
    let v_6 = v_4;
    let v_6 = W::Field::spec_minus(v_6, v_5);
    let v_7 = v_6;
    let v_7 = W::Field::spec_plus(v_7, v_0);
    let w = w.update(83, v_7);
    (w, c, mk)
}

#[allow(unused_variables)]
fn eval_fn_80<
    'a,
    'b: 'a,
    W: WitnessTypeSet<Mersenne31Field>,
    P: WitnessProxy<Mersenne31Field, W> + 'b,
>(
    witness_proxy: &'a mut P,
) where
    W::Field: Copy,
    W::Mask: Copy,
    W::U32: Copy,
    W::U16: Copy,
    W::U8: Copy,
    W::I32: Copy,
    requires
        old(witness_proxy).witness().len() >= 84,
    ensures
        final(witness_proxy).memory() == old(witness_proxy).memory(),
        final(witness_proxy).witness().len() == old(witness_proxy).witness().len(),
        forall|j: int| 0 <= j < old(witness_proxy).witness().len() && j != 83 ==> #[trigger] final(witness_proxy).witness()[j] == old(witness_proxy).witness()[j],
        row_state::<Mersenne31Field, W, P>(*final(witness_proxy)) == spec_eval_fn_80::<W>(
            row_state::<Mersenne31Field, W, P>(*old(witness_proxy)),
            old(witness_proxy).memory(),
            old(witness_proxy).lookup_table(),
            old(witness_proxy).maybe_lookup_table(),
            old(witness_proxy).oracle_u32(),
        ),
        final(witness_proxy).lookup_table() == old(witness_proxy).lookup_table(),
        final(witness_proxy).maybe_lookup_table() == old(witness_proxy).maybe_lookup_table(),
        final(witness_proxy).oracle_u32() == old(witness_proxy).oracle_u32(),
{
    proof {
        reveal(spec_eval_fn_80);
    }
    let v_0 = witness_proxy.get_witness_place(72usize);
    let v_1 = witness_proxy.get_witness_place(80usize);
    let v_2 = witness_proxy.get_witness_place(13usize);
    let v_3 = W::Field::constant(Mersenne31Field(0u32));
    let mut v_4 = v_3;
    W::Field::add_assign_product(&mut v_4, &v_1, &v_2);
    let mut v_5 = v_0;
    W::Field::mul_assign(&mut v_5, &v_1);
    let mut v_6 = v_4;
    W::Field::sub_assign(&mut v_6, &v_5);
    let mut v_7 = v_6;
    W::Field::add_assign(&mut v_7, &v_0);
    witness_proxy.set_witness_place(83usize, v_7);
}
/// The row after `eval_fn_81`: its witness places and lookup records.
#[verifier::opaque]
pub open spec fn spec_eval_fn_81<W: WitnessTypeSet<Mersenne31Field>>(
    s: (Seq<W::Field>, Seq<(Seq<W::Field>, W::U16, usize)>, Seq<(Seq<W::Field>, W::U16, W::Mask)>),
    mem: Seq<W::Field>,
    lt: spec_fn(Seq<W::Field>, W::U16, nat) -> Seq<W::Field>,
    mlt: spec_fn(Seq<W::Field>, W::U16, W::Mask, nat) -> Seq<W::Field>,
    orc: spec_fn(Placeholder) -> W::U32,
) -> (Seq<W::Field>, Seq<(Seq<W::Field>, W::U16, usize)>, Seq<(Seq<W::Field>, W::U16, W::Mask)>) {
    let w = s.0;
    let c = s.1;
    let mk = s.2;
    let v_0 = w[73];
    let v_1 = w[80];
    let v_2 = w[14];
    let v_3 = W::Field::spec_constant(Mersenne31Field(0u32));
    let v_4 = v_3;
    let v_4 = W::Field::spec_add_product(v_4, v_1, v_2);
    let v_5 = v_0;
    let v_5 = W::Field::spec_times(v_5, v_1);
    let v_6 = v_4;
    let v_6 = W::Field::spec_minus(v_6, v_5);
    let v_7 = v_6;
    let v_7 = W::Field::spec_plus(v_7, v_0);
    let w = w.update(84, v_7);
    (w, c, mk)
}

#[allow(unused_variables)]
fn eval_fn_81<
    'a,
    'b: 'a,
    W: WitnessTypeSet<Mersenne31Field>,
    P: WitnessProxy<Mersenne31Field, W> + 'b,
>(
    witness_proxy: &'a mut P,
) where
    W::Field: Copy,
    W::Mask: Copy,
    W::U32: Copy,
    W::U16: Copy,
    W::U8: Copy,
    W::I32: Copy,
    requires
        old(witness_proxy).witness().len() >= 85,
    ensures
        final(witness_proxy).memory() == old(witness_proxy).memory(),
        final(witness_proxy).witness().len() == old(witness_proxy).witness().len(),
        forall|j: int| 0 <= j < old(witness_proxy).witness().len() && j != 84 ==> #[trigger] final(witness_proxy).witness()[j] == old(witness_proxy).witness()[j],
        row_state::<Mersenne31Field, W, P>(*final(witness_proxy)) == spec_eval_fn_81::<W>(
            row_state::<Mersenne31Field, W, P>(*old(witness_proxy)),
            old(witness_proxy).memory(),
            old(witness_proxy).lookup_table(),
            old(witness_proxy).maybe_lookup_table(),
            old(witness_proxy).oracle_u32(),
        ),
        final(witness_proxy).lookup_table() == old(witness_proxy).lookup_table(),
        final(witness_proxy).maybe_lookup_table() == old(witness_proxy).maybe_lookup_table(),
        final(witness_proxy).oracle_u32() == old(witness_proxy).oracle_u32(),
{
    proof {
        reveal(spec_eval_fn_81);
    }
    let v_0 = witness_proxy.get_witness_place(73usize);
    let v_1 = witness_proxy.get_witness_place(80usize);
    let v_2 = witness_proxy.get_witness_place(14usize);
    let v_3 = W::Field::constant(Mersenne31Field(0u32));
    let mut v_4 = v_3;
    W::Field::add_assign_product(&mut v_4, &v_1, &v_2);
    let mut v_5 = v_0;
    W::Field::mul_assign(&mut v_5, &v_1);
    let mut v_6 = v_4;
    W::Field::sub_assign(&mut v_6, &v_5);
    let mut v_7 = v_6;
    W::Field::add_assign(&mut v_7, &v_0);
    witness_proxy.set_witness_place(84usize, v_7);
}
/// The row after `eval_fn_82`: its witness places and lookup records.
#[verifier::opaque]
pub open spec fn spec_eval_fn_82<W: WitnessTypeSet<Mersenne31Field>>(
    s: (Seq<W::Field>, Seq<(Seq<W::Field>, W::U16, usize)>, Seq<(Seq<W::Field>, W::U16, W::Mask)>),
    mem: Seq<W::Field>,
    lt: spec_fn(Seq<W::Field>, W::U16, nat) -> Seq<W::Field>,
    mlt: spec_fn(Seq<W::Field>, W::U16, W::Mask, nat) -> Seq<W::Field>,
    orc: spec_fn(Placeholder) -> W::U32,
) -> (Seq<W::Field>, Seq<(Seq<W::Field>, W::U16, usize)>, Seq<(Seq<W::Field>, W::U16, W::Mask)>) {
    let w = s.0;
    let c = s.1;
    let mk = s.2;
    let v_0 = w[35];
    let v_1 = w[80];
    let v_2 = w[86];
    let v_3 = W::Field::spec_constant(Mersenne31Field(0u32));
    let v_4 = v_3;
    let v_4 = W::Field::spec_add_product(v_4, v_0, v_2);
    let v_5 = v_4;
    let v_5 = W::Field::spec_plus(v_5, v_1);
    let w = w.update(87, v_5);
    (w, c, mk)
}

#[allow(unused_variables)]
fn eval_fn_82<
    'a,
    'b: 'a,
    W: WitnessTypeSet<Mersenne31Field>,
    P: WitnessProxy<Mersenne31Field, W> + 'b,
>(
    witness_proxy: &'a mut P,
) where
    W::Field: Copy,
    W::Mask: Copy,
    W::U32: Copy,
    W::U16: Copy,
    W::U8: Copy,
    W::I32: Copy,
    requires
        old(witness_proxy).witness().len() >= 88,
    ensures
        final(witness_proxy).memory() == old(witness_proxy).memory(),
        final(witness_proxy).witness().len() == old(witness_proxy).witness().len(),
        forall|j: int| 0 <= j < old(witness_proxy).witness().len() && j != 87 ==> #[trigger] final(witness_proxy).witness()[j] == old(witness_proxy).witness()[j],
        row_state::<Mersenne31Field, W, P>(*final(witness_proxy)) == spec_eval_fn_82::<W>(
            row_state::<Mersenne31Field, W, P>(*old(witness_proxy)),
            old(witness_proxy).memory(),
            old(witness_proxy).lookup_table(),
            old(witness_proxy).maybe_lookup_table(),
            old(witness_proxy).oracle_u32(),
        ),
        final(witness_proxy).lookup_table() == old(witness_proxy).lookup_table(),
        final(witness_proxy).maybe_lookup_table() == old(witness_proxy).maybe_lookup_table(),
        final(witness_proxy).oracle_u32() == old(witness_proxy).oracle_u32(),
{
    proof {
        reveal(spec_eval_fn_82);
    }
    let v_0 = witness_proxy.get_witness_place(35usize);
    let v_1 = witness_proxy.get_witness_place(80usize);
    let v_2 = witness_proxy.get_witness_place(86usize);
    let v_3 = W::Field::constant(Mersenne31Field(0u32));
    let mut v_4 = v_3;
    W::Field::add_assign_product(&mut v_4, &v_0, &v_2);
    let mut v_5 = v_4;
    W::Field::add_assign(&mut v_5, &v_1);
    witness_proxy.set_witness_place(87usize, v_5);
}
/// The row after `eval_fn_83`: its witness places and lookup records.
#[verifier::opaque]
pub open spec fn spec_eval_fn_83<W: WitnessTypeSet<Mersenne31Field>>(
    s: (Seq<W::Field>, Seq<(Seq<W::Field>, W::U16, usize)>, Seq<(Seq<W::Field>, W::U16, W::Mask)>),
    mem: Seq<W::Field>,
    lt: spec_fn(Seq<W::Field>, W::U16, nat) -> Seq<W::Field>,
    mlt: spec_fn(Seq<W::Field>, W::U16, W::Mask, nat) -> Seq<W::Field>,
    orc: spec_fn(Placeholder) -> W::U32,
) -> (Seq<W::Field>, Seq<(Seq<W::Field>, W::U16, usize)>, Seq<(Seq<W::Field>, W::U16, W::Mask)>) {
    let w = s.0;
    let c = s.1;
    let mk = s.2;
    let v_0 = w[35];
    let v_1 = w[81];
    let v_2 = w[85];
    let v_3 = W::Field::spec_constant(Mersenne31Field(0u32));
    let v_4 = v_0;
    let v_4 = W::Field::spec_times(v_4, v_1);
    let v_5 = v_3;
    let v_5 = W::Field::spec_minus(v_5, v_4);
    let v_6 = v_5;
    let v_6 = W::Field::spec_plus(v_6, v_1);
    let v_7 = v_6;
    let v_7 = W::Field::spec_plus(v_7, v_2);
    let w = w.update(88, v_7);
    (w, c, mk)
}

#[allow(unused_variables)]
fn eval_fn_83<
    'a,
    'b: 'a,
    W: WitnessTypeSet<Mersenne31Field>,
    P: WitnessProxy<Mersenne31Field, W> + 'b,
>(
    witness_proxy: &'a mut P,
) where
    W::Field: Copy,
    W::Mask: Copy,
    W::U32: Copy,
    W::U16: Copy,
    W::U8: Copy,
    W::I32: Copy,
    requires
        old(witness_proxy).witness().len() >= 89,
    ensures
        final(witness_proxy).memory() == old(witness_proxy).memory(),
        final(witness_proxy).witness().len() == old(witness_proxy).witness().len(),
        forall|j: int| 0 <= j < old(witness_proxy).witness().len() && j != 88 ==> #[trigger] final(witness_proxy).witness()[j] == old(witness_proxy).witness()[j],
        row_state::<Mersenne31Field, W, P>(*final(witness_proxy)) == spec_eval_fn_83::<W>(
            row_state::<Mersenne31Field, W, P>(*old(witness_proxy)),
            old(witness_proxy).memory(),
            old(witness_proxy).lookup_table(),
            old(witness_proxy).maybe_lookup_table(),
            old(witness_proxy).oracle_u32(),
        ),
        final(witness_proxy).lookup_table() == old(witness_proxy).lookup_table(),
        final(witness_proxy).maybe_lookup_table() == old(witness_proxy).maybe_lookup_table(),
        final(witness_proxy).oracle_u32() == old(witness_proxy).oracle_u32(),
{
    proof {
        reveal(spec_eval_fn_83);
    }
    let v_0 = witness_proxy.get_witness_place(35usize);
    let v_1 = witness_proxy.get_witness_place(81usize);
    let v_2 = witness_proxy.get_witness_place(85usize);
    let v_3 = W::Field::constant(Mersenne31Field(0u32));
    let mut v_4 = v_0;
    W::Field::mul_assign(&mut v_4, &v_1);
    let mut v_5 = v_3;
    W::Field::sub_assign(&mut v_5, &v_4);
    let mut v_6 = v_5;
    W::Field::add_assign(&mut v_6, &v_1);
    let mut v_7 = v_6;
    W::Field::add_assign(&mut v_7, &v_2);
    witness_proxy.set_witness_place(88usize, v_7);
}
/// The row after `eval_fn_84`: its witness places and lookup records.
#[verifier::opaque]
pub open spec fn spec_eval_fn_84<W: WitnessTypeSet<Mersenne31Field>>(
    s: (Seq<W::Field>, Seq<(Seq<W::Field>, W::U16, usize)>, Seq<(Seq<W::Field>, W::U16, W::Mask)>),
    mem: Seq<W::Field>,
    lt: spec_fn(Seq<W::Field>, W::U16, nat) -> Seq<W::Field>,
    mlt: spec_fn(Seq<W::Field>, W::U16, W::Mask, nat) -> Seq<W::Field>,
    orc: spec_fn(Placeholder) -> W::U32,
) -> (Seq<W::Field>, Seq<(Seq<W::Field>, W::U16, usize)>, Seq<(Seq<W::Field>, W::U16, W::Mask)>) {
    let w = s.0;
    let c = s.1;
    let mk = s.2;
    let v_0 = w[3];
    let v_1 = place_as_mask::<Mersenne31Field, W>(w[22]);
    let v_2 = place_as_mask::<Mersenne31Field, W>(w[23]);
    let v_3 = place_as_mask::<Mersenne31Field, W>(w[24]);
    let v_4 = place_as_mask::<Mersenne31Field, W>(w[25]);
    let v_5 = place_as_mask::<Mersenne31Field, W>(w[26]);
    let v_6 = place_as_mask::<Mersenne31Field, W>(w[27]);
    let v_7 = place_as_mask::<Mersenne31Field, W>(w[28]);
    let v_8 = place_as_mask::<Mersenne31Field, W>(w[30]);
    let v_9 = place_as_mask::<Mersenne31Field, W>(w[31]);
    let v_10 = place_as_mask::<Mersenne31Field, W>(w[32]);
    let v_11 = mem[13];
    let v_12 = w[72];
    let v_13 = w[11];
    let v_14 = w[78];
    let v_15 = w[79];
    let v_16 = w[80];
    let v_17 = w[81];
    let v_18 = w[87];
    let v_19 = w[89];
    let v_20 = place_as_mask::<Mersenne31Field, W>(w[96]);
    let v_21 = place_as_mask::<Mersenne31Field, W>(w[97]);
    let v_22 = w[15];
    let v_23 = W::Field::spec_constant(Mersenne31Field(0u32));
    let v_24 = v_23;
    let v_24 = W::Field::spec_plus(v_24, v_0);
    let v_25 = W::Field::spec_select(v_7, v_24, v_23);
    let v_26 = v_25;
    let v_26 = W::Field::spec_plus(v_26, v_13);
    let v_27 = W::Field::spec_select(v_1, v_26, v_25);
    let v_28 = v_27;
    let v_28 = W::Field::spec_plus(v_28, v_13);
    let v_29 = W::Field::spec_select(v_2, v_28, v_27);
    let v_30 = v_29;
    let v_30 = W::Field::spec_plus(v_30, v_14);
    let v_31 = W::Field::spec_select(v_3, v_30, v_29);
    let v_32 = v_31;
    let v_32 = W::Field::spec_plus(v_32, v_17);
    let v_33 = W::Field::spec_select(v_4, v_32, v_31);
    let v_34 = v_33;
    let v_34 = W::Field::spec_plus(v_34, v_22);
    let v_35 = W::Field::spec_select(v_5, v_34, v_33);
    let v_36 = v_35;
    let v_36 = W::Field::spec_plus(v_36, v_12);
    let v_37 = W::Field::spec_select(v_6, v_36, v_35);
    let v_38 = v_37;
    let v_38 = W::Field::spec_plus(v_38, v_13);
    let v_39 = W::Field::spec_select(v_8, v_38, v_37);
    let v_40 = v_39;
    let v_40 = W::Field::spec_plus(v_40, v_18);
    let v_41 = W::Field::spec_select(v_9, v_40, v_39);
    let v_42 = v_41;
    let v_42 = W::Field::spec_plus(v_42, v_19);
    let v_43 = W::Field::spec_select(v_9, v_42, v_41);
    let v_44 = v_43;
    let v_44 = W::Field::spec_plus(v_44, v_13);
    let v_45 = W::Field::spec_select(v_10, v_44, v_43);
    let v_46 = v_45;
    let v_46 = W::Field::spec_plus(v_46, v_11);
    let v_47 = W::Field::spec_select(v_21, v_46, v_45);
    let v_48 = v_47;
    let v_48 = W::Field::spec_plus(v_48, v_16);
    let v_49 = W::Field::spec_select(v_20, v_48, v_47);
    let v_50 = W::Field::spec_constant(Mersenne31Field(256u32));
    let v_51 = v_49;
    let v_51 = W::Field::spec_add_product(v_51, v_50, v_15);
    let v_52 = W::Field::spec_select(v_3, v_51, v_49);
    let w = w.update(101, v_52);
    (w, c, mk)
}

#[allow(unused_variables)]
fn eval_fn_84<
    'a,
    'b: 'a,
    W: WitnessTypeSet<Mersenne31Field>,
    P: WitnessProxy<Mersenne31Field, W> + 'b,
>(
    witness_proxy: &'a mut P,
) where
    W::Field: Copy,
    W::Mask: Copy,
    W::U32: Copy,
    W::U16: Copy,
    W::U8: Copy,
    W::I32: Copy,
    requires
        old(witness_proxy).witness().len() >= 102,
        old(witness_proxy).memory().len() >= 14,
    ensures
        final(witness_proxy).memory() == old(witness_proxy).memory(),
        final(witness_proxy).witness().len() == old(witness_proxy).witness().len(),
        forall|j: int| 0 <= j < old(witness_proxy).witness().len() && j != 101 ==> #[trigger] final(witness_proxy).witness()[j] == old(witness_proxy).witness()[j],
        row_state::<Mersenne31Field, W, P>(*final(witness_proxy)) == spec_eval_fn_84::<W>(
            row_state::<Mersenne31Field, W, P>(*old(witness_proxy)),
            old(witness_proxy).memory(),
            old(witness_proxy).lookup_table(),
            old(witness_proxy).maybe_lookup_table(),
            old(witness_proxy).oracle_u32(),
        ),
        final(witness_proxy).lookup_table() == old(witness_proxy).lookup_table(),
        final(witness_proxy).maybe_lookup_table() == old(witness_proxy).maybe_lookup_table(),
        final(witness_proxy).oracle_u32() == old(witness_proxy).oracle_u32(),
{
    proof {
        reveal(spec_eval_fn_84);
    }
    let v_0 = witness_proxy.get_witness_place(3usize);
    let v_1 = witness_proxy.get_witness_place_boolean(22usize);
    let v_2 = witness_proxy.get_witness_place_boolean(23usize);
    let v_3 = witness_proxy.get_witness_place_boolean(24usize);
    let v_4 = witness_proxy.get_witness_place_boolean(25usize);
    let v_5 = witness_proxy.get_witness_place_boolean(26usize);
    let v_6 = witness_proxy.get_witness_place_boolean(27usize);
    let v_7 = witness_proxy.get_witness_place_boolean(28usize);
    let v_8 = witness_proxy.get_witness_place_boolean(30usize);
    let v_9 = witness_proxy.get_witness_place_boolean(31usize);
    let v_10 = witness_proxy.get_witness_place_boolean(32usize);
    let v_11 = witness_proxy.get_memory_place(13usize);
    let v_12 = witness_proxy.get_witness_place(72usize);
    let v_13 = witness_proxy.get_witness_place(11usize);
    let v_14 = witness_proxy.get_witness_place(78usize);
    let v_15 = witness_proxy.get_witness_place(79usize);
    let v_16 = witness_proxy.get_witness_place(80usize);
    let v_17 = witness_proxy.get_witness_place(81usize);
    let v_18 = witness_proxy.get_witness_place(87usize);
    let v_19 = witness_proxy.get_witness_place(89usize);
    let v_20 = witness_proxy.get_witness_place_boolean(96usize);
    let v_21 = witness_proxy.get_witness_place_boolean(97usize);
    let v_22 = witness_proxy.get_witness_place(15usize);
    let v_23 = W::Field::constant(Mersenne31Field(0u32));
    let mut v_24 = v_23;
    W::Field::add_assign(&mut v_24, &v_0);
    let v_25 = W::Field::select(&v_7, &v_24, &v_23);
    let mut v_26 = v_25;
    W::Field::add_assign(&mut v_26, &v_13);
    let v_27 = W::Field::select(&v_1, &v_26, &v_25);
    let mut v_28 = v_27;
    W::Field::add_assign(&mut v_28, &v_13);
    let v_29 = W::Field::select(&v_2, &v_28, &v_27);
    let mut v_30 = v_29;
    W::Field::add_assign(&mut v_30, &v_14);
    let v_31 = W::Field::select(&v_3, &v_30, &v_29);
    let mut v_32 = v_31;
    W::Field::add_assign(&mut v_32, &v_17);
    let v_33 = W::Field::select(&v_4, &v_32, &v_31);
    let mut v_34 = v_33;
    W::Field::add_assign(&mut v_34, &v_22);
    let v_35 = W::Field::select(&v_5, &v_34, &v_33);
    let mut v_36 = v_35;
    W::Field::add_assign(&mut v_36, &v_12);
    let v_37 = W::Field::select(&v_6, &v_36, &v_35);
    let mut v_38 = v_37;
    W::Field::add_assign(&mut v_38, &v_13);
    let v_39 = W::Field::select(&v_8, &v_38, &v_37);
    let mut v_40 = v_39;
    W::Field::add_assign(&mut v_40, &v_18);
    let v_41 = W::Field::select(&v_9, &v_40, &v_39);
    let mut v_42 = v_41;
    W::Field::add_assign(&mut v_42, &v_19);
    let v_43 = W::Field::select(&v_9, &v_42, &v_41);
    let mut v_44 = v_43;
    W::Field::add_assign(&mut v_44, &v_13);
    let v_45 = W::Field::select(&v_10, &v_44, &v_43);
    let mut v_46 = v_45;
    W::Field::add_assign(&mut v_46, &v_11);
    let v_47 = W::Field::select(&v_21, &v_46, &v_45);
    let mut v_48 = v_47;
    W::Field::add_assign(&mut v_48, &v_16);
    let v_49 = W::Field::select(&v_20, &v_48, &v_47);
    let v_50 = W::Field::constant(Mersenne31Field(256u32));
    let mut v_51 = v_49;
    W::Field::add_assign_product(&mut v_51, &v_50, &v_15);
    let v_52 = W::Field::select(&v_3, &v_51, &v_49);
    witness_proxy.set_witness_place(101usize, v_52);
}
/// The row after `eval_fn_85`: its witness places and lookup records.
#[verifier::opaque]
pub open spec fn spec_eval_fn_85<W: WitnessTypeSet<Mersenne31Field>>(
    s: (Seq<W::Field>, Seq<(Seq<W::Field>, W::U16, usize)>, Seq<(Seq<W::Field>, W::U16, W::Mask)>),
    mem: Seq<W::Field>,
    lt: spec_fn(Seq<W::Field>, W::U16, nat) -> Seq<W::Field>,
    mlt: spec_fn(Seq<W::Field>, W::U16, W::Mask, nat) -> Seq<W::Field>,
    orc: spec_fn(Placeholder) -> W::U32,
) -> (Seq<W::Field>, Seq<(Seq<W::Field>, W::U16, usize)>, Seq<(Seq<W::Field>, W::U16, W::Mask)>) {
    let w = s.0;
    let c = s.1;
    let mk = s.2;
    let v_0 = w[4];
    let v_1 = place_as_mask::<Mersenne31Field, W>(w[22]);
    let v_2 = place_as_mask::<Mersenne31Field, W>(w[23]);
    let v_3 = place_as_mask::<Mersenne31Field, W>(w[24]);
    let v_4 = place_as_mask::<Mersenne31Field, W>(w[26]);
    let v_5 = place_as_mask::<Mersenne31Field, W>(w[27]);
    let v_6 = place_as_mask::<Mersenne31Field, W>(w[28]);
    let v_7 = place_as_mask::<Mersenne31Field, W>(w[30]);
    let v_8 = place_as_mask::<Mersenne31Field, W>(w[31]);
    let v_9 = place_as_mask::<Mersenne31Field, W>(w[32]);
    let v_10 = mem[14];
    let v_11 = w[73];
    let v_12 = w[12];
    let v_13 = w[80];
    let v_14 = w[81];
    let v_15 = w[88];
    let v_16 = w[90];
    let v_17 = place_as_mask::<Mersenne31Field, W>(w[96]);
    let v_18 = place_as_mask::<Mersenne31Field, W>(w[97]);
    let v_19 = w[16];
    let v_20 = W::Field::spec_constant(Mersenne31Field(0u32));
    let v_21 = v_20;
    let v_21 = W::Field::spec_plus(v_21, v_0);
    let v_22 = W::Field::spec_select(v_6, v_21, v_20);
    let v_23 = v_22;
    let v_23 = W::Field::spec_plus(v_23, v_12);
    let v_24 = W::Field::spec_select(v_1, v_23, v_22);
    let v_25 = v_24;
    let v_25 = W::Field::spec_plus(v_25, v_12);
    let v_26 = W::Field::spec_select(v_2, v_25, v_24);
    let v_27 = v_26;
    let v_27 = W::Field::spec_plus(v_27, v_13);
    let v_28 = W::Field::spec_select(v_3, v_27, v_26);
    let v_29 = v_28;
    let v_29 = W::Field::spec_plus(v_29, v_19);
    let v_30 = W::Field::spec_select(v_4, v_29, v_28);
    let v_31 = v_30;
    let v_31 = W::Field::spec_plus(v_31, v_11);
    let v_32 = W::Field::spec_select(v_5, v_31, v_30);
    let v_33 = v_32;
    let v_33 = W::Field::spec_plus(v_33, v_12);
    let v_34 = W::Field::spec_select(v_7, v_33, v_32);
    let v_35 = v_34;
    let v_35 = W::Field::spec_plus(v_35, v_15);
    let v_36 = W::Field::spec_select(v_8, v_35, v_34);
    let v_37 = v_36;
    let v_37 = W::Field::spec_plus(v_37, v_16);
    let v_38 = W::Field::spec_select(v_8, v_37, v_36);
    let v_39 = v_38;
    let v_39 = W::Field::spec_plus(v_39, v_12);
    let v_40 = W::Field::spec_select(v_9, v_39, v_38);
    let v_41 = v_40;
    let v_41 = W::Field::spec_plus(v_41, v_10);
    let v_42 = W::Field::spec_select(v_18, v_41, v_40);
    let v_43 = v_42;
    let v_43 = W::Field::spec_plus(v_43, v_14);
    let v_44 = W::Field::spec_select(v_17, v_43, v_42);
    let v_45 = W::Field::spec_constant(Mersenne31Field(256u32));
    let v_46 = v_44;
    let v_46 = W::Field::spec_add_product(v_46, v_45, v_14);
    let v_47 = W::Field::spec_select(v_3, v_46, v_44);
    let w = w.update(102, v_47);
    (w, c, mk)
}

#[allow(unused_variables)]
fn eval_fn_85<
    'a,
    'b: 'a,
    W: WitnessTypeSet<Mersenne31Field>,
    P: WitnessProxy<Mersenne31Field, W> + 'b,
>(
    witness_proxy: &'a mut P,
) where
    W::Field: Copy,
    W::Mask: Copy,
    W::U32: Copy,
    W::U16: Copy,
    W::U8: Copy,
    W::I32: Copy,
    requires
        old(witness_proxy).witness().len() >= 103,
        old(witness_proxy).memory().len() >= 15,
    ensures
        final(witness_proxy).memory() == old(witness_proxy).memory(),
        final(witness_proxy).witness().len() == old(witness_proxy).witness().len(),
        forall|j: int| 0 <= j < old(witness_proxy).witness().len() && j != 102 ==> #[trigger] final(witness_proxy).witness()[j] == old(witness_proxy).witness()[j],
        row_state::<Mersenne31Field, W, P>(*final(witness_proxy)) == spec_eval_fn_85::<W>(
            row_state::<Mersenne31Field, W, P>(*old(witness_proxy)),
            old(witness_proxy).memory(),
            old(witness_proxy).lookup_table(),
            old(witness_proxy).maybe_lookup_table(),
            old(witness_proxy).oracle_u32(),
        ),
        final(witness_proxy).lookup_table() == old(witness_proxy).lookup_table(),
        final(witness_proxy).maybe_lookup_table() == old(witness_proxy).maybe_lookup_table(),
        final(witness_proxy).oracle_u32() == old(witness_proxy).oracle_u32(),
{
    proof {
        reveal(spec_eval_fn_85);
    }
    let v_0 = witness_proxy.get_witness_place(4usize);
    let v_1 = witness_proxy.get_witness_place_boolean(22usize);
    let v_2 = witness_proxy.get_witness_place_boolean(23usize);
    let v_3 = witness_proxy.get_witness_place_boolean(24usize);
    let v_4 = witness_proxy.get_witness_place_boolean(26usize);
    let v_5 = witness_proxy.get_witness_place_boolean(27usize);
    let v_6 = witness_proxy.get_witness_place_boolean(28usize);
    let v_7 = witness_proxy.get_witness_place_boolean(30usize);
    let v_8 = witness_proxy.get_witness_place_boolean(31usize);
    let v_9 = witness_proxy.get_witness_place_boolean(32usize);
    let v_10 = witness_proxy.get_memory_place(14usize);
    let v_11 = witness_proxy.get_witness_place(73usize);
    let v_12 = witness_proxy.get_witness_place(12usize);
    let v_13 = witness_proxy.get_witness_place(80usize);
    let v_14 = witness_proxy.get_witness_place(81usize);
    let v_15 = witness_proxy.get_witness_place(88usize);
    let v_16 = witness_proxy.get_witness_place(90usize);
    let v_17 = witness_proxy.get_witness_place_boolean(96usize);
    let v_18 = witness_proxy.get_witness_place_boolean(97usize);
    let v_19 = witness_proxy.get_witness_place(16usize);
    let v_20 = W::Field::constant(Mersenne31Field(0u32));
    let mut v_21 = v_20;
    W::Field::add_assign(&mut v_21, &v_0);
    let v_22 = W::Field::select(&v_6, &v_21, &v_20);
    let mut v_23 = v_22;
    W::Field::add_assign(&mut v_23, &v_12);
    let v_24 = W::Field::select(&v_1, &v_23, &v_22);
    let mut v_25 = v_24;
    W::Field::add_assign(&mut v_25, &v_12);
    let v_26 = W::Field::select(&v_2, &v_25, &v_24);
    let mut v_27 = v_26;
    W::Field::add_assign(&mut v_27, &v_13);
    let v_28 = W::Field::select(&v_3, &v_27, &v_26);
    let mut v_29 = v_28;
    W::Field::add_assign(&mut v_29, &v_19);
    let v_30 = W::Field::select(&v_4, &v_29, &v_28);
    let mut v_31 = v_30;
    W::Field::add_assign(&mut v_31, &v_11);
    let v_32 = W::Field::select(&v_5, &v_31, &v_30);
    let mut v_33 = v_32;
    W::Field::add_assign(&mut v_33, &v_12);
    let v_34 = W::Field::select(&v_7, &v_33, &v_32);
    let mut v_35 = v_34;
    W::Field::add_assign(&mut v_35, &v_15);
    let v_36 = W::Field::select(&v_8, &v_35, &v_34);
    let mut v_37 = v_36;
    W::Field::add_assign(&mut v_37, &v_16);
    let v_38 = W::Field::select(&v_8, &v_37, &v_36);
    let mut v_39 = v_38;
    W::Field::add_assign(&mut v_39, &v_12);
    let v_40 = W::Field::select(&v_9, &v_39, &v_38);
    let mut v_41 = v_40;
    W::Field::add_assign(&mut v_41, &v_10);
    let v_42 = W::Field::select(&v_18, &v_41, &v_40);
    let mut v_43 = v_42;
    W::Field::add_assign(&mut v_43, &v_14);
    let v_44 = W::Field::select(&v_17, &v_43, &v_42);
    let v_45 = W::Field::constant(Mersenne31Field(256u32));
    let mut v_46 = v_44;
    W::Field::add_assign_product(&mut v_46, &v_45, &v_14);
    let v_47 = W::Field::select(&v_3, &v_46, &v_44);
    witness_proxy.set_witness_place(102usize, v_47);
}
/// The row after `eval_fn_86`: its witness places and lookup records.
#[verifier::opaque]
pub open spec fn spec_eval_fn_86<W: WitnessTypeSet<Mersenne31Field>>(
    s: (Seq<W::Field>, Seq<(Seq<W::Field>, W::U16, usize)>, Seq<(Seq<W::Field>, W::U16, W::Mask)>),
    mem: Seq<W::Field>,
    lt: spec_fn(Seq<W::Field>, W::U16, nat) -> Seq<W::Field>,
    mlt: spec_fn(Seq<W::Field>, W::U16, W::Mask, nat) -> Seq<W::Field>,
    orc: spec_fn(Placeholder) -> W::U32,
) -> (Seq<W::Field>, Seq<(Seq<W::Field>, W::U16, usize)>, Seq<(Seq<W::Field>, W::U16, W::Mask)>) {
    let w = s.0;
    let c = s.1;
    let mk = s.2;
    let v_0 = w[2];
    let v_1 = w[101];
    let v_2 = W::Field::spec_constant(Mersenne31Field(0u32));
    let v_3 = v_0;
    let v_3 = W::Field::spec_times(v_3, v_1);
    let v_4 = v_2;
    let v_4 = W::Field::spec_minus(v_4, v_3);
    let v_5 = v_4;
    let v_5 = W::Field::spec_plus(v_5, v_1);
    let w = w.update(103, v_5);
    (w, c, mk)
}

#[allow(unused_variables)]
fn eval_fn_86<
    'a,
    'b: 'a,
    W: WitnessTypeSet<Mersenne31Field>,
    P: WitnessProxy<Mersenne31Field, W> + 'b,
>(
    witness_proxy: &'a mut P,
) where
    W::Field: Copy,
    W::Mask: Copy,
    W::U32: Copy,
    W::U16: Copy,
    W::U8: Copy,
    W::I32: Copy,
    requires
        old(witness_proxy).witness().len() >= 104,
    ensures
        final(witness_proxy).memory() == old(witness_proxy).memory(),
        final(witness_proxy).witness().len() == old(witness_proxy).witness().len(),
        forall|j: int| 0 <= j < old(witness_proxy).witness().len() && j != 103 ==> #[trigger] final(witness_proxy).witness()[j] == old(witness_proxy).witness()[j],
        row_state::<Mersenne31Field, W, P>(*final(witness_proxy)) == spec_eval_fn_86::<W>(
            row_state::<Mersenne31Field, W, P>(*old(witness_proxy)),
            old(witness_proxy).memory(),
            old(witness_proxy).lookup_table(),
            old(witness_proxy).maybe_lookup_table(),
            old(witness_proxy).oracle_u32(),
        ),
        final(witness_proxy).lookup_table() == old(witness_proxy).lookup_table(),
        final(witness_proxy).maybe_lookup_table() == old(witness_proxy).maybe_lookup_table(),
        final(witness_proxy).oracle_u32() == old(witness_proxy).oracle_u32(),
{
    proof {
        reveal(spec_eval_fn_86);
    }
    let v_0 = witness_proxy.get_witness_place(2usize);
    let v_1 = witness_proxy.get_witness_place(101usize);
    let v_2 = W::Field::constant(Mersenne31Field(0u32));
    let mut v_3 = v_0;
    W::Field::mul_assign(&mut v_3, &v_1);
    let mut v_4 = v_2;
    W::Field::sub_assign(&mut v_4, &v_3);
    let mut v_5 = v_4;
    W::Field::add_assign(&mut v_5, &v_1);
    witness_proxy.set_witness_place(103usize, v_5);
}
/// The row after `eval_fn_87`: its witness places and lookup records.
#[verifier::opaque]
pub open spec fn spec_eval_fn_87<W: WitnessTypeSet<Mersenne31Field>>(
    s: (Seq<W::Field>, Seq<(Seq<W::Field>, W::U16, usize)>, Seq<(Seq<W::Field>, W::U16, W::Mask)>),
    mem: Seq<W::Field>,
    lt: spec_fn(Seq<W::Field>, W::U16, nat) -> Seq<W::Field>,
    mlt: spec_fn(Seq<W::Field>, W::U16, W::Mask, nat) -> Seq<W::Field>,
    orc: spec_fn(Placeholder) -> W::U32,
) -> (Seq<W::Field>, Seq<(Seq<W::Field>, W::U16, usize)>, Seq<(Seq<W::Field>, W::U16, W::Mask)>) {
    let w = s.0;
    let c = s.1;
    let mk = s.2;
    let v_0 = w[2];
    let v_1 = w[102];
    let v_2 = W::Field::spec_constant(Mersenne31Field(0u32));
    let v_3 = v_0;
    let v_3 = W::Field::spec_times(v_3, v_1);
    let v_4 = v_2;
    let v_4 = W::Field::spec_minus(v_4, v_3);
    let v_5 = v_4;
    let v_5 = W::Field::spec_plus(v_5, v_1);
    let w = w.update(104, v_5);
    (w, c, mk)
}

#[allow(unused_variables)]
fn eval_fn_87<
    'a,
    'b: 'a,
    W: WitnessTypeSet<Mersenne31Field>,
    P: WitnessProxy<Mersenne31Field, W> + 'b,
>(
    witness_proxy: &'a mut P,
) where
    W::Field: Copy,
    W::Mask: Copy,
    W::U32: Copy,
    W::U16: Copy,
    W::U8: Copy,
    W::I32: Copy,
    requires
        old(witness_proxy).witness().len() >= 105,
    ensures
        final(witness_proxy).memory() == old(witness_proxy).memory(),
        final(witness_proxy).witness().len() == old(witness_proxy).witness().len(),
        forall|j: int| 0 <= j < old(witness_proxy).witness().len() && j != 104 ==> #[trigger] final(witness_proxy).witness()[j] == old(witness_proxy).witness()[j],
        row_state::<Mersenne31Field, W, P>(*final(witness_proxy)) == spec_eval_fn_87::<W>(
            row_state::<Mersenne31Field, W, P>(*old(witness_proxy)),
            old(witness_proxy).memory(),
            old(witness_proxy).lookup_table(),
            old(witness_proxy).maybe_lookup_table(),
            old(witness_proxy).oracle_u32(),
        ),
        final(witness_proxy).lookup_table() == old(witness_proxy).lookup_table(),
        final(witness_proxy).maybe_lookup_table() == old(witness_proxy).maybe_lookup_table(),
        final(witness_proxy).oracle_u32() == old(witness_proxy).oracle_u32(),
{
    proof {
        reveal(spec_eval_fn_87);
    }
    let v_0 = witness_proxy.get_witness_place(2usize);
    let v_1 = witness_proxy.get_witness_place(102usize);
    let v_2 = W::Field::constant(Mersenne31Field(0u32));
    let mut v_3 = v_0;
    W::Field::mul_assign(&mut v_3, &v_1);
    let mut v_4 = v_2;
    W::Field::sub_assign(&mut v_4, &v_3);
    let mut v_5 = v_4;
    W::Field::add_assign(&mut v_5, &v_1);
    witness_proxy.set_witness_place(104usize, v_5);
}
/// The row after the whole witness evaluation: every step in order.
pub open spec fn spec_evaluate_witness_fn<W: WitnessTypeSet<Mersenne31Field>>(
    s: (Seq<W::Field>, Seq<(Seq<W::Field>, W::U16, usize)>, Seq<(Seq<W::Field>, W::U16, W::Mask)>),
    mem: Seq<W::Field>,
    lt: spec_fn(Seq<W::Field>, W::U16, nat) -> Seq<W::Field>,
    mlt: spec_fn(Seq<W::Field>, W::U16, W::Mask, nat) -> Seq<W::Field>,
    orc: spec_fn(Placeholder) -> W::U32,
) -> (Seq<W::Field>, Seq<(Seq<W::Field>, W::U16, usize)>, Seq<(Seq<W::Field>, W::U16, W::Mask)>) {
    let s = s;
    let s = spec_eval_fn_1::<W>(s, mem, lt, mlt, orc);
    let s = spec_eval_fn_8::<W>(s, mem, lt, mlt, orc);
    let s = spec_eval_fn_9::<W>(s, mem, lt, mlt, orc);
    let s = spec_eval_fn_10::<W>(s, mem, lt, mlt, orc);
    let s = spec_eval_fn_11::<W>(s, mem, lt, mlt, orc);
    let s = spec_eval_fn_12::<W>(s, mem, lt, mlt, orc);
    let s = spec_eval_fn_13::<W>(s, mem, lt, mlt, orc);
    let s = spec_eval_fn_14::<W>(s, mem, lt, mlt, orc);
    let s = spec_eval_fn_15::<W>(s, mem, lt, mlt, orc);
    let s = spec_eval_fn_16::<W>(s, mem, lt, mlt, orc);
    let s = spec_eval_fn_17::<W>(s, mem, lt, mlt, orc);
    let s = spec_eval_fn_18::<W>(s, mem, lt, mlt, orc);
    let s = spec_eval_fn_19::<W>(s, mem, lt, mlt, orc);
    let s = spec_eval_fn_20::<W>(s, mem, lt, mlt, orc);
    let s = spec_eval_fn_21::<W>(s, mem, lt, mlt, orc);
    let s = spec_eval_fn_22::<W>(s, mem, lt, mlt, orc);
    let s = spec_eval_fn_23::<W>(s, mem, lt, mlt, orc);
    let s = spec_eval_fn_24::<W>(s, mem, lt, mlt, orc);
    let s = spec_eval_fn_25::<W>(s, mem, lt, mlt, orc);
    let s = spec_eval_fn_26::<W>(s, mem, lt, mlt, orc);
    let s = spec_eval_fn_27::<W>(s, mem, lt, mlt, orc);
    let s = spec_eval_fn_28::<W>(s, mem, lt, mlt, orc);
    let s = spec_eval_fn_29::<W>(s, mem, lt, mlt, orc);
    let s = spec_eval_fn_30::<W>(s, mem, lt, mlt, orc);
    let s = spec_eval_fn_31::<W>(s, mem, lt, mlt, orc);
    let s = spec_eval_fn_32::<W>(s, mem, lt, mlt, orc);
    let s = spec_eval_fn_34::<W>(s, mem, lt, mlt, orc);
    let s = spec_eval_fn_35::<W>(s, mem, lt, mlt, orc);
    let s = spec_eval_fn_36::<W>(s, mem, lt, mlt, orc);
    let s = spec_eval_fn_38::<W>(s, mem, lt, mlt, orc);
    let s = spec_eval_fn_39::<W>(s, mem, lt, mlt, orc);
    let s = spec_eval_fn_40::<W>(s, mem, lt, mlt, orc);
    let s = spec_eval_fn_41::<W>(s, mem, lt, mlt, orc);
    let s = spec_eval_fn_42::<W>(s, mem, lt, mlt, orc);
    let s = spec_eval_fn_43::<W>(s, mem, lt, mlt, orc);
    let s = spec_eval_fn_44::<W>(s, mem, lt, mlt, orc);
    let s = spec_eval_fn_45::<W>(s, mem, lt, mlt, orc);
    let s = spec_eval_fn_46::<W>(s, mem, lt, mlt, orc);
    let s = spec_eval_fn_47::<W>(s, mem, lt, mlt, orc);
    let s = spec_eval_fn_48::<W>(s, mem, lt, mlt, orc);
    let s = spec_eval_fn_49::<W>(s, mem, lt, mlt, orc);
    let s = spec_eval_fn_50::<W>(s, mem, lt, mlt, orc);
    let s = spec_eval_fn_51::<W>(s, mem, lt, mlt, orc);
    let s = spec_eval_fn_52::<W>(s, mem, lt, mlt, orc);
    let s = spec_eval_fn_53::<W>(s, mem, lt, mlt, orc);
    let s = spec_eval_fn_54::<W>(s, mem, lt, mlt, orc);
    let s = spec_eval_fn_55::<W>(s, mem, lt, mlt, orc);
    let s = spec_eval_fn_56::<W>(s, mem, lt, mlt, orc);
    let s = spec_eval_fn_57::<W>(s, mem, lt, mlt, orc);
    let s = spec_eval_fn_58::<W>(s, mem, lt, mlt, orc);
    let s = spec_eval_fn_59::<W>(s, mem, lt, mlt, orc);
    let s = spec_eval_fn_60::<W>(s, mem, lt, mlt, orc);
    let s = spec_eval_fn_64::<W>(s, mem, lt, mlt, orc);
    let s = spec_eval_fn_65::<W>(s, mem, lt, mlt, orc);
    let s = spec_eval_fn_66::<W>(s, mem, lt, mlt, orc);
    let s = spec_eval_fn_67::<W>(s, mem, lt, mlt, orc);
    let s = spec_eval_fn_68::<W>(s, mem, lt, mlt, orc);
    let s = spec_eval_fn_69::<W>(s, mem, lt, mlt, orc);
    let s = spec_eval_fn_70::<W>(s, mem, lt, mlt, orc);
    let s = spec_eval_fn_71::<W>(s, mem, lt, mlt, orc);
    let s = spec_eval_fn_72::<W>(s, mem, lt, mlt, orc);
    let s = spec_eval_fn_73::<W>(s, mem, lt, mlt, orc);
    let s = spec_eval_fn_74::<W>(s, mem, lt, mlt, orc);
    let s = spec_eval_fn_75::<W>(s, mem, lt, mlt, orc);
    let s = spec_eval_fn_76::<W>(s, mem, lt, mlt, orc);
    let s = spec_eval_fn_77::<W>(s, mem, lt, mlt, orc);
    let s = spec_eval_fn_78::<W>(s, mem, lt, mlt, orc);
    let s = spec_eval_fn_79::<W>(s, mem, lt, mlt, orc);
    let s = spec_eval_fn_80::<W>(s, mem, lt, mlt, orc);
    let s = spec_eval_fn_81::<W>(s, mem, lt, mlt, orc);
    let s = spec_eval_fn_82::<W>(s, mem, lt, mlt, orc);
    let s = spec_eval_fn_83::<W>(s, mem, lt, mlt, orc);
    let s = spec_eval_fn_84::<W>(s, mem, lt, mlt, orc);
    let s = spec_eval_fn_85::<W>(s, mem, lt, mlt, orc);
    let s = spec_eval_fn_86::<W>(s, mem, lt, mlt, orc);
    let s = spec_eval_fn_87::<W>(s, mem, lt, mlt, orc);
    s
}

/// Computes the witness of one row of the unified reduced machine circuit,
/// step after step, through the proxy.
#[allow(dead_code)]
#[verifier::rlimit(50)]
pub fn evaluate_witness_fn<
    'a,
    'b: 'a,
    W: WitnessTypeSet<Mersenne31Field>,
    P: WitnessProxy<Mersenne31Field, W> + 'b,
>(
    witness_proxy: &'a mut P,
) where
    W::Field: Copy,
    W::Mask: Copy,
    W::U32: Copy,
    W::U16: Copy,
    W::U8: Copy,
    W::I32: Copy,
    requires
        W::U32::spec_low_bits_valid(1u32),
        old(witness_proxy).witness().len() >= 105,
        old(witness_proxy).memory().len() >= 33,
    ensures
        final(witness_proxy).memory() == old(witness_proxy).memory(),
        final(witness_proxy).witness().len() == old(witness_proxy).witness().len(),
        forall|j: int| 0 <= j < old(witness_proxy).witness().len() && !written_by_witness_fn(j) ==> #[trigger] final(witness_proxy).witness()[j] == old(witness_proxy).witness()[j],
        row_state::<Mersenne31Field, W, P>(*final(witness_proxy)) == spec_evaluate_witness_fn::<W>(
            row_state::<Mersenne31Field, W, P>(*old(witness_proxy)),
            old(witness_proxy).memory(),
            old(witness_proxy).lookup_table(),
            old(witness_proxy).maybe_lookup_table(),
            old(witness_proxy).oracle_u32(),
        ),
        final(witness_proxy).lookup_table() == old(witness_proxy).lookup_table(),
        final(witness_proxy).maybe_lookup_table() == old(witness_proxy).maybe_lookup_table(),
        final(witness_proxy).oracle_u32() == old(witness_proxy).oracle_u32(),
{
    eval_fn_1(witness_proxy);
    eval_fn_8(witness_proxy);
    eval_fn_9(witness_proxy);
    eval_fn_10(witness_proxy);
    eval_fn_11(witness_proxy);
    eval_fn_12(witness_proxy);
    eval_fn_13(witness_proxy);
    eval_fn_14(witness_proxy);
    eval_fn_15(witness_proxy);
    eval_fn_16(witness_proxy);
    eval_fn_17(witness_proxy);
    eval_fn_18(witness_proxy);
    eval_fn_19(witness_proxy);
    eval_fn_20(witness_proxy);
    eval_fn_21(witness_proxy);
    eval_fn_22(witness_proxy);
    eval_fn_23(witness_proxy);
    eval_fn_24(witness_proxy);
    eval_fn_25(witness_proxy);
    eval_fn_26(witness_proxy);
    eval_fn_27(witness_proxy);
    eval_fn_28(witness_proxy);
    eval_fn_29(witness_proxy);
    eval_fn_30(witness_proxy);
    eval_fn_31(witness_proxy);
    eval_fn_32(witness_proxy);
    eval_fn_34(witness_proxy);
    eval_fn_35(witness_proxy);
    eval_fn_36(witness_proxy);
    eval_fn_38(witness_proxy);
    eval_fn_39(witness_proxy);
    eval_fn_40(witness_proxy);
    eval_fn_41(witness_proxy);
    eval_fn_42(witness_proxy);
    eval_fn_43(witness_proxy);
    eval_fn_44(witness_proxy);
    eval_fn_45(witness_proxy);
    eval_fn_46(witness_proxy);
    eval_fn_47(witness_proxy);
    eval_fn_48(witness_proxy);
    eval_fn_49(witness_proxy);
    eval_fn_50(witness_proxy);
    eval_fn_51(witness_proxy);
    eval_fn_52(witness_proxy);
    eval_fn_53(witness_proxy);
    eval_fn_54(witness_proxy);
    eval_fn_55(witness_proxy);
    eval_fn_56(witness_proxy);
    eval_fn_57(witness_proxy);
    eval_fn_58(witness_proxy);
    eval_fn_59(witness_proxy);
    eval_fn_60(witness_proxy);
    eval_fn_64(witness_proxy);
    eval_fn_65(witness_proxy);
    eval_fn_66(witness_proxy);
    eval_fn_67(witness_proxy);
    eval_fn_68(witness_proxy);
    eval_fn_69(witness_proxy);
    eval_fn_70(witness_proxy);
    eval_fn_71(witness_proxy);
    eval_fn_72(witness_proxy);
    eval_fn_73(witness_proxy);
    eval_fn_74(witness_proxy);
    eval_fn_75(witness_proxy);
    eval_fn_76(witness_proxy);
    eval_fn_77(witness_proxy);
    eval_fn_78(witness_proxy);
    eval_fn_79(witness_proxy);
    eval_fn_80(witness_proxy);
    eval_fn_81(witness_proxy);
    eval_fn_82(witness_proxy);
    eval_fn_83(witness_proxy);
    eval_fn_84(witness_proxy);
    eval_fn_85(witness_proxy);
    eval_fn_86(witness_proxy);
    eval_fn_87(witness_proxy);
}

} // verus!

verus! {

/// With scalar values, reading bit `k` of `v` as a mask and placing it
/// gives the field element of that bit.
proof fn lemma_scalar_bit_place<
    W: WitnessTypeSet<Mersenne31Field, Field = Mersenne31Field, U32 = u32, Mask = bool>,
>(v: u32, k: u32)
    requires
        k < 18,
    ensures
        W::Field::spec_from_mask(
            W::U32::spec_into_mask(W::U32::spec_lowest_bits(W::U32::spec_shift_right(v, k), 1u32)),
        ).val() == (v as int / pow2(k as nat) as int) % 2,
{
    vstd::arithmetic::power2::lemma2_to64();
    let q = v as int / pow2(k as nat) as int;
    assert(0 <= q <= v) by {
        vstd::arithmetic::div_mod::lemma_div_pos_is_pos(v as int, pow2(k as nat) as int);
        vstd::arithmetic::div_mod::lemma_div_is_ordered_by_denominator(v as int, 1, pow2(k as nat) as int);
    }
    vstd::arithmetic::div_mod::lemma_small_mod(0, 0x7fff_ffff);
    vstd::arithmetic::div_mod::lemma_small_mod(1, 0x7fff_ffff);
}

/// With scalar values, reading the lowest bit of `v` as a mask and placing
/// it gives the field element of that bit.
proof fn lemma_scalar_low_bit_place<
    W: WitnessTypeSet<Mersenne31Field, Field = Mersenne31Field, U32 = u32, Mask = bool>,
>(v: u32)
    ensures
        W::Field::spec_from_mask(W::U32::spec_into_mask(W::U32::spec_lowest_bits(v, 1u32))).val()
            == (v as int / pow2(0) as int) % 2,
{
    vstd::arithmetic::power2::lemma2_to64();
    vstd::arithmetic::div_mod::lemma_small_mod(0, 0x7fff_ffff);
    vstd::arithmetic::div_mod::lemma_small_mod(1, 0x7fff_ffff);
}

/// With scalar values, the first step of the evaluation spreads the low
/// eighteen bits of witness place 6 over places 19 to 36, least significant
/// first, and leaves every other place and the lookups as they were.
#[verifier::rlimit(60)]
pub proof fn lemma_eval_fn_1_spreads_bits(
    s: (
        Seq<Mersenne31Field>,
        Seq<(Seq<Mersenne31Field>, u16, usize)>,
        Seq<(Seq<Mersenne31Field>, u16, bool)>,
    ),
    mem: Seq<Mersenne31Field>,
    lt: spec_fn(Seq<Mersenne31Field>, u16, nat) -> Seq<Mersenne31Field>,
    mlt: spec_fn(Seq<Mersenne31Field>, u16, bool, nat) -> Seq<Mersenne31Field>,
    orc: spec_fn(Placeholder) -> u32,
)
    requires
        s.0.len() >= 37,
    ensures
        ({
            let r = spec_eval_fn_1::<ScalarWitnessTypeSet<true>>(s, mem, lt, mlt, orc);
            &&& r.0.len() == s.0.len()
            &&& forall|i: int| 0 <= i < 18 ==> (#[trigger] r.0[19 + i]).val() == (s.0[6].val() / pow2(i as nat) as int) % 2
            &&& forall|j: int| 0 <= j < s.0.len() && !(19 <= j < 37) ==> #[trigger] r.0[j] == s.0[j]
            &&& r.1 == s.1
            &&& r.2 == s.2
        }),
{
    reveal(spec_eval_fn_1);
    let r = spec_eval_fn_1::<ScalarWitnessTypeSet<true>>(s, mem, lt, mlt, orc);
    let x = s.0[6].val();
    let v = x as u32;
    assert(0 <= x < 0x7fff_ffff);
    assert(v as int == x);
    lemma_scalar_low_bit_place::<ScalarWitnessTypeSet<true>>(v);
    assert(r.0[19].val() == (x / pow2(0) as int) % 2);
    lemma_scalar_bit_place::<ScalarWitnessTypeSet<true>>(v, 1u32);
    assert(r.0[20].val() == (x / pow2(1) as int) % 2);
    lemma_scalar_bit_place::<ScalarWitnessTypeSet<true>>(v, 2u32);
    assert(r.0[21].val() == (x / pow2(2) as int) % 2);
    lemma_scalar_bit_place::<ScalarWitnessTypeSet<true>>(v, 3u32);
    assert(r.0[22].val() == (x / pow2(3) as int) % 2);
    lemma_scalar_bit_place::<ScalarWitnessTypeSet<true>>(v, 4u32);
    assert(r.0[23].val() == (x / pow2(4) as int) % 2);
    lemma_scalar_bit_place::<ScalarWitnessTypeSet<true>>(v, 5u32);
    assert(r.0[24].val() == (x / pow2(5) as int) % 2);
    lemma_scalar_bit_place::<ScalarWitnessTypeSet<true>>(v, 6u32);
    assert(r.0[25].val() == (x / pow2(6) as int) % 2);
    lemma_scalar_bit_place::<ScalarWitnessTypeSet<true>>(v, 7u32);
    assert(r.0[26].val() == (x / pow2(7) as int) % 2);
    lemma_scalar_bit_place::<ScalarWitnessTypeSet<true>>(v, 8u32);
    assert(r.0[27].val() == (x / pow2(8) as int) % 2);
    lemma_scalar_bit_place::<ScalarWitnessTypeSet<true>>(v, 9u32);
    assert(r.0[28].val() == (x / pow2(9) as int) % 2);
    lemma_scalar_bit_place::<ScalarWitnessTypeSet<true>>(v, 10u32);
    assert(r.0[29].val() == (x / pow2(10) as int) % 2);
    lemma_scalar_bit_place::<ScalarWitnessTypeSet<true>>(v, 11u32);
    assert(r.0[30].val() == (x / pow2(11) as int) % 2);
    lemma_scalar_bit_place::<ScalarWitnessTypeSet<true>>(v, 12u32);
    assert(r.0[31].val() == (x / pow2(12) as int) % 2);
    lemma_scalar_bit_place::<ScalarWitnessTypeSet<true>>(v, 13u32);
    assert(r.0[32].val() == (x / pow2(13) as int) % 2);
    lemma_scalar_bit_place::<ScalarWitnessTypeSet<true>>(v, 14u32);
    assert(r.0[33].val() == (x / pow2(14) as int) % 2);
    lemma_scalar_bit_place::<ScalarWitnessTypeSet<true>>(v, 15u32);
    assert(r.0[34].val() == (x / pow2(15) as int) % 2);
    lemma_scalar_bit_place::<ScalarWitnessTypeSet<true>>(v, 16u32);
    assert(r.0[35].val() == (x / pow2(16) as int) % 2);
    lemma_scalar_bit_place::<ScalarWitnessTypeSet<true>>(v, 17u32);
    assert(r.0[36].val() == (x / pow2(17) as int) % 2);
    assert forall|i: int| 0 <= i < 18 implies (#[trigger] r.0[19 + i]).val() == (x / pow2(i as nat) as int) % 2 by {
        if i == 0 {
            assert(r.0[19].val() == (x / pow2(0) as int) % 2);
        }
        if i == 1 {
            assert(r.0[20].val() == (x / pow2(1) as int) % 2);
        }
        if i == 2 {
            assert(r.0[21].val() == (x / pow2(2) as int) % 2);
        }
        if i == 3 {
            assert(r.0[22].val() == (x / pow2(3) as int) % 2);
        }
        if i == 4 {
            assert(r.0[23].val() == (x / pow2(4) as int) % 2);
        }
        if i == 5 {
            assert(r.0[24].val() == (x / pow2(5) as int) % 2);
        }
        if i == 6 {
            assert(r.0[25].val() == (x / pow2(6) as int) % 2);
        }
        if i == 7 {
            assert(r.0[26].val() == (x / pow2(7) as int) % 2);
        }
        if i == 8 {
            assert(r.0[27].val() == (x / pow2(8) as int) % 2);
        }
        if i == 9 {
            assert(r.0[28].val() == (x / pow2(9) as int) % 2);
        }
        if i == 10 {
            assert(r.0[29].val() == (x / pow2(10) as int) % 2);
        }
        if i == 11 {
            assert(r.0[30].val() == (x / pow2(11) as int) % 2);
        }
        if i == 12 {
            assert(r.0[31].val() == (x / pow2(12) as int) % 2);
        }
        if i == 13 {
            assert(r.0[32].val() == (x / pow2(13) as int) % 2);
        }
        if i == 14 {
            assert(r.0[33].val() == (x / pow2(14) as int) % 2);
        }
        if i == 15 {
            assert(r.0[34].val() == (x / pow2(15) as int) % 2);
        }
        if i == 16 {
            assert(r.0[35].val() == (x / pow2(16) as int) % 2);
        }
        if i == 17 {
            assert(r.0[36].val() == (x / pow2(17) as int) % 2);
        }
    }
}

} // verus!

verus! {
/// `spec_eval_fn_1` keeps the length of the row and every place it does not
/// write.
pub proof fn lemma_spec_eval_fn_1_frame<W: WitnessTypeSet<Mersenne31Field>>(
    s: (Seq<W::Field>, Seq<(Seq<W::Field>, W::U16, usize)>, Seq<(Seq<W::Field>, W::U16, W::Mask)>),
    mem: Seq<W::Field>,
    lt: spec_fn(Seq<W::Field>, W::U16, nat) -> Seq<W::Field>,
    mlt: spec_fn(Seq<W::Field>, W::U16, W::Mask, nat) -> Seq<W::Field>,
    orc: spec_fn(Placeholder) -> W::U32,
)
    requires
        s.0.len() >= 37,
    ensures
        spec_eval_fn_1::<W>(s, mem, lt, mlt, orc).0.len() == s.0.len(),
        forall|j: int| 0 <= j < s.0.len() && j != 19 && j != 20 && j != 21 && j != 22 && j != 23 && j != 24 && j != 25 && j != 26 && j != 27 && j != 28 && j != 29 && j != 30 && j != 31 && j != 32 && j != 33 && j != 34 && j != 35 && j != 36 ==> #[trigger] spec_eval_fn_1::<W>(s, mem, lt, mlt, orc).0[j] == s.0[j],
{
    reveal(spec_eval_fn_1);
}

/// `spec_eval_fn_8` keeps the length of the row and every place it does not
/// write.
pub proof fn lemma_spec_eval_fn_8_frame<W: WitnessTypeSet<Mersenne31Field>>(
    s: (Seq<W::Field>, Seq<(Seq<W::Field>, W::U16, usize)>, Seq<(Seq<W::Field>, W::U16, W::Mask)>),
    mem: Seq<W::Field>,
    lt: spec_fn(Seq<W::Field>, W::U16, nat) -> Seq<W::Field>,
    mlt: spec_fn(Seq<W::Field>, W::U16, W::Mask, nat) -> Seq<W::Field>,
    orc: spec_fn(Placeholder) -> W::U32,
)
    requires
        s.0.len() >= 72,
    ensures
        spec_eval_fn_8::<W>(s, mem, lt, mlt, orc).0.len() == s.0.len(),
        forall|j: int| 0 <= j < s.0.len() && j != 71 ==> #[trigger] spec_eval_fn_8::<W>(s, mem, lt, mlt, orc).0[j] == s.0[j],
{
    reveal(spec_eval_fn_8);
}

/// `spec_eval_fn_9` keeps the length of the row and every place it does not
/// write.
pub proof fn lemma_spec_eval_fn_9_frame<W: WitnessTypeSet<Mersenne31Field>>(
    s: (Seq<W::Field>, Seq<(Seq<W::Field>, W::U16, usize)>, Seq<(Seq<W::Field>, W::U16, W::Mask)>),
    mem: Seq<W::Field>,
    lt: spec_fn(Seq<W::Field>, W::U16, nat) -> Seq<W::Field>,
    mlt: spec_fn(Seq<W::Field>, W::U16, W::Mask, nat) -> Seq<W::Field>,
    orc: spec_fn(Placeholder) -> W::U32,
)
    requires
        s.0.len() >= 53,
    ensures
        spec_eval_fn_9::<W>(s, mem, lt, mlt, orc).0.len() == s.0.len(),
        forall|j: int| 0 <= j < s.0.len() && j != 52 ==> #[trigger] spec_eval_fn_9::<W>(s, mem, lt, mlt, orc).0[j] == s.0[j],
{
    reveal(spec_eval_fn_9);
}

/// `spec_eval_fn_10` keeps the length of the row and every place it does not
/// write.
pub proof fn lemma_spec_eval_fn_10_frame<W: WitnessTypeSet<Mersenne31Field>>(
    s: (Seq<W::Field>, Seq<(Seq<W::Field>, W::U16, usize)>, Seq<(Seq<W::Field>, W::U16, W::Mask)>),
    mem: Seq<W::Field>,
    lt: spec_fn(Seq<W::Field>, W::U16, nat) -> Seq<W::Field>,
    mlt: spec_fn(Seq<W::Field>, W::U16, W::Mask, nat) -> Seq<W::Field>,
    orc: spec_fn(Placeholder) -> W::U32,
)
    requires
        s.0.len() >= 75,
    ensures
        spec_eval_fn_10::<W>(s, mem, lt, mlt, orc).0.len() == s.0.len(),
        forall|j: int| 0 <= j < s.0.len() && j != 37 && j != 72 && j != 74 ==> #[trigger] spec_eval_fn_10::<W>(s, mem, lt, mlt, orc).0[j] == s.0[j],
{
    reveal(spec_eval_fn_10);
}

/// `spec_eval_fn_11` keeps the length of the row and every place it does not
/// write.
pub proof fn lemma_spec_eval_fn_11_frame<W: WitnessTypeSet<Mersenne31Field>>(
    s: (Seq<W::Field>, Seq<(Seq<W::Field>, W::U16, usize)>, Seq<(Seq<W::Field>, W::U16, W::Mask)>),
    mem: Seq<W::Field>,
    lt: spec_fn(Seq<W::Field>, W::U16, nat) -> Seq<W::Field>,
    mlt: spec_fn(Seq<W::Field>, W::U16, W::Mask, nat) -> Seq<W::Field>,
    orc: spec_fn(Placeholder) -> W::U32,
)
    requires
        s.0.len() >= 76,
    ensures
        spec_eval_fn_11::<W>(s, mem, lt, mlt, orc).0.len() == s.0.len(),
        forall|j: int| 0 <= j < s.0.len() && j != 38 && j != 73 && j != 75 ==> #[trigger] spec_eval_fn_11::<W>(s, mem, lt, mlt, orc).0[j] == s.0[j],
{
    reveal(spec_eval_fn_11);
}

/// `spec_eval_fn_12` keeps the length of the row and every place it does not
/// write.
pub proof fn lemma_spec_eval_fn_12_frame<W: WitnessTypeSet<Mersenne31Field>>(
    s: (Seq<W::Field>, Seq<(Seq<W::Field>, W::U16, usize)>, Seq<(Seq<W::Field>, W::U16, W::Mask)>),
    mem: Seq<W::Field>,
    lt: spec_fn(Seq<W::Field>, W::U16, nat) -> Seq<W::Field>,
    mlt: spec_fn(Seq<W::Field>, W::U16, W::Mask, nat) -> Seq<W::Field>,
    orc: spec_fn(Placeholder) -> W::U32,
)
    requires
        s.0.len() >= 77,
    ensures
        spec_eval_fn_12::<W>(s, mem, lt, mlt, orc).0.len() == s.0.len(),
        forall|j: int| 0 <= j < s.0.len() && j != 76 ==> #[trigger] spec_eval_fn_12::<W>(s, mem, lt, mlt, orc).0[j] == s.0[j],
{
    reveal(spec_eval_fn_12);
}

/// `spec_eval_fn_13` keeps the length of the row and every place it does not
/// write.
pub proof fn lemma_spec_eval_fn_13_frame<W: WitnessTypeSet<Mersenne31Field>>(
    s: (Seq<W::Field>, Seq<(Seq<W::Field>, W::U16, usize)>, Seq<(Seq<W::Field>, W::U16, W::Mask)>),
    mem: Seq<W::Field>,
    lt: spec_fn(Seq<W::Field>, W::U16, nat) -> Seq<W::Field>,
    mlt: spec_fn(Seq<W::Field>, W::U16, W::Mask, nat) -> Seq<W::Field>,
    orc: spec_fn(Placeholder) -> W::U32,
)
    requires
        s.0.len() >= 52,
    ensures
        spec_eval_fn_13::<W>(s, mem, lt, mlt, orc).0.len() == s.0.len(),
        forall|j: int| 0 <= j < s.0.len() && j != 50 && j != 51 ==> #[trigger] spec_eval_fn_13::<W>(s, mem, lt, mlt, orc).0[j] == s.0[j],
{
    reveal(spec_eval_fn_13);
}

/// `spec_eval_fn_14` keeps the length of the row and every place it does not
/// write.
pub proof fn lemma_spec_eval_fn_14_frame<W: WitnessTypeSet<Mersenne31Field>>(
    s: (Seq<W::Field>, Seq<(Seq<W::Field>, W::U16, usize)>, Seq<(Seq<W::Field>, W::U16, W::Mask)>),
    mem: Seq<W::Field>,
    lt: spec_fn(Seq<W::Field>, W::U16, nat) -> Seq<W::Field>,
    mlt: spec_fn(Seq<W::Field>, W::U16, W::Mask, nat) -> Seq<W::Field>,
    orc: spec_fn(Placeholder) -> W::U32,
)
    requires
        s.0.len() >= 78,
    ensures
        spec_eval_fn_14::<W>(s, mem, lt, mlt, orc).0.len() == s.0.len(),
        forall|j: int| 0 <= j < s.0.len() && j != 77 ==> #[trigger] spec_eval_fn_14::<W>(s, mem, lt, mlt, orc).0[j] == s.0[j],
{
    reveal(spec_eval_fn_14);
}

/// `spec_eval_fn_15` keeps the length of the row and every place it does not
/// write.
pub proof fn lemma_spec_eval_fn_15_frame<W: WitnessTypeSet<Mersenne31Field>>(
    s: (Seq<W::Field>, Seq<(Seq<W::Field>, W::U16, usize)>, Seq<(Seq<W::Field>, W::U16, W::Mask)>),
    mem: Seq<W::Field>,
    lt: spec_fn(Seq<W::Field>, W::U16, nat) -> Seq<W::Field>,
    mlt: spec_fn(Seq<W::Field>, W::U16, W::Mask, nat) -> Seq<W::Field>,
    orc: spec_fn(Placeholder) -> W::U32,
)
    requires
        s.0.len() >= 55,
    ensures
        spec_eval_fn_15::<W>(s, mem, lt, mlt, orc).0.len() == s.0.len(),
        forall|j: int| 0 <= j < s.0.len() && j != 53 && j != 54 ==> #[trigger] spec_eval_fn_15::<W>(s, mem, lt, mlt, orc).0[j] == s.0[j],
{
    reveal(spec_eval_fn_15);
}

/// `spec_eval_fn_16` keeps the length of the row and every place it does not
/// write.
pub proof fn lemma_spec_eval_fn_16_frame<W: WitnessTypeSet<Mersenne31Field>>(
    s: (Seq<W::Field>, Seq<(Seq<W::Field>, W::U16, usize)>, Seq<(Seq<W::Field>, W::U16, W::Mask)>),
    mem: Seq<W::Field>,
    lt: spec_fn(Seq<W::Field>, W::U16, nat) -> Seq<W::Field>,
    mlt: spec_fn(Seq<W::Field>, W::U16, W::Mask, nat) -> Seq<W::Field>,
    orc: spec_fn(Placeholder) -> W::U32,
)
    requires
        s.0.len() >= 72,
    ensures
        spec_eval_fn_16::<W>(s, mem, lt, mlt, orc).0.len() == s.0.len(),
        forall|j: int| 0 <= j < s.0.len() && j != 11 && j != 12 && j != 39 ==> #[trigger] spec_eval_fn_16::<W>(s, mem, lt, mlt, orc).0[j] == s.0[j],
{
    reveal(spec_eval_fn_16);
}

/// `spec_eval_fn_17` keeps the length of the row and every place it does not
/// write.
pub proof fn lemma_spec_eval_fn_17_frame<W: WitnessTypeSet<Mersenne31Field>>(
    s: (Seq<W::Field>, Seq<(Seq<W::Field>, W::U16, usize)>, Seq<(Seq<W::Field>, W::U16, W::Mask)>),
    mem: Seq<W::Field>,
    lt: spec_fn(Seq<W::Field>, W::U16, nat) -> Seq<W::Field>,
    mlt: spec_fn(Seq<W::Field>, W::U16, W::Mask, nat) -> Seq<W::Field>,
    orc: spec_fn(Placeholder) -> W::U32,
)
    requires
        s.0.len() >= 72,
    ensures
        spec_eval_fn_17::<W>(s, mem, lt, mlt, orc).0.len() == s.0.len(),
        forall|j: int| 0 <= j < s.0.len() && j != 11 && j != 12 && j != 39 ==> #[trigger] spec_eval_fn_17::<W>(s, mem, lt, mlt, orc).0[j] == s.0[j],
{
    reveal(spec_eval_fn_17);
}

/// `spec_eval_fn_18` keeps the length of the row and every place it does not
/// write.
pub proof fn lemma_spec_eval_fn_18_frame<W: WitnessTypeSet<Mersenne31Field>>(
    s: (Seq<W::Field>, Seq<(Seq<W::Field>, W::U16, usize)>, Seq<(Seq<W::Field>, W::U16, W::Mask)>),
    mem: Seq<W::Field>,
    lt: spec_fn(Seq<W::Field>, W::U16, nat) -> Seq<W::Field>,
    mlt: spec_fn(Seq<W::Field>, W::U16, W::Mask, nat) -> Seq<W::Field>,
    orc: spec_fn(Placeholder) -> W::U32,
)
    requires
        s.0.len() >= 40,
    ensures
        spec_eval_fn_18::<W>(s, mem, lt, mlt, orc).0.len() == s.0.len(),
        forall|j: int| 0 <= j < s.0.len() && j != 11 && j != 12 && j != 39 ==> #[trigger] spec_eval_fn_18::<W>(s, mem, lt, mlt, orc).0[j] == s.0[j],
{
    reveal(spec_eval_fn_18);
}

/// `spec_eval_fn_19` keeps the length of the row and every place it does not
/// write.
pub proof fn lemma_spec_eval_fn_19_frame<W: WitnessTypeSet<Mersenne31Field>>(
    s: (Seq<W::Field>, Seq<(Seq<W::Field>, W::U16, usize)>, Seq<(Seq<W::Field>, W::U16, W::Mask)>),
    mem: Seq<W::Field>,
    lt: spec_fn(Seq<W::Field>, W::U16, nat) -> Seq<W::Field>,
    mlt: spec_fn(Seq<W::Field>, W::U16, W::Mask, nat) -> Seq<W::Field>,
    orc: spec_fn(Placeholder) -> W::U32,
)
    requires
        s.0.len() >= 79,
    ensures
        spec_eval_fn_19::<W>(s, mem, lt, mlt, orc).0.len() == s.0.len(),
        forall|j: int| 0 <= j < s.0.len() && j != 78 ==> #[trigger] spec_eval_fn_19::<W>(s, mem, lt, mlt, orc).0[j] == s.0[j],
{
    reveal(spec_eval_fn_19);
}

/// `spec_eval_fn_20` keeps the length of the row and every place it does not
/// write.
pub proof fn lemma_spec_eval_fn_20_frame<W: WitnessTypeSet<Mersenne31Field>>(
    s: (Seq<W::Field>, Seq<(Seq<W::Field>, W::U16, usize)>, Seq<(Seq<W::Field>, W::U16, W::Mask)>),
    mem: Seq<W::Field>,
    lt: spec_fn(Seq<W::Field>, W::U16, nat) -> Seq<W::Field>,
    mlt: spec_fn(Seq<W::Field>, W::U16, W::Mask, nat) -> Seq<W::Field>,
    orc: spec_fn(Placeholder) -> W::U32,
)
    requires
        s.0.len() >= 80,
    ensures
        spec_eval_fn_20::<W>(s, mem, lt, mlt, orc).0.len() == s.0.len(),
        forall|j: int| 0 <= j < s.0.len() && j != 79 ==> #[trigger] spec_eval_fn_20::<W>(s, mem, lt, mlt, orc).0[j] == s.0[j],
{
    reveal(spec_eval_fn_20);
}

/// `spec_eval_fn_21` keeps the length of the row and every place it does not
/// write.
pub proof fn lemma_spec_eval_fn_21_frame<W: WitnessTypeSet<Mersenne31Field>>(
    s: (Seq<W::Field>, Seq<(Seq<W::Field>, W::U16, usize)>, Seq<(Seq<W::Field>, W::U16, W::Mask)>),
    mem: Seq<W::Field>,
    lt: spec_fn(Seq<W::Field>, W::U16, nat) -> Seq<W::Field>,
    mlt: spec_fn(Seq<W::Field>, W::U16, W::Mask, nat) -> Seq<W::Field>,
    orc: spec_fn(Placeholder) -> W::U32,
)
    requires
        s.0.len() >= 81,
    ensures
        spec_eval_fn_21::<W>(s, mem, lt, mlt, orc).0.len() == s.0.len(),
        forall|j: int| 0 <= j < s.0.len() && j != 80 ==> #[trigger] spec_eval_fn_21::<W>(s, mem, lt, mlt, orc).0[j] == s.0[j],
{
    reveal(spec_eval_fn_21);
}

/// `spec_eval_fn_22` keeps the length of the row and every place it does not
/// write.
pub proof fn lemma_spec_eval_fn_22_frame<W: WitnessTypeSet<Mersenne31Field>>(
    s: (Seq<W::Field>, Seq<(Seq<W::Field>, W::U16, usize)>, Seq<(Seq<W::Field>, W::U16, W::Mask)>),
    mem: Seq<W::Field>,
    lt: spec_fn(Seq<W::Field>, W::U16, nat) -> Seq<W::Field>,
    mlt: spec_fn(Seq<W::Field>, W::U16, W::Mask, nat) -> Seq<W::Field>,
    orc: spec_fn(Placeholder) -> W::U32,
)
    requires
        s.0.len() >= 82,
    ensures
        spec_eval_fn_22::<W>(s, mem, lt, mlt, orc).0.len() == s.0.len(),
        forall|j: int| 0 <= j < s.0.len() && j != 81 ==> #[trigger] spec_eval_fn_22::<W>(s, mem, lt, mlt, orc).0[j] == s.0[j],
{
    reveal(spec_eval_fn_22);
}

/// `spec_eval_fn_23` keeps the length of the row and every place it does not
/// write.
pub proof fn lemma_spec_eval_fn_23_frame<W: WitnessTypeSet<Mersenne31Field>>(
    s: (Seq<W::Field>, Seq<(Seq<W::Field>, W::U16, usize)>, Seq<(Seq<W::Field>, W::U16, W::Mask)>),
    mem: Seq<W::Field>,
    lt: spec_fn(Seq<W::Field>, W::U16, nat) -> Seq<W::Field>,
    mlt: spec_fn(Seq<W::Field>, W::U16, W::Mask, nat) -> Seq<W::Field>,
    orc: spec_fn(Placeholder) -> W::U32,
)
    requires
        s.0.len() >= 72,
    ensures
        spec_eval_fn_23::<W>(s, mem, lt, mlt, orc).0.len() == s.0.len(),
        forall|j: int| 0 <= j < s.0.len() && j != 11 && j != 12 && j != 39 ==> #[trigger] spec_eval_fn_23::<W>(s, mem, lt, mlt, orc).0[j] == s.0[j],
{
    reveal(spec_eval_fn_23);
}

/// `spec_eval_fn_24` keeps the length of the row and every place it does not
/// write.
pub proof fn lemma_spec_eval_fn_24_frame<W: WitnessTypeSet<Mersenne31Field>>(
    s: (Seq<W::Field>, Seq<(Seq<W::Field>, W::U16, usize)>, Seq<(Seq<W::Field>, W::U16, W::Mask)>),
    mem: Seq<W::Field>,
    lt: spec_fn(Seq<W::Field>, W::U16, nat) -> Seq<W::Field>,
    mlt: spec_fn(Seq<W::Field>, W::U16, W::Mask, nat) -> Seq<W::Field>,
    orc: spec_fn(Placeholder) -> W::U32,
)
    requires
        s.0.len() >= 42,
    ensures
        spec_eval_fn_24::<W>(s, mem, lt, mlt, orc).0.len() == s.0.len(),
        forall|j: int| 0 <= j < s.0.len() && j != 13 && j != 14 && j != 41 ==> #[trigger] spec_eval_fn_24::<W>(s, mem, lt, mlt, orc).0[j] == s.0[j],
{
    reveal(spec_eval_fn_24);
}

/// `spec_eval_fn_25` keeps the length of the row and every place it does not
/// write.
pub proof fn lemma_spec_eval_fn_25_frame<W: WitnessTypeSet<Mersenne31Field>>(
    s: (Seq<W::Field>, Seq<(Seq<W::Field>, W::U16, usize)>, Seq<(Seq<W::Field>, W::U16, W::Mask)>),
    mem: Seq<W::Field>,
    lt: spec_fn(Seq<W::Field>, W::U16, nat) -> Seq<W::Field>,
    mlt: spec_fn(Seq<W::Field>, W::U16, W::Mask, nat) -> Seq<W::Field>,
    orc: spec_fn(Placeholder) -> W::U32,
)
    requires
        s.0.len() >= 80,
    ensures
        spec_eval_fn_25::<W>(s, mem, lt, mlt, orc).0.len() == s.0.len(),
        forall|j: int| 0 <= j < s.0.len() && j != 78 && j != 79 ==> #[trigger] spec_eval_fn_25::<W>(s, mem, lt, mlt, orc).0[j] == s.0[j],
{
    reveal(spec_eval_fn_25);
}

/// `spec_eval_fn_26` keeps the length of the row and every place it does not
/// write.
pub proof fn lemma_spec_eval_fn_26_frame<W: WitnessTypeSet<Mersenne31Field>>(
    s: (Seq<W::Field>, Seq<(Seq<W::Field>, W::U16, usize)>, Seq<(Seq<W::Field>, W::U16, W::Mask)>),
    mem: Seq<W::Field>,
    lt: spec_fn(Seq<W::Field>, W::U16, nat) -> Seq<W::Field>,
    mlt: spec_fn(Seq<W::Field>, W::U16, W::Mask, nat) -> Seq<W::Field>,
    orc: spec_fn(Placeholder) -> W::U32,
)
    requires
        s.0.len() >= 92,
    ensures
        spec_eval_fn_26::<W>(s, mem, lt, mlt, orc).0.len() == s.0.len(),
        forall|j: int| 0 <= j < s.0.len() && j != 91 ==> #[trigger] spec_eval_fn_26::<W>(s, mem, lt, mlt, orc).0[j] == s.0[j],
{
    reveal(spec_eval_fn_26);
}

/// `spec_eval_fn_27` keeps the length of the row and every place it does not
/// write.
pub proof fn lemma_spec_eval_fn_27_frame<W: WitnessTypeSet<Mersenne31Field>>(
    s: (Seq<W::Field>, Seq<(Seq<W::Field>, W::U16, usize)>, Seq<(Seq<W::Field>, W::U16, W::Mask)>),
    mem: Seq<W::Field>,
    lt: spec_fn(Seq<W::Field>, W::U16, nat) -> Seq<W::Field>,
    mlt: spec_fn(Seq<W::Field>, W::U16, W::Mask, nat) -> Seq<W::Field>,
    orc: spec_fn(Placeholder) -> W::U32,
)
    requires
        s.0.len() >= 93,
    ensures
        spec_eval_fn_27::<W>(s, mem, lt, mlt, orc).0.len() == s.0.len(),
        forall|j: int| 0 <= j < s.0.len() && j != 92 ==> #[trigger] spec_eval_fn_27::<W>(s, mem, lt, mlt, orc).0[j] == s.0[j],
{
    reveal(spec_eval_fn_27);
}

/// `spec_eval_fn_28` keeps the length of the row and every place it does not
/// write.
pub proof fn lemma_spec_eval_fn_28_frame<W: WitnessTypeSet<Mersenne31Field>>(
    s: (Seq<W::Field>, Seq<(Seq<W::Field>, W::U16, usize)>, Seq<(Seq<W::Field>, W::U16, W::Mask)>),
    mem: Seq<W::Field>,
    lt: spec_fn(Seq<W::Field>, W::U16, nat) -> Seq<W::Field>,
    mlt: spec_fn(Seq<W::Field>, W::U16, W::Mask, nat) -> Seq<W::Field>,
    orc: spec_fn(Placeholder) -> W::U32,
)
    requires
        s.0.len() >= 93,
    ensures
        spec_eval_fn_28::<W>(s, mem, lt, mlt, orc).0.len() == s.0.len(),
        forall|j: int| 0 <= j < s.0.len() && j != 11 && j != 12 && j != 39 ==> #[trigger] spec_eval_fn_28::<W>(s, mem, lt, mlt, orc).0[j] == s.0[j],
{
    reveal(spec_eval_fn_28);
}

/// `spec_eval_fn_29` keeps the length of the row and every place it does not
/// write.
pub proof fn lemma_spec_eval_fn_29_frame<W: WitnessTypeSet<Mersenne31Field>>(
    s: (Seq<W::Field>, Seq<(Seq<W::Field>, W::U16, usize)>, Seq<(Seq<W::Field>, W::U16, W::Mask)>),
    mem: Seq<W::Field>,
    lt: spec_fn(Seq<W::Field>, W::U16, nat) -> Seq<W::Field>,
    mlt: spec_fn(Seq<W::Field>, W::U16, W::Mask, nat) -> Seq<W::Field>,
    orc: spec_fn(Placeholder) -> W::U32,
)
    requires
        s.0.len() >= 94,
    ensures
        spec_eval_fn_29::<W>(s, mem, lt, mlt, orc).0.len() == s.0.len(),
        forall|j: int| 0 <= j < s.0.len() && j != 93 ==> #[trigger] spec_eval_fn_29::<W>(s, mem, lt, mlt, orc).0[j] == s.0[j],
{
    reveal(spec_eval_fn_29);
}

/// `spec_eval_fn_30` keeps the length of the row and every place it does not
/// write.
pub proof fn lemma_spec_eval_fn_30_frame<W: WitnessTypeSet<Mersenne31Field>>(
    s: (Seq<W::Field>, Seq<(Seq<W::Field>, W::U16, usize)>, Seq<(Seq<W::Field>, W::U16, W::Mask)>),
    mem: Seq<W::Field>,
    lt: spec_fn(Seq<W::Field>, W::U16, nat) -> Seq<W::Field>,
    mlt: spec_fn(Seq<W::Field>, W::U16, W::Mask, nat) -> Seq<W::Field>,
    orc: spec_fn(Placeholder) -> W::U32,
)
    requires
        s.0.len() >= 96,
    ensures
        spec_eval_fn_30::<W>(s, mem, lt, mlt, orc).0.len() == s.0.len(),
        forall|j: int| 0 <= j < s.0.len() && j != 94 && j != 95 ==> #[trigger] spec_eval_fn_30::<W>(s, mem, lt, mlt, orc).0[j] == s.0[j],
{
    reveal(spec_eval_fn_30);
}

/// `spec_eval_fn_31` keeps the length of the row and every place it does not
/// write.
pub proof fn lemma_spec_eval_fn_31_frame<W: WitnessTypeSet<Mersenne31Field>>(
    s: (Seq<W::Field>, Seq<(Seq<W::Field>, W::U16, usize)>, Seq<(Seq<W::Field>, W::U16, W::Mask)>),
    mem: Seq<W::Field>,
    lt: spec_fn(Seq<W::Field>, W::U16, nat) -> Seq<W::Field>,
    mlt: spec_fn(Seq<W::Field>, W::U16, W::Mask, nat) -> Seq<W::Field>,
    orc: spec_fn(Placeholder) -> W::U32,
)
    requires
        s.0.len() >= 96,
    ensures
        spec_eval_fn_31::<W>(s, mem, lt, mlt, orc).0.len() == s.0.len(),
        forall|j: int| 0 <= j < s.0.len() && j != 11 && j != 12 ==> #[trigger] spec_eval_fn_31::<W>(s, mem, lt, mlt, orc).0[j] == s.0[j],
{
    reveal(spec_eval_fn_31);
}

/// `spec_eval_fn_32` keeps the length of the row and every place it does not
/// write.
pub proof fn lemma_spec_eval_fn_32_frame<W: WitnessTypeSet<Mersenne31Field>>(
    s: (Seq<W::Field>, Seq<(Seq<W::Field>, W::U16, usize)>, Seq<(Seq<W::Field>, W::U16, W::Mask)>),
    mem: Seq<W::Field>,
    lt: spec_fn(Seq<W::Field>, W::U16, nat) -> Seq<W::Field>,
    mlt: spec_fn(Seq<W::Field>, W::U16, W::Mask, nat) -> Seq<W::Field>,
    orc: spec_fn(Placeholder) -> W::U32,
)
    requires
        s.0.len() >= 40,
    ensures
        spec_eval_fn_32::<W>(s, mem, lt, mlt, orc).0.len() == s.0.len(),
        forall|j: int| 0 <= j < s.0.len() && j != 11 && j != 12 && j != 39 ==> #[trigger] spec_eval_fn_32::<W>(s, mem, lt, mlt, orc).0[j] == s.0[j],
{
    reveal(spec_eval_fn_32);
}

/// `spec_eval_fn_34` keeps the length of the row and every place it does not
/// write.
pub proof fn lemma_spec_eval_fn_34_frame<W: WitnessTypeSet<Mersenne31Field>>(
    s: (Seq<W::Field>, Seq<(Seq<W::Field>, W::U16, usize)>, Seq<(Seq<W::Field>, W::U16, W::Mask)>),
    mem: Seq<W::Field>,
    lt: spec_fn(Seq<W::Field>, W::U16, nat) -> Seq<W::Field>,
    mlt: spec_fn(Seq<W::Field>, W::U16, W::Mask, nat) -> Seq<W::Field>,
    orc: spec_fn(Placeholder) -> W::U32,
)
    requires
        s.0.len() >= 40,
    ensures
        spec_eval_fn_34::<W>(s, mem, lt, mlt, orc).0.len() == s.0.len(),
        forall|j: int| 0 <= j < s.0.len() && j != 11 && j != 12 && j != 39 ==> #[trigger] spec_eval_fn_34::<W>(s, mem, lt, mlt, orc).0[j] == s.0[j],
{
    reveal(spec_eval_fn_34);
}

/// `spec_eval_fn_35` keeps the length of the row and every place it does not
/// write.
pub proof fn lemma_spec_eval_fn_35_frame<W: WitnessTypeSet<Mersenne31Field>>(
    s: (Seq<W::Field>, Seq<(Seq<W::Field>, W::U16, usize)>, Seq<(Seq<W::Field>, W::U16, W::Mask)>),
    mem: Seq<W::Field>,
    lt: spec_fn(Seq<W::Field>, W::U16, nat) -> Seq<W::Field>,
    mlt: spec_fn(Seq<W::Field>, W::U16, W::Mask, nat) -> Seq<W::Field>,
    orc: spec_fn(Placeholder) -> W::U32,
)
    requires
        s.0.len() >= 80,
    ensures
        spec_eval_fn_35::<W>(s, mem, lt, mlt, orc).0.len() == s.0.len(),
        forall|j: int| 0 <= j < s.0.len() && j != 78 && j != 79 ==> #[trigger] spec_eval_fn_35::<W>(s, mem, lt, mlt, orc).0[j] == s.0[j],
{
    reveal(spec_eval_fn_35);
}

/// `spec_eval_fn_36` keeps the length of the row and every place it does not
/// write.
pub proof fn lemma_spec_eval_fn_36_frame<W: WitnessTypeSet<Mersenne31Field>>(
    s: (Seq<W::Field>, Seq<(Seq<W::Field>, W::U16, usize)>, Seq<(Seq<W::Field>, W::U16, W::Mask)>),
    mem: Seq<W::Field>,
    lt: spec_fn(Seq<W::Field>, W::U16, nat) -> Seq<W::Field>,
    mlt: spec_fn(Seq<W::Field>, W::U16, W::Mask, nat) -> Seq<W::Field>,
    orc: spec_fn(Placeholder) -> W::U32,
)
    requires
        s.0.len() >= 82,
    ensures
        spec_eval_fn_36::<W>(s, mem, lt, mlt, orc).0.len() == s.0.len(),
        forall|j: int| 0 <= j < s.0.len() && j != 80 && j != 81 ==> #[trigger] spec_eval_fn_36::<W>(s, mem, lt, mlt, orc).0[j] == s.0[j],
{
    reveal(spec_eval_fn_36);
}

/// `spec_eval_fn_38` keeps the length of the row and every place it does not
/// write.
pub proof fn lemma_spec_eval_fn_38_frame<W: WitnessTypeSet<Mersenne31Field>>(
    s: (Seq<W::Field>, Seq<(Seq<W::Field>, W::U16, usize)>, Seq<(Seq<W::Field>, W::U16, W::Mask)>),
    mem: Seq<W::Field>,
    lt: spec_fn(Seq<W::Field>, W::U16, nat) -> Seq<W::Field>,
    mlt: spec_fn(Seq<W::Field>, W::U16, W::Mask, nat) -> Seq<W::Field>,
    orc: spec_fn(Placeholder) -> W::U32,
)
    requires
        s.0.len() >= 17,
    ensures
        spec_eval_fn_38::<W>(s, mem, lt, mlt, orc).0.len() == s.0.len(),
        forall|j: int| 0 <= j < s.0.len() && j != 15 && j != 16 ==> #[trigger] spec_eval_fn_38::<W>(s, mem, lt, mlt, orc).0[j] == s.0[j],
{
    reveal(spec_eval_fn_38);
}

/// `spec_eval_fn_39` keeps the length of the row and every place it does not
/// write.
pub proof fn lemma_spec_eval_fn_39_frame<W: WitnessTypeSet<Mersenne31Field>>(
    s: (Seq<W::Field>, Seq<(Seq<W::Field>, W::U16, usize)>, Seq<(Seq<W::Field>, W::U16, W::Mask)>),
    mem: Seq<W::Field>,
    lt: spec_fn(Seq<W::Field>, W::U16, nat) -> Seq<W::Field>,
    mlt: spec_fn(Seq<W::Field>, W::U16, W::Mask, nat) -> Seq<W::Field>,
    orc: spec_fn(Placeholder) -> W::U32,
)
    requires
        s.0.len() >= 80,
    ensures
        spec_eval_fn_39::<W>(s, mem, lt, mlt, orc).0.len() == s.0.len(),
        forall|j: int| 0 <= j < s.0.len() && j != 78 && j != 79 ==> #[trigger] spec_eval_fn_39::<W>(s, mem, lt, mlt, orc).0[j] == s.0[j],
{
    reveal(spec_eval_fn_39);
}

/// `spec_eval_fn_40` keeps the length of the row and every place it does not
/// write.
pub proof fn lemma_spec_eval_fn_40_frame<W: WitnessTypeSet<Mersenne31Field>>(
    s: (Seq<W::Field>, Seq<(Seq<W::Field>, W::U16, usize)>, Seq<(Seq<W::Field>, W::U16, W::Mask)>),
    mem: Seq<W::Field>,
    lt: spec_fn(Seq<W::Field>, W::U16, nat) -> Seq<W::Field>,
    mlt: spec_fn(Seq<W::Field>, W::U16, W::Mask, nat) -> Seq<W::Field>,
    orc: spec_fn(Placeholder) -> W::U32,
)
    requires
        s.0.len() >= 99,
    ensures
        spec_eval_fn_40::<W>(s, mem, lt, mlt, orc).0.len() == s.0.len(),
        forall|j: int| 0 <= j < s.0.len() && j != 98 ==> #[trigger] spec_eval_fn_40::<W>(s, mem, lt, mlt, orc).0[j] == s.0[j],
{
    reveal(spec_eval_fn_40);
}

/// `spec_eval_fn_41` keeps the length of the row and every place it does not
/// write.
pub proof fn lemma_spec_eval_fn_41_frame<W: WitnessTypeSet<Mersenne31Field>>(
    s: (Seq<W::Field>, Seq<(Seq<W::Field>, W::U16, usize)>, Seq<(Seq<W::Field>, W::U16, W::Mask)>),
    mem: Seq<W::Field>,
    lt: spec_fn(Seq<W::Field>, W::U16, nat) -> Seq<W::Field>,
    mlt: spec_fn(Seq<W::Field>, W::U16, W::Mask, nat) -> Seq<W::Field>,
    orc: spec_fn(Placeholder) -> W::U32,
)
    requires
        s.0.len() >= 100,
    ensures
        spec_eval_fn_41::<W>(s, mem, lt, mlt, orc).0.len() == s.0.len(),
        forall|j: int| 0 <= j < s.0.len() && j != 99 ==> #[trigger] spec_eval_fn_41::<W>(s, mem, lt, mlt, orc).0[j] == s.0[j],
{
    reveal(spec_eval_fn_41);
}

/// `spec_eval_fn_42` keeps the length of the row and every place it does not
/// write.
pub proof fn lemma_spec_eval_fn_42_frame<W: WitnessTypeSet<Mersenne31Field>>(
    s: (Seq<W::Field>, Seq<(Seq<W::Field>, W::U16, usize)>, Seq<(Seq<W::Field>, W::U16, W::Mask)>),
    mem: Seq<W::Field>,
    lt: spec_fn(Seq<W::Field>, W::U16, nat) -> Seq<W::Field>,
    mlt: spec_fn(Seq<W::Field>, W::U16, W::Mask, nat) -> Seq<W::Field>,
    orc: spec_fn(Placeholder) -> W::U32,
)
    requires
        s.0.len() >= 101,
    ensures
        spec_eval_fn_42::<W>(s, mem, lt, mlt, orc).0.len() == s.0.len(),
        forall|j: int| 0 <= j < s.0.len() && j != 40 && j != 100 ==> #[trigger] spec_eval_fn_42::<W>(s, mem, lt, mlt, orc).0[j] == s.0[j],
{
    reveal(spec_eval_fn_42);
}

/// `spec_eval_fn_43` keeps the length of the row and every place it does not
/// write.
pub proof fn lemma_spec_eval_fn_43_frame<W: WitnessTypeSet<Mersenne31Field>>(
    s: (Seq<W::Field>, Seq<(Seq<W::Field>, W::U16, usize)>, Seq<(Seq<W::Field>, W::U16, W::Mask)>),
    mem: Seq<W::Field>,
    lt: spec_fn(Seq<W::Field>, W::U16, nat) -> Seq<W::Field>,
    mlt: spec_fn(Seq<W::Field>, W::U16, W::Mask, nat) -> Seq<W::Field>,
    orc: spec_fn(Placeholder) -> W::U32,
)
    requires
        s.0.len() >= 59,
    ensures
        spec_eval_fn_43::<W>(s, mem, lt, mlt, orc).0.len() == s.0.len(),
        forall|j: int| 0 <= j < s.0.len() && j != 58 ==> #[trigger] spec_eval_fn_43::<W>(s, mem, lt, mlt, orc).0[j] == s.0[j],
{
    reveal(spec_eval_fn_43);
}

/// `spec_eval_fn_44` keeps the length of the row and every place it does not
/// write.
pub proof fn lemma_spec_eval_fn_44_frame<W: WitnessTypeSet<Mersenne31Field>>(
    s: (Seq<W::Field>, Seq<(Seq<W::Field>, W::U16, usize)>, Seq<(Seq<W::Field>, W::U16, W::Mask)>),
    mem: Seq<W::Field>,
    lt: spec_fn(Seq<W::Field>, W::U16, nat) -> Seq<W::Field>,
    mlt: spec_fn(Seq<W::Field>, W::U16, W::Mask, nat) -> Seq<W::Field>,
    orc: spec_fn(Placeholder) -> W::U32,
)
    requires
        s.0.len() >= 63,
    ensures
        spec_eval_fn_44::<W>(s, mem, lt, mlt, orc).0.len() == s.0.len(),
        forall|j: int| 0 <= j < s.0.len() && j != 62 ==> #[trigger] spec_eval_fn_44::<W>(s, mem, lt, mlt, orc).0[j] == s.0[j],
{
    reveal(spec_eval_fn_44);
}

/// `spec_eval_fn_45` keeps the length of the row and every place it does not
/// write.
pub proof fn lemma_spec_eval_fn_45_frame<W: WitnessTypeSet<Mersenne31Field>>(
    s: (Seq<W::Field>, Seq<(Seq<W::Field>, W::U16, usize)>, Seq<(Seq<W::Field>, W::U16, W::Mask)>),
    mem: Seq<W::Field>,
    lt: spec_fn(Seq<W::Field>, W::U16, nat) -> Seq<W::Field>,
    mlt: spec_fn(Seq<W::Field>, W::U16, W::Mask, nat) -> Seq<W::Field>,
    orc: spec_fn(Placeholder) -> W::U32,
)
    requires
        s.0.len() >= 67,
    ensures
        spec_eval_fn_45::<W>(s, mem, lt, mlt, orc).0.len() == s.0.len(),
        forall|j: int| 0 <= j < s.0.len() && j != 66 ==> #[trigger] spec_eval_fn_45::<W>(s, mem, lt, mlt, orc).0[j] == s.0[j],
{
    reveal(spec_eval_fn_45);
}

/// `spec_eval_fn_46` keeps the length of the row and every place it does not
/// write.
pub proof fn lemma_spec_eval_fn_46_frame<W: WitnessTypeSet<Mersenne31Field>>(
    s: (Seq<W::Field>, Seq<(Seq<W::Field>, W::U16, usize)>, Seq<(Seq<W::Field>, W::U16, W::Mask)>),
    mem: Seq<W::Field>,
    lt: spec_fn(Seq<W::Field>, W::U16, nat) -> Seq<W::Field>,
    mlt: spec_fn(Seq<W::Field>, W::U16, W::Mask, nat) -> Seq<W::Field>,
    orc: spec_fn(Placeholder) -> W::U32,
)
    requires
        s.0.len() >= 71,
    ensures
        spec_eval_fn_46::<W>(s, mem, lt, mlt, orc).0.len() == s.0.len(),
        forall|j: int| 0 <= j < s.0.len() && j != 70 ==> #[trigger] spec_eval_fn_46::<W>(s, mem, lt, mlt, orc).0[j] == s.0[j],
{
    reveal(spec_eval_fn_46);
}

/// `spec_eval_fn_47` keeps the length of the row and every place it does not
/// write.
pub proof fn lemma_spec_eval_fn_47_frame<W: WitnessTypeSet<Mersenne31Field>>(
    s: (Seq<W::Field>, Seq<(Seq<W::Field>, W::U16, usize)>, Seq<(Seq<W::Field>, W::U16, W::Mask)>),
    mem: Seq<W::Field>,
    lt: spec_fn(Seq<W::Field>, W::U16, nat) -> Seq<W::Field>,
    mlt: spec_fn(Seq<W::Field>, W::U16, W::Mask, nat) -> Seq<W::Field>,
    orc: spec_fn(Placeholder) -> W::U32,
)
    requires
        s.0.len() >= 80,
    ensures
        spec_eval_fn_47::<W>(s, mem, lt, mlt, orc).0.len() == s.0.len(),
        forall|j: int| 0 <= j < s.0.len() && j != 78 && j != 79 ==> #[trigger] spec_eval_fn_47::<W>(s, mem, lt, mlt, orc).0[j] == s.0[j],
{
    reveal(spec_eval_fn_47);
}

/// `spec_eval_fn_48` keeps the length of the row and every place it does not
/// write.
pub proof fn lemma_spec_eval_fn_48_frame<W: WitnessTypeSet<Mersenne31Field>>(
    s: (Seq<W::Field>, Seq<(Seq<W::Field>, W::U16, usize)>, Seq<(Seq<W::Field>, W::U16, W::Mask)>),
    mem: Seq<W::Field>,
    lt: spec_fn(Seq<W::Field>, W::U16, nat) -> Seq<W::Field>,
    mlt: spec_fn(Seq<W::Field>, W::U16, W::Mask, nat) -> Seq<W::Field>,
    orc: spec_fn(Placeholder) -> W::U32,
)
    requires
        s.0.len() >= 40,
    ensures
        spec_eval_fn_48::<W>(s, mem, lt, mlt, orc).0.len() == s.0.len(),
        forall|j: int| 0 <= j < s.0.len() && j != 13 && j != 14 && j != 39 ==> #[trigger] spec_eval_fn_48::<W>(s, mem, lt, mlt, orc).0[j] == s.0[j],
{
    reveal(spec_eval_fn_48);
}

/// `spec_eval_fn_49` keeps the length of the row and every place it does not
/// write.
pub proof fn lemma_spec_eval_fn_49_frame<W: WitnessTypeSet<Mersenne31Field>>(
    s: (Seq<W::Field>, Seq<(Seq<W::Field>, W::U16, usize)>, Seq<(Seq<W::Field>, W::U16, W::Mask)>),
    mem: Seq<W::Field>,
    lt: spec_fn(Seq<W::Field>, W::U16, nat) -> Seq<W::Field>,
    mlt: spec_fn(Seq<W::Field>, W::U16, W::Mask, nat) -> Seq<W::Field>,
    orc: spec_fn(Placeholder) -> W::U32,
)
    requires
        s.0.len() >= 80,
    ensures
        spec_eval_fn_49::<W>(s, mem, lt, mlt, orc).0.len() == s.0.len(),
        forall|j: int| 0 <= j < s.0.len() && j != 78 && j != 79 ==> #[trigger] spec_eval_fn_49::<W>(s, mem, lt, mlt, orc).0[j] == s.0[j],
{
    reveal(spec_eval_fn_49);
}

/// `spec_eval_fn_50` keeps the length of the row and every place it does not
/// write.
pub proof fn lemma_spec_eval_fn_50_frame<W: WitnessTypeSet<Mersenne31Field>>(
    s: (Seq<W::Field>, Seq<(Seq<W::Field>, W::U16, usize)>, Seq<(Seq<W::Field>, W::U16, W::Mask)>),
    mem: Seq<W::Field>,
    lt: spec_fn(Seq<W::Field>, W::U16, nat) -> Seq<W::Field>,
    mlt: spec_fn(Seq<W::Field>, W::U16, W::Mask, nat) -> Seq<W::Field>,
    orc: spec_fn(Placeholder) -> W::U32,
)
    requires
        s.0.len() >= 92,
    ensures
        spec_eval_fn_50::<W>(s, mem, lt, mlt, orc).0.len() == s.0.len(),
        forall|j: int| 0 <= j < s.0.len() && j != 42 ==> #[trigger] spec_eval_fn_50::<W>(s, mem, lt, mlt, orc).0[j] == s.0[j],
{
    reveal(spec_eval_fn_50);
}

/// `spec_eval_fn_51` keeps the length of the row and every place it does not
/// write.
pub proof fn lemma_spec_eval_fn_51_frame<W: WitnessTypeSet<Mersenne31Field>>(
    s: (Seq<W::Field>, Seq<(Seq<W::Field>, W::U16, usize)>, Seq<(Seq<W::Field>, W::U16, W::Mask)>),
    mem: Seq<W::Field>,
    lt: spec_fn(Seq<W::Field>, W::U16, nat) -> Seq<W::Field>,
    mlt: spec_fn(Seq<W::Field>, W::U16, W::Mask, nat) -> Seq<W::Field>,
    orc: spec_fn(Placeholder) -> W::U32,
)
    requires
        s.0.len() >= 44,
    ensures
        spec_eval_fn_51::<W>(s, mem, lt, mlt, orc).0.len() == s.0.len(),
        forall|j: int| 0 <= j < s.0.len() && j != 43 ==> #[trigger] spec_eval_fn_51::<W>(s, mem, lt, mlt, orc).0[j] == s.0[j],
{
    reveal(spec_eval_fn_51);
}

/// `spec_eval_fn_52` keeps the length of the row and every place it does not
/// write.
pub proof fn lemma_spec_eval_fn_52_frame<W: WitnessTypeSet<Mersenne31Field>>(
    s: (Seq<W::Field>, Seq<(Seq<W::Field>, W::U16, usize)>, Seq<(Seq<W::Field>, W::U16, W::Mask)>),
    mem: Seq<W::Field>,
    lt: spec_fn(Seq<W::Field>, W::U16, nat) -> Seq<W::Field>,
    mlt: spec_fn(Seq<W::Field>, W::U16, W::Mask, nat) -> Seq<W::Field>,
    orc: spec_fn(Placeholder) -> W::U32,
)
    requires
        s.0.len() >= 77,
    ensures
        spec_eval_fn_52::<W>(s, mem, lt, mlt, orc).0.len() == s.0.len(),
        forall|j: int| 0 <= j < s.0.len() && j != 55 ==> #[trigger] spec_eval_fn_52::<W>(s, mem, lt, mlt, orc).0[j] == s.0[j],
{
    reveal(spec_eval_fn_52);
}

/// `spec_eval_fn_53` keeps the length of the row and every place it does not
/// write.
pub proof fn lemma_spec_eval_fn_53_frame<W: WitnessTypeSet<Mersenne31Field>>(
    s: (Seq<W::Field>, Seq<(Seq<W::Field>, W::U16, usize)>, Seq<(Seq<W::Field>, W::U16, W::Mask)>),
    mem: Seq<W::Field>,
    lt: spec_fn(Seq<W::Field>, W::U16, nat) -> Seq<W::Field>,
    mlt: spec_fn(Seq<W::Field>, W::U16, W::Mask, nat) -> Seq<W::Field>,
    orc: spec_fn(Placeholder) -> W::U32,
)
    requires
        s.0.len() >= 80,
    ensures
        spec_eval_fn_53::<W>(s, mem, lt, mlt, orc).0.len() == s.0.len(),
        forall|j: int| 0 <= j < s.0.len() && j != 78 && j != 79 ==> #[trigger] spec_eval_fn_53::<W>(s, mem, lt, mlt, orc).0[j] == s.0[j],
{
    reveal(spec_eval_fn_53);
}

/// `spec_eval_fn_54` keeps the length of the row and every place it does not
/// write.
pub proof fn lemma_spec_eval_fn_54_frame<W: WitnessTypeSet<Mersenne31Field>>(
    s: (Seq<W::Field>, Seq<(Seq<W::Field>, W::U16, usize)>, Seq<(Seq<W::Field>, W::U16, W::Mask)>),
    mem: Seq<W::Field>,
    lt: spec_fn(Seq<W::Field>, W::U16, nat) -> Seq<W::Field>,
    mlt: spec_fn(Seq<W::Field>, W::U16, W::Mask, nat) -> Seq<W::Field>,
    orc: spec_fn(Placeholder) -> W::U32,
)
    requires
        s.0.len() >= 82,
    ensures
        spec_eval_fn_54::<W>(s, mem, lt, mlt, orc).0.len() == s.0.len(),
        forall|j: int| 0 <= j < s.0.len() && j != 80 && j != 81 ==> #[trigger] spec_eval_fn_54::<W>(s, mem, lt, mlt, orc).0[j] == s.0[j],
{
    reveal(spec_eval_fn_54);
}

/// `spec_eval_fn_55` keeps the length of the row and every place it does not
/// write.
pub proof fn lemma_spec_eval_fn_55_frame<W: WitnessTypeSet<Mersenne31Field>>(
    s: (Seq<W::Field>, Seq<(Seq<W::Field>, W::U16, usize)>, Seq<(Seq<W::Field>, W::U16, W::Mask)>),
    mem: Seq<W::Field>,
    lt: spec_fn(Seq<W::Field>, W::U16, nat) -> Seq<W::Field>,
    mlt: spec_fn(Seq<W::Field>, W::U16, W::Mask, nat) -> Seq<W::Field>,
    orc: spec_fn(Placeholder) -> W::U32,
)
    requires
        s.0.len() >= 82,
    ensures
        spec_eval_fn_55::<W>(s, mem, lt, mlt, orc).0.len() == s.0.len(),
        forall|j: int| 0 <= j < s.0.len() && j != 80 && j != 81 ==> #[trigger] spec_eval_fn_55::<W>(s, mem, lt, mlt, orc).0[j] == s.0[j],
{
    reveal(spec_eval_fn_55);
}

/// `spec_eval_fn_56` keeps the length of the row and every place it does not
/// write.
pub proof fn lemma_spec_eval_fn_56_frame<W: WitnessTypeSet<Mersenne31Field>>(
    s: (Seq<W::Field>, Seq<(Seq<W::Field>, W::U16, usize)>, Seq<(Seq<W::Field>, W::U16, W::Mask)>),
    mem: Seq<W::Field>,
    lt: spec_fn(Seq<W::Field>, W::U16, nat) -> Seq<W::Field>,
    mlt: spec_fn(Seq<W::Field>, W::U16, W::Mask, nat) -> Seq<W::Field>,
    orc: spec_fn(Placeholder) -> W::U32,
)
    requires
        s.0.len() >= 87,
    ensures
        spec_eval_fn_56::<W>(s, mem, lt, mlt, orc).0.len() == s.0.len(),
        forall|j: int| 0 <= j < s.0.len() && j != 85 && j != 86 ==> #[trigger] spec_eval_fn_56::<W>(s, mem, lt, mlt, orc).0[j] == s.0[j],
{
    reveal(spec_eval_fn_56);
}

/// `spec_eval_fn_57` keeps the length of the row and every place it does not
/// write.
pub proof fn lemma_spec_eval_fn_57_frame<W: WitnessTypeSet<Mersenne31Field>>(
    s: (Seq<W::Field>, Seq<(Seq<W::Field>, W::U16, usize)>, Seq<(Seq<W::Field>, W::U16, W::Mask)>),
    mem: Seq<W::Field>,
    lt: spec_fn(Seq<W::Field>, W::U16, nat) -> Seq<W::Field>,
    mlt: spec_fn(Seq<W::Field>, W::U16, W::Mask, nat) -> Seq<W::Field>,
    orc: spec_fn(Placeholder) -> W::U32,
)
    requires
        s.0.len() >= 91,
    ensures
        spec_eval_fn_57::<W>(s, mem, lt, mlt, orc).0.len() == s.0.len(),
        forall|j: int| 0 <= j < s.0.len() && j != 89 && j != 90 ==> #[trigger] spec_eval_fn_57::<W>(s, mem, lt, mlt, orc).0[j] == s.0[j],
{
    reveal(spec_eval_fn_57);
}

/// `spec_eval_fn_58` keeps the length of the row and every place it does not
/// write.
pub proof fn lemma_spec_eval_fn_58_frame<W: WitnessTypeSet<Mersenne31Field>>(
    s: (Seq<W::Field>, Seq<(Seq<W::Field>, W::U16, usize)>, Seq<(Seq<W::Field>, W::U16, W::Mask)>),
    mem: Seq<W::Field>,
    lt: spec_fn(Seq<W::Field>, W::U16, nat) -> Seq<W::Field>,
    mlt: spec_fn(Seq<W::Field>, W::U16, W::Mask, nat) -> Seq<W::Field>,
    orc: spec_fn(Placeholder) -> W::U32,
)
    requires
        s.0.len() >= 82,
    ensures
        spec_eval_fn_58::<W>(s, mem, lt, mlt, orc).0.len() == s.0.len(),
        forall|j: int| 0 <= j < s.0.len() && j != 80 && j != 81 ==> #[trigger] spec_eval_fn_58::<W>(s, mem, lt, mlt, orc).0[j] == s.0[j],
{
    reveal(spec_eval_fn_58);
}

/// `spec_eval_fn_59` keeps the length of the row and every place it does not
/// write.
pub proof fn lemma_spec_eval_fn_59_frame<W: WitnessTypeSet<Mersenne31Field>>(
    s: (Seq<W::Field>, Seq<(Seq<W::Field>, W::U16, usize)>, Seq<(Seq<W::Field>, W::U16, W::Mask)>),
    mem: Seq<W::Field>,
    lt: spec_fn(Seq<W::Field>, W::U16, nat) -> Seq<W::Field>,
    mlt: spec_fn(Seq<W::Field>, W::U16, W::Mask, nat) -> Seq<W::Field>,
    orc: spec_fn(Placeholder) -> W::U32,
)
    requires
        s.0.len() >= 97,
    ensures
        spec_eval_fn_59::<W>(s, mem, lt, mlt, orc).0.len() == s.0.len(),
        forall|j: int| 0 <= j < s.0.len() && j != 96 ==> #[trigger] spec_eval_fn_59::<W>(s, mem, lt, mlt, orc).0[j] == s.0[j],
{
    reveal(spec_eval_fn_59);
}

/// `spec_eval_fn_60` keeps the length of the row and every place it does not
/// write.
pub proof fn lemma_spec_eval_fn_60_frame<W: WitnessTypeSet<Mersenne31Field>>(
    s: (Seq<W::Field>, Seq<(Seq<W::Field>, W::U16, usize)>, Seq<(Seq<W::Field>, W::U16, W::Mask)>),
    mem: Seq<W::Field>,
    lt: spec_fn(Seq<W::Field>, W::U16, nat) -> Seq<W::Field>,
    mlt: spec_fn(Seq<W::Field>, W::U16, W::Mask, nat) -> Seq<W::Field>,
    orc: spec_fn(Placeholder) -> W::U32,
)
    requires
        s.0.len() >= 98,
    ensures
        spec_eval_fn_60::<W>(s, mem, lt, mlt, orc).0.len() == s.0.len(),
        forall|j: int| 0 <= j < s.0.len() && j != 97 ==> #[trigger] spec_eval_fn_60::<W>(s, mem, lt, mlt, orc).0[j] == s.0[j],
{
    reveal(spec_eval_fn_60);
}

/// `spec_eval_fn_64` keeps the length of the row and every place it does not
/// write.
pub proof fn lemma_spec_eval_fn_64_frame<W: WitnessTypeSet<Mersenne31Field>>(
    s: (Seq<W::Field>, Seq<(Seq<W::Field>, W::U16, usize)>, Seq<(Seq<W::Field>, W::U16, W::Mask)>),
    mem: Seq<W::Field>,
    lt: spec_fn(Seq<W::Field>, W::U16, nat) -> Seq<W::Field>,
    mlt: spec_fn(Seq<W::Field>, W::U16, W::Mask, nat) -> Seq<W::Field>,
    orc: spec_fn(Placeholder) -> W::U32,
)
    requires
        s.0.len() >= 79,
    ensures
        spec_eval_fn_64::<W>(s, mem, lt, mlt, orc).0.len() == s.0.len(),
        forall|j: int| 0 <= j < s.0.len() && j != 56 ==> #[trigger] spec_eval_fn_64::<W>(s, mem, lt, mlt, orc).0[j] == s.0[j],
{
    reveal(spec_eval_fn_64);
}

/// `spec_eval_fn_65` keeps the length of the row and every place it does not
/// write.
pub proof fn lemma_spec_eval_fn_65_frame<W: WitnessTypeSet<Mersenne31Field>>(
    s: (Seq<W::Field>, Seq<(Seq<W::Field>, W::U16, usize)>, Seq<(Seq<W::Field>, W::U16, W::Mask)>),
    mem: Seq<W::Field>,
    lt: spec_fn(Seq<W::Field>, W::U16, nat) -> Seq<W::Field>,
    mlt: spec_fn(Seq<W::Field>, W::U16, W::Mask, nat) -> Seq<W::Field>,
    orc: spec_fn(Placeholder) -> W::U32,
)
    requires
        s.0.len() >= 80,
    ensures
        spec_eval_fn_65::<W>(s, mem, lt, mlt, orc).0.len() == s.0.len(),
        forall|j: int| 0 <= j < s.0.len() && j != 57 ==> #[trigger] spec_eval_fn_65::<W>(s, mem, lt, mlt, orc).0[j] == s.0[j],
{
    reveal(spec_eval_fn_65);
}

/// `spec_eval_fn_66` keeps the length of the row and every place it does not
/// write.
pub proof fn lemma_spec_eval_fn_66_frame<W: WitnessTypeSet<Mersenne31Field>>(
    s: (Seq<W::Field>, Seq<(Seq<W::Field>, W::U16, usize)>, Seq<(Seq<W::Field>, W::U16, W::Mask)>),
    mem: Seq<W::Field>,
    lt: spec_fn(Seq<W::Field>, W::U16, nat) -> Seq<W::Field>,
    mlt: spec_fn(Seq<W::Field>, W::U16, W::Mask, nat) -> Seq<W::Field>,
    orc: spec_fn(Placeholder) -> W::U32,
)
    requires
        s.0.len() >= 59,
    ensures
        spec_eval_fn_66::<W>(s, mem, lt, mlt, orc).0.len() == s.0.len(),
        spec_eval_fn_66::<W>(s, mem, lt, mlt, orc).0 == s.0,
{
    reveal(spec_eval_fn_66);
}

/// `spec_eval_fn_67` keeps the length of the row and every place it does not
/// write.
pub proof fn lemma_spec_eval_fn_67_frame<W: WitnessTypeSet<Mersenne31Field>>(
    s: (Seq<W::Field>, Seq<(Seq<W::Field>, W::U16, usize)>, Seq<(Seq<W::Field>, W::U16, W::Mask)>),
    mem: Seq<W::Field>,
    lt: spec_fn(Seq<W::Field>, W::U16, nat) -> Seq<W::Field>,
    mlt: spec_fn(Seq<W::Field>, W::U16, W::Mask, nat) -> Seq<W::Field>,
    orc: spec_fn(Placeholder) -> W::U32,
)
    requires
        s.0.len() >= 80,
    ensures
        spec_eval_fn_67::<W>(s, mem, lt, mlt, orc).0.len() == s.0.len(),
        forall|j: int| 0 <= j < s.0.len() && j != 59 ==> #[trigger] spec_eval_fn_67::<W>(s, mem, lt, mlt, orc).0[j] == s.0[j],
{
    reveal(spec_eval_fn_67);
}

/// `spec_eval_fn_68` keeps the length of the row and every place it does not
/// write.
pub proof fn lemma_spec_eval_fn_68_frame<W: WitnessTypeSet<Mersenne31Field>>(
    s: (Seq<W::Field>, Seq<(Seq<W::Field>, W::U16, usize)>, Seq<(Seq<W::Field>, W::U16, W::Mask)>),
    mem: Seq<W::Field>,
    lt: spec_fn(Seq<W::Field>, W::U16, nat) -> Seq<W::Field>,
    mlt: spec_fn(Seq<W::Field>, W::U16, W::Mask, nat) -> Seq<W::Field>,
    orc: spec_fn(Placeholder) -> W::U32,
)
    requires
        s.0.len() >= 81,
    ensures
        spec_eval_fn_68::<W>(s, mem, lt, mlt, orc).0.len() == s.0.len(),
        forall|j: int| 0 <= j < s.0.len() && j != 60 ==> #[trigger] spec_eval_fn_68::<W>(s, mem, lt, mlt, orc).0[j] == s.0[j],
{
    reveal(spec_eval_fn_68);
}

/// `spec_eval_fn_69` keeps the length of the row and every place it does not
/// write.
pub proof fn lemma_spec_eval_fn_69_frame<W: WitnessTypeSet<Mersenne31Field>>(
    s: (Seq<W::Field>, Seq<(Seq<W::Field>, W::U16, usize)>, Seq<(Seq<W::Field>, W::U16, W::Mask)>),
    mem: Seq<W::Field>,
    lt: spec_fn(Seq<W::Field>, W::U16, nat) -> Seq<W::Field>,
    mlt: spec_fn(Seq<W::Field>, W::U16, W::Mask, nat) -> Seq<W::Field>,
    orc: spec_fn(Placeholder) -> W::U32,
)
    requires
        s.0.len() >= 82,
    ensures
        spec_eval_fn_69::<W>(s, mem, lt, mlt, orc).0.len() == s.0.len(),
        forall|j: int| 0 <= j < s.0.len() && j != 61 ==> #[trigger] spec_eval_fn_69::<W>(s, mem, lt, mlt, orc).0[j] == s.0[j],
{
    reveal(spec_eval_fn_69);
}

/// `spec_eval_fn_70` keeps the length of the row and every place it does not
/// write.
pub proof fn lemma_spec_eval_fn_70_frame<W: WitnessTypeSet<Mersenne31Field>>(
    s: (Seq<W::Field>, Seq<(Seq<W::Field>, W::U16, usize)>, Seq<(Seq<W::Field>, W::U16, W::Mask)>),
    mem: Seq<W::Field>,
    lt: spec_fn(Seq<W::Field>, W::U16, nat) -> Seq<W::Field>,
    mlt: spec_fn(Seq<W::Field>, W::U16, W::Mask, nat) -> Seq<W::Field>,
    orc: spec_fn(Placeholder) -> W::U32,
)
    requires
        s.0.len() >= 63,
    ensures
        spec_eval_fn_70::<W>(s, mem, lt, mlt, orc).0.len() == s.0.len(),
        spec_eval_fn_70::<W>(s, mem, lt, mlt, orc).0 == s.0,
{
    reveal(spec_eval_fn_70);
}

/// `spec_eval_fn_71` keeps the length of the row and every place it does not
/// write.
pub proof fn lemma_spec_eval_fn_71_frame<W: WitnessTypeSet<Mersenne31Field>>(
    s: (Seq<W::Field>, Seq<(Seq<W::Field>, W::U16, usize)>, Seq<(Seq<W::Field>, W::U16, W::Mask)>),
    mem: Seq<W::Field>,
    lt: spec_fn(Seq<W::Field>, W::U16, nat) -> Seq<W::Field>,
    mlt: spec_fn(Seq<W::Field>, W::U16, W::Mask, nat) -> Seq<W::Field>,
    orc: spec_fn(Placeholder) -> W::U32,
)
    requires
        s.0.len() >= 79,
    ensures
        spec_eval_fn_71::<W>(s, mem, lt, mlt, orc).0.len() == s.0.len(),
        forall|j: int| 0 <= j < s.0.len() && j != 63 ==> #[trigger] spec_eval_fn_71::<W>(s, mem, lt, mlt, orc).0[j] == s.0[j],
{
    reveal(spec_eval_fn_71);
}

/// `spec_eval_fn_72` keeps the length of the row and every place it does not
/// write.
pub proof fn lemma_spec_eval_fn_72_frame<W: WitnessTypeSet<Mersenne31Field>>(
    s: (Seq<W::Field>, Seq<(Seq<W::Field>, W::U16, usize)>, Seq<(Seq<W::Field>, W::U16, W::Mask)>),
    mem: Seq<W::Field>,
    lt: spec_fn(Seq<W::Field>, W::U16, nat) -> Seq<W::Field>,
    mlt: spec_fn(Seq<W::Field>, W::U16, W::Mask, nat) -> Seq<W::Field>,
    orc: spec_fn(Placeholder) -> W::U32,
)
    requires
        s.0.len() >= 86,
    ensures
        spec_eval_fn_72::<W>(s, mem, lt, mlt, orc).0.len() == s.0.len(),
        forall|j: int| 0 <= j < s.0.len() && j != 64 ==> #[trigger] spec_eval_fn_72::<W>(s, mem, lt, mlt, orc).0[j] == s.0[j],
{
    reveal(spec_eval_fn_72);
}

/// `spec_eval_fn_73` keeps the length of the row and every place it does not
/// write.
pub proof fn lemma_spec_eval_fn_73_frame<W: WitnessTypeSet<Mersenne31Field>>(
    s: (Seq<W::Field>, Seq<(Seq<W::Field>, W::U16, usize)>, Seq<(Seq<W::Field>, W::U16, W::Mask)>),
    mem: Seq<W::Field>,
    lt: spec_fn(Seq<W::Field>, W::U16, nat) -> Seq<W::Field>,
    mlt: spec_fn(Seq<W::Field>, W::U16, W::Mask, nat) -> Seq<W::Field>,
    orc: spec_fn(Placeholder) -> W::U32,
)
    requires
        s.0.len() >= 87,
    ensures
        spec_eval_fn_73::<W>(s, mem, lt, mlt, orc).0.len() == s.0.len(),
        forall|j: int| 0 <= j < s.0.len() && j != 65 ==> #[trigger] spec_eval_fn_73::<W>(s, mem, lt, mlt, orc).0[j] == s.0[j],
{
    reveal(spec_eval_fn_73);
}

/// `spec_eval_fn_74` keeps the length of the row and every place it does not
/// write.
pub proof fn lemma_spec_eval_fn_74_frame<W: WitnessTypeSet<Mersenne31Field>>(
    s: (Seq<W::Field>, Seq<(Seq<W::Field>, W::U16, usize)>, Seq<(Seq<W::Field>, W::U16, W::Mask)>),
    mem: Seq<W::Field>,
    lt: spec_fn(Seq<W::Field>, W::U16, nat) -> Seq<W::Field>,
    mlt: spec_fn(Seq<W::Field>, W::U16, W::Mask, nat) -> Seq<W::Field>,
    orc: spec_fn(Placeholder) -> W::U32,
)
    requires
        s.0.len() >= 67,
    ensures
        spec_eval_fn_74::<W>(s, mem, lt, mlt, orc).0.len() == s.0.len(),
        spec_eval_fn_74::<W>(s, mem, lt, mlt, orc).0 == s.0,
{
    reveal(spec_eval_fn_74);
}

/// `spec_eval_fn_75` keeps the length of the row and every place it does not
/// write.
pub proof fn lemma_spec_eval_fn_75_frame<W: WitnessTypeSet<Mersenne31Field>>(
    s: (Seq<W::Field>, Seq<(Seq<W::Field>, W::U16, usize)>, Seq<(Seq<W::Field>, W::U16, W::Mask)>),
    mem: Seq<W::Field>,
    lt: spec_fn(Seq<W::Field>, W::U16, nat) -> Seq<W::Field>,
    mlt: spec_fn(Seq<W::Field>, W::U16, W::Mask, nat) -> Seq<W::Field>,
    orc: spec_fn(Placeholder) -> W::U32,
)
    requires
        s.0.len() >= 79,
    ensures
        spec_eval_fn_75::<W>(s, mem, lt, mlt, orc).0.len() == s.0.len(),
        forall|j: int| 0 <= j < s.0.len() && j != 67 ==> #[trigger] spec_eval_fn_75::<W>(s, mem, lt, mlt, orc).0[j] == s.0[j],
{
    reveal(spec_eval_fn_75);
}

/// `spec_eval_fn_76` keeps the length of the row and every place it does not
/// write.
pub proof fn lemma_spec_eval_fn_76_frame<W: WitnessTypeSet<Mersenne31Field>>(
    s: (Seq<W::Field>, Seq<(Seq<W::Field>, W::U16, usize)>, Seq<(Seq<W::Field>, W::U16, W::Mask)>),
    mem: Seq<W::Field>,
    lt: spec_fn(Seq<W::Field>, W::U16, nat) -> Seq<W::Field>,
    mlt: spec_fn(Seq<W::Field>, W::U16, W::Mask, nat) -> Seq<W::Field>,
    orc: spec_fn(Placeholder) -> W::U32,
)
    requires
        s.0.len() >= 90,
    ensures
        spec_eval_fn_76::<W>(s, mem, lt, mlt, orc).0.len() == s.0.len(),
        forall|j: int| 0 <= j < s.0.len() && j != 68 ==> #[trigger] spec_eval_fn_76::<W>(s, mem, lt, mlt, orc).0[j] == s.0[j],
{
    reveal(spec_eval_fn_76);
}

/// `spec_eval_fn_77` keeps the length of the row and every place it does not
/// write.
pub proof fn lemma_spec_eval_fn_77_frame<W: WitnessTypeSet<Mersenne31Field>>(
    s: (Seq<W::Field>, Seq<(Seq<W::Field>, W::U16, usize)>, Seq<(Seq<W::Field>, W::U16, W::Mask)>),
    mem: Seq<W::Field>,
    lt: spec_fn(Seq<W::Field>, W::U16, nat) -> Seq<W::Field>,
    mlt: spec_fn(Seq<W::Field>, W::U16, W::Mask, nat) -> Seq<W::Field>,
    orc: spec_fn(Placeholder) -> W::U32,
)
    requires
        s.0.len() >= 91,
    ensures
        spec_eval_fn_77::<W>(s, mem, lt, mlt, orc).0.len() == s.0.len(),
        forall|j: int| 0 <= j < s.0.len() && j != 69 ==> #[trigger] spec_eval_fn_77::<W>(s, mem, lt, mlt, orc).0[j] == s.0[j],
{
    reveal(spec_eval_fn_77);
}

/// `spec_eval_fn_78` keeps the length of the row and every place it does not
/// write.
pub proof fn lemma_spec_eval_fn_78_frame<W: WitnessTypeSet<Mersenne31Field>>(
    s: (Seq<W::Field>, Seq<(Seq<W::Field>, W::U16, usize)>, Seq<(Seq<W::Field>, W::U16, W::Mask)>),
    mem: Seq<W::Field>,
    lt: spec_fn(Seq<W::Field>, W::U16, nat) -> Seq<W::Field>,
    mlt: spec_fn(Seq<W::Field>, W::U16, W::Mask, nat) -> Seq<W::Field>,
    orc: spec_fn(Placeholder) -> W::U32,
)
    requires
        s.0.len() >= 71,
    ensures
        spec_eval_fn_78::<W>(s, mem, lt, mlt, orc).0.len() == s.0.len(),
        spec_eval_fn_78::<W>(s, mem, lt, mlt, orc).0 == s.0,
{
    reveal(spec_eval_fn_78);
}

/// `spec_eval_fn_79` keeps the length of the row and every place it does not
/// write.
pub proof fn lemma_spec_eval_fn_79_frame<W: WitnessTypeSet<Mersenne31Field>>(
    s: (Seq<W::Field>, Seq<(Seq<W::Field>, W::U16, usize)>, Seq<(Seq<W::Field>, W::U16, W::Mask)>),
    mem: Seq<W::Field>,
    lt: spec_fn(Seq<W::Field>, W::U16, nat) -> Seq<W::Field>,
    mlt: spec_fn(Seq<W::Field>, W::U16, W::Mask, nat) -> Seq<W::Field>,
    orc: spec_fn(Placeholder) -> W::U32,
)
    requires
        s.0.len() >= 83,
    ensures
        spec_eval_fn_79::<W>(s, mem, lt, mlt, orc).0.len() == s.0.len(),
        forall|j: int| 0 <= j < s.0.len() && j != 82 ==> #[trigger] spec_eval_fn_79::<W>(s, mem, lt, mlt, orc).0[j] == s.0[j],
{
    reveal(spec_eval_fn_79);
}

/// `spec_eval_fn_80` keeps the length of the row and every place it does not
/// write.
pub proof fn lemma_spec_eval_fn_80_frame<W: WitnessTypeSet<Mersenne31Field>>(
    s: (Seq<W::Field>, Seq<(Seq<W::Field>, W::U16, usize)>, Seq<(Seq<W::Field>, W::U16, W::Mask)>),
    mem: Seq<W::Field>,
    lt: spec_fn(Seq<W::Field>, W::U16, nat) -> Seq<W::Field>,
    mlt: spec_fn(Seq<W::Field>, W::U16, W::Mask, nat) -> Seq<W::Field>,
    orc: spec_fn(Placeholder) -> W::U32,
)
    requires
        s.0.len() >= 84,
    ensures
        spec_eval_fn_80::<W>(s, mem, lt, mlt, orc).0.len() == s.0.len(),
        forall|j: int| 0 <= j < s.0.len() && j != 83 ==> #[trigger] spec_eval_fn_80::<W>(s, mem, lt, mlt, orc).0[j] == s.0[j],
{
    reveal(spec_eval_fn_80);
}

/// `spec_eval_fn_81` keeps the length of the row and every place it does not
/// write.
pub proof fn lemma_spec_eval_fn_81_frame<W: WitnessTypeSet<Mersenne31Field>>(
    s: (Seq<W::Field>, Seq<(Seq<W::Field>, W::U16, usize)>, Seq<(Seq<W::Field>, W::U16, W::Mask)>),
    mem: Seq<W::Field>,
    lt: spec_fn(Seq<W::Field>, W::U16, nat) -> Seq<W::Field>,
    mlt: spec_fn(Seq<W::Field>, W::U16, W::Mask, nat) -> Seq<W::Field>,
    orc: spec_fn(Placeholder) -> W::U32,
)
    requires
        s.0.len() >= 85,
    ensures
        spec_eval_fn_81::<W>(s, mem, lt, mlt, orc).0.len() == s.0.len(),
        forall|j: int| 0 <= j < s.0.len() && j != 84 ==> #[trigger] spec_eval_fn_81::<W>(s, mem, lt, mlt, orc).0[j] == s.0[j],
{
    reveal(spec_eval_fn_81);
}

/// `spec_eval_fn_82` keeps the length of the row and every place it does not
/// write.
pub proof fn lemma_spec_eval_fn_82_frame<W: WitnessTypeSet<Mersenne31Field>>(
    s: (Seq<W::Field>, Seq<(Seq<W::Field>, W::U16, usize)>, Seq<(Seq<W::Field>, W::U16, W::Mask)>),
    mem: Seq<W::Field>,
    lt: spec_fn(Seq<W::Field>, W::U16, nat) -> Seq<W::Field>,
    mlt: spec_fn(Seq<W::Field>, W::U16, W::Mask, nat) -> Seq<W::Field>,
    orc: spec_fn(Placeholder) -> W::U32,
)
    requires
        s.0.len() >= 88,
    ensures
        spec_eval_fn_82::<W>(s, mem, lt, mlt, orc).0.len() == s.0.len(),
        forall|j: int| 0 <= j < s.0.len() && j != 87 ==> #[trigger] spec_eval_fn_82::<W>(s, mem, lt, mlt, orc).0[j] == s.0[j],
{
    reveal(spec_eval_fn_82);
}

/// `spec_eval_fn_83` keeps the length of the row and every place it does not
/// write.
pub proof fn lemma_spec_eval_fn_83_frame<W: WitnessTypeSet<Mersenne31Field>>(
    s: (Seq<W::Field>, Seq<(Seq<W::Field>, W::U16, usize)>, Seq<(Seq<W::Field>, W::U16, W::Mask)>),
    mem: Seq<W::Field>,
    lt: spec_fn(Seq<W::Field>, W::U16, nat) -> Seq<W::Field>,
    mlt: spec_fn(Seq<W::Field>, W::U16, W::Mask, nat) -> Seq<W::Field>,
    orc: spec_fn(Placeholder) -> W::U32,
)
    requires
        s.0.len() >= 89,
    ensures
        spec_eval_fn_83::<W>(s, mem, lt, mlt, orc).0.len() == s.0.len(),
        forall|j: int| 0 <= j < s.0.len() && j != 88 ==> #[trigger] spec_eval_fn_83::<W>(s, mem, lt, mlt, orc).0[j] == s.0[j],
{
    reveal(spec_eval_fn_83);
}

/// `spec_eval_fn_84` keeps the length of the row and every place it does not
/// write.
pub proof fn lemma_spec_eval_fn_84_frame<W: WitnessTypeSet<Mersenne31Field>>(
    s: (Seq<W::Field>, Seq<(Seq<W::Field>, W::U16, usize)>, Seq<(Seq<W::Field>, W::U16, W::Mask)>),
    mem: Seq<W::Field>,
    lt: spec_fn(Seq<W::Field>, W::U16, nat) -> Seq<W::Field>,
    mlt: spec_fn(Seq<W::Field>, W::U16, W::Mask, nat) -> Seq<W::Field>,
    orc: spec_fn(Placeholder) -> W::U32,
)
    requires
        s.0.len() >= 102,
    ensures
        spec_eval_fn_84::<W>(s, mem, lt, mlt, orc).0.len() == s.0.len(),
        forall|j: int| 0 <= j < s.0.len() && j != 101 ==> #[trigger] spec_eval_fn_84::<W>(s, mem, lt, mlt, orc).0[j] == s.0[j],
{
    reveal(spec_eval_fn_84);
}

/// `spec_eval_fn_85` keeps the length of the row and every place it does not
/// write.
pub proof fn lemma_spec_eval_fn_85_frame<W: WitnessTypeSet<Mersenne31Field>>(
    s: (Seq<W::Field>, Seq<(Seq<W::Field>, W::U16, usize)>, Seq<(Seq<W::Field>, W::U16, W::Mask)>),
    mem: Seq<W::Field>,
    lt: spec_fn(Seq<W::Field>, W::U16, nat) -> Seq<W::Field>,
    mlt: spec_fn(Seq<W::Field>, W::U16, W::Mask, nat) -> Seq<W::Field>,
    orc: spec_fn(Placeholder) -> W::U32,
)
    requires
        s.0.len() >= 103,
    ensures
        spec_eval_fn_85::<W>(s, mem, lt, mlt, orc).0.len() == s.0.len(),
        forall|j: int| 0 <= j < s.0.len() && j != 102 ==> #[trigger] spec_eval_fn_85::<W>(s, mem, lt, mlt, orc).0[j] == s.0[j],
{
    reveal(spec_eval_fn_85);
}

/// `spec_eval_fn_86` keeps the length of the row and every place it does not
/// write.
pub proof fn lemma_spec_eval_fn_86_frame<W: WitnessTypeSet<Mersenne31Field>>(
    s: (Seq<W::Field>, Seq<(Seq<W::Field>, W::U16, usize)>, Seq<(Seq<W::Field>, W::U16, W::Mask)>),
    mem: Seq<W::Field>,
    lt: spec_fn(Seq<W::Field>, W::U16, nat) -> Seq<W::Field>,
    mlt: spec_fn(Seq<W::Field>, W::U16, W::Mask, nat) -> Seq<W::Field>,
    orc: spec_fn(Placeholder) -> W::U32,
)
    requires
        s.0.len() >= 104,
    ensures
        spec_eval_fn_86::<W>(s, mem, lt, mlt, orc).0.len() == s.0.len(),
        forall|j: int| 0 <= j < s.0.len() && j != 103 ==> #[trigger] spec_eval_fn_86::<W>(s, mem, lt, mlt, orc).0[j] == s.0[j],
{
    reveal(spec_eval_fn_86);
}

/// `spec_eval_fn_87` keeps the length of the row and every place it does not
/// write.
pub proof fn lemma_spec_eval_fn_87_frame<W: WitnessTypeSet<Mersenne31Field>>(
    s: (Seq<W::Field>, Seq<(Seq<W::Field>, W::U16, usize)>, Seq<(Seq<W::Field>, W::U16, W::Mask)>),
    mem: Seq<W::Field>,
    lt: spec_fn(Seq<W::Field>, W::U16, nat) -> Seq<W::Field>,
    mlt: spec_fn(Seq<W::Field>, W::U16, W::Mask, nat) -> Seq<W::Field>,
    orc: spec_fn(Placeholder) -> W::U32,
)
    requires
        s.0.len() >= 105,
    ensures
        spec_eval_fn_87::<W>(s, mem, lt, mlt, orc).0.len() == s.0.len(),
        forall|j: int| 0 <= j < s.0.len() && j != 104 ==> #[trigger] spec_eval_fn_87::<W>(s, mem, lt, mlt, orc).0[j] == s.0[j],
{
    reveal(spec_eval_fn_87);
}

/// The whole evaluation keeps the length of the row and every place that
/// no step writes.
#[verifier::rlimit(60)]
pub proof fn lemma_spec_evaluate_witness_fn_frame<W: WitnessTypeSet<Mersenne31Field>>(
    s: (Seq<W::Field>, Seq<(Seq<W::Field>, W::U16, usize)>, Seq<(Seq<W::Field>, W::U16, W::Mask)>),
    mem: Seq<W::Field>,
    lt: spec_fn(Seq<W::Field>, W::U16, nat) -> Seq<W::Field>,
    mlt: spec_fn(Seq<W::Field>, W::U16, W::Mask, nat) -> Seq<W::Field>,
    orc: spec_fn(Placeholder) -> W::U32,
)
    requires
        s.0.len() >= 105,
    ensures
        spec_evaluate_witness_fn::<W>(s, mem, lt, mlt, orc).0.len() == s.0.len(),
        forall|j: int|
            0 <= j < s.0.len() && !written_by_witness_fn(j) ==> #[trigger] spec_evaluate_witness_fn::<W>(
                s,
                mem,
                lt,
                mlt,
                orc,
            ).0[j] == s.0[j],
{
    let s0 = s;
    lemma_spec_eval_fn_1_frame::<W>(s0, mem, lt, mlt, orc);
    let s1 = spec_eval_fn_1::<W>(s0, mem, lt, mlt, orc);
    lemma_spec_eval_fn_8_frame::<W>(s1, mem, lt, mlt, orc);
    let s2 = spec_eval_fn_8::<W>(s1, mem, lt, mlt, orc);
    lemma_spec_eval_fn_9_frame::<W>(s2, mem, lt, mlt, orc);
    let s3 = spec_eval_fn_9::<W>(s2, mem, lt, mlt, orc);
    lemma_spec_eval_fn_10_frame::<W>(s3, mem, lt, mlt, orc);
    let s4 = spec_eval_fn_10::<W>(s3, mem, lt, mlt, orc);
    lemma_spec_eval_fn_11_frame::<W>(s4, mem, lt, mlt, orc);
    let s5 = spec_eval_fn_11::<W>(s4, mem, lt, mlt, orc);
    lemma_spec_eval_fn_12_frame::<W>(s5, mem, lt, mlt, orc);
    let s6 = spec_eval_fn_12::<W>(s5, mem, lt, mlt, orc);
    lemma_spec_eval_fn_13_frame::<W>(s6, mem, lt, mlt, orc);
    let s7 = spec_eval_fn_13::<W>(s6, mem, lt, mlt, orc);
    lemma_spec_eval_fn_14_frame::<W>(s7, mem, lt, mlt, orc);
    let s8 = spec_eval_fn_14::<W>(s7, mem, lt, mlt, orc);
    lemma_spec_eval_fn_15_frame::<W>(s8, mem, lt, mlt, orc);
    let s9 = spec_eval_fn_15::<W>(s8, mem, lt, mlt, orc);
    lemma_spec_eval_fn_16_frame::<W>(s9, mem, lt, mlt, orc);
    let s10 = spec_eval_fn_16::<W>(s9, mem, lt, mlt, orc);
    lemma_spec_eval_fn_17_frame::<W>(s10, mem, lt, mlt, orc);
    let s11 = spec_eval_fn_17::<W>(s10, mem, lt, mlt, orc);
    lemma_spec_eval_fn_18_frame::<W>(s11, mem, lt, mlt, orc);
    let s12 = spec_eval_fn_18::<W>(s11, mem, lt, mlt, orc);
    lemma_spec_eval_fn_19_frame::<W>(s12, mem, lt, mlt, orc);
    let s13 = spec_eval_fn_19::<W>(s12, mem, lt, mlt, orc);
    lemma_spec_eval_fn_20_frame::<W>(s13, mem, lt, mlt, orc);
    let s14 = spec_eval_fn_20::<W>(s13, mem, lt, mlt, orc);
    lemma_spec_eval_fn_21_frame::<W>(s14, mem, lt, mlt, orc);
    let s15 = spec_eval_fn_21::<W>(s14, mem, lt, mlt, orc);
    lemma_spec_eval_fn_22_frame::<W>(s15, mem, lt, mlt, orc);
    let s16 = spec_eval_fn_22::<W>(s15, mem, lt, mlt, orc);
    lemma_spec_eval_fn_23_frame::<W>(s16, mem, lt, mlt, orc);
    let s17 = spec_eval_fn_23::<W>(s16, mem, lt, mlt, orc);
    lemma_spec_eval_fn_24_frame::<W>(s17, mem, lt, mlt, orc);
    let s18 = spec_eval_fn_24::<W>(s17, mem, lt, mlt, orc);
    lemma_spec_eval_fn_25_frame::<W>(s18, mem, lt, mlt, orc);
    let s19 = spec_eval_fn_25::<W>(s18, mem, lt, mlt, orc);
    lemma_spec_eval_fn_26_frame::<W>(s19, mem, lt, mlt, orc);
    let s20 = spec_eval_fn_26::<W>(s19, mem, lt, mlt, orc);
    lemma_spec_eval_fn_27_frame::<W>(s20, mem, lt, mlt, orc);
    let s21 = spec_eval_fn_27::<W>(s20, mem, lt, mlt, orc);
    lemma_spec_eval_fn_28_frame::<W>(s21, mem, lt, mlt, orc);
    let s22 = spec_eval_fn_28::<W>(s21, mem, lt, mlt, orc);
    lemma_spec_eval_fn_29_frame::<W>(s22, mem, lt, mlt, orc);
    let s23 = spec_eval_fn_29::<W>(s22, mem, lt, mlt, orc);
    lemma_spec_eval_fn_30_frame::<W>(s23, mem, lt, mlt, orc);
    let s24 = spec_eval_fn_30::<W>(s23, mem, lt, mlt, orc);
    lemma_spec_eval_fn_31_frame::<W>(s24, mem, lt, mlt, orc);
    let s25 = spec_eval_fn_31::<W>(s24, mem, lt, mlt, orc);
    lemma_spec_eval_fn_32_frame::<W>(s25, mem, lt, mlt, orc);
    let s26 = spec_eval_fn_32::<W>(s25, mem, lt, mlt, orc);
    lemma_spec_eval_fn_34_frame::<W>(s26, mem, lt, mlt, orc);
    let s27 = spec_eval_fn_34::<W>(s26, mem, lt, mlt, orc);
    lemma_spec_eval_fn_35_frame::<W>(s27, mem, lt, mlt, orc);
    let s28 = spec_eval_fn_35::<W>(s27, mem, lt, mlt, orc);
    lemma_spec_eval_fn_36_frame::<W>(s28, mem, lt, mlt, orc);
    let s29 = spec_eval_fn_36::<W>(s28, mem, lt, mlt, orc);
    lemma_spec_eval_fn_38_frame::<W>(s29, mem, lt, mlt, orc);
    let s30 = spec_eval_fn_38::<W>(s29, mem, lt, mlt, orc);
    lemma_spec_eval_fn_39_frame::<W>(s30, mem, lt, mlt, orc);
    let s31 = spec_eval_fn_39::<W>(s30, mem, lt, mlt, orc);
    lemma_spec_eval_fn_40_frame::<W>(s31, mem, lt, mlt, orc);
    let s32 = spec_eval_fn_40::<W>(s31, mem, lt, mlt, orc);
    lemma_spec_eval_fn_41_frame::<W>(s32, mem, lt, mlt, orc);
    let s33 = spec_eval_fn_41::<W>(s32, mem, lt, mlt, orc);
    lemma_spec_eval_fn_42_frame::<W>(s33, mem, lt, mlt, orc);
    let s34 = spec_eval_fn_42::<W>(s33, mem, lt, mlt, orc);
    lemma_spec_eval_fn_43_frame::<W>(s34, mem, lt, mlt, orc);
    let s35 = spec_eval_fn_43::<W>(s34, mem, lt, mlt, orc);
    lemma_spec_eval_fn_44_frame::<W>(s35, mem, lt, mlt, orc);
    let s36 = spec_eval_fn_44::<W>(s35, mem, lt, mlt, orc);
    lemma_spec_eval_fn_45_frame::<W>(s36, mem, lt, mlt, orc);
    let s37 = spec_eval_fn_45::<W>(s36, mem, lt, mlt, orc);
    lemma_spec_eval_fn_46_frame::<W>(s37, mem, lt, mlt, orc);
    let s38 = spec_eval_fn_46::<W>(s37, mem, lt, mlt, orc);
    lemma_spec_eval_fn_47_frame::<W>(s38, mem, lt, mlt, orc);
    let s39 = spec_eval_fn_47::<W>(s38, mem, lt, mlt, orc);
    lemma_spec_eval_fn_48_frame::<W>(s39, mem, lt, mlt, orc);
    let s40 = spec_eval_fn_48::<W>(s39, mem, lt, mlt, orc);
    lemma_spec_eval_fn_49_frame::<W>(s40, mem, lt, mlt, orc);
    let s41 = spec_eval_fn_49::<W>(s40, mem, lt, mlt, orc);
    lemma_spec_eval_fn_50_frame::<W>(s41, mem, lt, mlt, orc);
    let s42 = spec_eval_fn_50::<W>(s41, mem, lt, mlt, orc);
    lemma_spec_eval_fn_51_frame::<W>(s42, mem, lt, mlt, orc);
    let s43 = spec_eval_fn_51::<W>(s42, mem, lt, mlt, orc);
    lemma_spec_eval_fn_52_frame::<W>(s43, mem, lt, mlt, orc);
    let s44 = spec_eval_fn_52::<W>(s43, mem, lt, mlt, orc);
    lemma_spec_eval_fn_53_frame::<W>(s44, mem, lt, mlt, orc);
    let s45 = spec_eval_fn_53::<W>(s44, mem, lt, mlt, orc);
    lemma_spec_eval_fn_54_frame::<W>(s45, mem, lt, mlt, orc);
    let s46 = spec_eval_fn_54::<W>(s45, mem, lt, mlt, orc);
    lemma_spec_eval_fn_55_frame::<W>(s46, mem, lt, mlt, orc);
    let s47 = spec_eval_fn_55::<W>(s46, mem, lt, mlt, orc);
    lemma_spec_eval_fn_56_frame::<W>(s47, mem, lt, mlt, orc);
    let s48 = spec_eval_fn_56::<W>(s47, mem, lt, mlt, orc);
    lemma_spec_eval_fn_57_frame::<W>(s48, mem, lt, mlt, orc);
    let s49 = spec_eval_fn_57::<W>(s48, mem, lt, mlt, orc);
    lemma_spec_eval_fn_58_frame::<W>(s49, mem, lt, mlt, orc);
    let s50 = spec_eval_fn_58::<W>(s49, mem, lt, mlt, orc);
    lemma_spec_eval_fn_59_frame::<W>(s50, mem, lt, mlt, orc);
    let s51 = spec_eval_fn_59::<W>(s50, mem, lt, mlt, orc);
    lemma_spec_eval_fn_60_frame::<W>(s51, mem, lt, mlt, orc);
    let s52 = spec_eval_fn_60::<W>(s51, mem, lt, mlt, orc);
    lemma_spec_eval_fn_64_frame::<W>(s52, mem, lt, mlt, orc);
    let s53 = spec_eval_fn_64::<W>(s52, mem, lt, mlt, orc);
    lemma_spec_eval_fn_65_frame::<W>(s53, mem, lt, mlt, orc);
    let s54 = spec_eval_fn_65::<W>(s53, mem, lt, mlt, orc);
    lemma_spec_eval_fn_66_frame::<W>(s54, mem, lt, mlt, orc);
    let s55 = spec_eval_fn_66::<W>(s54, mem, lt, mlt, orc);
    lemma_spec_eval_fn_67_frame::<W>(s55, mem, lt, mlt, orc);
    let s56 = spec_eval_fn_67::<W>(s55, mem, lt, mlt, orc);
    lemma_spec_eval_fn_68_frame::<W>(s56, mem, lt, mlt, orc);
    let s57 = spec_eval_fn_68::<W>(s56, mem, lt, mlt, orc);
    lemma_spec_eval_fn_69_frame::<W>(s57, mem, lt, mlt, orc);
    let s58 = spec_eval_fn_69::<W>(s57, mem, lt, mlt, orc);
    lemma_spec_eval_fn_70_frame::<W>(s58, mem, lt, mlt, orc);
    let s59 = spec_eval_fn_70::<W>(s58, mem, lt, mlt, orc);
    lemma_spec_eval_fn_71_frame::<W>(s59, mem, lt, mlt, orc);
    let s60 = spec_eval_fn_71::<W>(s59, mem, lt, mlt, orc);
    lemma_spec_eval_fn_72_frame::<W>(s60, mem, lt, mlt, orc);
    let s61 = spec_eval_fn_72::<W>(s60, mem, lt, mlt, orc);
    lemma_spec_eval_fn_73_frame::<W>(s61, mem, lt, mlt, orc);
    let s62 = spec_eval_fn_73::<W>(s61, mem, lt, mlt, orc);
    lemma_spec_eval_fn_74_frame::<W>(s62, mem, lt, mlt, orc);
    let s63 = spec_eval_fn_74::<W>(s62, mem, lt, mlt, orc);
    lemma_spec_eval_fn_75_frame::<W>(s63, mem, lt, mlt, orc);
    let s64 = spec_eval_fn_75::<W>(s63, mem, lt, mlt, orc);
    lemma_spec_eval_fn_76_frame::<W>(s64, mem, lt, mlt, orc);
    let s65 = spec_eval_fn_76::<W>(s64, mem, lt, mlt, orc);
    lemma_spec_eval_fn_77_frame::<W>(s65, mem, lt, mlt, orc);
    let s66 = spec_eval_fn_77::<W>(s65, mem, lt, mlt, orc);
    lemma_spec_eval_fn_78_frame::<W>(s66, mem, lt, mlt, orc);
    let s67 = spec_eval_fn_78::<W>(s66, mem, lt, mlt, orc);
    lemma_spec_eval_fn_79_frame::<W>(s67, mem, lt, mlt, orc);
    let s68 = spec_eval_fn_79::<W>(s67, mem, lt, mlt, orc);
    lemma_spec_eval_fn_80_frame::<W>(s68, mem, lt, mlt, orc);
    let s69 = spec_eval_fn_80::<W>(s68, mem, lt, mlt, orc);
    lemma_spec_eval_fn_81_frame::<W>(s69, mem, lt, mlt, orc);
    let s70 = spec_eval_fn_81::<W>(s69, mem, lt, mlt, orc);
    lemma_spec_eval_fn_82_frame::<W>(s70, mem, lt, mlt, orc);
    let s71 = spec_eval_fn_82::<W>(s70, mem, lt, mlt, orc);
    lemma_spec_eval_fn_83_frame::<W>(s71, mem, lt, mlt, orc);
    let s72 = spec_eval_fn_83::<W>(s71, mem, lt, mlt, orc);
    lemma_spec_eval_fn_84_frame::<W>(s72, mem, lt, mlt, orc);
    let s73 = spec_eval_fn_84::<W>(s72, mem, lt, mlt, orc);
    lemma_spec_eval_fn_85_frame::<W>(s73, mem, lt, mlt, orc);
    let s74 = spec_eval_fn_85::<W>(s73, mem, lt, mlt, orc);
    lemma_spec_eval_fn_86_frame::<W>(s74, mem, lt, mlt, orc);
    let s75 = spec_eval_fn_86::<W>(s74, mem, lt, mlt, orc);
    lemma_spec_eval_fn_87_frame::<W>(s75, mem, lt, mlt, orc);
    let s76 = spec_eval_fn_87::<W>(s75, mem, lt, mlt, orc);
    assert(spec_evaluate_witness_fn::<W>(s, mem, lt, mlt, orc) == s76);
}

} // verus!

verus! {

/// With field values, `b - a * b` computed as the steps compute it is
/// `(1 - a) * b`.
proof fn lemma_scalar_complement_product<W: WitnessTypeSet<Mersenne31Field, Field = Mersenne31Field>>(
    a: Mersenne31Field,
    b: Mersenne31Field,
)
    ensures
        W::Field::spec_plus(
            W::Field::spec_minus(W::Field::spec_constant(Mersenne31Field(0u32)), W::Field::spec_times(a, b)),
            b,
        ).val() == ((1 - a.val()) * b.val()) % p(),
{
    let x = a.val();
    let y = b.val();
    let m = (x * y) % p();
    vstd::arithmetic::div_mod::lemma_small_mod(m as nat, p() as nat);
    vstd::arithmetic::div_mod::lemma_small_mod(0, p() as nat);
    let n = (0 - m) % p();
    vstd::arithmetic::div_mod::lemma_small_mod(n as nat, p() as nat);
    let k = (n + y) % p();
    vstd::arithmetic::div_mod::lemma_small_mod(k as nat, p() as nat);
    vstd::arithmetic::div_mod::lemma_sub_mod_noop(0, x * y, p());
    vstd::arithmetic::div_mod::lemma_mod_twice(0 - x * y, p());
    crate::field::lemma_mod_add_both(n, 0 - x * y, y, y);
    assert((1 - x) * y == y - x * y) by (nonlinear_arith);
}

/// With field values, the step that writes place 103 writes
/// `(1 - w[2]) * w[101]`, and no other place.
pub proof fn lemma_eval_fn_86_value(
    s: (
        Seq<Mersenne31Field>,
        Seq<(Seq<Mersenne31Field>, u16, usize)>,
        Seq<(Seq<Mersenne31Field>, u16, bool)>,
    ),
    mem: Seq<Mersenne31Field>,
    lt: spec_fn(Seq<Mersenne31Field>, u16, nat) -> Seq<Mersenne31Field>,
    mlt: spec_fn(Seq<Mersenne31Field>, u16, bool, nat) -> Seq<Mersenne31Field>,
    orc: spec_fn(Placeholder) -> u32,
)
    requires
        s.0.len() >= 104,
    ensures
        spec_eval_fn_86::<ScalarWitnessTypeSet<true>>(s, mem, lt, mlt, orc).0 == s.0.update(
            103,
            spec_eval_fn_86::<ScalarWitnessTypeSet<true>>(s, mem, lt, mlt, orc).0[103],
        ),
        spec_eval_fn_86::<ScalarWitnessTypeSet<true>>(s, mem, lt, mlt, orc).0[103].val() == ((1 - s.0[2].val())
            * s.0[101].val()) % p(),
{
    reveal(spec_eval_fn_86);
    lemma_scalar_complement_product::<ScalarWitnessTypeSet<true>>(s.0[2], s.0[101]);
}

/// With field values, the step that writes place 104 writes
/// `(1 - w[2]) * w[102]`, and no other place.
pub proof fn lemma_eval_fn_87_value(
    s: (
        Seq<Mersenne31Field>,
        Seq<(Seq<Mersenne31Field>, u16, usize)>,
        Seq<(Seq<Mersenne31Field>, u16, bool)>,
    ),
    mem: Seq<Mersenne31Field>,
    lt: spec_fn(Seq<Mersenne31Field>, u16, nat) -> Seq<Mersenne31Field>,
    mlt: spec_fn(Seq<Mersenne31Field>, u16, bool, nat) -> Seq<Mersenne31Field>,
    orc: spec_fn(Placeholder) -> u32,
)
    requires
        s.0.len() >= 105,
    ensures
        spec_eval_fn_87::<ScalarWitnessTypeSet<true>>(s, mem, lt, mlt, orc).0 == s.0.update(
            104,
            spec_eval_fn_87::<ScalarWitnessTypeSet<true>>(s, mem, lt, mlt, orc).0[104],
        ),
        spec_eval_fn_87::<ScalarWitnessTypeSet<true>>(s, mem, lt, mlt, orc).0[104].val() == ((1 - s.0[2].val())
            * s.0[102].val()) % p(),
{
    reveal(spec_eval_fn_87);
    lemma_scalar_complement_product::<ScalarWitnessTypeSet<true>>(s.0[2], s.0[102]);
}

} // verus!

verus! {

/// The element of a value in `[0, p)` has that value.
pub(crate) proof fn lemma_element_value(x: int)
    requires
        0 <= x < p(),
    ensures
        Mersenne31Field(x as u32).val() == x,
{
    vstd::arithmetic::div_mod::lemma_small_mod(x as nat, p() as nat);
}

/// With field values, the inverse-or-zero of an element multiplies it to one
/// where it is nonzero, and is zero where it is zero.
pub(crate) proof fn lemma_scalar_inverse_or_zero<W: WitnessTypeSet<Mersenne31Field, Field = Mersenne31Field>>(
    a: Mersenne31Field,
)
    ensures
        a.val() != 0 ==> (W::Field::spec_inverse_or_zero(a).val() * a.val()) % p() == 1,
        a.val() == 0 ==> W::Field::spec_inverse_or_zero(a).val() == 0,
{
    let x = a.val();
    if x != 0 {
        crate::fermat::lemma_inverse_value(x);
        let y = crate::field::inverse_value(x);
        lemma_element_value(y);
        assert(x * y == y * x) by (nonlinear_arith);
    } else {
        lemma_element_value(0);
    }
}

/// With field values, the step that writes places 40 and 100 tests whether
/// `w[98] + w[99]` is zero: place 40 holds one where it is and zero
/// otherwise, and place 100 holds its inverse where it is not, zero where
/// it is.
pub proof fn lemma_eval_fn_42_is_zero(
    s: (
        Seq<Mersenne31Field>,
        Seq<(Seq<Mersenne31Field>, u16, usize)>,
        Seq<(Seq<Mersenne31Field>, u16, bool)>,
    ),
    mem: Seq<Mersenne31Field>,
    lt: spec_fn(Seq<Mersenne31Field>, u16, nat) -> Seq<Mersenne31Field>,
    mlt: spec_fn(Seq<Mersenne31Field>, u16, bool, nat) -> Seq<Mersenne31Field>,
    orc: spec_fn(Placeholder) -> u32,
)
    requires
        s.0.len() >= 101,
    ensures
        ({
            let r = spec_eval_fn_42::<ScalarWitnessTypeSet<true>>(s, mem, lt, mlt, orc);
            let x = (s.0[98].val() + s.0[99].val()) % p();
            &&& r.0[40].val() == if x == 0 {
                1int
            } else {
                0int
            }
            &&& x != 0 ==> (r.0[100].val() * x) % p() == 1
            &&& x == 0 ==> r.0[100].val() == 0
        }),
{
    reveal(spec_eval_fn_42);
    let x = (s.0[98].val() + s.0[99].val()) % p();
    lemma_element_value(x);
    lemma_element_value(0);
    lemma_element_value(1);
    let sum = <ScalarWitnessTypeSet<true> as WitnessTypeSet<Mersenne31Field>>::Field::spec_plus(s.0[98], s.0[99]);
    assert(sum.val() == x);
    lemma_scalar_inverse_or_zero::<ScalarWitnessTypeSet<true>>(sum);
}

/// With field values, the step that writes place 71 takes memory place 13
/// where the flag in place 20 is set, and keeps place 3 otherwise.
pub proof fn lemma_eval_fn_8_selects(
    s: (
        Seq<Mersenne31Field>,
        Seq<(Seq<Mersenne31Field>, u16, usize)>,
        Seq<(Seq<Mersenne31Field>, u16, bool)>,
    ),
    mem: Seq<Mersenne31Field>,
    lt: spec_fn(Seq<Mersenne31Field>, u16, nat) -> Seq<Mersenne31Field>,
    mlt: spec_fn(Seq<Mersenne31Field>, u16, bool, nat) -> Seq<Mersenne31Field>,
    orc: spec_fn(Placeholder) -> u32,
)
    requires
        s.0.len() >= 72,
        mem.len() >= 14,
    ensures
        spec_eval_fn_8::<ScalarWitnessTypeSet<true>>(s, mem, lt, mlt, orc).0 == s.0.update(
            71,
            if s.0[20].val() != 0 {
                mem[13]
            } else {
                s.0[3]
            },
        ),
{
    reveal(spec_eval_fn_8);
}

/// With field values, the step that advances the low half of the program
/// counter by four writes the new low half to place 72 (zero where it
/// carries), the carry to place 37, and to place 74 the inverse of
/// `low + 4 - 2^16` where that is nonzero, zero where it is zero.
pub proof fn lemma_eval_fn_10_advances_pc(
    s: (
        Seq<Mersenne31Field>,
        Seq<(Seq<Mersenne31Field>, u16, usize)>,
        Seq<(Seq<Mersenne31Field>, u16, bool)>,
    ),
    mem: Seq<Mersenne31Field>,
    lt: spec_fn(Seq<Mersenne31Field>, u16, nat) -> Seq<Mersenne31Field>,
    mlt: spec_fn(Seq<Mersenne31Field>, u16, bool, nat) -> Seq<Mersenne31Field>,
    orc: spec_fn(Placeholder) -> u32,
)
    requires
        s.0.len() >= 75,
        mem.len() >= 32,
    ensures
        ({
            let r = spec_eval_fn_10::<ScalarWitnessTypeSet<true>>(s, mem, lt, mlt, orc);
            let low = mem[31].val() % 0x1_0000;
            let d = (low + 4 - 0x1_0000) % p();
            &&& r.0[72].val() == if low + 4 >= 0x1_0000 {
                0int
            } else {
                low + 4
            }
            &&& r.0[37].val() == if low + 4 >= 0x1_0000 {
                1int
            } else {
                0int
            }
            &&& d != 0 ==> (r.0[74].val() * d) % p() == 1
            &&& d == 0 ==> r.0[74].val() == 0
        }),
{
    reveal(spec_eval_fn_10);
    let low = mem[31].val() % 0x1_0000;
    let d = (low + 4 - 0x1_0000) % p();
    lemma_element_value(0);
    lemma_element_value(1);
    lemma_element_value(4);
    lemma_element_value(0x1_0000);
    lemma_element_value(low);
    lemma_element_value(low + 4);
    lemma_element_value(d);
    let lo16 = (mem[31].val() % 0x1_0000) as u16;
    assert(lo16 as int == low);
    let e = <ScalarWitnessTypeSet<true> as WitnessTypeSet<Mersenne31Field>>::Field::spec_from_integer(lo16 as u32);
    assert(e.val() == low);
    let e4 = <ScalarWitnessTypeSet<true> as WitnessTypeSet<Mersenne31Field>>::Field::spec_plus(e, Mersenne31Field(4));
    assert(e4.val() == low + 4);
    let ed = <ScalarWitnessTypeSet<true> as WitnessTypeSet<Mersenne31Field>>::Field::spec_minus(e4, Mersenne31Field(0x1_0000));
    assert(ed.val() == d);
    lemma_scalar_inverse_or_zero::<ScalarWitnessTypeSet<true>>(ed);
    if low + 4 < 0x1_0000 {
        vstd::arithmetic::div_mod::lemma_small_mod((low + 4) as nat, 0x1_0000);
    }
}

} // verus!
