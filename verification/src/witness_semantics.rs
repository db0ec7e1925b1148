use vstd::prelude::*;

use crate::field::{p, Mersenne31Field};
use crate::placeholder::Placeholder;
use crate::scalar_types::ScalarWitnessTypeSet;
use crate::witness_generation::{
    lemma_element_value,
    lemma_scalar_inverse_or_zero,
    lemma_eval_fn_1_spreads_bits,
    lemma_eval_fn_8_selects,
    lemma_eval_fn_42_is_zero,
    spec_evaluate_witness_fn,
    spec_eval_fn_1,
    spec_eval_fn_8,
    spec_eval_fn_9,
    spec_eval_fn_10,
    spec_eval_fn_11,
    spec_eval_fn_12,
    spec_eval_fn_13,
    spec_eval_fn_14,
    spec_eval_fn_15,
    spec_eval_fn_16,
    spec_eval_fn_17,
    spec_eval_fn_18,
    spec_eval_fn_19,
    spec_eval_fn_20,
    spec_eval_fn_21,
    spec_eval_fn_22,
    spec_eval_fn_23,
    spec_eval_fn_24,
    spec_eval_fn_25,
    spec_eval_fn_26,
    spec_eval_fn_27,
    spec_eval_fn_28,
    spec_eval_fn_29,
    spec_eval_fn_30,
    spec_eval_fn_31,
    spec_eval_fn_32,
    spec_eval_fn_34,
    spec_eval_fn_35,
    spec_eval_fn_36,
    spec_eval_fn_38,
    spec_eval_fn_39,
    spec_eval_fn_40,
    spec_eval_fn_41,
    spec_eval_fn_42,
    spec_eval_fn_43,
    spec_eval_fn_44,
    spec_eval_fn_45,
    spec_eval_fn_46,
    spec_eval_fn_47,
    spec_eval_fn_48,
    spec_eval_fn_49,
    spec_eval_fn_50,
    spec_eval_fn_51,
    spec_eval_fn_52,
    spec_eval_fn_53,
    spec_eval_fn_54,
    spec_eval_fn_55,
    spec_eval_fn_56,
    spec_eval_fn_57,
    spec_eval_fn_58,
    spec_eval_fn_59,
    spec_eval_fn_60,
    spec_eval_fn_64,
    spec_eval_fn_65,
    spec_eval_fn_66,
    spec_eval_fn_67,
    spec_eval_fn_68,
    spec_eval_fn_69,
    spec_eval_fn_70,
    spec_eval_fn_71,
    spec_eval_fn_72,
    spec_eval_fn_73,
    spec_eval_fn_74,
    spec_eval_fn_75,
    spec_eval_fn_76,
    spec_eval_fn_77,
    spec_eval_fn_78,
    spec_eval_fn_79,
    spec_eval_fn_80,
    spec_eval_fn_81,
    spec_eval_fn_82,
    spec_eval_fn_83,
    spec_eval_fn_84,
    spec_eval_fn_85,
    spec_eval_fn_86,
    spec_eval_fn_87,
    lemma_spec_eval_fn_1_frame,
    lemma_spec_eval_fn_8_frame,
    lemma_spec_eval_fn_9_frame,
    lemma_spec_eval_fn_10_frame,
    lemma_spec_eval_fn_11_frame,
    lemma_spec_eval_fn_12_frame,
    lemma_spec_eval_fn_13_frame,
    lemma_spec_eval_fn_14_frame,
    lemma_spec_eval_fn_15_frame,
    lemma_spec_eval_fn_16_frame,
    lemma_spec_eval_fn_17_frame,
    lemma_spec_eval_fn_18_frame,
    lemma_spec_eval_fn_19_frame,
    lemma_spec_eval_fn_20_frame,
    lemma_spec_eval_fn_21_frame,
    lemma_spec_eval_fn_22_frame,
    lemma_spec_eval_fn_23_frame,
    lemma_spec_eval_fn_24_frame,
    lemma_spec_eval_fn_25_frame,
    lemma_spec_eval_fn_26_frame,
    lemma_spec_eval_fn_27_frame,
    lemma_spec_eval_fn_28_frame,
    lemma_spec_eval_fn_29_frame,
    lemma_spec_eval_fn_30_frame,
    lemma_spec_eval_fn_31_frame,
    lemma_spec_eval_fn_32_frame,
    lemma_spec_eval_fn_34_frame,
    lemma_spec_eval_fn_35_frame,
    lemma_spec_eval_fn_36_frame,
    lemma_spec_eval_fn_38_frame,
    lemma_spec_eval_fn_39_frame,
    lemma_spec_eval_fn_40_frame,
    lemma_spec_eval_fn_41_frame,
    lemma_spec_eval_fn_42_frame,
    lemma_spec_eval_fn_43_frame,
    lemma_spec_eval_fn_44_frame,
    lemma_spec_eval_fn_45_frame,
    lemma_spec_eval_fn_46_frame,
    lemma_spec_eval_fn_47_frame,
    lemma_spec_eval_fn_48_frame,
    lemma_spec_eval_fn_49_frame,
    lemma_spec_eval_fn_50_frame,
    lemma_spec_eval_fn_51_frame,
    lemma_spec_eval_fn_52_frame,
    lemma_spec_eval_fn_53_frame,
    lemma_spec_eval_fn_54_frame,
    lemma_spec_eval_fn_55_frame,
    lemma_spec_eval_fn_56_frame,
    lemma_spec_eval_fn_57_frame,
    lemma_spec_eval_fn_58_frame,
    lemma_spec_eval_fn_59_frame,
    lemma_spec_eval_fn_60_frame,
    lemma_spec_eval_fn_64_frame,
    lemma_spec_eval_fn_65_frame,
    lemma_spec_eval_fn_66_frame,
    lemma_spec_eval_fn_67_frame,
    lemma_spec_eval_fn_68_frame,
    lemma_spec_eval_fn_69_frame,
    lemma_spec_eval_fn_70_frame,
    lemma_spec_eval_fn_71_frame,
    lemma_spec_eval_fn_72_frame,
    lemma_spec_eval_fn_73_frame,
    lemma_spec_eval_fn_74_frame,
    lemma_spec_eval_fn_75_frame,
    lemma_spec_eval_fn_76_frame,
    lemma_spec_eval_fn_77_frame,
    lemma_spec_eval_fn_78_frame,
    lemma_spec_eval_fn_79_frame,
    lemma_spec_eval_fn_80_frame,
    lemma_spec_eval_fn_81_frame,
    lemma_spec_eval_fn_82_frame,
    lemma_spec_eval_fn_83_frame,
    lemma_spec_eval_fn_84_frame,
    lemma_spec_eval_fn_85_frame,
    lemma_spec_eval_fn_86_frame,
    lemma_spec_eval_fn_87_frame,
};
use crate::witness_placer::{
    WitnessComputationCore, WitnessComputationalField, WitnessComputationalInteger,
    WitnessComputationalU16, WitnessComputationalU32, WitnessMask, WitnessTypeSet,
};
use crate::witness_proxy::{place_as_u16, place_of_u16, place_of_u8};
use vstd::arithmetic::power2::pow2;

verus! {

/// The 32-bit word whose high and low 16-bit halves are held, as field
/// values, in two places (each read as its low 16 bits).
pub open spec fn word_of_halves(hi: int, lo: int) -> int {
    (hi % 0x1_0000) * 0x1_0000 + lo % 0x1_0000
}

/// Bit `k` of the integer `word`.
pub open spec fn flag_bit(word: int, k: nat) -> int {
    (word / pow2(k) as int) % 2
}

/// The first operand of a row: the word in memory places 9 and 8.
pub open spec fn first_operand(mem: Seq<Mersenne31Field>) -> int {
    word_of_halves(mem[9].val(), mem[8].val())
}

/// The second operand of a row: the register word in memory places 14 and
/// 13 where bit 1 of place 6 is set, the immediate in places 4 and 3 where
/// it is clear.
pub open spec fn second_operand(w: Seq<Mersenne31Field>, mem: Seq<Mersenne31Field>) -> int {
    if flag_bit(w[6].val(), 1) != 0 {
        word_of_halves(mem[14].val(), mem[13].val())
    } else {
        word_of_halves(w[4].val(), w[3].val())
    }
}

/// With scalar values, a place read as a 16-bit integer is the low half of
/// its value.
proof fn lemma_scalar_u16_read(f: Mersenne31Field)
    ensures
        place_as_u16::<Mersenne31Field, ScalarWitnessTypeSet<true>>(f) as int == f.val() % 0x1_0000,
{
}

/// With scalar values, a 16-bit integer placed in the row has its own value.
proof fn lemma_scalar_u16_place(v: u16)
    ensures
        place_of_u16::<Mersenne31Field, ScalarWitnessTypeSet<true>>(v).val() == v as int,
{
    vstd::arithmetic::div_mod::lemma_small_mod(v as nat, p() as nat);
    lemma_element_value(v as int);
}

/// With scalar values, a flag placed in the row is one where it is set and
/// zero where it is not.
proof fn lemma_scalar_flag_place(b: bool)
    ensures
        <ScalarWitnessTypeSet<true> as WitnessTypeSet<Mersenne31Field>>::Field::spec_from_mask(b).val()
            == if b {
            1int
        } else {
            0int
        },
{
    lemma_element_value(0);
    lemma_element_value(1);
}

/// With scalar values, the word joined from a high and a low half, as the
/// steps join them, is `hi * 2^16 + lo`.
proof fn lemma_scalar_join_halves<W: WitnessTypeSet<Mersenne31Field, U32 = u32, U16 = u16>>(
    hi: u16,
    lo: u16,
)
    ensures
        W::U32::spec_plus(W::U32::spec_shift_left(W::U16::spec_widen(hi), 16u32), W::U16::spec_widen(lo))
            as int == hi as int * 0x1_0000 + lo as int,
{
    vstd::arithmetic::power2::lemma2_to64();
    let x = hi as int * 0x1_0000;
    assert(x <= 0xffff_0000);
    vstd::arithmetic::div_mod::lemma_small_mod(x as nat, 0x1_0000_0000);
    vstd::arithmetic::div_mod::lemma_small_mod((x + lo) as nat, 0x1_0000_0000);
}

/// With scalar values, the halves of a word, as the steps split it, are
/// `x % 2^16` and `x / 2^16`.
proof fn lemma_scalar_split_halves<W: WitnessTypeSet<Mersenne31Field, U32 = u32, U16 = u16>>(x: u32)
    ensures
        W::U32::spec_truncate(x) as int == x as int % 0x1_0000,
        W::U32::spec_truncate(W::U32::spec_shift_right(x, 16u32)) as int == x as int / 0x1_0000,
{
    vstd::arithmetic::power2::lemma2_to64();
    assert(x as int / 0x1_0000 < 0x1_0000);
    vstd::arithmetic::div_mod::lemma_small_mod((x as int / 0x1_0000) as nat, 0x1_0000);
}

/// With field values, where the addition flag in place 22 is set, the step
/// writes to places 11 and 12 the low and high halves of the sum, modulo
/// `2^32`, of the first operand (memory places 9 and 8) and the second
/// (places 52 and 71), and to place 39 whether the sum carries out of 32
/// bits; where the flag is clear, the three places keep their values (read
/// as 16 bits and as a flag).
pub proof fn lemma_eval_fn_16_adds(
    s: (
        Seq<Mersenne31Field>,
        Seq<(Seq<Mersenne31Field>, u16, usize)>,
        Seq<(Seq<Mersenne31Field>, u16, bool)>,
    ),
    mem: Seq<Mersenne31Field>,
    lt: spec_fn(Seq<Mersenne31Field>, u16, nat) -> Seq<Mersenne31Field>,
    mlt: spec_fn(Seq<Mersenne31Field>, u16, bool, nat) -> Seq<Mersenne31Field>,
    orc: spec_fn(Placeholder) -> u32,
)
    requires
        s.0.len() >= 72,
        mem.len() >= 10,
    ensures
        ({
            let r = spec_eval_fn_16::<ScalarWitnessTypeSet<true>>(s, mem, lt, mlt, orc);
            let a = word_of_halves(mem[9].val(), mem[8].val());
            let b = word_of_halves(s.0[52].val(), s.0[71].val());
            let sum = (a + b) % 0x1_0000_0000;
            if s.0[22].val() != 0 {
                &&& r.0[11].val() == sum % 0x1_0000
                &&& r.0[12].val() == sum / 0x1_0000
                &&& r.0[39].val() == if a + b >= 0x1_0000_0000 {
                    1int
                } else {
                    0int
                }
            } else {
                &&& r.0[11].val() == s.0[11].val() % 0x1_0000
                &&& r.0[12].val() == s.0[12].val() % 0x1_0000
                &&& r.0[39].val() == if s.0[39].val() != 0 {
                    1int
                } else {
                    0int
                }
            }
        }),
{
    reveal(spec_eval_fn_16);
    let r = spec_eval_fn_16::<ScalarWitnessTypeSet<true>>(s, mem, lt, mlt, orc);
    let a_lo = place_as_u16::<Mersenne31Field, ScalarWitnessTypeSet<true>>(mem[8]);
    let a_hi = place_as_u16::<Mersenne31Field, ScalarWitnessTypeSet<true>>(mem[9]);
    let b_lo = place_as_u16::<Mersenne31Field, ScalarWitnessTypeSet<true>>(s.0[71]);
    let b_hi = place_as_u16::<Mersenne31Field, ScalarWitnessTypeSet<true>>(s.0[52]);
    lemma_scalar_u16_read(mem[8]);
    lemma_scalar_u16_read(mem[9]);
    lemma_scalar_u16_read(s.0[71]);
    lemma_scalar_u16_read(s.0[52]);
    lemma_scalar_u16_read(s.0[11]);
    lemma_scalar_u16_read(s.0[12]);
    lemma_scalar_join_halves::<ScalarWitnessTypeSet<true>>(a_hi, a_lo);
    lemma_scalar_join_halves::<ScalarWitnessTypeSet<true>>(b_hi, b_lo);
    let a = word_of_halves(mem[9].val(), mem[8].val());
    let b = word_of_halves(s.0[52].val(), s.0[71].val());
    let sum = ((a + b) % 0x1_0000_0000) as u32;
    lemma_scalar_split_halves::<ScalarWitnessTypeSet<true>>(sum);
    lemma_scalar_u16_place((sum as int % 0x1_0000) as u16);
    lemma_scalar_u16_place((sum as int / 0x1_0000) as u16);
    lemma_scalar_u16_place(place_as_u16::<Mersenne31Field, ScalarWitnessTypeSet<true>>(s.0[11]));
    lemma_scalar_u16_place(place_as_u16::<Mersenne31Field, ScalarWitnessTypeSet<true>>(s.0[12]));
    lemma_scalar_flag_place(a + b >= 0x1_0000_0000);
    lemma_scalar_flag_place(s.0[39].val() != 0);
}


/// With field values, where the subtraction flag in place 32 is set, the
/// step writes to places 11 and 12 the low and high halves of the
/// difference, modulo `2^32`, of the first operand (memory places 9 and 8)
/// and the second (places 52 and 71), and to place 39 whether the
/// subtraction borrows; where the flag is clear, the three places keep their
/// values (read as 16 bits and as a flag).
pub proof fn lemma_eval_fn_17_subtracts(
    s: (
        Seq<Mersenne31Field>,
        Seq<(Seq<Mersenne31Field>, u16, usize)>,
        Seq<(Seq<Mersenne31Field>, u16, bool)>,
    ),
    mem: Seq<Mersenne31Field>,
    lt: spec_fn(Seq<Mersenne31Field>, u16, nat) -> Seq<Mersenne31Field>,
    mlt: spec_fn(Seq<Mersenne31Field>, u16, bool, nat) -> Seq<Mersenne31Field>,
    orc: spec_fn(Placeholder) -> u32,
)
    requires
        s.0.len() >= 72,
        mem.len() >= 10,
    ensures
        ({
            let r = spec_eval_fn_17::<ScalarWitnessTypeSet<true>>(s, mem, lt, mlt, orc);
            let a = word_of_halves(mem[9].val(), mem[8].val());
            let b = word_of_halves(s.0[52].val(), s.0[71].val());
            let diff = (a - b) % 0x1_0000_0000;
            if s.0[32].val() != 0 {
                &&& r.0[11].val() == diff % 0x1_0000
                &&& r.0[12].val() == diff / 0x1_0000
                &&& r.0[39].val() == if a < b {
                    1int
                } else {
                    0int
                }
            } else {
                &&& r.0[11].val() == s.0[11].val() % 0x1_0000
                &&& r.0[12].val() == s.0[12].val() % 0x1_0000
                &&& r.0[39].val() == if s.0[39].val() != 0 {
                    1int
                } else {
                    0int
                }
            }
        }),
{
    reveal(spec_eval_fn_17);
    let a_lo = place_as_u16::<Mersenne31Field, ScalarWitnessTypeSet<true>>(mem[8]);
    let a_hi = place_as_u16::<Mersenne31Field, ScalarWitnessTypeSet<true>>(mem[9]);
    let b_lo = place_as_u16::<Mersenne31Field, ScalarWitnessTypeSet<true>>(s.0[71]);
    let b_hi = place_as_u16::<Mersenne31Field, ScalarWitnessTypeSet<true>>(s.0[52]);
    lemma_scalar_u16_read(mem[8]);
    lemma_scalar_u16_read(mem[9]);
    lemma_scalar_u16_read(s.0[71]);
    lemma_scalar_u16_read(s.0[52]);
    lemma_scalar_u16_read(s.0[11]);
    lemma_scalar_u16_read(s.0[12]);
    lemma_scalar_join_halves::<ScalarWitnessTypeSet<true>>(a_hi, a_lo);
    lemma_scalar_join_halves::<ScalarWitnessTypeSet<true>>(b_hi, b_lo);
    let a = word_of_halves(mem[9].val(), mem[8].val());
    let b = word_of_halves(s.0[52].val(), s.0[71].val());
    let diff = ((a - b) % 0x1_0000_0000) as u32;
    lemma_scalar_split_halves::<ScalarWitnessTypeSet<true>>(diff);
    lemma_scalar_u16_place((diff as int % 0x1_0000) as u16);
    lemma_scalar_u16_place((diff as int / 0x1_0000) as u16);
    lemma_scalar_u16_place(place_as_u16::<Mersenne31Field, ScalarWitnessTypeSet<true>>(s.0[11]));
    lemma_scalar_u16_place(place_as_u16::<Mersenne31Field, ScalarWitnessTypeSet<true>>(s.0[12]));
    lemma_scalar_flag_place(a < b);
    lemma_scalar_flag_place(s.0[39].val() != 0);
}

/// With field values, where the branch flag in place 25 is set, the step
/// that compares the operands writes to places 11 and 12 the low and high
/// halves of the difference, modulo `2^32`, of the first operand (memory
/// places 9 and 8) and the second (places 52 and 71), and to place 39
/// whether the subtraction borrows; where the flag is clear, the three
/// places keep their values (read as 16 bits and as a flag).
pub proof fn lemma_eval_fn_23_subtracts(
    s: (
        Seq<Mersenne31Field>,
        Seq<(Seq<Mersenne31Field>, u16, usize)>,
        Seq<(Seq<Mersenne31Field>, u16, bool)>,
    ),
    mem: Seq<Mersenne31Field>,
    lt: spec_fn(Seq<Mersenne31Field>, u16, nat) -> Seq<Mersenne31Field>,
    mlt: spec_fn(Seq<Mersenne31Field>, u16, bool, nat) -> Seq<Mersenne31Field>,
    orc: spec_fn(Placeholder) -> u32,
)
    requires
        s.0.len() >= 72,
        mem.len() >= 10,
    ensures
        ({
            let r = spec_eval_fn_23::<ScalarWitnessTypeSet<true>>(s, mem, lt, mlt, orc);
            let a = word_of_halves(mem[9].val(), mem[8].val());
            let b = word_of_halves(s.0[52].val(), s.0[71].val());
            let diff = (a - b) % 0x1_0000_0000;
            if s.0[25].val() != 0 {
                &&& r.0[11].val() == diff % 0x1_0000
                &&& r.0[12].val() == diff / 0x1_0000
                &&& r.0[39].val() == if a < b {
                    1int
                } else {
                    0int
                }
            } else {
                &&& r.0[11].val() == s.0[11].val() % 0x1_0000
                &&& r.0[12].val() == s.0[12].val() % 0x1_0000
                &&& r.0[39].val() == if s.0[39].val() != 0 {
                    1int
                } else {
                    0int
                }
            }
        }),
{
    reveal(spec_eval_fn_23);
    let a_lo = place_as_u16::<Mersenne31Field, ScalarWitnessTypeSet<true>>(mem[8]);
    let a_hi = place_as_u16::<Mersenne31Field, ScalarWitnessTypeSet<true>>(mem[9]);
    let b_lo = place_as_u16::<Mersenne31Field, ScalarWitnessTypeSet<true>>(s.0[71]);
    let b_hi = place_as_u16::<Mersenne31Field, ScalarWitnessTypeSet<true>>(s.0[52]);
    lemma_scalar_u16_read(mem[8]);
    lemma_scalar_u16_read(mem[9]);
    lemma_scalar_u16_read(s.0[71]);
    lemma_scalar_u16_read(s.0[52]);
    lemma_scalar_u16_read(s.0[11]);
    lemma_scalar_u16_read(s.0[12]);
    lemma_scalar_join_halves::<ScalarWitnessTypeSet<true>>(a_hi, a_lo);
    lemma_scalar_join_halves::<ScalarWitnessTypeSet<true>>(b_hi, b_lo);
    let a = word_of_halves(mem[9].val(), mem[8].val());
    let b = word_of_halves(s.0[52].val(), s.0[71].val());
    let diff = ((a - b) % 0x1_0000_0000) as u32;
    lemma_scalar_split_halves::<ScalarWitnessTypeSet<true>>(diff);
    lemma_scalar_u16_place((diff as int % 0x1_0000) as u16);
    lemma_scalar_u16_place((diff as int / 0x1_0000) as u16);
    lemma_scalar_u16_place(place_as_u16::<Mersenne31Field, ScalarWitnessTypeSet<true>>(s.0[11]));
    lemma_scalar_u16_place(place_as_u16::<Mersenne31Field, ScalarWitnessTypeSet<true>>(s.0[12]));
    lemma_scalar_flag_place(a < b);
    lemma_scalar_flag_place(s.0[39].val() != 0);
}

/// With field values, where the branch flag in place 25 is set, the step
/// writes to places 13 and 14 the low and high halves of the program
/// counter (memory places 32 and 31) plus the immediate (places 4 and 3),
/// modulo `2^32`, and to place 41 whether that sum carries out of 32 bits;
/// where the flag is clear, the three places keep their values (read as 16
/// bits and as a flag).
pub proof fn lemma_eval_fn_24_branch_target(
    s: (
        Seq<Mersenne31Field>,
        Seq<(Seq<Mersenne31Field>, u16, usize)>,
        Seq<(Seq<Mersenne31Field>, u16, bool)>,
    ),
    mem: Seq<Mersenne31Field>,
    lt: spec_fn(Seq<Mersenne31Field>, u16, nat) -> Seq<Mersenne31Field>,
    mlt: spec_fn(Seq<Mersenne31Field>, u16, bool, nat) -> Seq<Mersenne31Field>,
    orc: spec_fn(Placeholder) -> u32,
)
    requires
        s.0.len() >= 42,
        mem.len() >= 33,
    ensures
        ({
            let r = spec_eval_fn_24::<ScalarWitnessTypeSet<true>>(s, mem, lt, mlt, orc);
            let pc = word_of_halves(mem[32].val(), mem[31].val());
            let imm = word_of_halves(s.0[4].val(), s.0[3].val());
            let target = (pc + imm) % 0x1_0000_0000;
            if s.0[25].val() != 0 {
                &&& r.0[13].val() == target % 0x1_0000
                &&& r.0[14].val() == target / 0x1_0000
                &&& r.0[41].val() == if pc + imm >= 0x1_0000_0000 {
                    1int
                } else {
                    0int
                }
            } else {
                &&& r.0[13].val() == s.0[13].val() % 0x1_0000
                &&& r.0[14].val() == s.0[14].val() % 0x1_0000
                &&& r.0[41].val() == if s.0[41].val() != 0 {
                    1int
                } else {
                    0int
                }
            }
        }),
{
    reveal(spec_eval_fn_24);
    let a_lo = place_as_u16::<Mersenne31Field, ScalarWitnessTypeSet<true>>(mem[31]);
    let a_hi = place_as_u16::<Mersenne31Field, ScalarWitnessTypeSet<true>>(mem[32]);
    let b_lo = place_as_u16::<Mersenne31Field, ScalarWitnessTypeSet<true>>(s.0[3]);
    let b_hi = place_as_u16::<Mersenne31Field, ScalarWitnessTypeSet<true>>(s.0[4]);
    lemma_scalar_u16_read(mem[31]);
    lemma_scalar_u16_read(mem[32]);
    lemma_scalar_u16_read(s.0[3]);
    lemma_scalar_u16_read(s.0[4]);
    lemma_scalar_u16_read(s.0[13]);
    lemma_scalar_u16_read(s.0[14]);
    lemma_scalar_join_halves::<ScalarWitnessTypeSet<true>>(a_hi, a_lo);
    lemma_scalar_join_halves::<ScalarWitnessTypeSet<true>>(b_hi, b_lo);
    let pc = word_of_halves(mem[32].val(), mem[31].val());
    let imm = word_of_halves(s.0[4].val(), s.0[3].val());
    let target = ((pc + imm) % 0x1_0000_0000) as u32;
    lemma_scalar_split_halves::<ScalarWitnessTypeSet<true>>(target);
    lemma_scalar_u16_place((target as int % 0x1_0000) as u16);
    lemma_scalar_u16_place((target as int / 0x1_0000) as u16);
    lemma_scalar_u16_place(place_as_u16::<Mersenne31Field, ScalarWitnessTypeSet<true>>(s.0[13]));
    lemma_scalar_u16_place(place_as_u16::<Mersenne31Field, ScalarWitnessTypeSet<true>>(s.0[14]));
    lemma_scalar_flag_place(pc + imm >= 0x1_0000_0000);
    lemma_scalar_flag_place(s.0[41].val() != 0);
}

/// With scalar values, the step that reads the external oracle writes its
/// low half to place 15 and its high half to place 16, so that
/// `w[16] * 2^16 + w[15]` is the oracle's value.
pub proof fn lemma_eval_fn_38_splits_oracle(
    s: (
        Seq<Mersenne31Field>,
        Seq<(Seq<Mersenne31Field>, u16, usize)>,
        Seq<(Seq<Mersenne31Field>, u16, bool)>,
    ),
    mem: Seq<Mersenne31Field>,
    lt: spec_fn(Seq<Mersenne31Field>, u16, nat) -> Seq<Mersenne31Field>,
    mlt: spec_fn(Seq<Mersenne31Field>, u16, bool, nat) -> Seq<Mersenne31Field>,
    orc: spec_fn(Placeholder) -> u32,
)
    requires
        s.0.len() >= 17,
    ensures
        ({
            let r = spec_eval_fn_38::<ScalarWitnessTypeSet<true>>(s, mem, lt, mlt, orc);
            let x = orc(Placeholder::ExternalOracle) as int;
            &&& r.0[15].val() == x % 0x1_0000
            &&& r.0[16].val() == x / 0x1_0000
            &&& r.0[16].val() * 0x1_0000 + r.0[15].val() == x
        }),
{
    reveal(spec_eval_fn_38);
    let x = orc(Placeholder::ExternalOracle);
    lemma_scalar_split_halves::<ScalarWitnessTypeSet<true>>(x);
    lemma_scalar_u16_place((x as int % 0x1_0000) as u16);
    lemma_scalar_u16_place((x as int / 0x1_0000) as u16);
}

/// With field values, where the branch flag in place 25 is set, the step
/// copies the value of place 11 to place 98; where it is clear, place 98
/// holds zero.
pub proof fn lemma_eval_fn_40_copies_low(
    s: (
        Seq<Mersenne31Field>,
        Seq<(Seq<Mersenne31Field>, u16, usize)>,
        Seq<(Seq<Mersenne31Field>, u16, bool)>,
    ),
    mem: Seq<Mersenne31Field>,
    lt: spec_fn(Seq<Mersenne31Field>, u16, nat) -> Seq<Mersenne31Field>,
    mlt: spec_fn(Seq<Mersenne31Field>, u16, bool, nat) -> Seq<Mersenne31Field>,
    orc: spec_fn(Placeholder) -> u32,
)
    requires
        s.0.len() >= 99,
    ensures
        spec_eval_fn_40::<ScalarWitnessTypeSet<true>>(s, mem, lt, mlt, orc).0[98].val() == if s.0[25].val()
            != 0 {
            s.0[11].val()
        } else {
            0int
        },
{
    reveal(spec_eval_fn_40);
    lemma_element_value(0);
    lemma_element_value(s.0[11].val());
    vstd::arithmetic::div_mod::lemma_small_mod(s.0[11].val() as nat, p() as nat);
}

/// With field values, where the branch flag in place 25 is set, the step
/// copies the value of place 12 to place 99; where it is clear, place 99
/// holds zero.
pub proof fn lemma_eval_fn_41_copies_high(
    s: (
        Seq<Mersenne31Field>,
        Seq<(Seq<Mersenne31Field>, u16, usize)>,
        Seq<(Seq<Mersenne31Field>, u16, bool)>,
    ),
    mem: Seq<Mersenne31Field>,
    lt: spec_fn(Seq<Mersenne31Field>, u16, nat) -> Seq<Mersenne31Field>,
    mlt: spec_fn(Seq<Mersenne31Field>, u16, bool, nat) -> Seq<Mersenne31Field>,
    orc: spec_fn(Placeholder) -> u32,
)
    requires
        s.0.len() >= 100,
    ensures
        spec_eval_fn_41::<ScalarWitnessTypeSet<true>>(s, mem, lt, mlt, orc).0[99].val() == if s.0[25].val()
            != 0 {
            s.0[12].val()
        } else {
            0int
        },
{
    reveal(spec_eval_fn_41);
    lemma_element_value(0);
    lemma_element_value(s.0[12].val());
    vstd::arithmetic::div_mod::lemma_small_mod(s.0[12].val() as nat, p() as nat);
}

/// The row after the first steps of the evaluation: the flags are spread
/// and the operands selected.
pub open spec fn spec_steps_1_to_15<W: WitnessTypeSet<Mersenne31Field>>(
    s: (Seq<W::Field>, Seq<(Seq<W::Field>, W::U16, usize)>, Seq<(Seq<W::Field>, W::U16, W::Mask)>),
    mem: Seq<W::Field>,
    lt: spec_fn(Seq<W::Field>, W::U16, nat) -> Seq<W::Field>,
    mlt: spec_fn(Seq<W::Field>, W::U16, W::Mask, nat) -> Seq<W::Field>,
    orc: spec_fn(Placeholder) -> W::U32,
) -> (Seq<W::Field>, Seq<(Seq<W::Field>, W::U16, usize)>, Seq<(Seq<W::Field>, W::U16, W::Mask)>) {
    let s = spec_eval_fn_1::<W>(s, mem, lt, mlt, orc);
    let s = spec_eval_fn_8::<W>(s, mem, lt, mlt, orc);
    let s = spec_eval_fn_9::<W>(s, mem, lt, mlt, orc);
    let s = spec_eval_fn_10::<W>(s, mem, lt, mlt, orc);
    let s = spec_eval_fn_11::<W>(s, mem, lt, mlt, orc);
    let s = spec_eval_fn_12::<W>(s, mem, lt, mlt, orc);
    let s = spec_eval_fn_13::<W>(s, mem, lt, mlt, orc);
    let s = spec_eval_fn_14::<W>(s, mem, lt, mlt, orc);
    let s = spec_eval_fn_15::<W>(s, mem, lt, mlt, orc);
    s
}

/// The row after the steps between the subtraction and the branch target.
pub open spec fn spec_steps_18_to_23<W: WitnessTypeSet<Mersenne31Field>>(
    s: (Seq<W::Field>, Seq<(Seq<W::Field>, W::U16, usize)>, Seq<(Seq<W::Field>, W::U16, W::Mask)>),
    mem: Seq<W::Field>,
    lt: spec_fn(Seq<W::Field>, W::U16, nat) -> Seq<W::Field>,
    mlt: spec_fn(Seq<W::Field>, W::U16, W::Mask, nat) -> Seq<W::Field>,
    orc: spec_fn(Placeholder) -> W::U32,
) -> (Seq<W::Field>, Seq<(Seq<W::Field>, W::U16, usize)>, Seq<(Seq<W::Field>, W::U16, W::Mask)>) {
    let s = spec_eval_fn_18::<W>(s, mem, lt, mlt, orc);
    let s = spec_eval_fn_19::<W>(s, mem, lt, mlt, orc);
    let s = spec_eval_fn_20::<W>(s, mem, lt, mlt, orc);
    let s = spec_eval_fn_21::<W>(s, mem, lt, mlt, orc);
    let s = spec_eval_fn_22::<W>(s, mem, lt, mlt, orc);
    let s = spec_eval_fn_23::<W>(s, mem, lt, mlt, orc);
    s
}

/// The row after the steps between the branch target and the oracle read.
pub open spec fn spec_steps_25_to_36<W: WitnessTypeSet<Mersenne31Field>>(
    s: (Seq<W::Field>, Seq<(Seq<W::Field>, W::U16, usize)>, Seq<(Seq<W::Field>, W::U16, W::Mask)>),
    mem: Seq<W::Field>,
    lt: spec_fn(Seq<W::Field>, W::U16, nat) -> Seq<W::Field>,
    mlt: spec_fn(Seq<W::Field>, W::U16, W::Mask, nat) -> Seq<W::Field>,
    orc: spec_fn(Placeholder) -> W::U32,
) -> (Seq<W::Field>, Seq<(Seq<W::Field>, W::U16, usize)>, Seq<(Seq<W::Field>, W::U16, W::Mask)>) {
    let s = spec_eval_fn_25::<W>(s, mem, lt, mlt, orc);
    let s = spec_eval_fn_26::<W>(s, mem, lt, mlt, orc);
    let s = spec_eval_fn_27::<W>(s, mem, lt, mlt, orc);
    let s = spec_eval_fn_28::<W>(s, mem, lt, mlt, orc);
    let s = spec_eval_fn_29::<W>(s, mem, lt, mlt, orc);
    let s = spec_eval_fn_30::<W>(s, mem, lt, mlt, orc);
    let s = spec_eval_fn_31::<W>(s, mem, lt, mlt, orc);
    let s = spec_eval_fn_32::<W>(s, mem, lt, mlt, orc);
    let s = spec_eval_fn_34::<W>(s, mem, lt, mlt, orc);
    let s = spec_eval_fn_35::<W>(s, mem, lt, mlt, orc);
    let s = spec_eval_fn_36::<W>(s, mem, lt, mlt, orc);
    s
}

/// The row after the last steps of the evaluation.
pub open spec fn spec_steps_43_to_87<W: WitnessTypeSet<Mersenne31Field>>(
    s: (Seq<W::Field>, Seq<(Seq<W::Field>, W::U16, usize)>, Seq<(Seq<W::Field>, W::U16, W::Mask)>),
    mem: Seq<W::Field>,
    lt: spec_fn(Seq<W::Field>, W::U16, nat) -> Seq<W::Field>,
    mlt: spec_fn(Seq<W::Field>, W::U16, W::Mask, nat) -> Seq<W::Field>,
    orc: spec_fn(Placeholder) -> W::U32,
) -> (Seq<W::Field>, Seq<(Seq<W::Field>, W::U16, usize)>, Seq<(Seq<W::Field>, W::U16, W::Mask)>) {
    let s = spec_eval_fn_43::<W>(s, mem, lt, mlt, orc);
    let s = spec_eval_fn_44::<W>(s, mem, lt, mlt, orc);
    let s = spec_eval_fn_45::<W>(s, mem, lt, mlt, orc);
    let s = spec_eval_fn_46::<W>(s, mem, lt, mlt, orc);
    let s = spec_eval_fn_47::<W>(s, mem, lt, mlt, orc);
    let s = spec_eval_fn_48::<W>(s, mem, lt, mlt, orc);
    let s = spec_eval_fn_49::<W>(s, mem, lt, mlt, orc);
    let s = spec_eval_fn_50::<W>(s, mem, lt, mlt, orc);
    let s = spec_eval_fn_51::<W>(s, mem, lt, mlt, orc);
    let s = spec_eval_fn_52::<W>(s, mem, lt, mlt, orc);
    let s = spec_eval_fn_53::<W>(s, mem, lt, mlt, orc);
    let s = spec_eval_fn_54::<W>(s, mem, lt, mlt, orc);
    let s = spec_eval_fn_55::<W>(s, mem, lt, mlt, orc);
    let s = spec_eval_fn_56::<W>(s, mem, lt, mlt, orc);
    let s = spec_eval_fn_57::<W>(s, mem, lt, mlt, orc);
    let s = spec_eval_fn_58::<W>(s, mem, lt, mlt, orc);
    let s = spec_eval_fn_59::<W>(s, mem, lt, mlt, orc);
    let s = spec_eval_fn_60::<W>(s, mem, lt, mlt, orc);
    let s = spec_eval_fn_64::<W>(s, mem, lt, mlt, orc);
    let s = spec_eval_fn_65::<W>(s, mem, lt, mlt, orc);
    let s = spec_eval_fn_66::<W>(s, mem, lt, mlt, orc);
    let s = spec_eval_fn_67::<W>(s, mem, lt, mlt, orc);
    let s = spec_eval_fn_68::<W>(s, mem, lt, mlt, orc);
    let s = spec_eval_fn_69::<W>(s, mem, lt, mlt, orc);
    let s = spec_eval_fn_70::<W>(s, mem, lt, mlt, orc);
    let s = spec_eval_fn_71::<W>(s, mem, lt, mlt, orc);
    let s = spec_eval_fn_72::<W>(s, mem, lt, mlt, orc);
    let s = spec_eval_fn_73::<W>(s, mem, lt, mlt, orc);
    let s = spec_eval_fn_74::<W>(s, mem, lt, mlt, orc);
    let s = spec_eval_fn_75::<W>(s, mem, lt, mlt, orc);
    let s = spec_eval_fn_76::<W>(s, mem, lt, mlt, orc);
    let s = spec_eval_fn_77::<W>(s, mem, lt, mlt, orc);
    let s = spec_eval_fn_78::<W>(s, mem, lt, mlt, orc);
    let s = spec_eval_fn_79::<W>(s, mem, lt, mlt, orc);
    let s = spec_eval_fn_80::<W>(s, mem, lt, mlt, orc);
    let s = spec_eval_fn_81::<W>(s, mem, lt, mlt, orc);
    let s = spec_eval_fn_82::<W>(s, mem, lt, mlt, orc);
    let s = spec_eval_fn_83::<W>(s, mem, lt, mlt, orc);
    let s = spec_eval_fn_84::<W>(s, mem, lt, mlt, orc);
    let s = spec_eval_fn_85::<W>(s, mem, lt, mlt, orc);
    let s = spec_eval_fn_86::<W>(s, mem, lt, mlt, orc);
    let s = spec_eval_fn_87::<W>(s, mem, lt, mlt, orc);
    s
}

/// The whole evaluation is its segments in order.
pub proof fn lemma_evaluate_witness_fn_in_segments<W: WitnessTypeSet<Mersenne31Field>>(
    s: (Seq<W::Field>, Seq<(Seq<W::Field>, W::U16, usize)>, Seq<(Seq<W::Field>, W::U16, W::Mask)>),
    mem: Seq<W::Field>,
    lt: spec_fn(Seq<W::Field>, W::U16, nat) -> Seq<W::Field>,
    mlt: spec_fn(Seq<W::Field>, W::U16, W::Mask, nat) -> Seq<W::Field>,
    orc: spec_fn(Placeholder) -> W::U32,
)
    ensures
        spec_evaluate_witness_fn::<W>(s, mem, lt, mlt, orc) == spec_steps_43_to_87::<W>(
            spec_eval_fn_42::<W>(
                spec_eval_fn_41::<W>(
                    spec_eval_fn_40::<W>(
                        spec_eval_fn_39::<W>(
                            spec_eval_fn_38::<W>(
                                spec_steps_25_to_36::<W>(
                                    spec_eval_fn_24::<W>(
                                        spec_steps_18_to_23::<W>(
                                            spec_eval_fn_17::<W>(
                                                spec_eval_fn_16::<W>(spec_steps_1_to_15::<W>(s, mem, lt, mlt, orc), mem, lt, mlt, orc),
                                                mem, lt, mlt, orc,
                                            ),
                                            mem, lt, mlt, orc,
                                        ),
                                        mem, lt, mlt, orc,
                                    ),
                                    mem, lt, mlt, orc,
                                ),
                                mem, lt, mlt, orc,
                            ),
                            mem, lt, mlt, orc,
                        ),
                        mem, lt, mlt, orc,
                    ),
                    mem, lt, mlt, orc,
                ),
                mem, lt, mlt, orc,
            ),
            mem, lt, mlt, orc,
        ),
{
}

/// With field values, the step that writes place 52 takes memory place 14
/// where the flag in place 20 is set, and keeps place 4 otherwise.
pub proof fn lemma_eval_fn_9_selects(
    s: (Seq<Mersenne31Field>, Seq<(Seq<Mersenne31Field>, u16, usize)>, Seq<(Seq<Mersenne31Field>, u16, bool)>),
    mem: Seq<Mersenne31Field>,
    lt: spec_fn(Seq<Mersenne31Field>, u16, nat) -> Seq<Mersenne31Field>,
    mlt: spec_fn(Seq<Mersenne31Field>, u16, bool, nat) -> Seq<Mersenne31Field>,
    orc: spec_fn(Placeholder) -> u32,
)
    requires
        s.0.len() >= 53,
        mem.len() >= 15,
    ensures
        spec_eval_fn_9::<ScalarWitnessTypeSet<true>>(s, mem, lt, mlt, orc).0 == s.0.update(
            52,
            if s.0[20].val() != 0 {
                mem[14]
            } else {
                s.0[4]
            },
        ),
{
    reveal(spec_eval_fn_9);
}

/// Whether a place is written by the steps that select the operands and
/// advance the program counter, before the arithmetic steps.
pub open spec fn written_by_steps_8_to_15(j: int) -> bool {
    ||| j == 71
    ||| j == 52
    ||| j == 37
    ||| j == 72
    ||| j == 74
    ||| j == 38
    ||| j == 73
    ||| j == 75
    ||| j == 76
    ||| j == 50
    ||| j == 51
    ||| j == 77
    ||| j == 53
    ||| j == 54
}

/// With field values, the first steps spread the low eighteen bits of place
/// 6 over places 19 to 36, put in place 71 memory place 13 or place 3 and
/// in place 52 memory place 14 or place 4 as bit 1 of place 6 is set or
/// clear, and keep every other place they do not write.
pub proof fn lemma_steps_1_to_15(
    s: (Seq<Mersenne31Field>, Seq<(Seq<Mersenne31Field>, u16, usize)>, Seq<(Seq<Mersenne31Field>, u16, bool)>),
    mem: Seq<Mersenne31Field>,
    lt: spec_fn(Seq<Mersenne31Field>, u16, nat) -> Seq<Mersenne31Field>,
    mlt: spec_fn(Seq<Mersenne31Field>, u16, bool, nat) -> Seq<Mersenne31Field>,
    orc: spec_fn(Placeholder) -> u32,
)
    requires
        s.0.len() >= 105,
        mem.len() >= 33,
    ensures
        ({
            let r = spec_steps_1_to_15::<ScalarWitnessTypeSet<true>>(s, mem, lt, mlt, orc);
            &&& r.0.len() == s.0.len()
            &&& forall|j: int| 19 <= j < 37 ==> (#[trigger] r.0[j]).val() == flag_bit(s.0[6].val(), (j - 19) as nat)
            &&& r.0[71] == if flag_bit(s.0[6].val(), 1) != 0 {
                mem[13]
            } else {
                s.0[3]
            }
            &&& r.0[52] == if flag_bit(s.0[6].val(), 1) != 0 {
                mem[14]
            } else {
                s.0[4]
            }
            &&& forall|j: int|
                0 <= j < s.0.len() && !(19 <= j < 37) && !written_by_steps_8_to_15(j) ==> #[trigger] r.0[j] == s.0[j]
        }),
{
    lemma_eval_fn_1_spreads_bits(s, mem, lt, mlt, orc);
    let t1 = spec_eval_fn_1::<ScalarWitnessTypeSet<true>>(s, mem, lt, mlt, orc);
    assert forall|j: int| 19 <= j < 37 implies (#[trigger] t1.0[j]).val() == flag_bit(s.0[6].val(), (j - 19) as nat) by {
        let i = j - 19;
        assert(t1.0[19 + i] == t1.0[j]);
    }
    assert(t1.0[20].val() == flag_bit(s.0[6].val(), 1));
    lemma_eval_fn_8_selects(t1, mem, lt, mlt, orc);
    let t2 = spec_eval_fn_8::<ScalarWitnessTypeSet<true>>(t1, mem, lt, mlt, orc);
    lemma_eval_fn_9_selects(t2, mem, lt, mlt, orc);
    let t3 = spec_eval_fn_9::<ScalarWitnessTypeSet<true>>(t2, mem, lt, mlt, orc);
    lemma_spec_eval_fn_10_frame::<ScalarWitnessTypeSet<true>>(t3, mem, lt, mlt, orc);
    let t4 = spec_eval_fn_10::<ScalarWitnessTypeSet<true>>(t3, mem, lt, mlt, orc);
    lemma_spec_eval_fn_11_frame::<ScalarWitnessTypeSet<true>>(t4, mem, lt, mlt, orc);
    let t5 = spec_eval_fn_11::<ScalarWitnessTypeSet<true>>(t4, mem, lt, mlt, orc);
    lemma_spec_eval_fn_12_frame::<ScalarWitnessTypeSet<true>>(t5, mem, lt, mlt, orc);
    let t6 = spec_eval_fn_12::<ScalarWitnessTypeSet<true>>(t5, mem, lt, mlt, orc);
    lemma_spec_eval_fn_13_frame::<ScalarWitnessTypeSet<true>>(t6, mem, lt, mlt, orc);
    let t7 = spec_eval_fn_13::<ScalarWitnessTypeSet<true>>(t6, mem, lt, mlt, orc);
    lemma_spec_eval_fn_14_frame::<ScalarWitnessTypeSet<true>>(t7, mem, lt, mlt, orc);
    let t8 = spec_eval_fn_14::<ScalarWitnessTypeSet<true>>(t7, mem, lt, mlt, orc);
    lemma_spec_eval_fn_15_frame::<ScalarWitnessTypeSet<true>>(t8, mem, lt, mlt, orc);
    let t9 = spec_eval_fn_15::<ScalarWitnessTypeSet<true>>(t8, mem, lt, mlt, orc);
    assert(spec_steps_1_to_15::<ScalarWitnessTypeSet<true>>(s, mem, lt, mlt, orc) == t9);
}

/// With field values, the steps between the subtraction and the branch target
/// keep every place but 11, 12, 39 and 78 to 81; where the flags in places 23
/// and 25 are clear they keep the values of places 11 and 12 (read as 16
/// bits) and of place 39 (read as a flag), and where the branch flag in place
/// 25 is set they leave there the halves of the difference of the operands
/// modulo `2^32`.
pub proof fn lemma_steps_18_to_23(
    s: (Seq<Mersenne31Field>, Seq<(Seq<Mersenne31Field>, u16, usize)>, Seq<(Seq<Mersenne31Field>, u16, bool)>),
    mem: Seq<Mersenne31Field>,
    lt: spec_fn(Seq<Mersenne31Field>, u16, nat) -> Seq<Mersenne31Field>,
    mlt: spec_fn(Seq<Mersenne31Field>, u16, bool, nat) -> Seq<Mersenne31Field>,
    orc: spec_fn(Placeholder) -> u32,
)
    requires
        s.0.len() >= 105,
        mem.len() >= 33,
    ensures
        ({
            let r = spec_steps_18_to_23::<ScalarWitnessTypeSet<true>>(s, mem, lt, mlt, orc);
            let a = word_of_halves(mem[9].val(), mem[8].val());
            let b = word_of_halves(s.0[52].val(), s.0[71].val());
            let diff = (a - b) % 0x1_0000_0000;
            &&& r.0.len() == s.0.len()
            &&& forall|j: int|
                0 <= j < s.0.len() && j != 11 && j != 12 && j != 39 && !(78 <= j < 82) ==> #[trigger] r.0[j] == s.0[j]
            &&& s.0[23].val() == 0 && s.0[25].val() == 0 ==> r.0[11].val() == s.0[11].val() % 0x1_0000 && r.0[12].val()
                == s.0[12].val() % 0x1_0000
                && r.0[39].val() == if s.0[39].val() != 0 {
                    1int
                } else {
                    0int
                }
            &&& s.0[25].val() != 0 ==> r.0[11].val() == diff % 0x1_0000 && r.0[12].val() == diff / 0x1_0000
        }),
{
    lemma_spec_eval_fn_18_frame::<ScalarWitnessTypeSet<true>>(s, mem, lt, mlt, orc);
    let t1 = spec_eval_fn_18::<ScalarWitnessTypeSet<true>>(s, mem, lt, mlt, orc);
    lemma_spec_eval_fn_19_frame::<ScalarWitnessTypeSet<true>>(t1, mem, lt, mlt, orc);
    let t2 = spec_eval_fn_19::<ScalarWitnessTypeSet<true>>(t1, mem, lt, mlt, orc);
    lemma_spec_eval_fn_20_frame::<ScalarWitnessTypeSet<true>>(t2, mem, lt, mlt, orc);
    let t3 = spec_eval_fn_20::<ScalarWitnessTypeSet<true>>(t2, mem, lt, mlt, orc);
    lemma_spec_eval_fn_21_frame::<ScalarWitnessTypeSet<true>>(t3, mem, lt, mlt, orc);
    let t4 = spec_eval_fn_21::<ScalarWitnessTypeSet<true>>(t3, mem, lt, mlt, orc);
    lemma_spec_eval_fn_22_frame::<ScalarWitnessTypeSet<true>>(t4, mem, lt, mlt, orc);
    let t5 = spec_eval_fn_22::<ScalarWitnessTypeSet<true>>(t4, mem, lt, mlt, orc);
    lemma_spec_eval_fn_23_frame::<ScalarWitnessTypeSet<true>>(t5, mem, lt, mlt, orc);
    let t6 = spec_eval_fn_23::<ScalarWitnessTypeSet<true>>(t5, mem, lt, mlt, orc);
    if s.0[23].val() == 0 && s.0[25].val() == 0 {
        lemma_eval_fn_18_adds_pc(s, mem, lt, mlt, orc);
        lemma_eval_fn_23_subtracts(t5, mem, lt, mlt, orc);
    vstd::arithmetic::div_mod::lemma_mod_twice(s.0[11].val(), 0x1_0000);
    vstd::arithmetic::div_mod::lemma_mod_twice(s.0[12].val(), 0x1_0000);
    }
    if s.0[25].val() != 0 {
        lemma_eval_fn_23_subtracts(t5, mem, lt, mlt, orc);
    }
    assert(spec_steps_18_to_23::<ScalarWitnessTypeSet<true>>(s, mem, lt, mlt, orc) == t6);
}

/// With field values, the steps between the branch target and the oracle
/// read keep every place but 11, 12, 39, 78 to 81 and 91 to 95, and where
/// the flags in places 27, 29, 30 and 33 are clear they keep the values of
/// places 11 and 12 (read as 16 bits) and of place 39 (read as a flag).
pub proof fn lemma_steps_25_to_36(
    s: (Seq<Mersenne31Field>, Seq<(Seq<Mersenne31Field>, u16, usize)>, Seq<(Seq<Mersenne31Field>, u16, bool)>),
    mem: Seq<Mersenne31Field>,
    lt: spec_fn(Seq<Mersenne31Field>, u16, nat) -> Seq<Mersenne31Field>,
    mlt: spec_fn(Seq<Mersenne31Field>, u16, bool, nat) -> Seq<Mersenne31Field>,
    orc: spec_fn(Placeholder) -> u32,
)
    requires
        s.0.len() >= 105,
        mem.len() >= 33,
    ensures
        ({
            let r = spec_steps_25_to_36::<ScalarWitnessTypeSet<true>>(s, mem, lt, mlt, orc);
            &&& r.0.len() == s.0.len()
            &&& forall|j: int|
                0 <= j < s.0.len() && j != 11 && j != 12 && j != 39 && !(78 <= j < 82) && !(91 <= j < 96)
                    ==> #[trigger] r.0[j] == s.0[j]
            &&& s.0[27].val() == 0 && s.0[29].val() == 0 && s.0[30].val() == 0 && s.0[33].val() == 0 ==> r.0[11].val()
                == s.0[11].val() % 0x1_0000 && r.0[12].val() == s.0[12].val() % 0x1_0000
                && r.0[39].val() == if s.0[39].val() != 0 {
                    1int
                } else {
                    0int
                }
        }),
{
    lemma_spec_eval_fn_25_frame::<ScalarWitnessTypeSet<true>>(s, mem, lt, mlt, orc);
    let t1 = spec_eval_fn_25::<ScalarWitnessTypeSet<true>>(s, mem, lt, mlt, orc);
    lemma_spec_eval_fn_26_frame::<ScalarWitnessTypeSet<true>>(t1, mem, lt, mlt, orc);
    let t2 = spec_eval_fn_26::<ScalarWitnessTypeSet<true>>(t1, mem, lt, mlt, orc);
    lemma_spec_eval_fn_27_frame::<ScalarWitnessTypeSet<true>>(t2, mem, lt, mlt, orc);
    let t3 = spec_eval_fn_27::<ScalarWitnessTypeSet<true>>(t2, mem, lt, mlt, orc);
    lemma_spec_eval_fn_28_frame::<ScalarWitnessTypeSet<true>>(t3, mem, lt, mlt, orc);
    let t4 = spec_eval_fn_28::<ScalarWitnessTypeSet<true>>(t3, mem, lt, mlt, orc);
    lemma_spec_eval_fn_29_frame::<ScalarWitnessTypeSet<true>>(t4, mem, lt, mlt, orc);
    let t5 = spec_eval_fn_29::<ScalarWitnessTypeSet<true>>(t4, mem, lt, mlt, orc);
    lemma_spec_eval_fn_30_frame::<ScalarWitnessTypeSet<true>>(t5, mem, lt, mlt, orc);
    let t6 = spec_eval_fn_30::<ScalarWitnessTypeSet<true>>(t5, mem, lt, mlt, orc);
    lemma_spec_eval_fn_31_frame::<ScalarWitnessTypeSet<true>>(t6, mem, lt, mlt, orc);
    let t7 = spec_eval_fn_31::<ScalarWitnessTypeSet<true>>(t6, mem, lt, mlt, orc);
    lemma_spec_eval_fn_32_frame::<ScalarWitnessTypeSet<true>>(t7, mem, lt, mlt, orc);
    let t8 = spec_eval_fn_32::<ScalarWitnessTypeSet<true>>(t7, mem, lt, mlt, orc);
    lemma_spec_eval_fn_34_frame::<ScalarWitnessTypeSet<true>>(t8, mem, lt, mlt, orc);
    let t9 = spec_eval_fn_34::<ScalarWitnessTypeSet<true>>(t8, mem, lt, mlt, orc);
    lemma_spec_eval_fn_35_frame::<ScalarWitnessTypeSet<true>>(t9, mem, lt, mlt, orc);
    let t10 = spec_eval_fn_35::<ScalarWitnessTypeSet<true>>(t9, mem, lt, mlt, orc);
    lemma_spec_eval_fn_36_frame::<ScalarWitnessTypeSet<true>>(t10, mem, lt, mlt, orc);
    let t11 = spec_eval_fn_36::<ScalarWitnessTypeSet<true>>(t10, mem, lt, mlt, orc);
    if s.0[27].val() == 0 && s.0[29].val() == 0 && s.0[30].val() == 0 && s.0[33].val() == 0 {
        lemma_eval_fn_28_adds_immediate(t3, mem, lt, mlt, orc);
        lemma_eval_fn_31_copies_word(t6, mem, lt, mlt, orc);
        lemma_eval_fn_32_adds_immediate(t7, mem, lt, mlt, orc);
        lemma_eval_fn_34_adds_immediate(t8, mem, lt, mlt, orc);
    vstd::arithmetic::div_mod::lemma_mod_twice(s.0[11].val(), 0x1_0000);
    vstd::arithmetic::div_mod::lemma_mod_twice(s.0[12].val(), 0x1_0000);
    }
    assert(spec_steps_25_to_36::<ScalarWitnessTypeSet<true>>(s, mem, lt, mlt, orc) == t11);
}

/// With field values, the last steps keep places 11, 12, 15, 16 and 40,
/// and where the flag in place 30 is clear they keep the values of places 13
/// and 14 (read as 16 bits) and of place 39 (read as a flag).
#[verifier::rlimit(60)]
pub proof fn lemma_steps_43_to_87(
    s: (Seq<Mersenne31Field>, Seq<(Seq<Mersenne31Field>, u16, usize)>, Seq<(Seq<Mersenne31Field>, u16, bool)>),
    mem: Seq<Mersenne31Field>,
    lt: spec_fn(Seq<Mersenne31Field>, u16, nat) -> Seq<Mersenne31Field>,
    mlt: spec_fn(Seq<Mersenne31Field>, u16, bool, nat) -> Seq<Mersenne31Field>,
    orc: spec_fn(Placeholder) -> u32,
)
    requires
        s.0.len() >= 105,
        mem.len() >= 33,
    ensures
        ({
            let r = spec_steps_43_to_87::<ScalarWitnessTypeSet<true>>(s, mem, lt, mlt, orc);
            &&& r.0.len() == s.0.len()
            &&& r.0[11] == s.0[11]
            &&& r.0[12] == s.0[12]
            &&& r.0[15] == s.0[15]
            &&& r.0[16] == s.0[16]
            &&& r.0[40] == s.0[40]
            &&& s.0[30].val() == 0 ==> r.0[13].val() == s.0[13].val() % 0x1_0000 && r.0[14].val() == s.0[14].val() % 0x1_0000
                && r.0[39].val() == if s.0[39].val() != 0 {
                    1int
                } else {
                    0int
                }
        }),
{
    lemma_spec_eval_fn_43_frame::<ScalarWitnessTypeSet<true>>(s, mem, lt, mlt, orc);
    let t1 = spec_eval_fn_43::<ScalarWitnessTypeSet<true>>(s, mem, lt, mlt, orc);
    lemma_spec_eval_fn_44_frame::<ScalarWitnessTypeSet<true>>(t1, mem, lt, mlt, orc);
    let t2 = spec_eval_fn_44::<ScalarWitnessTypeSet<true>>(t1, mem, lt, mlt, orc);
    lemma_spec_eval_fn_45_frame::<ScalarWitnessTypeSet<true>>(t2, mem, lt, mlt, orc);
    let t3 = spec_eval_fn_45::<ScalarWitnessTypeSet<true>>(t2, mem, lt, mlt, orc);
    lemma_spec_eval_fn_46_frame::<ScalarWitnessTypeSet<true>>(t3, mem, lt, mlt, orc);
    let t4 = spec_eval_fn_46::<ScalarWitnessTypeSet<true>>(t3, mem, lt, mlt, orc);
    lemma_spec_eval_fn_47_frame::<ScalarWitnessTypeSet<true>>(t4, mem, lt, mlt, orc);
    let t5 = spec_eval_fn_47::<ScalarWitnessTypeSet<true>>(t4, mem, lt, mlt, orc);
    lemma_spec_eval_fn_48_frame::<ScalarWitnessTypeSet<true>>(t5, mem, lt, mlt, orc);
    let t6 = spec_eval_fn_48::<ScalarWitnessTypeSet<true>>(t5, mem, lt, mlt, orc);
    lemma_spec_eval_fn_49_frame::<ScalarWitnessTypeSet<true>>(t6, mem, lt, mlt, orc);
    let t7 = spec_eval_fn_49::<ScalarWitnessTypeSet<true>>(t6, mem, lt, mlt, orc);
    lemma_spec_eval_fn_50_frame::<ScalarWitnessTypeSet<true>>(t7, mem, lt, mlt, orc);
    let t8 = spec_eval_fn_50::<ScalarWitnessTypeSet<true>>(t7, mem, lt, mlt, orc);
    lemma_spec_eval_fn_51_frame::<ScalarWitnessTypeSet<true>>(t8, mem, lt, mlt, orc);
    let t9 = spec_eval_fn_51::<ScalarWitnessTypeSet<true>>(t8, mem, lt, mlt, orc);
    lemma_spec_eval_fn_52_frame::<ScalarWitnessTypeSet<true>>(t9, mem, lt, mlt, orc);
    let t10 = spec_eval_fn_52::<ScalarWitnessTypeSet<true>>(t9, mem, lt, mlt, orc);
    lemma_spec_eval_fn_53_frame::<ScalarWitnessTypeSet<true>>(t10, mem, lt, mlt, orc);
    let t11 = spec_eval_fn_53::<ScalarWitnessTypeSet<true>>(t10, mem, lt, mlt, orc);
    lemma_spec_eval_fn_54_frame::<ScalarWitnessTypeSet<true>>(t11, mem, lt, mlt, orc);
    let t12 = spec_eval_fn_54::<ScalarWitnessTypeSet<true>>(t11, mem, lt, mlt, orc);
    lemma_spec_eval_fn_55_frame::<ScalarWitnessTypeSet<true>>(t12, mem, lt, mlt, orc);
    let t13 = spec_eval_fn_55::<ScalarWitnessTypeSet<true>>(t12, mem, lt, mlt, orc);
    lemma_spec_eval_fn_56_frame::<ScalarWitnessTypeSet<true>>(t13, mem, lt, mlt, orc);
    let t14 = spec_eval_fn_56::<ScalarWitnessTypeSet<true>>(t13, mem, lt, mlt, orc);
    lemma_spec_eval_fn_57_frame::<ScalarWitnessTypeSet<true>>(t14, mem, lt, mlt, orc);
    let t15 = spec_eval_fn_57::<ScalarWitnessTypeSet<true>>(t14, mem, lt, mlt, orc);
    lemma_spec_eval_fn_58_frame::<ScalarWitnessTypeSet<true>>(t15, mem, lt, mlt, orc);
    let t16 = spec_eval_fn_58::<ScalarWitnessTypeSet<true>>(t15, mem, lt, mlt, orc);
    lemma_spec_eval_fn_59_frame::<ScalarWitnessTypeSet<true>>(t16, mem, lt, mlt, orc);
    let t17 = spec_eval_fn_59::<ScalarWitnessTypeSet<true>>(t16, mem, lt, mlt, orc);
    lemma_spec_eval_fn_60_frame::<ScalarWitnessTypeSet<true>>(t17, mem, lt, mlt, orc);
    let t18 = spec_eval_fn_60::<ScalarWitnessTypeSet<true>>(t17, mem, lt, mlt, orc);
    lemma_spec_eval_fn_64_frame::<ScalarWitnessTypeSet<true>>(t18, mem, lt, mlt, orc);
    let t19 = spec_eval_fn_64::<ScalarWitnessTypeSet<true>>(t18, mem, lt, mlt, orc);
    lemma_spec_eval_fn_65_frame::<ScalarWitnessTypeSet<true>>(t19, mem, lt, mlt, orc);
    let t20 = spec_eval_fn_65::<ScalarWitnessTypeSet<true>>(t19, mem, lt, mlt, orc);
    lemma_spec_eval_fn_66_frame::<ScalarWitnessTypeSet<true>>(t20, mem, lt, mlt, orc);
    let t21 = spec_eval_fn_66::<ScalarWitnessTypeSet<true>>(t20, mem, lt, mlt, orc);
    lemma_spec_eval_fn_67_frame::<ScalarWitnessTypeSet<true>>(t21, mem, lt, mlt, orc);
    let t22 = spec_eval_fn_67::<ScalarWitnessTypeSet<true>>(t21, mem, lt, mlt, orc);
    lemma_spec_eval_fn_68_frame::<ScalarWitnessTypeSet<true>>(t22, mem, lt, mlt, orc);
    let t23 = spec_eval_fn_68::<ScalarWitnessTypeSet<true>>(t22, mem, lt, mlt, orc);
    lemma_spec_eval_fn_69_frame::<ScalarWitnessTypeSet<true>>(t23, mem, lt, mlt, orc);
    let t24 = spec_eval_fn_69::<ScalarWitnessTypeSet<true>>(t23, mem, lt, mlt, orc);
    lemma_spec_eval_fn_70_frame::<ScalarWitnessTypeSet<true>>(t24, mem, lt, mlt, orc);
    let t25 = spec_eval_fn_70::<ScalarWitnessTypeSet<true>>(t24, mem, lt, mlt, orc);
    lemma_spec_eval_fn_71_frame::<ScalarWitnessTypeSet<true>>(t25, mem, lt, mlt, orc);
    let t26 = spec_eval_fn_71::<ScalarWitnessTypeSet<true>>(t25, mem, lt, mlt, orc);
    lemma_spec_eval_fn_72_frame::<ScalarWitnessTypeSet<true>>(t26, mem, lt, mlt, orc);
    let t27 = spec_eval_fn_72::<ScalarWitnessTypeSet<true>>(t26, mem, lt, mlt, orc);
    lemma_spec_eval_fn_73_frame::<ScalarWitnessTypeSet<true>>(t27, mem, lt, mlt, orc);
    let t28 = spec_eval_fn_73::<ScalarWitnessTypeSet<true>>(t27, mem, lt, mlt, orc);
    lemma_spec_eval_fn_74_frame::<ScalarWitnessTypeSet<true>>(t28, mem, lt, mlt, orc);
    let t29 = spec_eval_fn_74::<ScalarWitnessTypeSet<true>>(t28, mem, lt, mlt, orc);
    lemma_spec_eval_fn_75_frame::<ScalarWitnessTypeSet<true>>(t29, mem, lt, mlt, orc);
    let t30 = spec_eval_fn_75::<ScalarWitnessTypeSet<true>>(t29, mem, lt, mlt, orc);
    lemma_spec_eval_fn_76_frame::<ScalarWitnessTypeSet<true>>(t30, mem, lt, mlt, orc);
    let t31 = spec_eval_fn_76::<ScalarWitnessTypeSet<true>>(t30, mem, lt, mlt, orc);
    lemma_spec_eval_fn_77_frame::<ScalarWitnessTypeSet<true>>(t31, mem, lt, mlt, orc);
    let t32 = spec_eval_fn_77::<ScalarWitnessTypeSet<true>>(t31, mem, lt, mlt, orc);
    lemma_spec_eval_fn_78_frame::<ScalarWitnessTypeSet<true>>(t32, mem, lt, mlt, orc);
    let t33 = spec_eval_fn_78::<ScalarWitnessTypeSet<true>>(t32, mem, lt, mlt, orc);
    lemma_spec_eval_fn_79_frame::<ScalarWitnessTypeSet<true>>(t33, mem, lt, mlt, orc);
    let t34 = spec_eval_fn_79::<ScalarWitnessTypeSet<true>>(t33, mem, lt, mlt, orc);
    lemma_spec_eval_fn_80_frame::<ScalarWitnessTypeSet<true>>(t34, mem, lt, mlt, orc);
    let t35 = spec_eval_fn_80::<ScalarWitnessTypeSet<true>>(t34, mem, lt, mlt, orc);
    lemma_spec_eval_fn_81_frame::<ScalarWitnessTypeSet<true>>(t35, mem, lt, mlt, orc);
    let t36 = spec_eval_fn_81::<ScalarWitnessTypeSet<true>>(t35, mem, lt, mlt, orc);
    lemma_spec_eval_fn_82_frame::<ScalarWitnessTypeSet<true>>(t36, mem, lt, mlt, orc);
    let t37 = spec_eval_fn_82::<ScalarWitnessTypeSet<true>>(t36, mem, lt, mlt, orc);
    lemma_spec_eval_fn_83_frame::<ScalarWitnessTypeSet<true>>(t37, mem, lt, mlt, orc);
    let t38 = spec_eval_fn_83::<ScalarWitnessTypeSet<true>>(t37, mem, lt, mlt, orc);
    lemma_spec_eval_fn_84_frame::<ScalarWitnessTypeSet<true>>(t38, mem, lt, mlt, orc);
    let t39 = spec_eval_fn_84::<ScalarWitnessTypeSet<true>>(t38, mem, lt, mlt, orc);
    lemma_spec_eval_fn_85_frame::<ScalarWitnessTypeSet<true>>(t39, mem, lt, mlt, orc);
    let t40 = spec_eval_fn_85::<ScalarWitnessTypeSet<true>>(t39, mem, lt, mlt, orc);
    lemma_spec_eval_fn_86_frame::<ScalarWitnessTypeSet<true>>(t40, mem, lt, mlt, orc);
    let t41 = spec_eval_fn_86::<ScalarWitnessTypeSet<true>>(t40, mem, lt, mlt, orc);
    lemma_spec_eval_fn_87_frame::<ScalarWitnessTypeSet<true>>(t41, mem, lt, mlt, orc);
    let t42 = spec_eval_fn_87::<ScalarWitnessTypeSet<true>>(t41, mem, lt, mlt, orc);
    if s.0[30].val() == 0 {
        lemma_eval_fn_48_reduces(t5, mem, lt, mlt, orc);
    }
    assert(spec_steps_43_to_87::<ScalarWitnessTypeSet<true>>(s, mem, lt, mlt, orc) == t42);
}

/// With field values, on a row whose bits in place 6 select the addition
/// (bit 3) and none of the other steps that write places 11 and 12 (bits 4,
/// 6, 8, 10, 11, 13 and 14), the whole evaluation leaves in places 11 and 12
/// the low and high halves of the first operand plus the second, modulo
/// `2^32`, and in place 39 whether the sum carries out of 32 bits.
pub proof fn lemma_evaluate_witness_fn_adds(
    s: (Seq<Mersenne31Field>, Seq<(Seq<Mersenne31Field>, u16, usize)>, Seq<(Seq<Mersenne31Field>, u16, bool)>),
    mem: Seq<Mersenne31Field>,
    lt: spec_fn(Seq<Mersenne31Field>, u16, nat) -> Seq<Mersenne31Field>,
    mlt: spec_fn(Seq<Mersenne31Field>, u16, bool, nat) -> Seq<Mersenne31Field>,
    orc: spec_fn(Placeholder) -> u32,
)
    requires
        s.0.len() >= 105,
        mem.len() >= 33,
        flag_bit(s.0[6].val(), 3) == 1,
        flag_bit(s.0[6].val(), 4) == 0,
        flag_bit(s.0[6].val(), 6) == 0,
        flag_bit(s.0[6].val(), 8) == 0,
        flag_bit(s.0[6].val(), 10) == 0,
        flag_bit(s.0[6].val(), 11) == 0,
        flag_bit(s.0[6].val(), 13) == 0,
        flag_bit(s.0[6].val(), 14) == 0,
    ensures
        ({
            let r = spec_evaluate_witness_fn::<ScalarWitnessTypeSet<true>>(s, mem, lt, mlt, orc);
            let sum = (first_operand(mem) + second_operand(s.0, mem)) % 0x1_0000_0000;
            &&& r.0[11].val() == sum % 0x1_0000
            &&& r.0[12].val() == sum / 0x1_0000
            &&& r.0[39].val() == if first_operand(mem) + second_operand(s.0, mem) >= 0x1_0000_0000 {
                1int
            } else {
                0int
            }
        }),
{
    lemma_evaluate_witness_fn_in_segments::<ScalarWitnessTypeSet<true>>(s, mem, lt, mlt, orc);
    lemma_steps_1_to_15(s, mem, lt, mlt, orc);
    let u0 = spec_steps_1_to_15::<ScalarWitnessTypeSet<true>>(s, mem, lt, mlt, orc);
    assert(u0.0[20].val() == flag_bit(s.0[6].val(), 1));
    assert(u0.0[22].val() == flag_bit(s.0[6].val(), 3));
    assert(u0.0[23].val() == flag_bit(s.0[6].val(), 4));
    assert(u0.0[25].val() == flag_bit(s.0[6].val(), 6));
    assert(u0.0[27].val() == flag_bit(s.0[6].val(), 8));
    assert(u0.0[29].val() == flag_bit(s.0[6].val(), 10));
    assert(u0.0[30].val() == flag_bit(s.0[6].val(), 11));
    assert(u0.0[32].val() == flag_bit(s.0[6].val(), 13));
    assert(u0.0[33].val() == flag_bit(s.0[6].val(), 14));
    lemma_spec_eval_fn_16_frame::<ScalarWitnessTypeSet<true>>(u0, mem, lt, mlt, orc);
    let u1 = spec_eval_fn_16::<ScalarWitnessTypeSet<true>>(u0, mem, lt, mlt, orc);
    lemma_spec_eval_fn_17_frame::<ScalarWitnessTypeSet<true>>(u1, mem, lt, mlt, orc);
    let u2 = spec_eval_fn_17::<ScalarWitnessTypeSet<true>>(u1, mem, lt, mlt, orc);
    lemma_steps_18_to_23(u2, mem, lt, mlt, orc);
    let u3 = spec_steps_18_to_23::<ScalarWitnessTypeSet<true>>(u2, mem, lt, mlt, orc);
    lemma_spec_eval_fn_24_frame::<ScalarWitnessTypeSet<true>>(u3, mem, lt, mlt, orc);
    let u4 = spec_eval_fn_24::<ScalarWitnessTypeSet<true>>(u3, mem, lt, mlt, orc);
    lemma_steps_25_to_36(u4, mem, lt, mlt, orc);
    let u5 = spec_steps_25_to_36::<ScalarWitnessTypeSet<true>>(u4, mem, lt, mlt, orc);
    lemma_spec_eval_fn_38_frame::<ScalarWitnessTypeSet<true>>(u5, mem, lt, mlt, orc);
    let u6 = spec_eval_fn_38::<ScalarWitnessTypeSet<true>>(u5, mem, lt, mlt, orc);
    lemma_spec_eval_fn_39_frame::<ScalarWitnessTypeSet<true>>(u6, mem, lt, mlt, orc);
    let u7 = spec_eval_fn_39::<ScalarWitnessTypeSet<true>>(u6, mem, lt, mlt, orc);
    lemma_spec_eval_fn_40_frame::<ScalarWitnessTypeSet<true>>(u7, mem, lt, mlt, orc);
    let u8 = spec_eval_fn_40::<ScalarWitnessTypeSet<true>>(u7, mem, lt, mlt, orc);
    lemma_spec_eval_fn_41_frame::<ScalarWitnessTypeSet<true>>(u8, mem, lt, mlt, orc);
    let u9 = spec_eval_fn_41::<ScalarWitnessTypeSet<true>>(u8, mem, lt, mlt, orc);
    lemma_spec_eval_fn_42_frame::<ScalarWitnessTypeSet<true>>(u9, mem, lt, mlt, orc);
    let u10 = spec_eval_fn_42::<ScalarWitnessTypeSet<true>>(u9, mem, lt, mlt, orc);
    lemma_steps_43_to_87(u10, mem, lt, mlt, orc);

    lemma_eval_fn_16_adds(u0, mem, lt, mlt, orc);
    lemma_eval_fn_17_subtracts(u1, mem, lt, mlt, orc);
    let sum = (first_operand(mem) + second_operand(s.0, mem)) % 0x1_0000_0000;
    vstd::arithmetic::div_mod::lemma_mod_twice(sum, 0x1_0000);
    assert(sum / 0x1_0000 < 0x1_0000);
    vstd::arithmetic::div_mod::lemma_small_mod((sum / 0x1_0000) as nat, 0x1_0000);
}

/// With field values, on a row whose bits in place 6 select the subtraction
/// (bit 13) and none of the other steps that write places 11 and 12 (bits
/// 3, 4, 6, 8, 10, 11 and 14), the whole evaluation leaves in places 11 and
/// 12 the low and high halves of the first operand minus the second, modulo
/// `2^32`, and in place 39 whether the subtraction borrows.
pub proof fn lemma_evaluate_witness_fn_subtracts(
    s: (Seq<Mersenne31Field>, Seq<(Seq<Mersenne31Field>, u16, usize)>, Seq<(Seq<Mersenne31Field>, u16, bool)>),
    mem: Seq<Mersenne31Field>,
    lt: spec_fn(Seq<Mersenne31Field>, u16, nat) -> Seq<Mersenne31Field>,
    mlt: spec_fn(Seq<Mersenne31Field>, u16, bool, nat) -> Seq<Mersenne31Field>,
    orc: spec_fn(Placeholder) -> u32,
)
    requires
        s.0.len() >= 105,
        mem.len() >= 33,
        flag_bit(s.0[6].val(), 13) == 1,
        flag_bit(s.0[6].val(), 3) == 0,
        flag_bit(s.0[6].val(), 4) == 0,
        flag_bit(s.0[6].val(), 6) == 0,
        flag_bit(s.0[6].val(), 8) == 0,
        flag_bit(s.0[6].val(), 10) == 0,
        flag_bit(s.0[6].val(), 11) == 0,
        flag_bit(s.0[6].val(), 14) == 0,
    ensures
        ({
            let r = spec_evaluate_witness_fn::<ScalarWitnessTypeSet<true>>(s, mem, lt, mlt, orc);
            let diff = (first_operand(mem) - second_operand(s.0, mem)) % 0x1_0000_0000;
            &&& r.0[11].val() == diff % 0x1_0000
            &&& r.0[12].val() == diff / 0x1_0000
            &&& r.0[39].val() == if first_operand(mem) < second_operand(s.0, mem) {
                1int
            } else {
                0int
            }
        }),
{
    lemma_evaluate_witness_fn_in_segments::<ScalarWitnessTypeSet<true>>(s, mem, lt, mlt, orc);
    lemma_steps_1_to_15(s, mem, lt, mlt, orc);
    let u0 = spec_steps_1_to_15::<ScalarWitnessTypeSet<true>>(s, mem, lt, mlt, orc);
    assert(u0.0[20].val() == flag_bit(s.0[6].val(), 1));
    assert(u0.0[22].val() == flag_bit(s.0[6].val(), 3));
    assert(u0.0[23].val() == flag_bit(s.0[6].val(), 4));
    assert(u0.0[25].val() == flag_bit(s.0[6].val(), 6));
    assert(u0.0[27].val() == flag_bit(s.0[6].val(), 8));
    assert(u0.0[29].val() == flag_bit(s.0[6].val(), 10));
    assert(u0.0[30].val() == flag_bit(s.0[6].val(), 11));
    assert(u0.0[32].val() == flag_bit(s.0[6].val(), 13));
    assert(u0.0[33].val() == flag_bit(s.0[6].val(), 14));
    lemma_spec_eval_fn_16_frame::<ScalarWitnessTypeSet<true>>(u0, mem, lt, mlt, orc);
    let u1 = spec_eval_fn_16::<ScalarWitnessTypeSet<true>>(u0, mem, lt, mlt, orc);
    lemma_spec_eval_fn_17_frame::<ScalarWitnessTypeSet<true>>(u1, mem, lt, mlt, orc);
    let u2 = spec_eval_fn_17::<ScalarWitnessTypeSet<true>>(u1, mem, lt, mlt, orc);
    lemma_steps_18_to_23(u2, mem, lt, mlt, orc);
    let u3 = spec_steps_18_to_23::<ScalarWitnessTypeSet<true>>(u2, mem, lt, mlt, orc);
    lemma_spec_eval_fn_24_frame::<ScalarWitnessTypeSet<true>>(u3, mem, lt, mlt, orc);
    let u4 = spec_eval_fn_24::<ScalarWitnessTypeSet<true>>(u3, mem, lt, mlt, orc);
    lemma_steps_25_to_36(u4, mem, lt, mlt, orc);
    let u5 = spec_steps_25_to_36::<ScalarWitnessTypeSet<true>>(u4, mem, lt, mlt, orc);
    lemma_spec_eval_fn_38_frame::<ScalarWitnessTypeSet<true>>(u5, mem, lt, mlt, orc);
    let u6 = spec_eval_fn_38::<ScalarWitnessTypeSet<true>>(u5, mem, lt, mlt, orc);
    lemma_spec_eval_fn_39_frame::<ScalarWitnessTypeSet<true>>(u6, mem, lt, mlt, orc);
    let u7 = spec_eval_fn_39::<ScalarWitnessTypeSet<true>>(u6, mem, lt, mlt, orc);
    lemma_spec_eval_fn_40_frame::<ScalarWitnessTypeSet<true>>(u7, mem, lt, mlt, orc);
    let u8 = spec_eval_fn_40::<ScalarWitnessTypeSet<true>>(u7, mem, lt, mlt, orc);
    lemma_spec_eval_fn_41_frame::<ScalarWitnessTypeSet<true>>(u8, mem, lt, mlt, orc);
    let u9 = spec_eval_fn_41::<ScalarWitnessTypeSet<true>>(u8, mem, lt, mlt, orc);
    lemma_spec_eval_fn_42_frame::<ScalarWitnessTypeSet<true>>(u9, mem, lt, mlt, orc);
    let u10 = spec_eval_fn_42::<ScalarWitnessTypeSet<true>>(u9, mem, lt, mlt, orc);
    lemma_steps_43_to_87(u10, mem, lt, mlt, orc);

    lemma_eval_fn_17_subtracts(u1, mem, lt, mlt, orc);
    let diff = (first_operand(mem) - second_operand(s.0, mem)) % 0x1_0000_0000;
    vstd::arithmetic::div_mod::lemma_mod_twice(diff, 0x1_0000);
    assert(diff / 0x1_0000 < 0x1_0000);
    vstd::arithmetic::div_mod::lemma_small_mod((diff / 0x1_0000) as nat, 0x1_0000);
}

/// With field values, on a row whose bits in place 6 select the branch (bit
/// 6) and not the step that also writes places 13 and 14 (bit 11), the whole
/// evaluation leaves in places 13 and 14 the low and high halves of the
/// program counter (memory places 32 and 31) plus the immediate (places 4
/// and 3), modulo `2^32`.
pub proof fn lemma_evaluate_witness_fn_branch_target(
    s: (Seq<Mersenne31Field>, Seq<(Seq<Mersenne31Field>, u16, usize)>, Seq<(Seq<Mersenne31Field>, u16, bool)>),
    mem: Seq<Mersenne31Field>,
    lt: spec_fn(Seq<Mersenne31Field>, u16, nat) -> Seq<Mersenne31Field>,
    mlt: spec_fn(Seq<Mersenne31Field>, u16, bool, nat) -> Seq<Mersenne31Field>,
    orc: spec_fn(Placeholder) -> u32,
)
    requires
        s.0.len() >= 105,
        mem.len() >= 33,
        flag_bit(s.0[6].val(), 6) == 1,
        flag_bit(s.0[6].val(), 11) == 0,
    ensures
        ({
            let r = spec_evaluate_witness_fn::<ScalarWitnessTypeSet<true>>(s, mem, lt, mlt, orc);
            let target = (word_of_halves(mem[32].val(), mem[31].val()) + word_of_halves(s.0[4].val(), s.0[3].val()))
                % 0x1_0000_0000;
            &&& r.0[13].val() == target % 0x1_0000
            &&& r.0[14].val() == target / 0x1_0000
        }),
{
    lemma_evaluate_witness_fn_in_segments::<ScalarWitnessTypeSet<true>>(s, mem, lt, mlt, orc);
    lemma_steps_1_to_15(s, mem, lt, mlt, orc);
    let u0 = spec_steps_1_to_15::<ScalarWitnessTypeSet<true>>(s, mem, lt, mlt, orc);
    assert(u0.0[25].val() == flag_bit(s.0[6].val(), 6));
    assert(u0.0[30].val() == flag_bit(s.0[6].val(), 11));
    lemma_spec_eval_fn_16_frame::<ScalarWitnessTypeSet<true>>(u0, mem, lt, mlt, orc);
    let u1 = spec_eval_fn_16::<ScalarWitnessTypeSet<true>>(u0, mem, lt, mlt, orc);
    lemma_spec_eval_fn_17_frame::<ScalarWitnessTypeSet<true>>(u1, mem, lt, mlt, orc);
    let u2 = spec_eval_fn_17::<ScalarWitnessTypeSet<true>>(u1, mem, lt, mlt, orc);
    lemma_steps_18_to_23(u2, mem, lt, mlt, orc);
    let u3 = spec_steps_18_to_23::<ScalarWitnessTypeSet<true>>(u2, mem, lt, mlt, orc);
    lemma_spec_eval_fn_24_frame::<ScalarWitnessTypeSet<true>>(u3, mem, lt, mlt, orc);
    let u4 = spec_eval_fn_24::<ScalarWitnessTypeSet<true>>(u3, mem, lt, mlt, orc);
    lemma_steps_25_to_36(u4, mem, lt, mlt, orc);
    let u5 = spec_steps_25_to_36::<ScalarWitnessTypeSet<true>>(u4, mem, lt, mlt, orc);
    lemma_spec_eval_fn_38_frame::<ScalarWitnessTypeSet<true>>(u5, mem, lt, mlt, orc);
    let u6 = spec_eval_fn_38::<ScalarWitnessTypeSet<true>>(u5, mem, lt, mlt, orc);
    lemma_spec_eval_fn_39_frame::<ScalarWitnessTypeSet<true>>(u6, mem, lt, mlt, orc);
    let u7 = spec_eval_fn_39::<ScalarWitnessTypeSet<true>>(u6, mem, lt, mlt, orc);
    lemma_spec_eval_fn_40_frame::<ScalarWitnessTypeSet<true>>(u7, mem, lt, mlt, orc);
    let u8 = spec_eval_fn_40::<ScalarWitnessTypeSet<true>>(u7, mem, lt, mlt, orc);
    lemma_spec_eval_fn_41_frame::<ScalarWitnessTypeSet<true>>(u8, mem, lt, mlt, orc);
    let u9 = spec_eval_fn_41::<ScalarWitnessTypeSet<true>>(u8, mem, lt, mlt, orc);
    lemma_spec_eval_fn_42_frame::<ScalarWitnessTypeSet<true>>(u9, mem, lt, mlt, orc);
    let u10 = spec_eval_fn_42::<ScalarWitnessTypeSet<true>>(u9, mem, lt, mlt, orc);
    lemma_steps_43_to_87(u10, mem, lt, mlt, orc);

    lemma_eval_fn_24_branch_target(u3, mem, lt, mlt, orc);
    let target = (word_of_halves(mem[32].val(), mem[31].val()) + word_of_halves(s.0[4].val(), s.0[3].val()))
        % 0x1_0000_0000;
    vstd::arithmetic::div_mod::lemma_mod_twice(target, 0x1_0000);
    assert(target / 0x1_0000 < 0x1_0000);
    vstd::arithmetic::div_mod::lemma_small_mod((target / 0x1_0000) as nat, 0x1_0000);
}

/// With scalar values, the whole evaluation leaves in places 15 and 16 the
/// low and high halves of the external oracle's value, so that
/// `w[16] * 2^16 + w[15]` is that value.
pub proof fn lemma_evaluate_witness_fn_splits_oracle(
    s: (Seq<Mersenne31Field>, Seq<(Seq<Mersenne31Field>, u16, usize)>, Seq<(Seq<Mersenne31Field>, u16, bool)>),
    mem: Seq<Mersenne31Field>,
    lt: spec_fn(Seq<Mersenne31Field>, u16, nat) -> Seq<Mersenne31Field>,
    mlt: spec_fn(Seq<Mersenne31Field>, u16, bool, nat) -> Seq<Mersenne31Field>,
    orc: spec_fn(Placeholder) -> u32,
)
    requires
        s.0.len() >= 105,
        mem.len() >= 33,
    ensures
        ({
            let r = spec_evaluate_witness_fn::<ScalarWitnessTypeSet<true>>(s, mem, lt, mlt, orc);
            let x = orc(Placeholder::ExternalOracle) as int;
            &&& r.0[15].val() == x % 0x1_0000
            &&& r.0[16].val() == x / 0x1_0000
            &&& r.0[16].val() * 0x1_0000 + r.0[15].val() == x
        }),
{
    lemma_evaluate_witness_fn_in_segments::<ScalarWitnessTypeSet<true>>(s, mem, lt, mlt, orc);
    lemma_steps_1_to_15(s, mem, lt, mlt, orc);
    let u0 = spec_steps_1_to_15::<ScalarWitnessTypeSet<true>>(s, mem, lt, mlt, orc);

    lemma_spec_eval_fn_16_frame::<ScalarWitnessTypeSet<true>>(u0, mem, lt, mlt, orc);
    let u1 = spec_eval_fn_16::<ScalarWitnessTypeSet<true>>(u0, mem, lt, mlt, orc);
    lemma_spec_eval_fn_17_frame::<ScalarWitnessTypeSet<true>>(u1, mem, lt, mlt, orc);
    let u2 = spec_eval_fn_17::<ScalarWitnessTypeSet<true>>(u1, mem, lt, mlt, orc);
    lemma_steps_18_to_23(u2, mem, lt, mlt, orc);
    let u3 = spec_steps_18_to_23::<ScalarWitnessTypeSet<true>>(u2, mem, lt, mlt, orc);
    lemma_spec_eval_fn_24_frame::<ScalarWitnessTypeSet<true>>(u3, mem, lt, mlt, orc);
    let u4 = spec_eval_fn_24::<ScalarWitnessTypeSet<true>>(u3, mem, lt, mlt, orc);
    lemma_steps_25_to_36(u4, mem, lt, mlt, orc);
    let u5 = spec_steps_25_to_36::<ScalarWitnessTypeSet<true>>(u4, mem, lt, mlt, orc);
    lemma_spec_eval_fn_38_frame::<ScalarWitnessTypeSet<true>>(u5, mem, lt, mlt, orc);
    let u6 = spec_eval_fn_38::<ScalarWitnessTypeSet<true>>(u5, mem, lt, mlt, orc);
    lemma_spec_eval_fn_39_frame::<ScalarWitnessTypeSet<true>>(u6, mem, lt, mlt, orc);
    let u7 = spec_eval_fn_39::<ScalarWitnessTypeSet<true>>(u6, mem, lt, mlt, orc);
    lemma_spec_eval_fn_40_frame::<ScalarWitnessTypeSet<true>>(u7, mem, lt, mlt, orc);
    let u8 = spec_eval_fn_40::<ScalarWitnessTypeSet<true>>(u7, mem, lt, mlt, orc);
    lemma_spec_eval_fn_41_frame::<ScalarWitnessTypeSet<true>>(u8, mem, lt, mlt, orc);
    let u9 = spec_eval_fn_41::<ScalarWitnessTypeSet<true>>(u8, mem, lt, mlt, orc);
    lemma_spec_eval_fn_42_frame::<ScalarWitnessTypeSet<true>>(u9, mem, lt, mlt, orc);
    let u10 = spec_eval_fn_42::<ScalarWitnessTypeSet<true>>(u9, mem, lt, mlt, orc);
    lemma_steps_43_to_87(u10, mem, lt, mlt, orc);

    lemma_eval_fn_38_splits_oracle(u5, mem, lt, mlt, orc);
}

/// With field values, on a row whose bits in place 6 select the branch (bit
/// 6) and none of the later steps that write places 11 and 12 (bits 8, 10, 11
/// and 14), the whole evaluation leaves one in place 40 where the first
/// operand equals the second and zero where they differ.
pub proof fn lemma_evaluate_witness_fn_compares(
    s: (Seq<Mersenne31Field>, Seq<(Seq<Mersenne31Field>, u16, usize)>, Seq<(Seq<Mersenne31Field>, u16, bool)>),
    mem: Seq<Mersenne31Field>,
    lt: spec_fn(Seq<Mersenne31Field>, u16, nat) -> Seq<Mersenne31Field>,
    mlt: spec_fn(Seq<Mersenne31Field>, u16, bool, nat) -> Seq<Mersenne31Field>,
    orc: spec_fn(Placeholder) -> u32,
)
    requires
        s.0.len() >= 105,
        mem.len() >= 33,
        flag_bit(s.0[6].val(), 6) == 1,
        flag_bit(s.0[6].val(), 8) == 0,
        flag_bit(s.0[6].val(), 10) == 0,
        flag_bit(s.0[6].val(), 11) == 0,
        flag_bit(s.0[6].val(), 14) == 0,
    ensures
        spec_evaluate_witness_fn::<ScalarWitnessTypeSet<true>>(s, mem, lt, mlt, orc).0[40].val() == if first_operand(mem) == second_operand(
            s.0,
            mem,
        ) {
            1int
        } else {
            0int
        },
{
    lemma_evaluate_witness_fn_in_segments::<ScalarWitnessTypeSet<true>>(s, mem, lt, mlt, orc);
    lemma_steps_1_to_15(s, mem, lt, mlt, orc);
    let u0 = spec_steps_1_to_15::<ScalarWitnessTypeSet<true>>(s, mem, lt, mlt, orc);
    assert(u0.0[20].val() == flag_bit(s.0[6].val(), 1));
    assert(u0.0[25].val() == flag_bit(s.0[6].val(), 6));
    assert(u0.0[27].val() == flag_bit(s.0[6].val(), 8));
    assert(u0.0[29].val() == flag_bit(s.0[6].val(), 10));
    assert(u0.0[30].val() == flag_bit(s.0[6].val(), 11));
    assert(u0.0[33].val() == flag_bit(s.0[6].val(), 14));
    lemma_spec_eval_fn_16_frame::<ScalarWitnessTypeSet<true>>(u0, mem, lt, mlt, orc);
    let u1 = spec_eval_fn_16::<ScalarWitnessTypeSet<true>>(u0, mem, lt, mlt, orc);
    lemma_spec_eval_fn_17_frame::<ScalarWitnessTypeSet<true>>(u1, mem, lt, mlt, orc);
    let u2 = spec_eval_fn_17::<ScalarWitnessTypeSet<true>>(u1, mem, lt, mlt, orc);
    lemma_steps_18_to_23(u2, mem, lt, mlt, orc);
    let u3 = spec_steps_18_to_23::<ScalarWitnessTypeSet<true>>(u2, mem, lt, mlt, orc);
    lemma_spec_eval_fn_24_frame::<ScalarWitnessTypeSet<true>>(u3, mem, lt, mlt, orc);
    let u4 = spec_eval_fn_24::<ScalarWitnessTypeSet<true>>(u3, mem, lt, mlt, orc);
    lemma_steps_25_to_36(u4, mem, lt, mlt, orc);
    let u5 = spec_steps_25_to_36::<ScalarWitnessTypeSet<true>>(u4, mem, lt, mlt, orc);
    lemma_spec_eval_fn_38_frame::<ScalarWitnessTypeSet<true>>(u5, mem, lt, mlt, orc);
    let u6 = spec_eval_fn_38::<ScalarWitnessTypeSet<true>>(u5, mem, lt, mlt, orc);
    lemma_spec_eval_fn_39_frame::<ScalarWitnessTypeSet<true>>(u6, mem, lt, mlt, orc);
    let u7 = spec_eval_fn_39::<ScalarWitnessTypeSet<true>>(u6, mem, lt, mlt, orc);
    lemma_spec_eval_fn_40_frame::<ScalarWitnessTypeSet<true>>(u7, mem, lt, mlt, orc);
    let u8 = spec_eval_fn_40::<ScalarWitnessTypeSet<true>>(u7, mem, lt, mlt, orc);
    lemma_spec_eval_fn_41_frame::<ScalarWitnessTypeSet<true>>(u8, mem, lt, mlt, orc);
    let u9 = spec_eval_fn_41::<ScalarWitnessTypeSet<true>>(u8, mem, lt, mlt, orc);
    lemma_spec_eval_fn_42_frame::<ScalarWitnessTypeSet<true>>(u9, mem, lt, mlt, orc);
    let u10 = spec_eval_fn_42::<ScalarWitnessTypeSet<true>>(u9, mem, lt, mlt, orc);
    lemma_steps_43_to_87(u10, mem, lt, mlt, orc);

    lemma_eval_fn_40_copies_low(u7, mem, lt, mlt, orc);
    lemma_eval_fn_41_copies_high(u8, mem, lt, mlt, orc);
    lemma_eval_fn_42_is_zero(u9, mem, lt, mlt, orc);
    let a = first_operand(mem);
    let b = second_operand(s.0, mem);
    let diff = (a - b) % 0x1_0000_0000;
    vstd::arithmetic::div_mod::lemma_mod_twice(diff, 0x1_0000);
    assert(diff / 0x1_0000 < 0x1_0000);
    vstd::arithmetic::div_mod::lemma_small_mod((diff / 0x1_0000) as nat, 0x1_0000);
    let lo = diff % 0x1_0000;
    let hi = diff / 0x1_0000;
    assert(u9.0[98].val() == lo);
    assert(u9.0[99].val() == hi);
    vstd::arithmetic::div_mod::lemma_small_mod((lo + hi) as nat, p() as nat);
    assert(0 <= a < 0x1_0000_0000);
    assert(0 <= b < 0x1_0000_0000);
    if a == b {
        assert(diff == 0);
    } else {
        assert(diff != 0) by {
            vstd::arithmetic::div_mod::lemma_fundamental_div_mod(a - b, 0x1_0000_0000);
        }
        assert(lo + hi != 0) by {
            vstd::arithmetic::div_mod::lemma_fundamental_div_mod(diff, 0x1_0000);
        }
    }
}

/// With field values, where the flag in place 23 is set, the step writes to
/// places 11 and 12 the low and high halves of the program counter (memory
/// places 32 and 31) plus the immediate (places 4 and 3), modulo `2^32`, and
/// to place 39 whether the sum carries out of 32 bits; where the flag is
/// clear, the three places keep their values (read as 16 bits and as a flag).
pub proof fn lemma_eval_fn_18_adds_pc(
    s: (Seq<Mersenne31Field>, Seq<(Seq<Mersenne31Field>, u16, usize)>, Seq<(Seq<Mersenne31Field>, u16, bool)>),
    mem: Seq<Mersenne31Field>,
    lt: spec_fn(Seq<Mersenne31Field>, u16, nat) -> Seq<Mersenne31Field>,
    mlt: spec_fn(Seq<Mersenne31Field>, u16, bool, nat) -> Seq<Mersenne31Field>,
    orc: spec_fn(Placeholder) -> u32,
)
    requires
        s.0.len() >= 105,
        mem.len() >= 33,
    ensures
        ({
            let r = spec_eval_fn_18::<ScalarWitnessTypeSet<true>>(s, mem, lt, mlt, orc);
            let a = word_of_halves(mem[32].val(), mem[31].val());
            let b = word_of_halves(s.0[4].val(), s.0[3].val());
            let res = (a + b) % 0x1_0000_0000;
            if s.0[23].val() != 0 {
                &&& r.0[11].val() == res % 0x1_0000
                &&& r.0[12].val() == res / 0x1_0000
                &&& r.0[39].val() == if a + b >= 0x1_0000_0000 {
                    1int
                } else {
                    0int
                }
            } else {
                &&& r.0[11].val() == s.0[11].val() % 0x1_0000
                &&& r.0[12].val() == s.0[12].val() % 0x1_0000
                &&& r.0[39].val() == if s.0[39].val() != 0 {
                    1int
                } else {
                    0int
                }
            }
        }),
{
    reveal(spec_eval_fn_18);
    lemma_scalar_u16_read(mem[31]);
    lemma_scalar_u16_read(mem[32]);
    lemma_scalar_u16_read(s.0[3]);
    lemma_scalar_u16_read(s.0[4]);
    lemma_scalar_u16_read(s.0[11]);
    lemma_scalar_u16_read(s.0[12]);
    lemma_scalar_join_halves::<ScalarWitnessTypeSet<true>>(
        place_as_u16::<Mersenne31Field, ScalarWitnessTypeSet<true>>(mem[32]),
        place_as_u16::<Mersenne31Field, ScalarWitnessTypeSet<true>>(mem[31]),
    );
    lemma_scalar_join_halves::<ScalarWitnessTypeSet<true>>(
        place_as_u16::<Mersenne31Field, ScalarWitnessTypeSet<true>>(s.0[4]),
        place_as_u16::<Mersenne31Field, ScalarWitnessTypeSet<true>>(s.0[3]),
    );
    let a = word_of_halves(mem[32].val(), mem[31].val());
    let b = word_of_halves(s.0[4].val(), s.0[3].val());
    let res = ((a + b) % 0x1_0000_0000) as u32;
    lemma_scalar_split_halves::<ScalarWitnessTypeSet<true>>(res);
    lemma_scalar_u16_place((res as int % 0x1_0000) as u16);
    lemma_scalar_u16_place((res as int / 0x1_0000) as u16);
    lemma_scalar_u16_place(place_as_u16::<Mersenne31Field, ScalarWitnessTypeSet<true>>(s.0[11]));
    lemma_scalar_u16_place(place_as_u16::<Mersenne31Field, ScalarWitnessTypeSet<true>>(s.0[12]));
    lemma_scalar_flag_place(a + b >= 0x1_0000_0000);
    lemma_scalar_flag_place(s.0[39].val() != 0);
}

/// With field values, where the flag in place 27 is set, the step writes to
/// places 11 and 12 the low and high halves of the word in places 92 and 91
/// plus the immediate (places 4 and 3), modulo `2^32`, and to place 39
/// whether the sum carries out of 32 bits; where the flag is clear, the three
/// places keep their values (read as 16 bits and as a flag).
pub proof fn lemma_eval_fn_28_adds_immediate(
    s: (Seq<Mersenne31Field>, Seq<(Seq<Mersenne31Field>, u16, usize)>, Seq<(Seq<Mersenne31Field>, u16, bool)>),
    mem: Seq<Mersenne31Field>,
    lt: spec_fn(Seq<Mersenne31Field>, u16, nat) -> Seq<Mersenne31Field>,
    mlt: spec_fn(Seq<Mersenne31Field>, u16, bool, nat) -> Seq<Mersenne31Field>,
    orc: spec_fn(Placeholder) -> u32,
)
    requires
        s.0.len() >= 105,
        mem.len() >= 33,
    ensures
        ({
            let r = spec_eval_fn_28::<ScalarWitnessTypeSet<true>>(s, mem, lt, mlt, orc);
            let a = word_of_halves(s.0[92].val(), s.0[91].val());
            let b = word_of_halves(s.0[4].val(), s.0[3].val());
            let res = (a + b) % 0x1_0000_0000;
            if s.0[27].val() != 0 {
                &&& r.0[11].val() == res % 0x1_0000
                &&& r.0[12].val() == res / 0x1_0000
                &&& r.0[39].val() == if a + b >= 0x1_0000_0000 {
                    1int
                } else {
                    0int
                }
            } else {
                &&& r.0[11].val() == s.0[11].val() % 0x1_0000
                &&& r.0[12].val() == s.0[12].val() % 0x1_0000
                &&& r.0[39].val() == if s.0[39].val() != 0 {
                    1int
                } else {
                    0int
                }
            }
        }),
{
    reveal(spec_eval_fn_28);
    lemma_scalar_u16_read(s.0[91]);
    lemma_scalar_u16_read(s.0[92]);
    lemma_scalar_u16_read(s.0[3]);
    lemma_scalar_u16_read(s.0[4]);
    lemma_scalar_u16_read(s.0[11]);
    lemma_scalar_u16_read(s.0[12]);
    lemma_scalar_join_halves::<ScalarWitnessTypeSet<true>>(
        place_as_u16::<Mersenne31Field, ScalarWitnessTypeSet<true>>(s.0[92]),
        place_as_u16::<Mersenne31Field, ScalarWitnessTypeSet<true>>(s.0[91]),
    );
    lemma_scalar_join_halves::<ScalarWitnessTypeSet<true>>(
        place_as_u16::<Mersenne31Field, ScalarWitnessTypeSet<true>>(s.0[4]),
        place_as_u16::<Mersenne31Field, ScalarWitnessTypeSet<true>>(s.0[3]),
    );
    let a = word_of_halves(s.0[92].val(), s.0[91].val());
    let b = word_of_halves(s.0[4].val(), s.0[3].val());
    let res = ((a + b) % 0x1_0000_0000) as u32;
    lemma_scalar_split_halves::<ScalarWitnessTypeSet<true>>(res);
    lemma_scalar_u16_place((res as int % 0x1_0000) as u16);
    lemma_scalar_u16_place((res as int / 0x1_0000) as u16);
    lemma_scalar_u16_place(place_as_u16::<Mersenne31Field, ScalarWitnessTypeSet<true>>(s.0[11]));
    lemma_scalar_u16_place(place_as_u16::<Mersenne31Field, ScalarWitnessTypeSet<true>>(s.0[12]));
    lemma_scalar_flag_place(a + b >= 0x1_0000_0000);
    lemma_scalar_flag_place(s.0[39].val() != 0);
}

/// With field values, where the flag in place 29 is set, the step writes to
/// places 11 and 12 the low and high halves of the first operand (memory
/// places 9 and 8) plus the immediate (places 4 and 3), modulo `2^32`, and to
/// place 39 whether the sum carries out of 32 bits; where the flag is clear,
/// the three places keep their values (read as 16 bits and as a flag).
pub proof fn lemma_eval_fn_32_adds_immediate(
    s: (Seq<Mersenne31Field>, Seq<(Seq<Mersenne31Field>, u16, usize)>, Seq<(Seq<Mersenne31Field>, u16, bool)>),
    mem: Seq<Mersenne31Field>,
    lt: spec_fn(Seq<Mersenne31Field>, u16, nat) -> Seq<Mersenne31Field>,
    mlt: spec_fn(Seq<Mersenne31Field>, u16, bool, nat) -> Seq<Mersenne31Field>,
    orc: spec_fn(Placeholder) -> u32,
)
    requires
        s.0.len() >= 105,
        mem.len() >= 33,
    ensures
        ({
            let r = spec_eval_fn_32::<ScalarWitnessTypeSet<true>>(s, mem, lt, mlt, orc);
            let a = word_of_halves(mem[9].val(), mem[8].val());
            let b = word_of_halves(s.0[4].val(), s.0[3].val());
            let res = (a + b) % 0x1_0000_0000;
            if s.0[29].val() != 0 {
                &&& r.0[11].val() == res % 0x1_0000
                &&& r.0[12].val() == res / 0x1_0000
                &&& r.0[39].val() == if a + b >= 0x1_0000_0000 {
                    1int
                } else {
                    0int
                }
            } else {
                &&& r.0[11].val() == s.0[11].val() % 0x1_0000
                &&& r.0[12].val() == s.0[12].val() % 0x1_0000
                &&& r.0[39].val() == if s.0[39].val() != 0 {
                    1int
                } else {
                    0int
                }
            }
        }),
{
    reveal(spec_eval_fn_32);
    lemma_scalar_u16_read(mem[8]);
    lemma_scalar_u16_read(mem[9]);
    lemma_scalar_u16_read(s.0[3]);
    lemma_scalar_u16_read(s.0[4]);
    lemma_scalar_u16_read(s.0[11]);
    lemma_scalar_u16_read(s.0[12]);
    lemma_scalar_join_halves::<ScalarWitnessTypeSet<true>>(
        place_as_u16::<Mersenne31Field, ScalarWitnessTypeSet<true>>(mem[9]),
        place_as_u16::<Mersenne31Field, ScalarWitnessTypeSet<true>>(mem[8]),
    );
    lemma_scalar_join_halves::<ScalarWitnessTypeSet<true>>(
        place_as_u16::<Mersenne31Field, ScalarWitnessTypeSet<true>>(s.0[4]),
        place_as_u16::<Mersenne31Field, ScalarWitnessTypeSet<true>>(s.0[3]),
    );
    let a = word_of_halves(mem[9].val(), mem[8].val());
    let b = word_of_halves(s.0[4].val(), s.0[3].val());
    let res = ((a + b) % 0x1_0000_0000) as u32;
    lemma_scalar_split_halves::<ScalarWitnessTypeSet<true>>(res);
    lemma_scalar_u16_place((res as int % 0x1_0000) as u16);
    lemma_scalar_u16_place((res as int / 0x1_0000) as u16);
    lemma_scalar_u16_place(place_as_u16::<Mersenne31Field, ScalarWitnessTypeSet<true>>(s.0[11]));
    lemma_scalar_u16_place(place_as_u16::<Mersenne31Field, ScalarWitnessTypeSet<true>>(s.0[12]));
    lemma_scalar_flag_place(a + b >= 0x1_0000_0000);
    lemma_scalar_flag_place(s.0[39].val() != 0);
}

/// With field values, where the flag in place 33 is set, the step writes to
/// places 11 and 12 the low and high halves of the first operand (memory
/// places 9 and 8) plus the immediate (places 4 and 3), modulo `2^32`, and to
/// place 39 whether the sum carries out of 32 bits; where the flag is clear,
/// the three places keep their values (read as 16 bits and as a flag).
pub proof fn lemma_eval_fn_34_adds_immediate(
    s: (Seq<Mersenne31Field>, Seq<(Seq<Mersenne31Field>, u16, usize)>, Seq<(Seq<Mersenne31Field>, u16, bool)>),
    mem: Seq<Mersenne31Field>,
    lt: spec_fn(Seq<Mersenne31Field>, u16, nat) -> Seq<Mersenne31Field>,
    mlt: spec_fn(Seq<Mersenne31Field>, u16, bool, nat) -> Seq<Mersenne31Field>,
    orc: spec_fn(Placeholder) -> u32,
)
    requires
        s.0.len() >= 105,
        mem.len() >= 33,
    ensures
        ({
            let r = spec_eval_fn_34::<ScalarWitnessTypeSet<true>>(s, mem, lt, mlt, orc);
            let a = word_of_halves(mem[9].val(), mem[8].val());
            let b = word_of_halves(s.0[4].val(), s.0[3].val());
            let res = (a + b) % 0x1_0000_0000;
            if s.0[33].val() != 0 {
                &&& r.0[11].val() == res % 0x1_0000
                &&& r.0[12].val() == res / 0x1_0000
                &&& r.0[39].val() == if a + b >= 0x1_0000_0000 {
                    1int
                } else {
                    0int
                }
            } else {
                &&& r.0[11].val() == s.0[11].val() % 0x1_0000
                &&& r.0[12].val() == s.0[12].val() % 0x1_0000
                &&& r.0[39].val() == if s.0[39].val() != 0 {
                    1int
                } else {
                    0int
                }
            }
        }),
{
    reveal(spec_eval_fn_34);
    lemma_scalar_u16_read(mem[8]);
    lemma_scalar_u16_read(mem[9]);
    lemma_scalar_u16_read(s.0[3]);
    lemma_scalar_u16_read(s.0[4]);
    lemma_scalar_u16_read(s.0[11]);
    lemma_scalar_u16_read(s.0[12]);
    lemma_scalar_join_halves::<ScalarWitnessTypeSet<true>>(
        place_as_u16::<Mersenne31Field, ScalarWitnessTypeSet<true>>(mem[9]),
        place_as_u16::<Mersenne31Field, ScalarWitnessTypeSet<true>>(mem[8]),
    );
    lemma_scalar_join_halves::<ScalarWitnessTypeSet<true>>(
        place_as_u16::<Mersenne31Field, ScalarWitnessTypeSet<true>>(s.0[4]),
        place_as_u16::<Mersenne31Field, ScalarWitnessTypeSet<true>>(s.0[3]),
    );
    let a = word_of_halves(mem[9].val(), mem[8].val());
    let b = word_of_halves(s.0[4].val(), s.0[3].val());
    let res = ((a + b) % 0x1_0000_0000) as u32;
    lemma_scalar_split_halves::<ScalarWitnessTypeSet<true>>(res);
    lemma_scalar_u16_place((res as int % 0x1_0000) as u16);
    lemma_scalar_u16_place((res as int / 0x1_0000) as u16);
    lemma_scalar_u16_place(place_as_u16::<Mersenne31Field, ScalarWitnessTypeSet<true>>(s.0[11]));
    lemma_scalar_u16_place(place_as_u16::<Mersenne31Field, ScalarWitnessTypeSet<true>>(s.0[12]));
    lemma_scalar_flag_place(a + b >= 0x1_0000_0000);
    lemma_scalar_flag_place(s.0[39].val() != 0);
}

/// With field values, where the flag in place 30 is set, the step writes to
/// places 11 and 12 the low and high halves of the word in places 95 and
/// 94; where the flag is clear, the two places keep their values (read as 16
/// bits).
pub proof fn lemma_eval_fn_31_copies_word(
    s: (Seq<Mersenne31Field>, Seq<(Seq<Mersenne31Field>, u16, usize)>, Seq<(Seq<Mersenne31Field>, u16, bool)>),
    mem: Seq<Mersenne31Field>,
    lt: spec_fn(Seq<Mersenne31Field>, u16, nat) -> Seq<Mersenne31Field>,
    mlt: spec_fn(Seq<Mersenne31Field>, u16, bool, nat) -> Seq<Mersenne31Field>,
    orc: spec_fn(Placeholder) -> u32,
)
    requires
        s.0.len() >= 105,
        mem.len() >= 33,
    ensures
        ({
            let r = spec_eval_fn_31::<ScalarWitnessTypeSet<true>>(s, mem, lt, mlt, orc);
            let a = word_of_halves(s.0[95].val(), s.0[94].val());
            let res = a;
            if s.0[30].val() != 0 {
                &&& r.0[11].val() == res % 0x1_0000
                &&& r.0[12].val() == res / 0x1_0000
            } else {
                &&& r.0[11].val() == s.0[11].val() % 0x1_0000
                &&& r.0[12].val() == s.0[12].val() % 0x1_0000
            }
        }),
{
    reveal(spec_eval_fn_31);
    lemma_scalar_u16_read(s.0[94]);
    lemma_scalar_u16_read(s.0[95]);
    lemma_scalar_u16_read(s.0[11]);
    lemma_scalar_u16_read(s.0[12]);
    lemma_scalar_join_halves::<ScalarWitnessTypeSet<true>>(
        place_as_u16::<Mersenne31Field, ScalarWitnessTypeSet<true>>(s.0[95]),
        place_as_u16::<Mersenne31Field, ScalarWitnessTypeSet<true>>(s.0[94]),
    );
    let a = word_of_halves(s.0[95].val(), s.0[94].val());
    let res = a as u32;
    lemma_scalar_split_halves::<ScalarWitnessTypeSet<true>>(res);
    lemma_scalar_u16_place((res as int % 0x1_0000) as u16);
    lemma_scalar_u16_place((res as int / 0x1_0000) as u16);
    lemma_scalar_u16_place(place_as_u16::<Mersenne31Field, ScalarWitnessTypeSet<true>>(s.0[11]));
    lemma_scalar_u16_place(place_as_u16::<Mersenne31Field, ScalarWitnessTypeSet<true>>(s.0[12]));
}

/// With field values, where the flag in place 30 is set, the step writes to
/// places 13 and 14 the low and high halves of the word in places 12 and 11
/// minus `2^31 - 1`, modulo `2^32`, and to place 39 whether that subtraction
/// borrows; where the flag is clear, the three places keep their values (read
/// as 16 bits and as a flag).
pub proof fn lemma_eval_fn_48_reduces(
    s: (Seq<Mersenne31Field>, Seq<(Seq<Mersenne31Field>, u16, usize)>, Seq<(Seq<Mersenne31Field>, u16, bool)>),
    mem: Seq<Mersenne31Field>,
    lt: spec_fn(Seq<Mersenne31Field>, u16, nat) -> Seq<Mersenne31Field>,
    mlt: spec_fn(Seq<Mersenne31Field>, u16, bool, nat) -> Seq<Mersenne31Field>,
    orc: spec_fn(Placeholder) -> u32,
)
    requires
        s.0.len() >= 105,
        mem.len() >= 33,
    ensures
        ({
            let r = spec_eval_fn_48::<ScalarWitnessTypeSet<true>>(s, mem, lt, mlt, orc);
            let a = word_of_halves(s.0[12].val(), s.0[11].val());
            let b = 0x7fff_ffffint;
            let res = (a - b) % 0x1_0000_0000;
            if s.0[30].val() != 0 {
                &&& r.0[13].val() == res % 0x1_0000
                &&& r.0[14].val() == res / 0x1_0000
                &&& r.0[39].val() == if a < b {
                    1int
                } else {
                    0int
                }
            } else {
                &&& r.0[13].val() == s.0[13].val() % 0x1_0000
                &&& r.0[14].val() == s.0[14].val() % 0x1_0000
                &&& r.0[39].val() == if s.0[39].val() != 0 {
                    1int
                } else {
                    0int
                }
            }
        }),
{
    reveal(spec_eval_fn_48);
    lemma_scalar_u16_read(s.0[11]);
    lemma_scalar_u16_read(s.0[12]);
    lemma_scalar_u16_read(s.0[13]);
    lemma_scalar_u16_read(s.0[14]);
    lemma_scalar_join_halves::<ScalarWitnessTypeSet<true>>(
        place_as_u16::<Mersenne31Field, ScalarWitnessTypeSet<true>>(s.0[12]),
        place_as_u16::<Mersenne31Field, ScalarWitnessTypeSet<true>>(s.0[11]),
    );
    let a = word_of_halves(s.0[12].val(), s.0[11].val());
    let b = 0x7fff_ffffint;
    let res = ((a - b) % 0x1_0000_0000) as u32;
    lemma_scalar_split_halves::<ScalarWitnessTypeSet<true>>(res);
    lemma_scalar_u16_place((res as int % 0x1_0000) as u16);
    lemma_scalar_u16_place((res as int / 0x1_0000) as u16);
    lemma_scalar_u16_place(place_as_u16::<Mersenne31Field, ScalarWitnessTypeSet<true>>(s.0[13]));
    lemma_scalar_u16_place(place_as_u16::<Mersenne31Field, ScalarWitnessTypeSet<true>>(s.0[14]));
    lemma_scalar_flag_place(a < b);
    lemma_scalar_flag_place(s.0[39].val() != 0);
}

/// With field values, the step that carries into the high half of the
/// program counter writes to place 73 the high half (memory place 32) plus
/// the carry of the low half (place 37), zero where that overflows 16 bits,
/// the overflow to place 38, and to place 75 the inverse of
/// `high + carry - 2^16` where that is nonzero, zero where it is zero.
pub proof fn lemma_eval_fn_11_carries_pc(
    s: (Seq<Mersenne31Field>, Seq<(Seq<Mersenne31Field>, u16, usize)>, Seq<(Seq<Mersenne31Field>, u16, bool)>),
    mem: Seq<Mersenne31Field>,
    lt: spec_fn(Seq<Mersenne31Field>, u16, nat) -> Seq<Mersenne31Field>,
    mlt: spec_fn(Seq<Mersenne31Field>, u16, bool, nat) -> Seq<Mersenne31Field>,
    orc: spec_fn(Placeholder) -> u32,
)
    requires
        s.0.len() >= 105,
        mem.len() >= 33,
    ensures
        ({
            let r = spec_eval_fn_11::<ScalarWitnessTypeSet<true>>(s, mem, lt, mlt, orc);
            let high = mem[32].val() % 0x1_0000;
            let carry = s.0[37].val() % 0x1_0000;
            let d = (high + carry - 0x1_0000) % p();
            &&& r.0[73].val() == if high + carry >= 0x1_0000 {
                0int
            } else {
                high + carry
            }
            &&& r.0[38].val() == if high + carry >= 0x1_0000 {
                1int
            } else {
                0int
            }
            &&& d != 0 ==> (r.0[75].val() * d) % p() == 1
            &&& d == 0 ==> r.0[75].val() == 0
        }),
{
    reveal(spec_eval_fn_11);
    let high = mem[32].val() % 0x1_0000;
    let carry = s.0[37].val() % 0x1_0000;
    let d = (high + carry - 0x1_0000) % p();
    lemma_element_value(0);
    lemma_element_value(1);
    lemma_element_value(0x1_0000);
    lemma_element_value(high);
    lemma_element_value(carry);
    lemma_element_value(high + carry);
    lemma_element_value(d);
    lemma_scalar_u16_read(mem[32]);
    lemma_scalar_u16_read(s.0[37]);
    let h16 = place_as_u16::<Mersenne31Field, ScalarWitnessTypeSet<true>>(mem[32]);
    let c16 = place_as_u16::<Mersenne31Field, ScalarWitnessTypeSet<true>>(s.0[37]);
    let eh = <ScalarWitnessTypeSet<true> as WitnessTypeSet<Mersenne31Field>>::Field::spec_from_integer(h16 as u32);
    let ec = <ScalarWitnessTypeSet<true> as WitnessTypeSet<Mersenne31Field>>::Field::spec_from_integer(c16 as u32);
    assert(eh.val() == high);
    assert(ec.val() == carry);
    let es = <ScalarWitnessTypeSet<true> as WitnessTypeSet<Mersenne31Field>>::Field::spec_plus(eh, ec);
    assert(es.val() == high + carry);
    let ed = <ScalarWitnessTypeSet<true> as WitnessTypeSet<Mersenne31Field>>::Field::spec_minus(es, Mersenne31Field(0x1_0000));
    assert(ed.val() == d);
    lemma_scalar_inverse_or_zero::<ScalarWitnessTypeSet<true>>(ed);
    if high + carry < 0x1_0000 {
        vstd::arithmetic::div_mod::lemma_small_mod((high + carry) as nat, 0x1_0000);
        lemma_scalar_u16_place((high + carry) as u16);
    }
    lemma_scalar_u16_place(0u16);
    lemma_scalar_flag_place(high + carry >= 0x1_0000);
}

/// With scalar values, a byte placed in the row has its own value.
proof fn lemma_scalar_u8_place(v: u8)
    ensures
        place_of_u8::<Mersenne31Field, ScalarWitnessTypeSet<true>>(v).val() == v as int,
{
    vstd::arithmetic::div_mod::lemma_small_mod(v as nat, p() as nat);
    lemma_element_value(v as int);
}

/// With field values, the step that writes place 76 writes the low byte of
/// memory place 8.
pub proof fn lemma_eval_fn_12_low_byte(
    s: (Seq<Mersenne31Field>, Seq<(Seq<Mersenne31Field>, u16, usize)>, Seq<(Seq<Mersenne31Field>, u16, bool)>),
    mem: Seq<Mersenne31Field>,
    lt: spec_fn(Seq<Mersenne31Field>, u16, nat) -> Seq<Mersenne31Field>,
    mlt: spec_fn(Seq<Mersenne31Field>, u16, bool, nat) -> Seq<Mersenne31Field>,
    orc: spec_fn(Placeholder) -> u32,
)
    requires
        s.0.len() >= 105,
        mem.len() >= 33,
    ensures
        spec_eval_fn_12::<ScalarWitnessTypeSet<true>>(s, mem, lt, mlt, orc).0[76].val() == mem[8].val() % 0x100,
{
    reveal(spec_eval_fn_12);
    lemma_scalar_u16_read(mem[8]);
    let b = ((mem[8].val() % 0x1_0000) % 0x100) as u8;
    lemma_scalar_u8_place(b);
    vstd::arithmetic::div_mod::lemma_mod_mod(mem[8].val(), 0x100, 0x100);
}

/// With field values, the step that writes place 77 writes the low byte of
/// place 71.
pub proof fn lemma_eval_fn_14_low_byte(
    s: (Seq<Mersenne31Field>, Seq<(Seq<Mersenne31Field>, u16, usize)>, Seq<(Seq<Mersenne31Field>, u16, bool)>),
    mem: Seq<Mersenne31Field>,
    lt: spec_fn(Seq<Mersenne31Field>, u16, nat) -> Seq<Mersenne31Field>,
    mlt: spec_fn(Seq<Mersenne31Field>, u16, bool, nat) -> Seq<Mersenne31Field>,
    orc: spec_fn(Placeholder) -> u32,
)
    requires
        s.0.len() >= 105,
        mem.len() >= 33,
    ensures
        spec_eval_fn_14::<ScalarWitnessTypeSet<true>>(s, mem, lt, mlt, orc).0[77].val() == s.0[71].val() % 0x100,
{
    reveal(spec_eval_fn_14);
    lemma_scalar_u16_read(s.0[71]);
    let b = ((s.0[71].val() % 0x1_0000) % 0x100) as u8;
    lemma_scalar_u8_place(b);
    vstd::arithmetic::div_mod::lemma_mod_mod(s.0[71].val(), 0x100, 0x100);
}

/// With field values, the step that writes place 91 takes memory place 31
/// where the flag in place 34 is set, and memory place 8 otherwise.
pub proof fn lemma_eval_fn_26_selects(
    s: (Seq<Mersenne31Field>, Seq<(Seq<Mersenne31Field>, u16, usize)>, Seq<(Seq<Mersenne31Field>, u16, bool)>),
    mem: Seq<Mersenne31Field>,
    lt: spec_fn(Seq<Mersenne31Field>, u16, nat) -> Seq<Mersenne31Field>,
    mlt: spec_fn(Seq<Mersenne31Field>, u16, bool, nat) -> Seq<Mersenne31Field>,
    orc: spec_fn(Placeholder) -> u32,
)
    requires
        s.0.len() >= 105,
        mem.len() >= 33,
    ensures
        spec_eval_fn_26::<ScalarWitnessTypeSet<true>>(s, mem, lt, mlt, orc).0 == s.0.update(
            91,
            if s.0[34].val() != 0 {
                mem[31]
            } else {
                mem[8]
            },
        ),
{
    reveal(spec_eval_fn_26);
}

/// With field values, the step that writes place 92 takes memory place 32
/// where the flag in place 34 is set, and memory place 9 otherwise.
pub proof fn lemma_eval_fn_27_selects(
    s: (Seq<Mersenne31Field>, Seq<(Seq<Mersenne31Field>, u16, usize)>, Seq<(Seq<Mersenne31Field>, u16, bool)>),
    mem: Seq<Mersenne31Field>,
    lt: spec_fn(Seq<Mersenne31Field>, u16, nat) -> Seq<Mersenne31Field>,
    mlt: spec_fn(Seq<Mersenne31Field>, u16, bool, nat) -> Seq<Mersenne31Field>,
    orc: spec_fn(Placeholder) -> u32,
)
    requires
        s.0.len() >= 105,
        mem.len() >= 33,
    ensures
        spec_eval_fn_27::<ScalarWitnessTypeSet<true>>(s, mem, lt, mlt, orc).0 == s.0.update(
            92,
            if s.0[34].val() != 0 {
                mem[32]
            } else {
                mem[9]
            },
        ),
{
    reveal(spec_eval_fn_27);
}

/// `2^32 = 2 + 2 * p`, so that a product of two words joined from halves
/// is, modulo `p`, the sum of the cross products with `2` in place of `2^32`.
proof fn lemma_joined_product(ah: int, al: int, bh: int, bl: int)
    ensures
        (ah * 0x1_0000 + al) * (bh * 0x1_0000 + bl) == al * bl + al * 0x1_0000 * bh + ah * 0x1_0000 * bl + ah * 2
            * bh + (2 * ah * bh) * p(),
{
    assert((ah * 0x1_0000 + al) * (bh * 0x1_0000 + bl) == al * bl + al * 0x1_0000 * bh + ah * 0x1_0000 * bl + ah
        * 2 * bh + (2 * ah * bh) * 0x7fff_ffff) by (nonlinear_arith);
}

/// Reducing the accumulator and the factor modulo `m` before `acc + y * z`
/// does not change the result modulo `m`.
proof fn lemma_mod_accumulate(x: int, y: int, z: int, m: int)
    requires
        m > 0,
    ensures
        ((x % m) + (y % m) * z) % m == (x + y * z) % m,
{
    vstd::arithmetic::div_mod::lemma_mul_mod_noop_left(y, z, m);
    vstd::arithmetic::div_mod::lemma_add_mod_noop(x % m, (y % m) * z, m);
    vstd::arithmetic::div_mod::lemma_mod_twice(x, m);
    vstd::arithmetic::div_mod::lemma_add_mod_noop(x, y * z, m);
}

/// The sum of cross products that the multiplication step accumulates,
/// reduced modulo `p` after each step, is the product of the joined words
/// modulo `p`.
proof fn lemma_joined_product_mod(ah: int, al: int, bh: int, bl: int)
    ensures
        ({
            let pp = p();
            let x5 = (0 + al * bl) % pp;
            let x8 = (x5 + ((al * 0x1_0000) % pp) * bh) % pp;
            let x10 = (x8 + ((ah * 0x1_0000) % pp) * bl) % pp;
            (x10 + ((ah * 2) % pp) * bh) % pp == ((ah * 0x1_0000 + al) * (bh * 0x1_0000 + bl)) % pp
        }),
{
    let pp = p();
    let x5 = (0 + al * bl) % pp;
    let x8 = (x5 + ((al * 0x1_0000) % pp) * bh) % pp;
    let x10 = (x8 + ((ah * 0x1_0000) % pp) * bl) % pp;
    let x13 = (x10 + ((ah * 2) % pp) * bh) % pp;
    let e = al * bl + al * 0x1_0000 * bh + ah * 0x1_0000 * bl + ah * 2 * bh;
    lemma_mod_accumulate(al * bl, al * 0x1_0000, bh, pp);
    lemma_mod_accumulate(al * bl + al * 0x1_0000 * bh, ah * 0x1_0000, bl, pp);
    lemma_mod_accumulate(al * bl + al * 0x1_0000 * bh + ah * 0x1_0000 * bl, ah * 2, bh, pp);
    lemma_joined_product(ah, al, bh, bl);
    vstd::arithmetic::div_mod::lemma_mod_multiples_vanish(2 * ah * bh, e, pp);
}

/// With field values, the step that writes place 93 writes the product,
/// modulo `p`, of the first operand joined from memory places 9 and 8 and
/// the second joined from places 52 and 71, each as `hi * 2^16 + lo` over
/// the field values.
pub proof fn lemma_eval_fn_29_multiplies(
    s: (Seq<Mersenne31Field>, Seq<(Seq<Mersenne31Field>, u16, usize)>, Seq<(Seq<Mersenne31Field>, u16, bool)>),
    mem: Seq<Mersenne31Field>,
    lt: spec_fn(Seq<Mersenne31Field>, u16, nat) -> Seq<Mersenne31Field>,
    mlt: spec_fn(Seq<Mersenne31Field>, u16, bool, nat) -> Seq<Mersenne31Field>,
    orc: spec_fn(Placeholder) -> u32,
)
    requires
        s.0.len() >= 105,
        mem.len() >= 33,
    ensures
        spec_eval_fn_29::<ScalarWitnessTypeSet<true>>(s, mem, lt, mlt, orc).0[93].val() == ((mem[9].val()
            * 0x1_0000 + mem[8].val()) * (s.0[52].val() * 0x1_0000 + s.0[71].val())) % p(),
{
    reveal(spec_eval_fn_29);
    let al = mem[8].val();
    let ah = mem[9].val();
    let bl = s.0[71].val();
    let bh = s.0[52].val();
    let pp = p();
    let x5 = (0 + al * bl) % pp;
    let x7 = (al * 0x1_0000) % pp;
    let x8 = (x5 + x7 * bh) % pp;
    let x9 = (ah * 0x1_0000) % pp;
    let x10 = (x8 + x9 * bl) % pp;
    let x12 = (ah * 2) % pp;
    let x13 = (x10 + x12 * bh) % pp;
    lemma_element_value(0);
    lemma_element_value(1);
    lemma_element_value(2);
    lemma_element_value(0x1_0000);
    lemma_element_value(x5);
    lemma_element_value(x7);
    lemma_element_value(x8);
    lemma_element_value(x9);
    lemma_element_value(x10);
    lemma_element_value(x12);
    lemma_element_value(x13);
    lemma_joined_product_mod(ah, al, bh, bl);
}

/// The value that the combining step accumulates, reducing modulo `p`
/// after each operation, is the selected sum, difference and product of
/// `a` and `b` modulo `p`.
proof fn lemma_selected_combination(a: int, b: int, with_sum: bool, with_product: bool, with_difference: bool)
    ensures
        ({
            let pp = p();
            let am = a % pp;
            let bm = b % pp;
            let t20 = if with_sum {
                (0 + (am + bm) % pp) % pp
            } else {
                0
            };
            let t23 = if with_difference {
                (t20 + (am - bm) % pp) % pp
            } else {
                t20
            };
            let t25 = if with_product {
                (t23 + am * bm) % pp
            } else {
                t23
            };
            t25 == ((if with_sum {
                a + b
            } else {
                0
            }) + (if with_difference {
                a - b
            } else {
                0
            }) + (if with_product {
                a * b
            } else {
                0
            })) % pp
        }),
{
    let pp = p();
    let am = a % pp;
    let bm = b % pp;
    let x1 = if with_sum {
        a + b
    } else {
        0
    };
    let x3 = if with_difference {
        a - b
    } else {
        0
    };
    let x2 = if with_product {
        a * b
    } else {
        0
    };
    let t20 = if with_sum {
        (0 + (am + bm) % pp) % pp
    } else {
        0
    };
    vstd::arithmetic::div_mod::lemma_add_mod_noop(a, b, pp);
    vstd::arithmetic::div_mod::lemma_mod_twice(a + b, pp);
    vstd::arithmetic::div_mod::lemma_small_mod(0, pp as nat);
    assert(t20 == x1 % pp);
    let t23 = if with_difference {
        (t20 + (am - bm) % pp) % pp
    } else {
        t20
    };
    vstd::arithmetic::div_mod::lemma_sub_mod_noop(a, b, pp);
    vstd::arithmetic::div_mod::lemma_add_mod_noop(x1, a - b, pp);
    assert(t23 == (x1 + x3) % pp);
    let y = x1 + x3;
    vstd::arithmetic::div_mod::lemma_mul_mod_noop(a, b, pp);
    vstd::arithmetic::div_mod::lemma_add_mod_noop(y, am * bm, pp);
    vstd::arithmetic::div_mod::lemma_add_mod_noop(y % pp, am * bm, pp);
    vstd::arithmetic::div_mod::lemma_mod_twice(y, pp);
    vstd::arithmetic::div_mod::lemma_add_mod_noop(y, a * b, pp);
}

/// With field values, the step that writes places 94 and 95 combines the
/// first operand `a` (memory places 9 and 8) and the second `b` (places 52
/// and 71): it adds `a + b` where the flag in place 34 is set, `a - b`
/// where the flag in place 36 is set and `a * b` where the flag in place 35
/// is set, modulo `p`, and writes the low and high halves of the result.
pub proof fn lemma_eval_fn_30_combines(
    s: (Seq<Mersenne31Field>, Seq<(Seq<Mersenne31Field>, u16, usize)>, Seq<(Seq<Mersenne31Field>, u16, bool)>),
    mem: Seq<Mersenne31Field>,
    lt: spec_fn(Seq<Mersenne31Field>, u16, nat) -> Seq<Mersenne31Field>,
    mlt: spec_fn(Seq<Mersenne31Field>, u16, bool, nat) -> Seq<Mersenne31Field>,
    orc: spec_fn(Placeholder) -> u32,
)
    requires
        s.0.len() >= 105,
        mem.len() >= 33,
    ensures
        ({
            let r = spec_eval_fn_30::<ScalarWitnessTypeSet<true>>(s, mem, lt, mlt, orc);
            let a = word_of_halves(mem[9].val(), mem[8].val());
            let b = word_of_halves(s.0[52].val(), s.0[71].val());
            let v = ((if s.0[34].val() != 0 {
                a + b
            } else {
                0
            }) + (if s.0[36].val() != 0 {
                a - b
            } else {
                0
            }) + (if s.0[35].val() != 0 {
                a * b
            } else {
                0
            })) % p();
            &&& r.0[94].val() == v % 0x1_0000
            &&& r.0[95].val() == v / 0x1_0000
        }),
{
    reveal(spec_eval_fn_30);
    let pp = p();
    lemma_scalar_u16_read(mem[8]);
    lemma_scalar_u16_read(mem[9]);
    lemma_scalar_u16_read(s.0[71]);
    lemma_scalar_u16_read(s.0[52]);
    lemma_scalar_join_halves::<ScalarWitnessTypeSet<true>>(
        place_as_u16::<Mersenne31Field, ScalarWitnessTypeSet<true>>(mem[9]),
        place_as_u16::<Mersenne31Field, ScalarWitnessTypeSet<true>>(mem[8]),
    );
    lemma_scalar_join_halves::<ScalarWitnessTypeSet<true>>(
        place_as_u16::<Mersenne31Field, ScalarWitnessTypeSet<true>>(s.0[52]),
        place_as_u16::<Mersenne31Field, ScalarWitnessTypeSet<true>>(s.0[71]),
    );
    let a = word_of_halves(mem[9].val(), mem[8].val());
    let b = word_of_halves(s.0[52].val(), s.0[71].val());
    let am = a % pp;
    let bm = b % pp;
    let ea = <ScalarWitnessTypeSet<true> as WitnessTypeSet<Mersenne31Field>>::Field::spec_from_integer(a as u32);
    let eb = <ScalarWitnessTypeSet<true> as WitnessTypeSet<Mersenne31Field>>::Field::spec_from_integer(b as u32);
    lemma_element_value(am);
    lemma_element_value(bm);
    assert(ea.val() == am);
    assert(eb.val() == bm);
    let zero = Mersenne31Field(0u32);
    lemma_element_value(0);
    let e19 = <ScalarWitnessTypeSet<true> as WitnessTypeSet<Mersenne31Field>>::Field::spec_plus(zero, <ScalarWitnessTypeSet<true> as WitnessTypeSet<Mersenne31Field>>::Field::spec_plus(ea, eb));
    lemma_element_value((am + bm) % pp);
    lemma_element_value((0 + (am + bm) % pp) % pp);
    let e20 = <ScalarWitnessTypeSet<true> as WitnessTypeSet<Mersenne31Field>>::Field::spec_select(s.0[34].val() != 0, e19, zero);
    let t20 = if s.0[34].val() != 0 {
        (0 + (am + bm) % pp) % pp
    } else {
        0
    };
    assert(e20.val() == t20);
    let e21 = <ScalarWitnessTypeSet<true> as WitnessTypeSet<Mersenne31Field>>::Field::spec_minus(ea, eb);
    lemma_element_value((am - bm) % pp);
    let e22 = <ScalarWitnessTypeSet<true> as WitnessTypeSet<Mersenne31Field>>::Field::spec_plus(e20, e21);
    lemma_element_value((t20 + (am - bm) % pp) % pp);
    let e23 = <ScalarWitnessTypeSet<true> as WitnessTypeSet<Mersenne31Field>>::Field::spec_select(s.0[36].val() != 0, e22, e20);
    let t23 = if s.0[36].val() != 0 {
        (t20 + (am - bm) % pp) % pp
    } else {
        t20
    };
    assert(e23.val() == t23);
    let e24 = <ScalarWitnessTypeSet<true> as WitnessTypeSet<Mersenne31Field>>::Field::spec_add_product(e23, ea, eb);
    lemma_element_value((t23 + am * bm) % pp);
    let e25 = <ScalarWitnessTypeSet<true> as WitnessTypeSet<Mersenne31Field>>::Field::spec_select(s.0[35].val() != 0, e24, e23);
    let t25 = if s.0[35].val() != 0 {
        (t23 + am * bm) % pp
    } else {
        t23
    };
    assert(e25.val() == t25);
    lemma_selected_combination(a, b, s.0[34].val() != 0, s.0[35].val() != 0, s.0[36].val() != 0);
    let x = <ScalarWitnessTypeSet<true> as WitnessTypeSet<Mersenne31Field>>::Field::spec_as_integer(e25);
    assert(x as int == t25);
    lemma_scalar_split_halves::<ScalarWitnessTypeSet<true>>(x);
    lemma_scalar_u16_place((x as int % 0x1_0000) as u16);
    lemma_scalar_u16_place((x as int / 0x1_0000) as u16);
}

/// With scalar values, `((x + y) - z) >> 16`, where `z` is the low half of
/// `x + y`, read as a flag, is the carry of the 16-bit addition `x + y`.
proof fn lemma_scalar_carry_bit<W: WitnessTypeSet<Mersenne31Field, U32 = u32, Mask = bool>>(x: u32, y: u32, z: u32)
    requires
        x < 0x1_0000,
        y < 0x1_0000,
        z as int == (x + y) % 0x1_0000,
    ensures
        W::U32::spec_into_mask(
            W::U32::spec_lowest_bits(W::U32::spec_shift_right(W::U32::spec_minus(W::U32::spec_plus(x, y), z), 16u32), 1u32),
        ) == (x + y >= 0x1_0000),
{
    vstd::arithmetic::power2::lemma2_to64();
    vstd::arithmetic::div_mod::lemma_small_mod((x + y) as nat, 0x1_0000_0000);
    vstd::arithmetic::div_mod::lemma_small_mod((x + y - z) as nat, 0x1_0000_0000);
    vstd::arithmetic::div_mod::lemma_small_mod(0, 2);
    vstd::arithmetic::div_mod::lemma_small_mod(1, 2);
}

/// With scalar values, `((z + y) - x) >> 16`, where `z` is the low half of
/// `x - y`, read as a flag, is the borrow of the 16-bit subtraction `x - y`.
proof fn lemma_scalar_borrow_bit<W: WitnessTypeSet<Mersenne31Field, U32 = u32, Mask = bool>>(x: u32, y: u32, z: u32)
    requires
        x < 0x1_0000,
        y < 0x1_0000,
        z as int == (x - y) % 0x1_0000,
    ensures
        W::U32::spec_into_mask(
            W::U32::spec_lowest_bits(W::U32::spec_shift_right(W::U32::spec_minus(W::U32::spec_plus(z, y), x), 16u32), 1u32),
        ) == (x < y),
{
    vstd::arithmetic::power2::lemma2_to64();
    vstd::arithmetic::div_mod::lemma_small_mod((z + y) as nat, 0x1_0000_0000);
    vstd::arithmetic::div_mod::lemma_small_mod((z + y - x) as nat, 0x1_0000_0000);
    vstd::arithmetic::div_mod::lemma_small_mod(0, 2);
    vstd::arithmetic::div_mod::lemma_small_mod(1, 2);
}

/// With field values, where the branch flag in place 25 is set and place 13
/// holds the low half of the program counter's low half (memory place 31)
/// plus the immediate's (place 3), the step writes to place 43 the carry of
/// that 16-bit addition; where the flag is clear it writes zero.
pub proof fn lemma_eval_fn_51_low_carry(
    s: (Seq<Mersenne31Field>, Seq<(Seq<Mersenne31Field>, u16, usize)>, Seq<(Seq<Mersenne31Field>, u16, bool)>),
    mem: Seq<Mersenne31Field>,
    lt: spec_fn(Seq<Mersenne31Field>, u16, nat) -> Seq<Mersenne31Field>,
    mlt: spec_fn(Seq<Mersenne31Field>, u16, bool, nat) -> Seq<Mersenne31Field>,
    orc: spec_fn(Placeholder) -> u32,
)
    requires
        s.0.len() >= 105,
        mem.len() >= 33,
        s.0[13].val() == (mem[31].val() % 0x1_0000 + s.0[3].val() % 0x1_0000) % 0x1_0000,
    ensures
        spec_eval_fn_51::<ScalarWitnessTypeSet<true>>(s, mem, lt, mlt, orc).0[43].val() == if s.0[25].val() != 0 && mem[31].val() % 0x1_0000 + s.0[3].val()
            % 0x1_0000 >= 0x1_0000 {
            1int
        } else {
            0int
        },
{
    reveal(spec_eval_fn_51);
    lemma_scalar_u16_read(mem[31]);
    lemma_scalar_u16_read(s.0[3]);
    lemma_scalar_u16_read(s.0[13]);
    let x = (mem[31].val() % 0x1_0000) as u32;
    let y = (s.0[3].val() % 0x1_0000) as u32;
    let z = (s.0[13].val() % 0x1_0000) as u32;
    vstd::arithmetic::div_mod::lemma_mod_twice(mem[31].val() % 0x1_0000 + s.0[3].val() % 0x1_0000, 0x1_0000);
    lemma_scalar_carry_bit::<ScalarWitnessTypeSet<true>>(x, y, z);
    lemma_scalar_flag_place(s.0[25].val() != 0 && x + y >= 0x1_0000);
}

/// With field values, on a row where the addition flag in place 22 is set,
/// the flags in places 23, 25, 27, 29, 30, 32 and 33 are clear, and place
/// 11 holds the low half of the operands' low halves (memory place 8 and
/// place 71) added, the step writes to place 42 the carry of that 16-bit
/// addition.
pub proof fn lemma_eval_fn_50_add_low_carry(
    s: (Seq<Mersenne31Field>, Seq<(Seq<Mersenne31Field>, u16, usize)>, Seq<(Seq<Mersenne31Field>, u16, bool)>),
    mem: Seq<Mersenne31Field>,
    lt: spec_fn(Seq<Mersenne31Field>, u16, nat) -> Seq<Mersenne31Field>,
    mlt: spec_fn(Seq<Mersenne31Field>, u16, bool, nat) -> Seq<Mersenne31Field>,
    orc: spec_fn(Placeholder) -> u32,
)
    requires
        s.0.len() >= 105,
        mem.len() >= 33,
        s.0[22].val() != 0,
        s.0[23].val() == 0,
        s.0[25].val() == 0,
        s.0[27].val() == 0,
        s.0[29].val() == 0,
        s.0[30].val() == 0,
        s.0[32].val() == 0,
        s.0[33].val() == 0,
        s.0[11].val() == (mem[8].val() % 0x1_0000 + s.0[71].val() % 0x1_0000) % 0x1_0000,
    ensures
        spec_eval_fn_50::<ScalarWitnessTypeSet<true>>(s, mem, lt, mlt, orc).0[42].val() == if mem[8].val() % 0x1_0000 + s.0[71].val() % 0x1_0000 >= 0x1_0000 {
            1int
        } else {
            0int
        },
{
    reveal(spec_eval_fn_50);
    lemma_scalar_u16_read(mem[8]);
    lemma_scalar_u16_read(s.0[71]);
    lemma_scalar_u16_read(s.0[11]);
    let x = (mem[8].val() % 0x1_0000) as u32;
    let y = (s.0[71].val() % 0x1_0000) as u32;
    let z = (s.0[11].val() % 0x1_0000) as u32;
    vstd::arithmetic::div_mod::lemma_mod_twice(mem[8].val() % 0x1_0000 + s.0[71].val() % 0x1_0000, 0x1_0000);
    lemma_scalar_carry_bit::<ScalarWitnessTypeSet<true>>(x, y, z);
    lemma_scalar_flag_place(x + y >= 0x1_0000);
}

/// With field values, on a row where the subtraction flag in place 32 is
/// set, the flags in places 23, 25, 27, 29, 30 and 33 are clear, and place
/// 11 holds the low half of the first operand's low half (memory place 8)
/// minus the second's (place 71), the step writes to place 42 the borrow of
/// that 16-bit subtraction.
pub proof fn lemma_eval_fn_50_sub_low_borrow(
    s: (Seq<Mersenne31Field>, Seq<(Seq<Mersenne31Field>, u16, usize)>, Seq<(Seq<Mersenne31Field>, u16, bool)>),
    mem: Seq<Mersenne31Field>,
    lt: spec_fn(Seq<Mersenne31Field>, u16, nat) -> Seq<Mersenne31Field>,
    mlt: spec_fn(Seq<Mersenne31Field>, u16, bool, nat) -> Seq<Mersenne31Field>,
    orc: spec_fn(Placeholder) -> u32,
)
    requires
        s.0.len() >= 105,
        mem.len() >= 33,
        s.0[32].val() != 0,
        s.0[23].val() == 0,
        s.0[25].val() == 0,
        s.0[27].val() == 0,
        s.0[29].val() == 0,
        s.0[30].val() == 0,
        s.0[33].val() == 0,
        s.0[11].val() == (mem[8].val() % 0x1_0000 - s.0[71].val() % 0x1_0000) % 0x1_0000,
    ensures
        spec_eval_fn_50::<ScalarWitnessTypeSet<true>>(s, mem, lt, mlt, orc).0[42].val() == if mem[8].val() % 0x1_0000 < s.0[71].val() % 0x1_0000 {
            1int
        } else {
            0int
        },
{
    reveal(spec_eval_fn_50);
    lemma_scalar_u16_read(mem[8]);
    lemma_scalar_u16_read(s.0[71]);
    lemma_scalar_u16_read(s.0[11]);
    let x = (mem[8].val() % 0x1_0000) as u32;
    let y = (s.0[71].val() % 0x1_0000) as u32;
    let z = (s.0[11].val() % 0x1_0000) as u32;
    vstd::arithmetic::div_mod::lemma_mod_twice(mem[8].val() % 0x1_0000 - s.0[71].val() % 0x1_0000, 0x1_0000);
    lemma_scalar_borrow_bit::<ScalarWitnessTypeSet<true>>(x, y, z);
    lemma_scalar_flag_place(x < y);
}

} // verus!
