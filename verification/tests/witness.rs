use airbender_cs::field::Mersenne31Field;
use airbender_cs::placeholder::Placeholder;
use airbender_cs::scalar_types::ScalarWitnessTypeSet;
use airbender_cs::witness_generation::evaluate_witness_fn;
use airbender_cs::witness_placer::{
    WitnessComputationCore, WitnessComputationalField, WitnessComputationalI32,
    WitnessComputationalInteger, WitnessComputationalU16, WitnessComputationalU32,
    WitnessComputationalU8, WitnessMask, WitnessTypeSet,
};
use airbender_cs::witness_proxy::WitnessProxy;

const P: u32 = 0x7fff_ffff;

struct RowProxy {
    witness: Vec<Mersenne31Field>,
    memory: Vec<Mersenne31Field>,
    oracle: u32,
    lookups: usize,
}

impl WitnessProxy<Mersenne31Field, ScalarWitnessTypeSet<true>> for RowProxy {
    fn get_memory_place(&self, idx: usize) -> Mersenne31Field {
        self.memory[idx]
    }
    fn get_memory_place_u16(&self, idx: usize) -> u16 {
        self.memory[idx].as_u32_reduced() as u16
    }
    fn get_witness_place(&self, idx: usize) -> Mersenne31Field {
        self.witness[idx]
    }
    fn get_witness_place_boolean(&self, idx: usize) -> bool {
        self.witness[idx].as_boolean()
    }
    fn get_witness_place_u16(&self, idx: usize) -> u16 {
        self.witness[idx].as_u32_reduced() as u16
    }
    fn set_witness_place(&mut self, idx: usize, value: Mersenne31Field) {
        self.witness[idx] = value;
    }
    fn set_witness_place_boolean(&mut self, idx: usize, value: bool) {
        self.witness[idx] = Mersenne31Field::from_boolean(value);
    }
    fn set_witness_place_u16(&mut self, idx: usize, value: u16) {
        self.witness[idx] = Mersenne31Field(value as u32);
    }
    fn set_witness_place_u8(&mut self, idx: usize, value: u8) {
        self.witness[idx] = Mersenne31Field(value as u32);
    }
    fn get_oracle_value_u32(&mut self, _placeholder: Placeholder) -> u32 {
        self.oracle
    }
    fn lookup<const M: usize, const N: usize>(
        &mut self,
        _inputs: &[Mersenne31Field; M],
        _table_id: u16,
        _lookup_mapping_idx: usize,
    ) -> [Mersenne31Field; N] {
        self.lookups += 1;
        [Mersenne31Field(0); N]
    }
    fn maybe_lookup<const M: usize, const N: usize>(
        &mut self,
        _inputs: &[Mersenne31Field; M],
        _table_id: u16,
        mask: bool,
    ) -> [Mersenne31Field; N] {
        if mask {
            self.lookups += 1;
        }
        [Mersenne31Field(0); N]
    }
    fn lookup_enforce<const M: usize>(
        &mut self,
        _values: &[Mersenne31Field; M],
        _table_id: u16,
        _lookup_mapping_idx: usize,
    ) {
        self.lookups += 1;
    }
}

#[test]
fn witness_function_decomposes_the_opcode_bits() {
    let mut proxy = RowProxy {
        witness: vec![Mersenne31Field(0); 256],
        memory: vec![Mersenne31Field(0); 64],
        oracle: 0x1234_5678,
        lookups: 0,
    };
    // the low 18 bits of place 6 are spread over places 19 to 36
    proxy.witness[6] = Mersenne31Field(0b10_0000_0000_0000_0101);
    evaluate_witness_fn::<ScalarWitnessTypeSet<true>, RowProxy>(&mut proxy);
    let bits: Vec<u32> = (19..37).map(|i| proxy.witness[i].as_u32_reduced()).collect();
    assert_eq!(bits[0], 1);
    assert_eq!(bits[1], 0);
    assert_eq!(bits[2], 1);
    assert_eq!(bits[17], 1);
    assert_eq!(bits.iter().sum::<u32>(), 3);
    assert!(proxy.lookups > 0);
}

#[test]
fn scalar_type_set_branches() {
    assert!(ScalarWitnessTypeSet::<true>::can_branch());
    assert!(ScalarWitnessTypeSet::<true>::branch(&true));
    assert!(!ScalarWitnessTypeSet::<true>::branch(&false));
    assert!(!ScalarWitnessTypeSet::<false>::can_branch());
}

#[test]
fn unsigned_wrapping_operations() {
    let mut x: u32 = u32::MAX;
    WitnessComputationCore::add_assign(&mut x, &2);
    assert_eq!(x, 1);
    WitnessComputationCore::sub_assign(&mut x, &3);
    assert_eq!(x, u32::MAX - 1);
    let mut y: u16 = 10;
    WitnessComputationCore::add_assign_product(&mut y, &3, &4);
    assert_eq!(y, 22);
    assert_eq!(<u8 as WitnessComputationalInteger<u8>>::overflowing_add(&200, &100), (44, true));
    assert_eq!(<u8 as WitnessComputationalInteger<u8>>::overflowing_sub(&1, &2), (255, true));
    assert_eq!(<u16 as WitnessComputationalInteger<u16>>::overflowing_add_with_carry(&0xffff, &0, &true), (0, true));
    assert_eq!(<u16 as WitnessComputationalInteger<u16>>::overflowing_sub_with_borrow(&5, &5, &true), (0xffff, true));
}

#[test]
fn unsigned_shifts_and_bits() {
    assert_eq!(<u32 as WitnessComputationalInteger<u32>>::shl(&0x8000_0001, 1), 2);
    assert_eq!(<u32 as WitnessComputationalInteger<u32>>::shl(&1, 32), 0);
    assert_eq!(<u32 as WitnessComputationalInteger<u32>>::shr(&0x8000_0000, 31), 1);
    assert_eq!(<u32 as WitnessComputationalInteger<u32>>::shr(&0x8000_0000, 40), 0);
    assert_eq!(<u16 as WitnessComputationalInteger<u16>>::get_lowest_bits(&0xabcd, 8), 0xcd);
    assert!(<u8 as WitnessComputationalInteger<u8>>::get_bit(&0b100, 2));
    assert!(!<u8 as WitnessComputationalInteger<u8>>::get_bit(&0b100, 1));
    assert_eq!(<u8 as WitnessComputationalInteger<u8>>::xor(&0b1100, &0b1010), 0b0110);
    assert_eq!(<u8 as WitnessComputationalInteger<u8>>::not(&0), 255);
}

#[test]
fn widening_and_truncating() {
    assert_eq!(WitnessComputationalU32::truncate(&0x1234_5678u32), 0x5678);
    assert_eq!(WitnessComputationalU16::truncate(&0x1234u16), 0x34);
    assert_eq!(WitnessComputationalU16::widen(&0xffffu16), 0xffff);
    assert_eq!(WitnessComputationalU8::widen(&0xffu8), 0xff);
    assert_eq!(WitnessComputationalU16::widening_product(&0xffffu16, &0xffff), 0xfffe_0001);
    assert_eq!(WitnessComputationalU32::split_widening_product(&0xffff_ffffu32, &2), (0xffff_fffe, 1));
    assert_eq!(WitnessComputationalU8::split_widening_product(&16u8, &17), (16, 1));
    assert_eq!(WitnessComputationalU32::wrapping_product(&0x1_0001u32, &0x1_0001), 0x2_0001);
    assert_eq!(WitnessComputationalU32::div_rem_assume_nonzero_divisor(&17u32, &5), (3, 2));
}

#[test]
fn signed_operations() {
    assert_eq!(<i32 as WitnessComputationalI32>::from_unsigned(0xffff_ffff), -1);
    assert_eq!(WitnessComputationalI32::as_unsigned(-2i32), 0xffff_fffe);
    assert_eq!(WitnessComputationalI32::widening_product_bits(&-1i32, &1), (0xffff_ffff, 0xffff_ffff));
    assert_eq!(WitnessComputationalI32::mixed_widening_product_bits(&-1i32, &2), (0xffff_fffe, 0xffff_ffff));
    assert_eq!(<i32 as WitnessComputationalI32>::div_rem_assume_nonzero_divisor_no_overflow(&-7, &2), (-3, -1));
    assert_eq!(<i32 as WitnessComputationalI32>::div_rem_assume_nonzero_divisor_no_overflow(&i32::MIN, &-1), (i32::MIN, 0));
    assert_eq!(<i32 as WitnessComputationalInteger<i32>>::shr(&-8, 1), -4);
    assert_eq!(<i32 as WitnessComputationalInteger<i32>>::shr(&-8, 40), -1);
    assert_eq!(<i32 as WitnessComputationalInteger<i32>>::shr(&8, 40), 0);
    assert_eq!(<i32 as WitnessComputationalInteger<i32>>::shl(&0x4000_0000, 1), i32::MIN);
    assert_eq!(<i32 as WitnessComputationalInteger<i32>>::overflowing_add(&i32::MAX, &1), (i32::MIN, true));
    assert_eq!(<i32 as WitnessComputationalInteger<i32>>::get_lowest_bits(&-1, 4), 15);
    assert!(<i32 as WitnessComputationalInteger<i32>>::get_bit(&-1, 31));
    let mut z: i32 = i32::MIN;
    WitnessComputationCore::sub_assign(&mut z, &1);
    assert_eq!(z, i32::MAX);
}

#[test]
fn field_witness_operations() {
    let a = Mersenne31Field(5);
    let b = Mersenne31Field(P - 1);
    let mut c = a;
    WitnessComputationalField::<Mersenne31Field>::fused_mul_add_assign(&mut c, &b, &Mersenne31Field(1));
    // 5 * (-1) + 1 = -4
    assert_eq!(c.as_u32_reduced(), P - 4);
    let inv = WitnessComputationalField::<Mersenne31Field>::inverse(&a);
    assert_eq!(a.mul(&inv).as_u32_reduced(), 1);
    assert_eq!(WitnessComputationalField::<Mersenne31Field>::inverse_or_zero(&Mersenne31Field(0)).as_u32_reduced(), 0);
    assert_eq!(WitnessComputationalField::<Mersenne31Field>::as_integer(Mersenne31Field(P + 3)), 3);
    assert_eq!(<Mersenne31Field as WitnessComputationalField<Mersenne31Field>>::from_integer(u32::MAX).as_u32_reduced(), 1);
    assert!(WitnessComputationalField::<Mersenne31Field>::into_mask(Mersenne31Field(2)));
    assert!(WitnessComputationalField::<Mersenne31Field>::equal(&Mersenne31Field(0), &Mersenne31Field(P)));
    assert!(<bool as WitnessMask>::select(&true, &false, &true) == false);
}

#[test]
fn signed_pattern_round_trip() {
    for v in [0u32, 1, 0x7fff_ffff, 0x8000_0000, 0xffff_ffff, 0x1234_5678] {
        let s = <i32 as WitnessComputationalI32>::from_unsigned(v);
        assert_eq!(WitnessComputationalI32::as_unsigned(s), v);
    }
    for s in [i32::MIN, -1, 0, 1, i32::MAX] {
        let v = WitnessComputationalI32::as_unsigned(s);
        assert_eq!(<i32 as WitnessComputationalI32>::from_unsigned(v), s);
    }
}

#[test]
fn u16_parts_of_u32() {
    let x: u32 = 0xdead_beef;
    let low = WitnessComputationalU32::truncate(&x);
    let high = WitnessComputationalU32::truncate(&<u32 as WitnessComputationalInteger<u32>>::shr(&x, 16));
    let back = <u32 as WitnessComputationalInteger<u32>>::shl(&WitnessComputationalU16::widen(&high), 16)
        + WitnessComputationalU16::widen(&low);
    assert_eq!(back, x);
}
