use airbender_cs::field::Mersenne31Field;
use airbender_cs::oracle::{ExecutorFamilyDecoderData, Oracle};
use airbender_cs::placeholder::Placeholder;
use airbender_cs::scalar_types::ScalarWitnessTypeSet;
use airbender_cs::witness_placer::WitnessTypeSet;

struct FixedOracle {
    value: u32,
}

impl Oracle for FixedOracle {
    fn get_witness_from_placeholder(
        &self,
        _placeholder: Placeholder,
        _subindex: usize,
        _trace_row: usize,
    ) -> Mersenne31Field {
        Mersenne31Field(self.value)
    }
    fn get_u32_witness_from_placeholder(&self, _placeholder: Placeholder, _trace_row: usize) -> u32 {
        self.value
    }
    fn get_timestamp_witness_from_placeholder(&self, _placeholder: Placeholder, _trace_row: usize) -> u64 {
        self.value as u64
    }
    fn get_executor_family_data(&self, _trace_row: usize) -> ExecutorFamilyDecoderData {
        ExecutorFamilyDecoderData::default()
    }
}

#[test]
fn oracle_narrow_witnesses_take_the_low_bits() {
    let oracle = FixedOracle { value: 0x0012_3456 };
    assert_eq!(oracle.get_u16_witness_from_placeholder(Placeholder::ExternalOracle, 3), 0x3456);
    assert_eq!(oracle.get_u8_witness_from_placeholder(Placeholder::ExternalOracle, 3), 0x56);
    assert!(oracle.get_boolean_witness_from_placeholder(Placeholder::ExternalOracle, 3));
}

#[test]
fn oracle_defaults_read_the_reduced_value() {
    // the characteristic itself is the zero of the field
    let oracle = FixedOracle { value: 0x7fff_ffff };
    assert_eq!(oracle.get_u16_witness_from_placeholder(Placeholder::ExternalOracle, 0), 0);
    assert_eq!(oracle.get_u8_witness_from_placeholder(Placeholder::ExternalOracle, 0), 0);
    assert!(!oracle.get_boolean_witness_from_placeholder(Placeholder::ExternalOracle, 0));
}

#[test]
fn scalar_type_set_keeps_lookups_and_multiplicities_apart() {
    assert!(!ScalarWitnessTypeSet::<true>::merge_lookup_and_multiplicity_count());
}
