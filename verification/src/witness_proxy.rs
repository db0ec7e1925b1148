use vstd::prelude::*;

use crate::placeholder::Placeholder;
use crate::witness_placer::{
    WitnessComputationalField, WitnessComputationalU16, WitnessComputationalU32,
    WitnessComputationalU8, WitnessTypeSet,
};

verus! {

/// A witness place read as a boolean.
pub open spec fn place_as_mask<F, W: WitnessTypeSet<F>>(value: W::Field) -> W::Mask {
    W::Field::spec_into_mask(value)
}

/// A witness place read as a 16-bit integer: the low half of its integer.
pub open spec fn place_as_u16<F, W: WitnessTypeSet<F>>(value: W::Field) -> W::U16 {
    W::U32::spec_truncate(W::Field::spec_as_integer(value))
}

/// The witness place that holds a 16-bit integer.
pub open spec fn place_of_u16<F, W: WitnessTypeSet<F>>(value: W::U16) -> W::Field {
    W::Field::spec_from_integer(W::U16::spec_widen(value))
}

/// The witness place that holds a byte.
pub open spec fn place_of_u8<F, W: WitnessTypeSet<F>>(value: W::U8) -> W::Field {
    W::Field::spec_from_integer(W::U16::spec_widen(W::U8::spec_widen(value)))
}

/// What the witness evaluation of a row reads and changes: the witness
/// places, the lookups counted under a mapping index (inputs, table, index)
/// and the lookups made under a mask (inputs, table, mask).
pub open spec fn row_state<F, W: WitnessTypeSet<F>, P: WitnessProxy<F, W>>(proxy: P) -> (
    Seq<W::Field>,
    Seq<(Seq<W::Field>, W::U16, usize)>,
    Seq<(Seq<W::Field>, W::U16, W::Mask)>,
) {
    (proxy.witness(), proxy.counted_lookups(), proxy.masked_lookups())
}

/// Access to the witness and memory places of one row, to the lookup
/// tables and to the oracle, for the generated witness evaluation
/// functions. Implemented by the prover's users: the places are `witness()`
/// and `memory()`, the tables `lookup_table()` and `maybe_lookup_table()`,
/// the oracle `oracle_u32()`; reads stay within the places, writes change
/// one witness place, lookups are recorded in order, and nothing else
/// changes. An implementation that is verified against these contracts
/// gives its own of each; the defaults name none.
pub trait WitnessProxy<F, W: WitnessTypeSet<F>> {
    /// The witness places of the row.
    closed spec fn witness(&self) -> Seq<W::Field> {
        Seq::empty()
    }

    /// The memory places of the row.
    closed spec fn memory(&self) -> Seq<W::Field> {
        Seq::empty()
    }

    /// The outputs of a table for the inputs, as many as asked for.
    closed spec fn lookup_table(&self) -> spec_fn(Seq<W::Field>, W::U16, nat) -> Seq<W::Field> {
        |inputs: Seq<W::Field>, table_id: W::U16, n: nat| Seq::empty()
    }

    /// The outputs of a lookup made under a mask, as many as asked for.
    closed spec fn maybe_lookup_table(&self) -> spec_fn(Seq<W::Field>, W::U16, W::Mask, nat) -> Seq<W::Field> {
        |inputs: Seq<W::Field>, table_id: W::U16, mask: W::Mask, n: nat| Seq::empty()
    }

    /// The 32-bit oracle values by placeholder.
    closed spec fn oracle_u32(&self) -> spec_fn(Placeholder) -> W::U32 {
        |placeholder: Placeholder| vstd::pervasive::arbitrary()
    }

    /// The lookups made so far under a mapping index.
    closed spec fn counted_lookups(&self) -> Seq<(Seq<W::Field>, W::U16, usize)> {
        Seq::empty()
    }

    /// The lookups made so far under a mask.
    closed spec fn masked_lookups(&self) -> Seq<(Seq<W::Field>, W::U16, W::Mask)> {
        Seq::empty()
    }

    fn get_memory_place(&self, idx: usize) -> (r: W::Field)
        requires
            idx < self.memory().len(),
        ensures
            r == self.memory()[idx as int],
    ;

    fn get_memory_place_u16(&self, idx: usize) -> (r: W::U16)
        requires
            idx < self.memory().len(),
        ensures
            r == place_as_u16::<F, W>(self.memory()[idx as int]),
    ;

    fn get_witness_place(&self, idx: usize) -> (r: W::Field)
        requires
            idx < self.witness().len(),
        ensures
            r == self.witness()[idx as int],
    ;

    fn get_witness_place_boolean(&self, idx: usize) -> (r: W::Mask)
        requires
            idx < self.witness().len(),
        ensures
            r == place_as_mask::<F, W>(self.witness()[idx as int]),
    ;

    fn get_witness_place_u16(&self, idx: usize) -> (r: W::U16)
        requires
            idx < self.witness().len(),
        ensures
            r == place_as_u16::<F, W>(self.witness()[idx as int]),
    ;

    fn set_witness_place(&mut self, idx: usize, value: W::Field)
        requires
            idx < old(self).witness().len(),
        ensures
            final(self).witness() == old(self).witness().update(idx as int, value),
            final(self).memory() == old(self).memory(),
            final(self).lookup_table() == old(self).lookup_table(),
            final(self).maybe_lookup_table() == old(self).maybe_lookup_table(),
            final(self).oracle_u32() == old(self).oracle_u32(),
            final(self).counted_lookups() == old(self).counted_lookups(),
            final(self).masked_lookups() == old(self).masked_lookups(),
    ;

    fn set_witness_place_boolean(&mut self, idx: usize, value: W::Mask)
        requires
            idx < old(self).witness().len(),
        ensures
            final(self).witness() == old(self).witness().update(
                idx as int,
                W::Field::spec_from_mask(value),
            ),
            final(self).memory() == old(self).memory(),
            final(self).lookup_table() == old(self).lookup_table(),
            final(self).maybe_lookup_table() == old(self).maybe_lookup_table(),
            final(self).oracle_u32() == old(self).oracle_u32(),
            final(self).counted_lookups() == old(self).counted_lookups(),
            final(self).masked_lookups() == old(self).masked_lookups(),
    ;

    fn set_witness_place_u16(&mut self, idx: usize, value: W::U16)
        requires
            idx < old(self).witness().len(),
        ensures
            final(self).witness() == old(self).witness().update(
                idx as int,
                place_of_u16::<F, W>(value),
            ),
            final(self).memory() == old(self).memory(),
            final(self).lookup_table() == old(self).lookup_table(),
            final(self).maybe_lookup_table() == old(self).maybe_lookup_table(),
            final(self).oracle_u32() == old(self).oracle_u32(),
            final(self).counted_lookups() == old(self).counted_lookups(),
            final(self).masked_lookups() == old(self).masked_lookups(),
    ;

    fn set_witness_place_u8(&mut self, idx: usize, value: W::U8)
        requires
            idx < old(self).witness().len(),
        ensures
            final(self).witness() == old(self).witness().update(
                idx as int,
                place_of_u8::<F, W>(value),
            ),
            final(self).memory() == old(self).memory(),
            final(self).lookup_table() == old(self).lookup_table(),
            final(self).maybe_lookup_table() == old(self).maybe_lookup_table(),
            final(self).oracle_u32() == old(self).oracle_u32(),
            final(self).counted_lookups() == old(self).counted_lookups(),
            final(self).masked_lookups() == old(self).masked_lookups(),
    ;

    fn get_oracle_value_u32(&mut self, placeholder: Placeholder) -> (r: W::U32)
        ensures
            r == (old(self).oracle_u32())(placeholder),
            final(self).witness() == old(self).witness(),
            final(self).memory() == old(self).memory(),
            final(self).lookup_table() == old(self).lookup_table(),
            final(self).maybe_lookup_table() == old(self).maybe_lookup_table(),
            final(self).oracle_u32() == old(self).oracle_u32(),
            final(self).counted_lookups() == old(self).counted_lookups(),
            final(self).masked_lookups() == old(self).masked_lookups(),
    ;

    /// Looks the inputs up in the table and counts the use under the
    /// mapping index.
    fn lookup<const M: usize, const N: usize>(
        &mut self,
        inputs: &[W::Field; M],
        table_id: W::U16,
        lookup_mapping_idx: usize,
    ) -> (r: [W::Field; N])
        ensures
            r@ == (old(self).lookup_table())(inputs@, table_id, N as nat),
            final(self).counted_lookups() == old(self).counted_lookups().push(
                (inputs@, table_id, lookup_mapping_idx),
            ),
            final(self).witness() == old(self).witness(),
            final(self).memory() == old(self).memory(),
            final(self).lookup_table() == old(self).lookup_table(),
            final(self).maybe_lookup_table() == old(self).maybe_lookup_table(),
            final(self).oracle_u32() == old(self).oracle_u32(),
            final(self).masked_lookups() == old(self).masked_lookups(),
    ;

    /// Looks the inputs up where the mask holds.
    fn maybe_lookup<const M: usize, const N: usize>(
        &mut self,
        inputs: &[W::Field; M],
        table_id: W::U16,
        mask: W::Mask,
    ) -> (r: [W::Field; N])
        ensures
            r@ == (old(self).maybe_lookup_table())(inputs@, table_id, mask, N as nat),
            final(self).masked_lookups() == old(self).masked_lookups().push(
                (inputs@, table_id, mask),
            ),
            final(self).witness() == old(self).witness(),
            final(self).memory() == old(self).memory(),
            final(self).lookup_table() == old(self).lookup_table(),
            final(self).maybe_lookup_table() == old(self).maybe_lookup_table(),
            final(self).oracle_u32() == old(self).oracle_u32(),
            final(self).counted_lookups() == old(self).counted_lookups(),
    ;

    /// Counts the use of a full table row under the mapping index.
    fn lookup_enforce<const M: usize>(
        &mut self,
        values: &[W::Field; M],
        table_id: W::U16,
        lookup_mapping_idx: usize,
    )
        ensures
            final(self).counted_lookups() == old(self).counted_lookups().push(
                (values@, table_id, lookup_mapping_idx),
            ),
            final(self).witness() == old(self).witness(),
            final(self).memory() == old(self).memory(),
            final(self).lookup_table() == old(self).lookup_table(),
            final(self).maybe_lookup_table() == old(self).maybe_lookup_table(),
            final(self).oracle_u32() == old(self).oracle_u32(),
            final(self).masked_lookups() == old(self).masked_lookups(),
    ;
}

} // verus!
