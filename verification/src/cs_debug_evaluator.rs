use vstd::prelude::*;

use crate::definitions::Variable;
use crate::field::{p, Mersenne31Field};
use crate::placeholder::Placeholder;
use crate::witness_placer::{WitnessPlacer, WitnessResolutionDescription, WitnessTypeSet};

verus! {

/// Whether a variable can index the witness values: it is not the
/// placeholder and its index and the next one fit a `usize`.
pub open spec fn placeable(v: Variable) -> bool {
    v.0 < usize::MAX
}

/// The values extended with zeros to at least `n` entries.
pub open spec fn grown(values: Seq<Mersenne31Field>, n: int) -> Seq<Mersenne31Field> {
    if n <= values.len() {
        values
    } else {
        values + Seq::new((n - values.len()) as nat, |i: int| Mersenne31Field(0))
    }
}

/// The value of each variable held in `values`, zero for one without a
/// place.
pub open spec fn values_assignment(values: Seq<Mersenne31Field>) -> spec_fn(Variable) -> int {
    |v: Variable| if v.0 < values.len() {
        values[v.0 as int].val()
    } else {
        0
    }
}

/// Reading a variable gives back the value last written to it, and writing
/// a variable leaves the value of every other variable as it was.
pub proof fn lemma_read_after_write(values: Seq<Mersenne31Field>, v: Variable, w: Variable, x: Mersenne31Field)
    requires
        placeable(v),
    ensures
        values_assignment(grown(values, v.0 + 1).update(v.0 as int, x))(v) == x.val(),
        w != v ==> values_assignment(grown(values, v.0 + 1).update(v.0 as int, x))(w)
            == values_assignment(values)(w),
{
    let g = grown(values, v.0 + 1);
    if w != v && w.0 < g.len() && w.0 >= values.len() {
        assert(g[w.0 as int] == Mersenne31Field(0));
    }
}

/// The value held for a variable: the value at its index, zero for one
/// beyond the values.
pub open spec fn held(values: Seq<Mersenne31Field>, v: Variable) -> Mersenne31Field {
    if v.0 < values.len() {
        values[v.0 as int]
    } else {
        Mersenne31Field(0)
    }
}

/// Growing with zeros keeps what every variable holds, and writing a place
/// changes what its variable holds only.
pub proof fn lemma_held_after_write(values: Seq<Mersenne31Field>, v: Variable, x: Mersenne31Field, w: Variable)
    requires
        placeable(v),
    ensures
        held(grown(values, v.0 + 1), w) == held(values, w),
        held(grown(values, v.0 + 1).update(v.0 as int, x), w) == if w == v {
            x
        } else {
            held(values, w)
        },
{
    let g = grown(values, v.0 + 1);
    if w.0 < g.len() && w.0 >= values.len() {
        assert(g[w.0 as int] == Mersenne31Field(0));
    }
    if w != v {
        assert(w.0 != v.0);
    }
}

/// The witness of a circuit evaluated value by value: the value of each
/// variable is held at the variable's index, and a variable beyond the
/// values has not been assigned yet (its value reads as zero). It holds no
/// lookup tables and no oracle.
pub struct CSDebugWitnessEvaluator {
    pub values: Vec<Mersenne31Field>,
    pub reads: Ghost<Seq<Variable>>,
}

impl CSDebugWitnessEvaluator {
    /// The value of each variable, zero for one without a place.
    pub open spec fn assignment(&self) -> spec_fn(Variable) -> int {
        values_assignment(self.values@)
    }

    /// The evaluator with no values yet.
    pub fn new() -> (r: Self)
        ensures
            r.values@.len() == 0,
            r.field_reads() == Seq::<Variable>::empty(),
    {
        CSDebugWitnessEvaluator { values: Vec::new(), reads: Ghost(Seq::empty()) }
    }

    /// Extends the values with zeros so that the variable has a place.
    fn make_place(&mut self, variable: Variable)
        requires
            placeable(variable),
        ensures
            final(self).values@ == grown(old(self).values@, variable.0 + 1),
            final(self).reads == old(self).reads,
    {
        let idx = variable.0 as usize;
        let ghost old_values = self.values@;
        if idx >= self.values.len() {
            self.values.resize(idx + 1, Mersenne31Field(0));
            proof {
                let g = grown(old_values, variable.0 + 1);
                assert forall|i: int| 0 <= i < g.len() implies #[trigger] self.values@[i] == g[i] by {
                    if i < old_values.len() {
                        assert(self.values@.subrange(0, old_values.len() as int)[i] == self.values@[i]);
                    }
                }
                assert(self.values@ =~= g);
            }
        }
    }

    /// The value of the variable, `None` where it has no place yet.
    pub fn get_value(&self, variable: Variable) -> (r: Option<Mersenne31Field>)
        requires
            placeable(variable),
        ensures
            variable.0 < self.values@.len() ==> r == Some(self.values@[variable.0 as int]),
            variable.0 >= self.values@.len() ==> r is None,
    {
        let idx = variable.0 as usize;
        if idx >= self.values.len() {
            None
        } else {
            Some(self.values[idx])
        }
    }

    /// Evaluates a resolution step on the values.
    pub fn evaluate<T: WitnessResolutionDescription<Mersenne31Field, Self>>(&mut self, node: &T)
        ensures
            node.spec_evaluates(*old(self), *final(self)),
    {
        node.evaluate(self);
    }
}

impl WitnessTypeSet<Mersenne31Field> for CSDebugWitnessEvaluator {
    type Mask = bool;
    type Field = Mersenne31Field;
    type I32 = i32;
    type U32 = u32;
    type U16 = u16;
    type U8 = u8;

    open spec fn spec_can_branch() -> bool {
        true
    }

    open spec fn spec_branch(mask: bool) -> bool {
        mask
    }

    /// The evaluator may branch.
    fn can_branch() -> (r: bool)
        ensures
            r,
    {
        true
    }

    /// The evaluator counts the multiplicity with the lookup.
    fn merge_lookup_and_multiplicity_count() -> (r: bool)
        ensures
            r,
    {
        true
    }

    /// The branch is taken where the mask holds.
    fn branch(mask: &bool) -> (r: bool)
        ensures
            r == *mask,
    {
        *mask
    }
}

impl WitnessPlacer<Mersenne31Field> for CSDebugWitnessEvaluator {
    open spec fn placed_field(&self, variable: Variable) -> Mersenne31Field {
        held(self.values@, variable)
    }

    open spec fn placed_u16(&self, variable: Variable) -> u16 {
        (held(self.values@, variable).val() % 0x1_0000) as u16
    }

    open spec fn placed_u8(&self, variable: Variable) -> u8 {
        (held(self.values@, variable).val() % 0x100) as u8
    }

    open spec fn accepts(variable: Variable) -> bool {
        placeable(variable)
    }

    open spec fn field_reads(&self) -> Seq<Variable> {
        self.reads@
    }

    /// The evaluator holds no tables.
    open spec fn has_table(&self, table_id: u16) -> bool {
        false
    }

    /// Without an oracle, zero.
    fn get_oracle_field(&mut self, placeholder: Placeholder, subindex: usize) -> (r: Mersenne31Field)
        ensures
            r == Mersenne31Field(0),
            *final(self) == *old(self),
    {
        Mersenne31Field(0)
    }

    /// Without an oracle, zero.
    fn get_oracle_u32(&mut self, placeholder: Placeholder) -> (r: u32)
        ensures
            r == 0,
            *final(self) == *old(self),
    {
        0
    }

    /// Without an oracle, zero.
    fn get_oracle_u16(&mut self, placeholder: Placeholder) -> (r: u16)
        ensures
            r == 0,
            *final(self) == *old(self),
    {
        0
    }

    /// Without an oracle, zero.
    fn get_oracle_u8(&mut self, placeholder: Placeholder) -> (r: u8)
        ensures
            r == 0,
            *final(self) == *old(self),
    {
        0
    }

    /// Without an oracle, false.
    fn get_oracle_boolean(&mut self, placeholder: Placeholder) -> (r: bool)
        ensures
            !r,
            *final(self) == *old(self),
    {
        false
    }

    /// The value of the variable; a variable without a place gets one, of
    /// value zero.
    fn get_field(&mut self, variable: Variable) -> (r: Mersenne31Field)
        ensures
            final(self).values@ == grown(old(self).values@, variable.0 + 1),
            r == final(self).values@[variable.0 as int],
            r.val() == (old(self).assignment())(variable),
    {
        self.make_place(variable);
        self.reads = Ghost(self.reads@.push(variable));
        proof {
            assert(self.reads@ == old(self).reads@.push(variable));
            assert(self.field_reads() == old(self).field_reads().push(variable));
            assert forall|x: Variable| #[trigger] self.placed_field(x) == old(self).placed_field(x) by {
                lemma_held_after_write(old(self).values@, variable, Mersenne31Field(0), x);
            }
        }
        let idx = variable.0 as usize;
        self.values[idx]
    }

    /// The value of the variable read as a boolean: whether it is nonzero.
    fn get_boolean(&mut self, variable: Variable) -> (r: bool)
        ensures
            final(self).values@ == grown(old(self).values@, variable.0 + 1),
            r == ((old(self).assignment())(variable) != 0),
    {
        self.get_field(variable).as_boolean()
    }

    /// The low 16 bits of the value of the variable.
    fn get_u16(&mut self, variable: Variable) -> (r: u16)
        ensures
            final(self).values@ == grown(old(self).values@, variable.0 + 1),
            r as int == (old(self).assignment())(variable) % 0x1_0000,
    {
        let v = self.get_field(variable).as_u32_reduced();
        (v % 0x1_0000) as u16
    }

    /// The low 8 bits of the value of the variable.
    fn get_u8(&mut self, variable: Variable) -> (r: u8)
        ensures
            final(self).values@ == grown(old(self).values@, variable.0 + 1),
            r as int == (old(self).assignment())(variable) % 0x100,
    {
        let v = self.get_field(variable).as_u32_reduced();
        (v % 0x100) as u8
    }

    /// Sets the value of the variable.
    fn assign_field(&mut self, variable: Variable, value: &Mersenne31Field)
        ensures
            final(self).values@ == grown(old(self).values@, variable.0 + 1).update(
                variable.0 as int,
                *value,
            ),
            final(self).reads == old(self).reads,
    {
        self.make_place(variable);
        let idx = variable.0 as usize;
        self.values.set(idx, *value);
        proof {
            assert forall|x: Variable| #[trigger] self.placed_field(x) == if x == variable {
                *value
            } else {
                old(self).placed_field(x)
            } by {
                lemma_held_after_write(old(self).values@, variable, *value, x);
            }
        }
    }

    /// Sets the variable to one for `true` and zero for `false`.
    fn assign_mask(&mut self, variable: Variable, value: &bool)
        ensures
            final(self).values@ == grown(old(self).values@, variable.0 + 1).update(
                variable.0 as int,
                Mersenne31Field(if *value { 1u32 } else { 0u32 }),
            ),
            final(self).reads == old(self).reads,
    {
        let v = if *value {
            Mersenne31Field(1)
        } else {
            Mersenne31Field(0)
        };
        self.assign_field(variable, &v);
    }

    /// Sets the variable to the 16-bit value.
    fn assign_u16(&mut self, variable: Variable, value: &u16)
        ensures
            final(self).values@ == grown(old(self).values@, variable.0 + 1).update(
                variable.0 as int,
                Mersenne31Field(*value as u32),
            ),
            final(self).reads == old(self).reads,
    {
        let v = Mersenne31Field(*value as u32);
        self.assign_field(variable, &v);
        proof {
            vstd::arithmetic::div_mod::lemma_small_mod(*value as nat, p() as nat);
            vstd::arithmetic::div_mod::lemma_small_mod(*value as nat, 0x1_0000);
            assert forall|x: Variable| #[trigger] self.placed_u16(x) == if x == variable {
                *value
            } else {
                old(self).placed_u16(x)
            } by {
                lemma_held_after_write(old(self).values@, variable, v, x);
            }
        }
    }

    /// Sets the variable to the 8-bit value.
    fn assign_u8(&mut self, variable: Variable, value: &u8)
        ensures
            final(self).values@ == grown(old(self).values@, variable.0 + 1).update(
                variable.0 as int,
                Mersenne31Field(*value as u32),
            ),
            final(self).reads == old(self).reads,
    {
        let v = Mersenne31Field(*value as u32);
        self.assign_field(variable, &v);
        proof {
            vstd::arithmetic::div_mod::lemma_small_mod(*value as nat, p() as nat);
            vstd::arithmetic::div_mod::lemma_small_mod(*value as nat, 0x100);
            assert forall|x: Variable| #[trigger] self.placed_u8(x) == if x == variable {
                *value
            } else {
                old(self).placed_u8(x)
            } by {
                lemma_held_after_write(old(self).values@, variable, v, x);
            }
        }
    }

    /// Sets the boolean value where the mask holds.
    fn conditionally_assign_mask(&mut self, variable: Variable, mask: &bool, value: &bool)
        ensures
            !*mask ==> *final(self) == *old(self),
    {
        if *mask {
            self.assign_mask(variable, value);
        }
    }

    /// Sets the value where the mask holds.
    fn conditionally_assign_field(&mut self, variable: Variable, mask: &bool, value: &Mersenne31Field)
        ensures
            !*mask ==> *final(self) == *old(self),
    {
        if *mask {
            self.assign_field(variable, value);
        }
    }

    /// Sets the 16-bit value where the mask holds.
    fn conditionally_assign_u16(&mut self, variable: Variable, mask: &bool, value: &u16)
        ensures
            !*mask ==> *final(self) == *old(self),
    {
        if *mask {
            self.assign_u16(variable, value);
        }
    }

    /// Sets the 8-bit value where the mask holds.
    fn conditionally_assign_u8(&mut self, variable: Variable, mask: &bool, value: &u8)
        ensures
            !*mask ==> *final(self) == *old(self),
    {
        if *mask {
            self.assign_u8(variable, value);
        }
    }

    /// Never called: the evaluator holds no tables.
    fn lookup<const M: usize, const N: usize>(
        &mut self,
        inputs: &[Mersenne31Field; M],
        table_id: &u16,
    ) -> [Mersenne31Field; N] {
        vstd::array::array_fill_for_copy_types(Mersenne31Field(0))
    }

    /// Zeros where the mask does not hold; where it holds the evaluator
    /// has no table to look in.
    fn maybe_lookup<const M: usize, const N: usize>(
        &mut self,
        inputs: &[Mersenne31Field; M],
        table_id: &u16,
        mask: &bool,
    ) -> (r: [Mersenne31Field; N])
        ensures
            r@ == Seq::new(N as nat, |i: int| Mersenne31Field(0)),
            *final(self) == *old(self),
    {
        if *mask {
            self.lookup(inputs, table_id)
        } else {
            let r = vstd::array::array_fill_for_copy_types(Mersenne31Field(0));
            proof {
                assert(r@ =~= Seq::new(N as nat, |i: int| Mersenne31Field(0)));
            }
            r
        }
    }

    /// Never called: the evaluator holds no tables.
    fn lookup_enforce<const M: usize>(&mut self, inputs: &[Mersenne31Field; M], table_id: &u16) {
    }

    /// Nothing to record.
    fn assume_assigned(&mut self, variable: Variable)
        ensures
            *final(self) == *old(self),
    {
    }
}

} // verus!
