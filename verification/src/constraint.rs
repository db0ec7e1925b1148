use vstd::prelude::*;

use crate::definitions::{Boolean, Num, Variable};
use crate::field::{
    lemma_mod_add_both, lemma_mod_add_congruent, lemma_mod_mul_congruent, lemma_mod_sum_mul,
    lemma_mod_mul_assoc, lemma_mul_mod_left, p, inverse_value, Mersenne31Field,
};

verus! {

/// The number of variable slots in a term: terms have degree at most four.
pub const TERM_INNER_CAPACITY: usize = 4usize;

/// A monomial: either a constant, or a coefficient times a product of
/// `degree` variables held in the first `degree` slots of `inner`.
#[derive(Clone, Copy, Debug)]
pub enum Term {
    Constant(Mersenne31Field),
    Expression { coeff: Mersenne31Field, inner: [Variable; 4], degree: usize },
}

// ---------------------------------------------------------------------------
// Mathematical model of terms
// ---------------------------------------------------------------------------

/// The product of the values of `vars` under the assignment `a`.
pub open spec fn vars_product(vars: Seq<Variable>, a: spec_fn(Variable) -> int) -> int
    decreases vars.len(),
{
    if vars.len() == 0 {
        1
    } else {
        vars_product(vars.drop_last(), a) * a(vars.last())
    }
}

/// Variables in ascending order of their indices.
pub open spec fn vars_sorted(vars: Seq<Variable>) -> bool {
    forall|i: int, j: int| 0 <= i < j < vars.len() ==> #[trigger] vars[i].0 <= #[trigger] vars[j].0
}

/// How many times `v` occurs in `vars`.
pub open spec fn vars_count(vars: Seq<Variable>, v: Variable) -> nat
    decreases vars.len(),
{
    if vars.len() == 0 {
        0
    } else {
        vars_count(vars.drop_last(), v) + if vars.last() == v {
            1nat
        } else {
            0nat
        }
    }
}

/// Lexicographic order on sequences of variables, by their indices.
pub open spec fn vars_lex_lt(s1: Seq<Variable>, s2: Seq<Variable>) -> bool
    decreases s1.len(),
{
    if s1.len() == 0 || s2.len() == 0 {
        s1.len() < s2.len()
    } else if s1[0].0 != s2[0].0 {
        s1[0].0 < s2[0].0
    } else {
        vars_lex_lt(s1.drop_first(), s2.drop_first())
    }
}

impl Term {
    /// The variables of the monomial, in slot order.
    pub open spec fn variables(self) -> Seq<Variable> {
        match self {
            Term::Constant(_) => Seq::empty(),
            Term::Expression { inner, degree, .. } => inner@.take(degree as int),
        }
    }

    /// The coefficient of the monomial.
    pub open spec fn coefficient(self) -> Mersenne31Field {
        match self {
            Term::Constant(c) => c,
            Term::Expression { coeff, .. } => coeff,
        }
    }

    /// The degree of the monomial.
    pub open spec fn spec_degree(self) -> int {
        match self {
            Term::Constant(_) => 0,
            Term::Expression { degree, .. } => degree as int,
        }
    }

    /// The value of the monomial under an assignment (not reduced).
    pub open spec fn value(self, a: spec_fn(Variable) -> int) -> int {
        self.coefficient().val() * vars_product(self.variables(), a)
    }

    /// A well-formed term: an expression has between one and four variables,
    /// and its unused slots hold the placeholder.
    pub open spec fn wf(self) -> bool {
        match self {
            Term::Constant(_) => true,
            Term::Expression { inner, degree, .. } => {
                &&& 1 <= degree <= 4
                &&& forall|i: int| degree <= i < 4 ==> #[trigger] inner[i].spec_is_placeholder()
            },
        }
    }

    /// A term in normal form: well-formed, variables in ascending order, and
    /// an expression has a nonzero coefficient.
    pub open spec fn is_normalized(self) -> bool {
        &&& self.wf()
        &&& vars_sorted(self.variables())
        &&& (self is Expression ==> self.coefficient().val() != 0)
    }

    /// Two terms are multiples of the same monomial.
    pub open spec fn same_monomial(self, other: Self) -> bool {
        &&& self.spec_degree() == other.spec_degree()
        &&& self.variables() == other.variables()
    }
}

/// The order in which constraints keep their terms: higher degree first,
/// then by variables, then by the coefficient's value.
pub open spec fn term_le(a: Term, b: Term) -> bool {
    if a.spec_degree() != b.spec_degree() {
        a.spec_degree() > b.spec_degree()
    } else {
        match (a, b) {
            (Term::Constant(x), Term::Constant(y)) => x.val() <= y.val(),
            (Term::Constant(_), Term::Expression { .. }) => true,
            (Term::Expression { .. }, Term::Constant(_)) => false,
            (Term::Expression { .. }, Term::Expression { .. }) => if a.variables()
                == b.variables() {
                a.coefficient().val() <= b.coefficient().val()
            } else {
                vars_lex_lt(a.variables(), b.variables())
            },
        }
    }
}

// ---------------------------------------------------------------------------
// Lemmas on the model
// ---------------------------------------------------------------------------

/// Inserting a variable multiplies the product by its value.
pub proof fn lemma_vars_product_insert(s: Seq<Variable>, k: int, x: Variable, a: spec_fn(Variable) -> int)
    requires
        0 <= k <= s.len(),
    ensures
        vars_product(s.insert(k, x), a) == vars_product(s, a) * a(x),
    decreases s.len(),
{
    if k == s.len() {
        assert(s.insert(k, x).drop_last() =~= s);
    } else {
        let t = s.insert(k, x);
        assert(t.drop_last() =~= s.drop_last().insert(k, x));
        lemma_vars_product_insert(s.drop_last(), k, x, a);
        let pl = vars_product(s.drop_last(), a);
        assert(pl * a(x) * a(s.last()) == pl * a(s.last()) * a(x)) by (nonlinear_arith);
    }
}

/// Inserting a variable adds one to its count.
pub proof fn lemma_vars_count_insert(s: Seq<Variable>, k: int, x: Variable, v: Variable)
    requires
        0 <= k <= s.len(),
    ensures
        vars_count(s.insert(k, x), v) == vars_count(s, v) + if x == v {
            1nat
        } else {
            0nat
        },
    decreases s.len(),
{
    if k == s.len() {
        assert(s.insert(k, x).drop_last() =~= s);
    } else {
        assert(s.insert(k, x).drop_last() =~= s.drop_last().insert(k, x));
        lemma_vars_count_insert(s.drop_last(), k, x, v);
    }
}

/// A variable that does not occur does not change the product.
pub proof fn lemma_vars_product_update_absent(
    s: Seq<Variable>,
    a: spec_fn(Variable) -> int,
    v: Variable,
    x: int,
)
    requires
        !s.contains(v),
    ensures
        vars_product(s, |w: Variable| if w == v { x } else { a(w) }) == vars_product(s, a),
    decreases s.len(),
{
    if s.len() > 0 {
        assert(!s.drop_last().contains(v)) by {
            if s.drop_last().contains(v) {
                let i = choose|i: int| 0 <= i < s.drop_last().len() && s.drop_last()[i] == v;
                assert(s[i] == v);
            }
        }
        lemma_vars_product_update_absent(s.drop_last(), a, v, x);
        assert(s[s.len() - 1] == s.last());
    }
}

/// Products over the first `n` and the first `n + 1` elements.
pub proof fn lemma_vars_product_take_step(s: Seq<Variable>, n: int, a: spec_fn(Variable) -> int)
    requires
        0 <= n < s.len(),
    ensures
        vars_product(s.take(n + 1), a) == vars_product(s.take(n), a) * a(s[n]),
{
    assert(s.take(n + 1).drop_last() =~= s.take(n));
}

/// The lexicographic order is a strict total order: trichotomy.
pub proof fn lemma_vars_lex_trichotomy(s1: Seq<Variable>, s2: Seq<Variable>)
    ensures
        vars_lex_lt(s1, s2) || s1 == s2 || vars_lex_lt(s2, s1),
        !(vars_lex_lt(s1, s2) && vars_lex_lt(s2, s1)),
        !(vars_lex_lt(s1, s2) && s1 == s2),
    decreases s1.len(),
{
    if s1.len() == 0 || s2.len() == 0 {
        if s1.len() == 0 && s2.len() == 0 {
            assert(s1 =~= s2);
        }
    } else if s1[0].0 != s2[0].0 {
    } else {
        lemma_vars_lex_trichotomy(s1.drop_first(), s2.drop_first());
        if s1.drop_first() == s2.drop_first() {
            assert(s1[0] == s2[0]);
            assert(s1 =~= s2) by {
                assert forall|i: int| 0 <= i < s1.len() implies s1[i] == s2[i] by {
                    if i > 0 {
                        assert(s1[i] == s1.drop_first()[i - 1]);
                        assert(s2[i] == s2.drop_first()[i - 1]);
                    }
                }
            }
        }
        if s1 == s2 {
            assert(s1.drop_first() == s2.drop_first());
        }
    }
}

/// The lexicographic order is transitive.
pub proof fn lemma_vars_lex_trans(s1: Seq<Variable>, s2: Seq<Variable>, s3: Seq<Variable>)
    requires
        vars_lex_lt(s1, s2),
        vars_lex_lt(s2, s3),
    ensures
        vars_lex_lt(s1, s3),
    decreases s1.len(),
{
    if s1.len() == 0 || s2.len() == 0 || s3.len() == 0 {
    } else if s1[0].0 != s2[0].0 || s2[0].0 != s3[0].0 {
    } else {
        lemma_vars_lex_trans(s1.drop_first(), s2.drop_first(), s3.drop_first());
    }
}

/// The order of terms is total.
pub proof fn lemma_term_le_total(a: Term, b: Term)
    ensures
        term_le(a, b) || term_le(b, a),
{
    lemma_vars_lex_trichotomy(a.variables(), b.variables());
}

/// The order of terms is transitive.
pub proof fn lemma_term_le_trans(a: Term, b: Term, c: Term)
    requires
        term_le(a, b),
        term_le(b, c),
    ensures
        term_le(a, c),
{
    lemma_vars_lex_trichotomy(a.variables(), b.variables());
    lemma_vars_lex_trichotomy(b.variables(), c.variables());
    lemma_vars_lex_trichotomy(a.variables(), c.variables());
    if a.spec_degree() == b.spec_degree() && b.spec_degree() == c.spec_degree() {
        if vars_lex_lt(a.variables(), b.variables()) && vars_lex_lt(b.variables(), c.variables()) {
            lemma_vars_lex_trans(a.variables(), b.variables(), c.variables());
        }
    }
}

// ---------------------------------------------------------------------------
// Executable helpers on variable slots
// ---------------------------------------------------------------------------

/// The variables in the first `n` slots, in ascending order of index, and
/// the remaining slots unchanged.
fn sort_variable_slots(inner: &[Variable; 4], n: usize) -> (r: [Variable; 4])
    requires
        n <= 4,
    ensures
        vars_sorted(r@.take(n as int)),
        forall|a: spec_fn(Variable) -> int|
            vars_product(#[trigger] r@.take(n as int), a) == vars_product(inner@.take(n as int), a),
        forall|v: Variable|
            vars_count(#[trigger] r@.take(n as int), v) == vars_count(inner@.take(n as int), v),
        forall|i: int| n <= i < 4 ==> r[i] == inner[i],
        vars_sorted(inner@.take(n as int)) ==> r == *inner,
{
    let mut sorted: Vec<Variable> = Vec::new();
    let mut i: usize = 0;
    while i < n
        invariant
            i <= n <= 4,
            sorted@.len() == i,
            vars_sorted(sorted@),
            forall|a: spec_fn(Variable) -> int|
                vars_product(#[trigger] sorted@, a) == vars_product(inner@.take(i as int), a),
            forall|v: Variable|
                vars_count(#[trigger] sorted@, v) == vars_count(inner@.take(i as int), v),
            vars_sorted(inner@.take(n as int)) ==> sorted@ == inner@.take(i as int),
        decreases n - i,
    {
        let x = inner[i];
        let mut k: usize = 0;
        while k < sorted.len() && sorted[k].0 <= x.0
            invariant
                k <= sorted@.len(),
                forall|j: int| 0 <= j < k ==> #[trigger] sorted@[j].0 <= x.0,
            decreases sorted@.len() - k,
        {
            k = k + 1;
        }
        proof {
            if vars_sorted(inner@.take(n as int)) && k < sorted@.len() {
                assert(sorted@[k as int] == inner@.take(n as int)[k as int]);
                assert(x == inner@.take(n as int)[i as int]);
            }
        }
        let ghost old_sorted = sorted@;
        sorted.insert(k, x);
        proof {
            assert forall|p: int, q: int| 0 <= p < q < sorted@.len() implies #[trigger] sorted@[p].0
                <= #[trigger] sorted@[q].0 by {
                if q < k {
                    assert(sorted@[p] == old_sorted[p] && sorted@[q] == old_sorted[q]);
                } else if q == k {
                    assert(sorted@[p] == old_sorted[p]);
                } else if p == k {
                    assert(sorted@[q] == old_sorted[q - 1]);
                    assert(old_sorted[k as int].0 > x.0);
                    assert(old_sorted[k as int].0 <= old_sorted[q - 1].0 || k == q - 1);
                } else if p < k {
                    assert(sorted@[p] == old_sorted[p] && sorted@[q] == old_sorted[q - 1]);
                } else {
                    assert(sorted@[p] == old_sorted[p - 1] && sorted@[q] == old_sorted[q - 1]);
                }
            }
            assert forall|a: spec_fn(Variable) -> int|
                vars_product(#[trigger] sorted@, a) == vars_product(inner@.take(i + 1), a) by {
                lemma_vars_product_insert(old_sorted, k as int, x, a);
                lemma_vars_product_take_step(inner@, i as int, a);
            }
            assert forall|v: Variable|
                vars_count(#[trigger] sorted@, v) == vars_count(inner@.take(i + 1), v) by {
                lemma_vars_count_insert(old_sorted, k as int, x, v);
                assert(inner@.take(i + 1).drop_last() =~= inner@.take(i as int));
            }
            if vars_sorted(inner@.take(n as int)) {
                assert(sorted@ =~= inner@.take(i + 1));
            }
        }
        i = i + 1;
    }
    let mut r = *inner;
    let mut j: usize = 0;
    while j < n
        invariant
            j <= n <= 4,
            sorted@.len() == n,
            forall|t: int| 0 <= t < j ==> r[t] == sorted@[t],
            forall|t: int| n <= t < 4 ==> r[t] == inner[t],
        decreases n - j,
    {
        r[j] = sorted[j];
        j = j + 1;
    }
    assert(r@.take(n as int) =~= sorted@);
    proof {
        if vars_sorted(inner@.take(n as int)) {
            assert forall|i: int| 0 <= i < 4 implies r[i] == inner[i] by {
                if i < n {
                    assert(r@.take(n as int)[i] == inner@.take(n as int)[i]);
                }
            }
            assert(r =~= *inner);
        }
    }
    r
}

impl Term {
    /// Whether the term is a constant.
    pub fn is_constant(&self) -> (r: bool)
        ensures
            r == (self is Constant),
    {
        match self {
            Term::Constant(_) => true,
            Term::Expression { .. } => false,
        }
    }

    /// The coefficient (the constant itself for a constant term).
    pub fn get_coef(&self) -> (r: Mersenne31Field)
        ensures
            r == self.coefficient(),
    {
        match self {
            Term::Constant(f) => *f,
            Term::Expression { coeff, .. } => *coeff,
        }
    }

    /// The number of variables in the monomial.
    pub fn degree(&self) -> (r: usize)
        ensures
            r == self.spec_degree(),
    {
        match self {
            Term::Constant(_) => 0,
            Term::Expression { degree, .. } => *degree,
        }
    }

    /// Brings the term to normal form: an expression with a zero coefficient
    /// becomes the constant zero, and the variables are put in ascending
    /// order.
    pub fn normalize(&mut self)
        requires
            old(self).wf(),
        ensures
            final(self).wf(),
            vars_sorted(final(self).variables()),
            final(self).spec_degree() <= old(self).spec_degree(),
            forall|a: spec_fn(Variable) -> int| #[trigger] final(self).value(a) == old(self).value(a),
            (*old(self)) is Expression && old(self).coefficient().val() == 0 ==> *final(self)
                == Term::Constant(Mersenne31Field(0)),
            (*old(self)) is Expression && old(self).coefficient().val() != 0 ==> {
                &&& (*final(self)) is Expression
                &&& final(self).coefficient() == old(self).coefficient()
                &&& final(self).spec_degree() == old(self).spec_degree()
                &&& forall|v: Variable|
                    vars_count(#[trigger] final(self).variables(), v) == vars_count(
                        old(self).variables(),
                        v,
                    )
            },
            (*old(self)) is Constant ==> *final(self) == *old(self),
            forall|w: Variable| #[trigger] final(self).variables().contains(w) ==> old(self).variables().contains(w),
            old(self).is_normalized() ==> *final(self) == *old(self),
    {
        match *self {
            Term::Constant(_) => {
                assert(*self == *old(self));
            },
            Term::Expression { coeff, inner, degree } => {
                if coeff.is_zero() {
                    *self = Term::Constant(Mersenne31Field(0));
                    proof {
                        assert forall|a: spec_fn(Variable) -> int| #[trigger] self.value(a)
                            == old(self).value(a) by {
                            assert(self.value(a) == 0);
                            let pr = vars_product(old(self).variables(), a);
                            assert(0 * pr == 0);
                        }
                    }
                } else {
                    let sorted = sort_variable_slots(&inner, degree);
                    *self = Term::Expression { coeff, inner: sorted, degree };
                    proof {
                        assert forall|w: Variable| #[trigger] self.variables().contains(w) implies old(
                            self,
                        ).variables().contains(w) by {
                            lemma_vars_count_contains(self.variables(), w);
                            lemma_vars_count_contains(old(self).variables(), w);
                        }
                    }
                }
            },
        }
    }
}


/// Whether the first `n` slots of `a` and of `b` hold the same variables,
/// and whether they are lexicographically smaller in `a`.
fn compare_variable_slots(a: &[Variable; 4], b: &[Variable; 4], n: usize) -> (r: (bool, bool))
    requires
        n <= 4,
    ensures
        r.0 == vars_lex_lt(a@.take(n as int), b@.take(n as int)),
        r.1 == (a@.take(n as int) == b@.take(n as int)),
{
    let ghost s1 = a@.take(n as int);
    let ghost s2 = b@.take(n as int);
    let mut i: usize = 0;
    while i < n
        invariant
            i <= n <= 4,
            s1 == a@.take(n as int),
            s2 == b@.take(n as int),
            s1.take(i as int) == s2.take(i as int),
        decreases n - i,
    {
        if a[i].0 != b[i].0 {
            proof {
                lemma_vars_lex_skip(s1, s2, i as int);
                assert(s1.skip(i as int)[0] == a[i as int]);
                assert(s2.skip(i as int)[0] == b[i as int]);
                assert(s1[i as int] != s2[i as int]);
            }
            return (a[i].0 < b[i].0, false);
        }
        proof {
            assert(s1.take(i + 1) =~= s1.take(i as int).push(s1[i as int]));
            assert(s2.take(i + 1) =~= s2.take(i as int).push(s2[i as int]));
            assert(s1[i as int] == a[i as int]);
            assert(s2[i as int] == b[i as int]);
        }
        i = i + 1;
    }
    proof {
        assert(s1.take(n as int) =~= s1);
        assert(s2.take(n as int) =~= s2);
        lemma_vars_lex_trichotomy(s1, s2);
    }
    (false, true)
}

/// When two sequences agree on their first `i` elements, the lexicographic
/// order is decided by what follows.
pub proof fn lemma_vars_lex_skip(s1: Seq<Variable>, s2: Seq<Variable>, i: int)
    requires
        0 <= i <= s1.len(),
        i <= s2.len(),
        s1.take(i) == s2.take(i),
    ensures
        vars_lex_lt(s1, s2) == vars_lex_lt(s1.skip(i), s2.skip(i)),
    decreases i,
{
    if i == 0 {
        assert(s1.skip(0) =~= s1);
        assert(s2.skip(0) =~= s2);
    } else {
        assert(s1[0] == s1.take(i)[0]);
        assert(s2[0] == s2.take(i)[0]);
        assert(s1.drop_first().take(i - 1) =~= s1.take(i).drop_first());
        assert(s2.drop_first().take(i - 1) =~= s2.take(i).drop_first());
        lemma_vars_lex_skip(s1.drop_first(), s2.drop_first(), i - 1);
        assert(s1.drop_first().skip(i - 1) =~= s1.skip(i));
        assert(s2.drop_first().skip(i - 1) =~= s2.skip(i));
    }
}

/// Executable form of the order of terms.
pub fn term_le_exec(a: &Term, b: &Term) -> (r: bool)
    requires
        a.wf(),
        b.wf(),
    ensures
        r == term_le(*a, *b),
{
    let da = a.degree();
    let db = b.degree();
    if da != db {
        return da > db;
    }
    match (a, b) {
        (Term::Constant(x), Term::Constant(y)) => x.as_u32_reduced() <= y.as_u32_reduced(),
        (Term::Constant(_), Term::Expression { .. }) => true,
        (Term::Expression { .. }, Term::Constant(_)) => false,
        (
            Term::Expression { coeff: ca, inner: ia, degree: dga },
            Term::Expression { coeff: cb, inner: ib, degree: dgb },
        ) => {
            let (lt, eq) = compare_variable_slots(ia, ib, *dga);
            if eq {
                ca.as_u32_reduced() <= cb.as_u32_reduced()
            } else {
                lt
            }
        },
    }
}


impl Term {
    /// Whether two well-formed terms are multiples of the same monomial.
    pub fn same_multiple(&self, other: &Self) -> (r: bool)
        requires
            self.wf(),
            other.wf(),
        ensures
            r == self.same_monomial(*other),
    {
        if self.degree() != other.degree() {
            return false;
        }
        match (self, other) {
            (Term::Constant(..), Term::Constant(..)) => true,
            (Term::Constant(..), Term::Expression { .. }) => false,
            (Term::Expression { .. }, Term::Constant(..)) => false,
            (
                Term::Expression { degree: s_d, inner: s_inner, .. },
                Term::Expression { inner: o_inner, .. },
            ) => {
                let (_, eq) = compare_variable_slots(s_inner, o_inner, *s_d);
                eq
            },
        }
    }

    /// Adds `other` into this term when both are multiples of the same
    /// monomial, and tells whether it did.
    pub fn combine(&mut self, other: &Self) -> (r: bool)
        requires
            old(self).wf(),
            other.wf(),
        ensures
            r == old(self).same_monomial(*other),
            final(self).wf(),
            r ==> final(self).same_monomial(*old(self)),
            r ==> final(self).coefficient().val() == (old(self).coefficient().val()
                + other.coefficient().val()) % p(),
            r ==> ((*final(self)) is Constant <==> (*old(self)) is Constant),
            r ==> forall|a: spec_fn(Variable) -> int| #[trigger] final(self).value(a) % p()
                == (old(self).value(a) + other.value(a)) % p(),
            !r ==> *final(self) == *old(self),
    {
        let same = self.same_multiple(other);
        if !same {
            return false;
        }
        let ghost o = *old(self);
        match self {
            Term::Constant(c) => {
                c.add_assign(&other.get_coef());
            },
            Term::Expression { coeff, .. } => {
                coeff.add_assign(&other.get_coef());
            },
        }
        proof {
            assert forall|a: spec_fn(Variable) -> int| #[trigger] self.value(a) % p() == (o.value(a)
                + other.value(a)) % p() by {
                let pr = vars_product(o.variables(), a);
                assert(self.variables() == o.variables());
                assert(other.variables() == o.variables());
                lemma_mod_sum_mul(o.coefficient().val(), other.coefficient().val(), pr);
            }
        }
        true
    }

    /// Adds a constant to the coefficient.
    pub fn add_constant_multiple(&mut self, to_add: &Mersenne31Field)
        ensures
            final(self).coefficient().val() == (old(self).coefficient().val() + to_add.val())
                % p(),
            final(self).same_monomial(*old(self)),
            (*final(self)) is Constant <==> (*old(self)) is Constant,
            old(self).wf() ==> final(self).wf(),
    {
        match self {
            Term::Constant(f) => f.add_assign(to_add),
            Term::Expression { coeff, .. } => coeff.add_assign(to_add),
        }
    }

    /// Multiplies the coefficient by a constant.
    pub fn scale(&mut self, scaling_factor: &Mersenne31Field)
        ensures
            final(self).coefficient().val() == (old(self).coefficient().val()
                * scaling_factor.val()) % p(),
            final(self).same_monomial(*old(self)),
            (*final(self)) is Constant <==> (*old(self)) is Constant,
            old(self).wf() ==> final(self).wf(),
            vars_sorted(old(self).variables()) ==> vars_sorted(final(self).variables()),
            forall|a: spec_fn(Variable) -> int| #[trigger] final(self).value(a) % p() == (old(
                self,
            ).value(a) * scaling_factor.val()) % p(),
    {
        let ghost o = *old(self);
        match self {
            Term::Constant(f) => f.mul_assign(scaling_factor),
            Term::Expression { coeff, .. } => coeff.mul_assign(scaling_factor),
        }
        proof {
            assert forall|a: spec_fn(Variable) -> int| #[trigger] self.value(a) % p() == (o.value(a)
                * scaling_factor.val()) % p() by {
                let pr = vars_product(o.variables(), a);
                assert(self.variables() == o.variables());
                lemma_mul_mod_left(o.coefficient().val() * scaling_factor.val(), pr);
                assert(o.coefficient().val() * scaling_factor.val() * pr == o.coefficient().val()
                    * pr * scaling_factor.val()) by (nonlinear_arith);
            }
        }
    }

    /// Whether the coefficient is zero.
    pub fn is_zero(&self) -> (r: bool)
        ensures
            r == (self.coefficient().val() == 0),
    {
        match self {
            Term::Constant(f) => f.is_zero(),
            Term::Expression { coeff, .. } => coeff.is_zero(),
        }
    }

    /// Whether the variable occurs in the monomial.
    pub fn contains_var(&self, variable: &Variable) -> (r: bool)
        requires
            self.wf(),
        ensures
            r == self.variables().contains(*variable),
    {
        match self {
            Term::Constant(_) => false,
            Term::Expression { degree, inner, .. } => {
                let ghost s = inner@.take(*degree as int);
                assert(s == self.variables());
                let mut i: usize = 0;
                while i < *degree
                    invariant
                        i <= *degree <= 4,
                        s == inner@.take(*degree as int),
                        s == self.variables(),
                        forall|j: int| 0 <= j < i ==> s[j] != *variable,
                    decreases *degree - i,
                {
                    if inner[i] == *variable {
                        assert(s[i as int] == inner@[i as int]);
                        assert(inner@[i as int] == *variable);
                        assert(s.contains(*variable));
                        return true;
                    }
                    i = i + 1;
                }
                false
            },
        }
    }

    /// How many times the variable occurs in the monomial.
    pub fn degree_for_var(&self, variable: &Variable) -> (r: usize)
        requires
            self.wf(),
        ensures
            r == vars_count(self.variables(), *variable),
    {
        match self {
            Term::Constant(_) => 0,
            Term::Expression { degree, inner, .. } => {
                let mut var_degree: usize = 0;
                let mut i: usize = 0;
                while i < *degree
                    invariant
                        i <= *degree <= 4,
                        var_degree == vars_count(inner@.take(i as int), *variable),
                        var_degree <= i,
                    decreases *degree - i,
                {
                    proof {
                        assert(inner@.take(i + 1).drop_last() =~= inner@.take(i as int));
                    }
                    if inner[i] == *variable {
                        var_degree = var_degree + 1;
                    }
                    i = i + 1;
                }
                var_degree
            },
        }
    }

    /// The variable of a term that is exactly one variable with coefficient
    /// one.
    pub fn get_variable(&self) -> (r: Option<Variable>)
        requires
            self.wf(),
        ensures
            r == (if self is Expression && self.coefficient().val() == 1 && self.spec_degree()
                == 1 {
                Some(self.variables()[0])
            } else {
                None
            }),
    {
        match self {
            Term::Constant(_) => None,
            Term::Expression { coeff, degree, inner } => {
                if !coeff.is_one() {
                    return None;
                }
                if *degree != 1 {
                    return None;
                }
                Some(inner[0])
            },
        }
    }

    /// The coefficient of a term in which the variable occurs.
    pub fn prefactor_for_var(&self, variable: &Variable) -> (r: Mersenne31Field)
        requires
            self.wf(),
            self.variables().contains(*variable),
        ensures
            r == self.coefficient(),
    {
        match self {
            Term::Constant(_) => Mersenne31Field(0),
            Term::Expression { coeff, .. } => *coeff,
        }
    }

    /// The variables of the monomial.
    pub fn as_slice(&self) -> (r: &[Variable])
        requires
            self.wf(),
        ensures
            r@ == self.variables(),
    {
        match self {
            Term::Constant(_) => vstd::slice::slice_subrange(TermSlots::empty_slots(), 0, 0),
            Term::Expression { degree, inner, .. } => {
                let r = vstd::slice::slice_subrange(inner.as_slice(), 0, *degree);
                assert(r@ =~= inner@.take(*degree as int));
                r
            },
        }
    }

    /// The constant term with the given value.
    pub fn from_field(value: Mersenne31Field) -> (r: Term)
        ensures
            r == Term::Constant(value),
    {
        Term::Constant(value)
    }

    /// The constant term with value `value` modulo the characteristic.
    pub fn from_u32(value: u32) -> (r: Term)
        ensures
            r is Constant,
            r.coefficient().val() == value as int % p(),
            r.is_normalized(),
    {
        Term::Constant(Mersenne31Field::from_u32_with_reduction(value))
    }

    /// The term `coeff * variable`.
    pub fn from_coeff_and_variable(coeff: Mersenne31Field, variable: Variable) -> (r: Term)
        ensures
            r is Expression,
            r.coefficient() == coeff,
            r.variables() == seq![variable],
            r.wf(),
            r.spec_degree() == 1,
            forall|a: spec_fn(Variable) -> int| #[trigger] r.value(a) == coeff.val() * a(variable),
    {
        let p = Variable::placeholder_variable();
        let inner = [variable, p, p, p];
        let r = Term::Expression { coeff, inner, degree: 1 };
        proof {
            assert(r.variables() =~= seq![variable]);
            assert forall|a: spec_fn(Variable) -> int| #[trigger] r.value(a) == coeff.val() * a(
                variable,
            ) by {
                assert(seq![variable].drop_last() =~= Seq::<Variable>::empty());
                assert(seq![variable].last() == variable);
                assert(vars_product(seq![variable], a) == vars_product(Seq::<Variable>::empty(), a)
                    * a(variable));
            }
        }
        r
    }

    /// The term that is exactly the variable.
    pub fn from_variable(variable: Variable) -> (r: Term)
        ensures
            r is Expression,
            r.coefficient().val() == 1,
            r.variables() == seq![variable],
            r.wf(),
            r.spec_degree() == 1,
            forall|a: spec_fn(Variable) -> int| #[trigger] r.value(a) == a(variable),
    {
        Term::from_coeff_and_variable(Mersenne31Field(1), variable)
    }

    /// The term of a number: its variable, or its constant.
    pub fn from_num(value: Num) -> (r: Term)
        ensures
            r.wf(),
            r.spec_degree() <= 1,
            forall|a: spec_fn(Variable) -> int| #[trigger] r.value(a) == value.value(a),
    {
        match value {
            Num::Constant(c) => Term::from_field(c),
            Num::Var(v) => Term::from_variable(v),
        }
    }

    /// The term of a boolean that is not a negation.
    pub fn from_boolean(value: Boolean) -> (r: Term)
        requires
            !(value is Not),
        ensures
            r.wf(),
            r.spec_degree() <= 1,
            forall|a: spec_fn(Variable) -> int| #[trigger] r.value(a) == value.value(a),
    {
        match value {
            Boolean::Constant(b) => {
                let r = Term::from_u32(if b {
                    1
                } else {
                    0
                });
                r
            },
            Boolean::Is(v) => Term::from_variable(v),
            Boolean::Not(v) => Term::from_variable(v),
        }
    }

    /// Whether two terms have the same shape: both constants, or expressions
    /// whose variables agree slot by slot (over the shorter of the two).
    pub fn are_equal_terms(left: &Self, right: &Self) -> (r: bool)
        requires
            left.wf(),
            right.wf(),
        ensures
            r == (match (*left, *right) {
                (Term::Constant(_), Term::Constant(_)) => true,
                (Term::Expression { .. }, Term::Expression { .. }) => left.variables()
                    == right.variables(),
                _ => false,
            }),
    {
        match (left, right) {
            (Term::Constant(_), Term::Constant(_)) => true,
            (
                Term::Expression { inner: inner_left, degree: degree_left, .. },
                Term::Expression { inner: inner_right, degree: degree_right, .. },
            ) => {
                if *degree_left != *degree_right {
                    assert(left.variables().len() != right.variables().len());
                    return false;
                }
                let (_, eq) = compare_variable_slots(inner_left, inner_right, *degree_left);
                eq
            },
            _ => false,
        }
    }
}

/// An empty run of variable slots.
pub struct TermSlots;

impl TermSlots {
    /// A slice with no variables.
    pub fn empty_slots() -> (r: &'static [Variable])
        ensures
            r@.len() == 0,
    {
        &[]
    }
}


// ---------------------------------------------------------------------------
// Constraints: sums of terms
// ---------------------------------------------------------------------------

/// A polynomial in the variables: the sum of its terms.
#[derive(Debug)]
pub struct Constraint {
    pub terms: Vec<Term>,
}

impl Clone for Constraint {
    fn clone(&self) -> (r: Self)
        ensures
            r.terms@ == self.terms@,
    {
        let mut terms: Vec<Term> = Vec::new();
        let mut i: usize = 0;
        while i < self.terms.len()
            invariant
                i <= self.terms@.len(),
                terms@ == self.terms@.take(i as int),
            decreases self.terms@.len() - i,
        {
            terms.push(self.terms[i]);
            i = i + 1;
            assert(terms@ =~= self.terms@.take(i as int));
        }
        assert(self.terms@.take(i as int) =~= self.terms@);
        Constraint { terms }
    }
}

/// The sum of the values of the terms (not reduced).
pub open spec fn terms_sum(ts: Seq<Term>, a: spec_fn(Variable) -> int) -> int
    decreases ts.len(),
{
    if ts.len() == 0 {
        0
    } else {
        terms_sum(ts.drop_last(), a) + ts.last().value(a)
    }
}

/// The largest degree among the terms, zero for no terms.
pub open spec fn terms_max_degree(ts: Seq<Term>) -> int
    decreases ts.len(),
{
    if ts.len() == 0 {
        0
    } else {
        let d = terms_max_degree(ts.drop_last());
        let l = ts.last().spec_degree();
        if d >= l {
            d
        } else {
            l
        }
    }
}

/// Terms in the order that constraints keep them.
pub open spec fn terms_sorted(ts: Seq<Term>) -> bool {
    forall|i: int, j: int| 0 <= i < j < ts.len() ==> term_le(#[trigger] ts[i], #[trigger] ts[j])
}

/// No two terms are multiples of the same monomial.
pub open spec fn terms_distinct(ts: Seq<Term>) -> bool {
    forall|i: int, j: int|
        0 <= i < j < ts.len() ==> !(#[trigger] ts[i]).same_monomial(#[trigger] ts[j])
}

/// No two expressions are multiples of the same monomial.
pub open spec fn expressions_distinct(ts: Seq<Term>) -> bool {
    forall|i: int, j: int|
        0 <= i < j < ts.len() && (#[trigger] ts[i]) is Expression && (#[trigger] ts[j]) is Expression
            ==> !ts[i].same_monomial(ts[j])
}

/// Every term is well formed.
pub open spec fn terms_wf(ts: Seq<Term>) -> bool {
    forall|i: int| 0 <= i < ts.len() ==> (#[trigger] ts[i]).wf()
}

impl Constraint {
    /// The value of the polynomial under an assignment, in `[0, p)`.
    pub open spec fn value(self, a: spec_fn(Variable) -> int) -> int {
        terms_sum(self.terms@, a) % p()
    }

    /// Every term is well formed.
    pub open spec fn wf(self) -> bool {
        terms_wf(self.terms@)
    }

    /// The largest degree among the terms.
    pub open spec fn spec_degree(self) -> int {
        terms_max_degree(self.terms@)
    }

    /// The normal form: every term in normal form with a nonzero
    /// coefficient, no two terms multiples of the same monomial, and the
    /// terms in order.
    pub open spec fn is_normalized(self) -> bool {
        &&& forall|i: int|
            0 <= i < self.terms@.len() ==> (#[trigger] self.terms@[i]).is_normalized()
                && self.terms@[i].coefficient().val() != 0
        &&& terms_sorted(self.terms@)
        &&& terms_constant_count(self.terms@) <= 1
        &&& terms_distinct(self.terms@)
    }
}

pub proof fn lemma_terms_sum_insert(s: Seq<Term>, k: int, x: Term, a: spec_fn(Variable) -> int)
    requires
        0 <= k <= s.len(),
    ensures
        terms_sum(s.insert(k, x), a) == terms_sum(s, a) + x.value(a),
    decreases s.len(),
{
    if k == s.len() {
        assert(s.insert(k, x).drop_last() =~= s);
    } else {
        assert(s.insert(k, x).drop_last() =~= s.drop_last().insert(k, x));
        lemma_terms_sum_insert(s.drop_last(), k, x, a);
    }
}

pub proof fn lemma_terms_sum_update(s: Seq<Term>, k: int, x: Term, a: spec_fn(Variable) -> int)
    requires
        0 <= k < s.len(),
    ensures
        terms_sum(s.update(k, x), a) == terms_sum(s, a) - s[k].value(a) + x.value(a),
    decreases s.len(),
{
    if k == s.len() - 1 {
        assert(s.update(k, x).drop_last() =~= s.drop_last());
    } else {
        assert(s.update(k, x).drop_last() =~= s.drop_last().update(k, x));
        lemma_terms_sum_update(s.drop_last(), k, x, a);
    }
}

pub proof fn lemma_terms_sum_append(s: Seq<Term>, t: Seq<Term>, a: spec_fn(Variable) -> int)
    ensures
        terms_sum(s + t, a) == terms_sum(s, a) + terms_sum(t, a),
    decreases t.len(),
{
    if t.len() == 0 {
        assert(s + t =~= s);
    } else {
        assert((s + t).drop_last() =~= s + t.drop_last());
        lemma_terms_sum_append(s, t.drop_last(), a);
    }
}

pub proof fn lemma_terms_sum_take_step(s: Seq<Term>, i: int, a: spec_fn(Variable) -> int)
    requires
        0 <= i < s.len(),
    ensures
        terms_sum(s.take(i + 1), a) == terms_sum(s.take(i), a) + s[i].value(a),
{
    assert(s.take(i + 1).drop_last() =~= s.take(i));
}

/// Every term's degree is at most the largest degree.
pub proof fn lemma_terms_max_degree_upper(s: Seq<Term>)
    ensures
        terms_max_degree(s) >= 0,
        forall|i: int| 0 <= i < s.len() ==> (#[trigger] s[i]).spec_degree() <= terms_max_degree(s),
    decreases s.len(),
{
    if s.len() > 0 {
        lemma_terms_max_degree_upper(s.drop_last());
        assert forall|i: int| 0 <= i < s.len() implies (#[trigger] s[i]).spec_degree()
            <= terms_max_degree(s) by {
            if i < s.len() - 1 {
                assert(s[i] == s.drop_last()[i]);
            }
        }
    }
}

/// The largest degree is at most any bound of all the degrees.
pub proof fn lemma_terms_max_degree_bound(s: Seq<Term>, d: int)
    requires
        d >= 0,
        forall|i: int| 0 <= i < s.len() ==> (#[trigger] s[i]).spec_degree() <= d,
    ensures
        terms_max_degree(s) <= d,
    decreases s.len(),
{
    if s.len() > 0 {
        assert forall|i: int| 0 <= i < s.drop_last().len() implies (
        #[trigger] s.drop_last()[i]).spec_degree() <= d by {
            assert(s.drop_last()[i] == s[i]);
        }
        lemma_terms_max_degree_bound(s.drop_last(), d);
        assert(s.last() == s[s.len() - 1]);
    }
}

/// How many terms are constants.
pub open spec fn terms_constant_count(ts: Seq<Term>) -> nat
    decreases ts.len(),
{
    if ts.len() == 0 {
        0
    } else {
        terms_constant_count(ts.drop_last()) + if ts.last() is Constant {
            1nat
        } else {
            0nat
        }
    }
}

/// A constant at `i` is counted.
proof fn lemma_terms_constant_count_pos(s: Seq<Term>, i: int)
    requires
        0 <= i < s.len(),
        s[i] is Constant,
    ensures
        terms_constant_count(s) >= 1,
    decreases s.len(),
{
    if i < s.len() - 1 {
        assert(s.drop_last()[i] == s[i]);
        lemma_terms_constant_count_pos(s.drop_last(), i);
    }
}

/// Two constants are counted twice.
proof fn lemma_terms_constant_count_two(s: Seq<Term>, i: int, j: int)
    requires
        0 <= i < j < s.len(),
        s[i] is Constant,
        s[j] is Constant,
    ensures
        terms_constant_count(s) >= 2,
    decreases s.len(),
{
    assert(s.drop_last()[i] == s[i]);
    if j == s.len() - 1 {
        lemma_terms_constant_count_pos(s.drop_last(), i);
    } else {
        assert(s.drop_last()[j] == s[j]);
        lemma_terms_constant_count_two(s.drop_last(), i, j);
    }
}

/// Distinct expressions and at most one constant: distinct terms.
proof fn lemma_terms_distinct(s: Seq<Term>)
    requires
        terms_wf(s),
        expressions_distinct(s),
        terms_constant_count(s) <= 1,
    ensures
        terms_distinct(s),
{
    assert forall|i: int, j: int| 0 <= i < j < s.len() implies !(#[trigger] s[i]).same_monomial(
        #[trigger] s[j],
    ) by {
        if s[i].same_monomial(s[j]) {
            if s[i] is Constant && s[j] is Constant {
                lemma_terms_constant_count_two(s, i, j);
            }
        }
    }
}

/// How many terms are constants with a nonzero value.
pub open spec fn terms_nonzero_constant_count(ts: Seq<Term>) -> nat
    decreases ts.len(),
{
    if ts.len() == 0 {
        0
    } else {
        terms_nonzero_constant_count(ts.drop_last()) + if ts.last() is Constant
            && ts.last().coefficient().val() != 0 {
            1nat
        } else {
            0nat
        }
    }
}

/// Constants come after every expression.
pub open spec fn constants_last(ts: Seq<Term>) -> bool {
    forall|i: int, j: int|
        0 <= i < j < ts.len() && (#[trigger] ts[i]) is Constant ==> (#[trigger] ts[j]) is Constant
}

pub proof fn lemma_terms_constant_count_insert(s: Seq<Term>, k: int, x: Term)
    requires
        0 <= k <= s.len(),
    ensures
        terms_constant_count(s.insert(k, x)) == terms_constant_count(s) + if x is Constant {
            1nat
        } else {
            0nat
        },
    decreases s.len(),
{
    if k == s.len() {
        assert(s.insert(k, x).drop_last() =~= s);
    } else {
        assert(s.insert(k, x).drop_last() =~= s.drop_last().insert(k, x));
        lemma_terms_constant_count_insert(s.drop_last(), k, x);
    }
}

pub proof fn lemma_terms_constant_count_prefix(s: Seq<Term>, i: int)
    requires
        0 <= i <= s.len(),
    ensures
        terms_constant_count(s.take(i)) <= terms_constant_count(s),
    decreases s.len() - i,
{
    if i < s.len() {
        lemma_terms_constant_count_prefix(s, i + 1);
        assert(s.take(i + 1).drop_last() =~= s.take(i));
    } else {
        assert(s.take(i) =~= s);
    }
}

/// When every later constant is zero, at most one constant is nonzero.
pub proof fn lemma_terms_nonzero_constant_count_at_most_one(s: Seq<Term>)
    requires
        forall|j: int, k: int|
            0 <= j < k < s.len() && (#[trigger] s[j]) is Constant && (#[trigger] s[k]) is Constant
                ==> s[k].coefficient().val() == 0,
    ensures
        terms_nonzero_constant_count(s) <= 1,
    decreases s.len(),
{
    if s.len() > 0 {
        let t = s.drop_last();
        assert forall|j: int, k: int|
            0 <= j < k < t.len() && (#[trigger] t[j]) is Constant && (#[trigger] t[k]) is Constant
                implies t[k].coefficient().val() == 0 by {
            assert(t[j] == s[j] && t[k] == s[k]);
        }
        lemma_terms_nonzero_constant_count_at_most_one(t);
        if s.last() is Constant && s.last().coefficient().val() != 0 {
            assert forall|j: int| 0 <= j < t.len() implies !((#[trigger] t[j]) is Constant) by {
                assert(t[j] == s[j]);
                assert(s.last() == s[s.len() - 1]);
            }
            lemma_terms_nonzero_constant_count_none(t);
        }
    }
}

/// Without constants there are no nonzero constants.
/// When every constant is zero, no constant is counted as nonzero.
proof fn lemma_terms_nonzero_constant_count_zero(t: Seq<Term>)
    requires
        all_constants_zero(t),
    ensures
        terms_nonzero_constant_count(t) == 0,
    decreases t.len(),
{
    if t.len() > 0 {
        assert forall|j: int| 0 <= j < t.drop_last().len() && (#[trigger] t.drop_last()[j]) is Constant
            implies t.drop_last()[j].coefficient().val() == 0 by {
            assert(t.drop_last()[j] == t[j]);
        }
        lemma_terms_nonzero_constant_count_zero(t.drop_last());
        assert(t.last() == t[t.len() - 1]);
    }
}

proof fn lemma_terms_nonzero_constant_count_none(t: Seq<Term>)
    requires
        forall|j: int| 0 <= j < t.len() ==> !((#[trigger] t[j]) is Constant),
    ensures
        terms_nonzero_constant_count(t) == 0,
    decreases t.len(),
{
    if t.len() > 0 {
        assert forall|j: int| 0 <= j < t.drop_last().len() implies !((
        #[trigger] t.drop_last()[j]) is Constant) by {
            assert(t.drop_last()[j] == t[j]);
        }
        lemma_terms_nonzero_constant_count_none(t.drop_last());
        assert(t.last() == t[t.len() - 1]);
    }
}

/// Each term brought to normal form.
fn normalize_each_term(ts: &Vec<Term>) -> (r: Vec<Term>)
    requires
        terms_wf(ts@),
    ensures
        r@.len() == ts@.len(),
        forall|i: int|
            0 <= i < r@.len() ==> {
                &&& (#[trigger] r@[i]).wf()
                &&& vars_sorted(r@[i].variables())
                &&& r@[i].spec_degree() <= ts@[i].spec_degree()
                &&& (r@[i] is Expression ==> r@[i].coefficient().val() != 0)
                &&& (ts@[i].coefficient().val() != 0 ==> r@[i].coefficient() == ts@[i].coefficient())
                &&& forall|a: spec_fn(Variable) -> int| #[trigger] r@[i].value(a) == ts@[i].value(a)
            },
        forall|a: spec_fn(Variable) -> int| #[trigger] terms_sum(r@, a) == terms_sum(ts@, a),
        (forall|i: int| 0 <= i < ts@.len() ==> (#[trigger] ts@[i]).coefficient().val() != 0)
            ==> terms_constant_count(r@) == terms_constant_count(ts@),
        terms_vars_within(r@, ts@),
        (forall|i: int| 0 <= i < ts@.len() ==> (#[trigger] ts@[i]).is_normalized()) ==> r@ == ts@,
        all_constants_zero(ts@) ==> all_constants_zero(r@),
        forall|t: Term| #[trigger] monomial_coefficient(r@, t) == monomial_coefficient(ts@, t),
{
    let mut r: Vec<Term> = Vec::new();
    let mut i: usize = 0;
    while i < ts.len()
        invariant
            i <= ts@.len(),
            terms_wf(ts@),
            r@.len() == i,
            (forall|j: int| 0 <= j < ts@.len() ==> (#[trigger] ts@[j]).is_normalized()) ==> r@
                == ts@.take(i as int),
            all_constants_zero(ts@) ==> all_constants_zero(r@),
            forall|t: Term| #[trigger] monomial_coefficient(r@, t) == monomial_coefficient(ts@.take(i as int), t),
            (forall|j: int| 0 <= j < ts@.len() ==> (#[trigger] ts@[j]).coefficient().val() != 0)
                ==> terms_constant_count(r@) == terms_constant_count(ts@.take(i as int)),
            forall|j: int|
                0 <= j < i ==> {
                    &&& (#[trigger] r@[j]).wf()
                    &&& vars_sorted(r@[j].variables())
                    &&& r@[j].spec_degree() <= ts@[j].spec_degree()
                    &&& (r@[j] is Expression ==> r@[j].coefficient().val() != 0)
                    &&& (ts@[j].coefficient().val() != 0 ==> r@[j].coefficient()
                        == ts@[j].coefficient())
                    &&& forall|a: spec_fn(Variable) -> int| #[trigger] r@[j].value(a)
                        == ts@[j].value(a)
                },
            forall|a: spec_fn(Variable) -> int| #[trigger] terms_sum(r@, a) == terms_sum(
                ts@.take(i as int),
                a,
            ),
            forall|j: int, w: Variable|
                0 <= j < i && #[trigger] r@[j].variables().contains(w) ==> ts@[j].variables().contains(w),
        decreases ts@.len() - i,
    {
        let mut t = ts[i];
        assert(t.wf());
        t.normalize();
        let ghost old_r = r@;
        r.push(t);
        proof {
            assert forall|a: spec_fn(Variable) -> int| #[trigger] terms_sum(r@, a) == terms_sum(
                ts@.take(i + 1),
                a,
            ) by {
                assert(r@.drop_last() =~= old_r);
                assert(r@.last() == t);
                assert(t.value(a) == ts@[i as int].value(a));
                assert(terms_sum(r@, a) == terms_sum(old_r, a) + t.value(a));
                lemma_terms_sum_take_step(ts@, i as int, a);
            }
            assert(r@.drop_last() =~= old_r);
            assert(ts@.take(i + 1).drop_last() =~= ts@.take(i as int));
            if forall|j: int| 0 <= j < ts@.len() ==> (#[trigger] ts@[j]).is_normalized() {
                assert(ts@[i as int].is_normalized());
                assert(r@ =~= ts@.take(i + 1));
            }
            assert forall|u: Term| #[trigger] monomial_coefficient(r@, u) == monomial_coefficient(ts@.take(i + 1), u) by {
                let o = ts@[i as int];
                assert(ts@.take(i + 1).last() == o);
                assert(r@.drop_last() =~= old_r);
                assert(r@.last() == t);
                assert(monomial_coefficient(old_r, u) == monomial_coefficient(ts@.take(i as int), u));
                if o is Expression && o.coefficient().val() != 0 {
                    if same_monomial_unordered(t, u) {
                        assert forall|v: Variable| #[trigger] vars_count(o.variables(), v) == vars_count(u.variables(), v) by {
                            assert(vars_count(t.variables(), v) == vars_count(o.variables(), v));
                        }
                    }
                    if same_monomial_unordered(o, u) {
                        assert forall|v: Variable| #[trigger] vars_count(t.variables(), v) == vars_count(u.variables(), v) by {
                            assert(vars_count(t.variables(), v) == vars_count(o.variables(), v));
                        }
                    }
                }
            }
            if all_constants_zero(ts@) {
                assert forall|j: int| 0 <= j < r@.len() && (#[trigger] r@[j]) is Constant implies r@[j].coefficient().val() == 0 by {
                    if j < old_r.len() {
                        assert(r@[j] == old_r[j]);
                    } else {
                        assert(r@[j] == t);
                        if !(ts@[i as int] is Constant) {
                            assert(ts@[i as int].coefficient().val() == 0);
                        }
                    }
                }
            }
        }
        i = i + 1;
    }
    assert(ts@.take(ts@.len() as int) =~= ts@);
    assert forall|w: Variable| #[trigger] some_term_holds(r@, w) implies some_term_holds(ts@, w) by {
        let j = choose|j: int| 0 <= j < r@.len() && (#[trigger] r@[j]).variables().contains(w);
        assert(ts@[j].variables().contains(w));
    }
    r
}

/// The terms in order, by stable insertion.
fn sort_terms(ts: &Vec<Term>) -> (r: Vec<Term>)
    requires
        terms_wf(ts@),
    ensures
        r@.len() == ts@.len(),
        terms_sorted(r@),
        forall|i: int| 0 <= i < r@.len() ==> ts@.contains(#[trigger] r@[i]),
        forall|a: spec_fn(Variable) -> int| #[trigger] terms_sum(r@, a) == terms_sum(ts@, a),
        terms_constant_count(r@) == terms_constant_count(ts@),
        terms_sorted(ts@) ==> r@ == ts@,
        terms_distinct(ts@) ==> terms_distinct(r@),
        forall|t: Term| #[trigger] monomial_coefficient(r@, t) == monomial_coefficient(ts@, t),
{
    let mut r: Vec<Term> = Vec::new();
    let mut i: usize = 0;
    while i < ts.len()
        invariant
            i <= ts@.len(),
            terms_wf(ts@),
            r@.len() == i,
            terms_constant_count(r@) == terms_constant_count(ts@.take(i as int)),
            terms_sorted(r@),
            terms_sorted(ts@) ==> r@ == ts@.take(i as int),
            terms_distinct(ts@) ==> terms_distinct(r@),
            forall|t: Term| #[trigger] monomial_coefficient(r@, t) == monomial_coefficient(ts@.take(i as int), t),
            terms_wf(r@),
            forall|j: int| 0 <= j < r@.len() ==> ts@.take(i as int).contains(#[trigger] r@[j]),
            forall|a: spec_fn(Variable) -> int| #[trigger] terms_sum(r@, a) == terms_sum(
                ts@.take(i as int),
                a,
            ),
        decreases ts@.len() - i,
    {
        let x = ts[i];
        assert(x.wf());
        let mut k: usize = 0;
        while k < r.len() && term_le_exec(&r[k], &x)
            invariant
                k <= r@.len(),
                x.wf(),
                terms_wf(ts@),
                forall|j: int| 0 <= j < r@.len() ==> ts@.take(i as int).contains(#[trigger] r@[j]),
                terms_wf(r@),
                forall|j: int| 0 <= j < k ==> term_le(#[trigger] r@[j], x),
            decreases r@.len() - k,
        {
            k = k + 1;
        }
        proof {
            if terms_sorted(ts@) && k < r@.len() {
                assert(r@[k as int] == ts@[k as int]);
                assert(term_le(ts@[k as int], ts@[i as int]));
            }
        }
        let ghost old_r = r@;
        proof {
            if k < old_r.len() {
                lemma_term_le_total(old_r[k as int], x);
                assert(term_le(x, old_r[k as int]));
            }
        }
        r.insert(k, x);
        proof {
            assert forall|p: int, q: int| 0 <= p < q < r@.len() implies term_le(
                #[trigger] r@[p],
                #[trigger] r@[q],
            ) by {
                if q < k {
                    assert(r@[p] == old_r[p] && r@[q] == old_r[q]);
                } else if q == k {
                    assert(r@[p] == old_r[p]);
                } else if p == k {
                    assert(r@[q] == old_r[q - 1]);
                    if q - 1 > k {
                        assert(term_le(old_r[k as int], old_r[q - 1]));
                        lemma_term_le_trans(x, old_r[k as int], old_r[q - 1]);
                    }
                } else if p < k {
                    assert(r@[p] == old_r[p] && r@[q] == old_r[q - 1]);
                } else {
                    assert(r@[p] == old_r[p - 1] && r@[q] == old_r[q - 1]);
                }
            }
            assert forall|j: int| 0 <= j < r@.len() implies ts@.take(i + 1).contains(
                #[trigger] r@[j],
            ) by {
                if j == k {
                    assert(ts@.take(i + 1)[i as int] == x);
                } else {
                    let t = r@[j];
                    let jj = if j < k {
                        j
                    } else {
                        j - 1
                    };
                    assert(t == old_r[jj]);
                    assert(ts@.take(i as int).contains(t));
                    let w = choose|w: int| 0 <= w < ts@.take(i as int).len() && ts@.take(
                        i as int,
                    )[w] == t;
                    assert(ts@.take(i + 1)[w] == t);
                }
            }
            assert forall|a: spec_fn(Variable) -> int| #[trigger] terms_sum(r@, a) == terms_sum(
                ts@.take(i + 1),
                a,
            ) by {
                lemma_terms_sum_insert(old_r, k as int, x, a);
                lemma_terms_sum_take_step(ts@, i as int, a);
            }
            lemma_terms_constant_count_insert(old_r, k as int, x);
            assert(ts@.take(i + 1).drop_last() =~= ts@.take(i as int));
            assert forall|u: Term| #[trigger] monomial_coefficient(r@, u) == monomial_coefficient(ts@.take(i + 1), u) by {
                lemma_monomial_coefficient_insert(old_r, k as int, x, u);
                assert(ts@.take(i + 1).last() == x);
            }
            if terms_sorted(ts@) {
                assert(r@ =~= ts@.take(i + 1));
            }
            if terms_distinct(ts@) {
                assert forall|m: int| 0 <= m < old_r.len() implies !(#[trigger] old_r[m]).same_monomial(x) by {
                    assert(ts@.take(i as int).contains(old_r[m]));
                    let w = choose|w: int| 0 <= w < ts@.take(i as int).len() && ts@.take(i as int)[w] == old_r[m];
                    assert(ts@[w] == old_r[m]);
                    assert(!ts@[w].same_monomial(ts@[i as int]));
                }
                assert forall|p: int, q: int| 0 <= p < q < r@.len() implies !(#[trigger] r@[p]).same_monomial(
                    #[trigger] r@[q],
                ) by {
                    if p == k {
                        assert(r@[q] == old_r[q - 1]);
                    } else if q == k {
                        assert(r@[p] == old_r[p]);
                    } else if q < k {
                        assert(r@[p] == old_r[p] && r@[q] == old_r[q]);
                    } else if p < k {
                        assert(r@[p] == old_r[p] && r@[q] == old_r[q - 1]);
                    } else {
                        assert(r@[p] == old_r[p - 1] && r@[q] == old_r[q - 1]);
                    }
                }
            }
        }
        i = i + 1;
    }
    assert(ts@.take(ts@.len() as int) =~= ts@);
    r
}


/// Two terms are multiples of the same monomial, whatever the order of its
/// variables: the same degree and each variable as many times.
pub open spec fn same_monomial_unordered(u: Term, t: Term) -> bool {
    &&& u.spec_degree() == t.spec_degree()
    &&& forall|v: Variable| #[trigger] vars_count(u.variables(), v) == vars_count(t.variables(), v)
}

/// The sum of the coefficients of the terms that are multiples of the
/// monomial of `t` (not reduced).
pub open spec fn monomial_coefficient(ts: Seq<Term>, t: Term) -> int
    decreases ts.len(),
{
    if ts.len() == 0 {
        0
    } else {
        monomial_coefficient(ts.drop_last(), t) + if same_monomial_unordered(ts.last(), t) {
            ts.last().coefficient().val()
        } else {
            0
        }
    }
}

/// Every monomial of degree above two cancels: the coefficients of its
/// multiples add up to zero in the field.
pub open spec fn high_degree_cancels(ts: Seq<Term>) -> bool {
    forall|i: int|
        0 <= i < ts.len() && (#[trigger] ts[i]).spec_degree() > 2 ==> monomial_coefficient(ts, ts[i])
            % p() == 0
}

/// Inserting a term adds its coefficient to its monomial.
proof fn lemma_monomial_coefficient_insert(s: Seq<Term>, k: int, x: Term, t: Term)
    requires
        0 <= k <= s.len(),
    ensures
        monomial_coefficient(s.insert(k, x), t) == monomial_coefficient(s, t) + if same_monomial_unordered(x, t) {
            x.coefficient().val()
        } else {
            0
        },
    decreases s.len(),
{
    if k == s.len() {
        assert(s.insert(k, x).drop_last() =~= s);
    } else {
        assert(s.insert(k, x).drop_last() =~= s.drop_last().insert(k, x));
        lemma_monomial_coefficient_insert(s.drop_last(), k, x, t);
    }
}

/// Replacing a term moves its coefficient to the new term's monomial.
proof fn lemma_monomial_coefficient_update(s: Seq<Term>, k: int, x: Term, t: Term)
    requires
        0 <= k < s.len(),
    ensures
        monomial_coefficient(s.update(k, x), t) == monomial_coefficient(s, t) - (if same_monomial_unordered(s[k], t) {
            s[k].coefficient().val()
        } else {
            0
        }) + if same_monomial_unordered(x, t) {
            x.coefficient().val()
        } else {
            0
        },
    decreases s.len(),
{
    if k == s.len() - 1 {
        assert(s.update(k, x).drop_last() =~= s.drop_last());
    } else {
        assert(s.update(k, x).drop_last() =~= s.drop_last().update(k, x));
        lemma_monomial_coefficient_update(s.drop_last(), k, x, t);
    }
}

/// Terms of the same monomial have the same total coefficient.
proof fn lemma_monomial_coefficient_same(s: Seq<Term>, t1: Term, t2: Term)
    requires
        same_monomial_unordered(t1, t2),
    ensures
        monomial_coefficient(s, t1) == monomial_coefficient(s, t2),
    decreases s.len(),
{
    if s.len() > 0 {
        lemma_monomial_coefficient_same(s.drop_last(), t1, t2);
        if same_monomial_unordered(s.last(), t1) {
            assert(same_monomial_unordered(s.last(), t2));
        }
        if same_monomial_unordered(s.last(), t2) {
            assert(same_monomial_unordered(s.last(), t1));
        }
    }
}

/// A monomial with a nonzero total has a multiple among the terms.
proof fn lemma_monomial_coefficient_witness(s: Seq<Term>, t: Term)
    requires
        monomial_coefficient(s, t) != 0,
    ensures
        exists|i: int| 0 <= i < s.len() && same_monomial_unordered(#[trigger] s[i], t),
    decreases s.len(),
{
    if monomial_coefficient(s.drop_last(), t) != 0 {
        lemma_monomial_coefficient_witness(s.drop_last(), t);
        let i = choose|i: int| 0 <= i < s.drop_last().len() && same_monomial_unordered(#[trigger] s.drop_last()[i], t);
        assert(s[i] == s.drop_last()[i]);
    } else {
        assert(s[s.len() - 1] == s.last());
    }
}

/// A term that no other term shares its monomial with has its own
/// coefficient as the total.
proof fn lemma_monomial_coefficient_single(s: Seq<Term>, j: int, t: Term)
    requires
        0 <= j < s.len(),
        same_monomial_unordered(s[j], t),
        forall|m: int| 0 <= m < s.len() && m != j ==> !same_monomial_unordered(#[trigger] s[m], t),
    ensures
        monomial_coefficient(s, t) == s[j].coefficient().val(),
    decreases s.len(),
{
    if j == s.len() - 1 {
        lemma_monomial_coefficient_none(s.drop_last(), t);
    } else {
        assert forall|m: int| 0 <= m < s.drop_last().len() && m != j implies !same_monomial_unordered(
            #[trigger] s.drop_last()[m],
            t,
        ) by {
            assert(s.drop_last()[m] == s[m]);
        }
        assert(s.drop_last()[j] == s[j]);
        lemma_monomial_coefficient_single(s.drop_last(), j, t);
        assert(!same_monomial_unordered(s[s.len() - 1], t));
    }
}

/// Without multiples of the monomial the total is zero.
proof fn lemma_monomial_coefficient_none(s: Seq<Term>, t: Term)
    requires
        forall|m: int| 0 <= m < s.len() ==> !same_monomial_unordered(#[trigger] s[m], t),
    ensures
        monomial_coefficient(s, t) == 0,
    decreases s.len(),
{
    if s.len() > 0 {
        assert forall|m: int| 0 <= m < s.drop_last().len() implies !same_monomial_unordered(
            #[trigger] s.drop_last()[m],
            t,
        ) by {
            assert(s.drop_last()[m] == s[m]);
        }
        lemma_monomial_coefficient_none(s.drop_last(), t);
        assert(s[s.len() - 1] == s.last());
    }
}

/// The totals of a concatenation are the sums of the totals.
proof fn lemma_monomial_coefficient_append(s: Seq<Term>, r: Seq<Term>, t: Term)
    ensures
        monomial_coefficient(s + r, t) == monomial_coefficient(s, t) + monomial_coefficient(r, t),
    decreases r.len(),
{
    if r.len() == 0 {
        assert(s + r =~= s);
    } else {
        assert((s + r).drop_last() =~= s + r.drop_last());
        lemma_monomial_coefficient_append(s, r.drop_last(), t);
    }
}

/// When the high-degree monomials of the terms cancel (or there are none),
/// the total of any monomial of degree above two is zero in the field.
proof fn lemma_monomial_coefficient_high_zero(s: Seq<Term>, t: Term)
    requires
        terms_max_degree(s) <= 2 || high_degree_cancels(s),
        t.spec_degree() > 2,
    ensures
        monomial_coefficient(s, t) % p() == 0,
{
    if monomial_coefficient(s, t) != 0 {
        lemma_monomial_coefficient_witness(s, t);
        let i = choose|i: int| 0 <= i < s.len() && same_monomial_unordered(#[trigger] s[i], t);
        lemma_terms_max_degree_upper(s);
        assert(s[i].spec_degree() > 2);
        lemma_monomial_coefficient_same(s, s[i], t);
    } else {
        vstd::arithmetic::div_mod::lemma_small_mod(0, p() as nat);
    }
}

/// Two sums whose high-degree monomials cancel have a sum whose
/// high-degree monomials cancel.
pub proof fn lemma_high_degree_cancels_append(s: Seq<Term>, r: Seq<Term>)
    requires
        terms_max_degree(s) <= 2 || high_degree_cancels(s),
        terms_max_degree(r) <= 2 || high_degree_cancels(r),
    ensures
        high_degree_cancels(s + r),
{
    assert forall|i: int| 0 <= i < (s + r).len() && (#[trigger] (s + r)[i]).spec_degree() > 2 implies monomial_coefficient(
        s + r,
        (s + r)[i],
    ) % p() == 0 by {
        let t = (s + r)[i];
        lemma_monomial_coefficient_append(s, r, t);
        lemma_monomial_coefficient_high_zero(s, t);
        lemma_monomial_coefficient_high_zero(r, t);
        lemma_mod_add_both(monomial_coefficient(s, t), 0, monomial_coefficient(r, t), 0);
        vstd::arithmetic::div_mod::lemma_small_mod(0, p() as nat);
    }
}

/// Two sorted sequences with the same count of every variable are equal.
proof fn lemma_sorted_same_counts(s1: Seq<Variable>, s2: Seq<Variable>)
    requires
        vars_sorted(s1),
        vars_sorted(s2),
        s1.len() == s2.len(),
        forall|v: Variable| #[trigger] vars_count(s1, v) == vars_count(s2, v),
    ensures
        s1 == s2,
    decreases s1.len(),
{
    if s1.len() > 0 {
        let a = s1.last();
        let b = s2.last();
        lemma_vars_count_contains(s1, a);
        lemma_vars_count_contains(s2, a);
        lemma_vars_count_contains(s1, b);
        lemma_vars_count_contains(s2, b);
        assert(s1[s1.len() - 1] == a);
        assert(s2[s2.len() - 1] == b);
        assert(vars_count(s2, a) >= 1);
        let j = choose|j: int| 0 <= j < s2.len() && s2[j] == a;
        assert(vars_count(s1, b) >= 1);
        let k = choose|k: int| 0 <= k < s1.len() && s1[k] == b;
        if j < s2.len() - 1 {
            assert(s2[j].0 <= s2[s2.len() - 1].0);
        }
        if k < s1.len() - 1 {
            assert(s1[k].0 <= s1[s1.len() - 1].0);
        }
        assert(a.0 == b.0);
        assert(a == b);
        assert forall|v: Variable| #[trigger] vars_count(s1.drop_last(), v) == vars_count(s2.drop_last(), v) by {
            assert(vars_count(s1, v) == vars_count(s2, v));
        }
        assert forall|i: int, m: int| 0 <= i < m < s1.drop_last().len() implies #[trigger] s1.drop_last()[i].0
            <= #[trigger] s1.drop_last()[m].0 by {
            assert(s1.drop_last()[i] == s1[i] && s1.drop_last()[m] == s1[m]);
        }
        assert forall|i: int, m: int| 0 <= i < m < s2.drop_last().len() implies #[trigger] s2.drop_last()[i].0
            <= #[trigger] s2.drop_last()[m].0 by {
            assert(s2.drop_last()[i] == s2[i] && s2.drop_last()[m] == s2[m]);
        }
        lemma_sorted_same_counts(s1.drop_last(), s2.drop_last());
        assert(s1 =~= s1.drop_last().push(a));
        assert(s2 =~= s2.drop_last().push(b));
    }
}

/// Of two constants, the later one is zero.
pub open spec fn later_constants_zero(s: Seq<Term>) -> bool {
    forall|j: int, k: int|
        0 <= j < k < s.len() && (#[trigger] s[j]) is Constant && (#[trigger] s[k]) is Constant
            ==> s[k].coefficient().val() == 0
}

/// Every constant is zero.
pub open spec fn all_constants_zero(s: Seq<Term>) -> bool {
    forall|j: int| 0 <= j < s.len() && (#[trigger] s[j]) is Constant ==> s[j].coefficient().val() == 0
}

/// Properties kept by every term during normalization.
pub open spec fn term_in_progress(t: Term, max_degree: int) -> bool {
    &&& t.wf()
    &&& vars_sorted(t.variables())
    &&& t.spec_degree() <= max_degree
}

/// Sums of terms that are multiples of the same monomial into one term each,
/// keeping the first occurrence's place; a term whose coefficient cancels
/// becomes the constant zero.
fn combine_like_terms(ts: &Vec<Term>, Ghost(d): Ghost<int>) -> (r: Vec<Term>)
    requires
        forall|i: int| 0 <= i < ts@.len() ==> term_in_progress(#[trigger] ts@[i], d),
        constants_last(ts@),
    ensures
        forall|i: int| 0 <= i < r@.len() ==> term_in_progress(#[trigger] r@[i], d),
        later_constants_zero(r@),
        forall|a: spec_fn(Variable) -> int| #[trigger] terms_sum(r@, a) % p() == terms_sum(ts@, a)
            % p(),
        terms_vars_within(r@, ts@),
        expressions_distinct(r@),
        terms_distinct(ts@) ==> r@ == ts@,
        all_constants_zero(ts@) ==> all_constants_zero(r@),
        forall|t: Term| #[trigger] monomial_coefficient(r@, t) % p() == monomial_coefficient(ts@, t) % p(),
{
    let mut combined: Vec<Term> = Vec::new();
    let mut i: usize = 0;
    while i < ts.len()
        invariant
            i <= ts@.len(),
            expressions_distinct(combined@),
            terms_distinct(ts@) ==> combined@ == ts@.take(i as int),
            all_constants_zero(ts@) ==> all_constants_zero(combined@),
            forall|t: Term| #[trigger] monomial_coefficient(combined@, t) % p() == monomial_coefficient(
                ts@.take(i as int),
                t,
            ) % p(),
            forall|j: int| 0 <= j < ts@.len() ==> term_in_progress(#[trigger] ts@[j], d),
            forall|j: int| 0 <= j < combined@.len() ==> term_in_progress(#[trigger] combined@[j], d),
            forall|a: spec_fn(Variable) -> int| #[trigger] terms_sum(combined@, a) % p()
                == terms_sum(ts@.take(i as int), a) % p(),
            constants_last(ts@),
            later_constants_zero(combined@),
            i < ts@.len() && !(ts@[i as int] is Constant) ==> all_constants_zero(combined@),
            forall|j: int, w: Variable|
                0 <= j < combined@.len() && #[trigger] combined@[j].variables().contains(w)
                    ==> some_term_holds(ts@, w),
        decreases ts@.len() - i,
    {
        let el = ts[i];
        assert(term_in_progress(el, d));
        let ghost start = combined@;
        let mut found = false;
        let mut k: usize = 0;
        while k < combined.len() && !found
            invariant
                term_in_progress(el, d),
                k <= combined@.len(),
                combined@.len() == start.len(),
                forall|j: int| 0 <= j < combined@.len() ==> term_in_progress(
                    #[trigger] combined@[j],
                    d,
                ),
                !found ==> combined@ == start,
                found ==> forall|a: spec_fn(Variable) -> int| #[trigger] terms_sum(combined@, a)
                    % p() == (terms_sum(start, a) + el.value(a)) % p(),
                !found ==> forall|j: int| 0 <= j < k ==> !(#[trigger] start[j]).same_monomial(el),
                later_constants_zero(start),
                !(el is Constant) ==> all_constants_zero(start),
                found ==> later_constants_zero(combined@),
                found && !(el is Constant) ==> all_constants_zero(combined@),
                i < ts@.len(),
                el == ts@[i as int],
                forall|j: int, w: Variable|
                    0 <= j < combined@.len() && #[trigger] combined@[j].variables().contains(w)
                        ==> some_term_holds(ts@, w),
                expressions_distinct(start),
                found ==> expressions_distinct(combined@),
                all_constants_zero(ts@) ==> all_constants_zero(start),
                found && all_constants_zero(ts@) ==> all_constants_zero(combined@),
                found ==> forall|t: Term| #[trigger] monomial_coefficient(combined@, t) % p() == (
                monomial_coefficient(start, t) + if same_monomial_unordered(el, t) {
                    el.coefficient().val()
                } else {
                    0
                }) % p(),
                terms_distinct(ts@) ==> start == ts@.take(i as int) && !found,
            decreases combined@.len() - k + (if found { 0int } else { 1int }),
        {
            let mut t = combined[k];
            assert(term_in_progress(t, d));
            let ghost t0 = t;
            proof {
                if terms_distinct(ts@) {
                    assert(start[k as int] == ts@[k as int]);
                }
            }
            if t.combine(&el) {
                let ghost t1 = t;
                t.normalize();
                combined.set(k, t);
                found = true;
                proof {
                    assert(t1.variables() == t0.variables());
                    if t is Expression {
                        assert(t1.is_normalized());
                        assert(t == t1);
                    }
                    assert(combined@ == start.update(k as int, t));
                    assert forall|u: Term| #[trigger] monomial_coefficient(combined@, u) % p() == (
                    monomial_coefficient(start, u) + if same_monomial_unordered(el, u) {
                        el.coefficient().val()
                    } else {
                        0
                    }) % p() by {
                        lemma_monomial_coefficient_update(start, k as int, t, u);
                        assert(start[k as int] == t0);
                        let m = monomial_coefficient(start, u);
                        let c0 = t0.coefficient().val();
                        let ce = el.coefficient().val();
                        if same_monomial_unordered(t0, u) {
                            assert(same_monomial_unordered(el, u));
                            if t == t1 {
                                assert(same_monomial_unordered(t, u));
                                lemma_mod_add_congruent(m - c0, t.coefficient().val(), c0 + ce);
                                vstd::arithmetic::div_mod::lemma_mod_twice(c0 + ce, p());
                            } else {
                                assert(t1.coefficient().val() == 0);
                                vstd::arithmetic::div_mod::lemma_small_mod(0, p() as nat);
                                lemma_mod_add_congruent(m - c0, 0, c0 + ce);
                            }
                        } else {
                            if same_monomial_unordered(el, u) {
                                assert(same_monomial_unordered(t0, u));
                            }
                            if t == t1 && same_monomial_unordered(t, u) {
                                assert(same_monomial_unordered(t0, u));
                            }
                        }
                    }
                    if all_constants_zero(ts@) {
                        assert forall|j: int| 0 <= j < combined@.len() && (#[trigger] combined@[j]) is Constant
                            implies combined@[j].coefficient().val() == 0 by {
                            if j != k {
                                assert(combined@[j] == start[j]);
                            } else if t0 is Constant {
                                assert(start[k as int] == t0);
                                assert(el is Constant);
                            }
                        }
                    }
                    assert forall|p: int, q: int|
                        0 <= p < q < combined@.len() && (#[trigger] combined@[p]) is Expression
                            && (#[trigger] combined@[q]) is Expression
                        implies !combined@[p].same_monomial(combined@[q]) by {
                        if p != k {
                            assert(combined@[p] == start[p]);
                        }
                        if q != k {
                            assert(combined@[q] == start[q]);
                        }
                    }
                    assert forall|j: int, w: Variable|
                        0 <= j < combined@.len() && #[trigger] combined@[j].variables().contains(w)
                            implies some_term_holds(ts@, w) by {
                        if j == k {
                            assert(t1.variables() == t0.variables());
                            assert(start[j] == t0);
                        } else {
                            assert(combined@[j] == start[j]);
                        }
                    }
                    assert forall|a: spec_fn(Variable) -> int| #[trigger] terms_sum(combined@, a) % p()
                        == (terms_sum(start, a) + el.value(a)) % p() by {
                        lemma_terms_sum_update(start, k as int, t, a);
                        assert(t.value(a) == t1.value(a));
                        assert(t1.value(a) % p() == (t0.value(a) + el.value(a)) % p());
                        lemma_mod_add_congruent(
                            terms_sum(start, a) - t0.value(a),
                            t.value(a),
                            t0.value(a) + el.value(a),
                        );
                    }
                    assert(t1.spec_degree() == t0.spec_degree());
                    if el is Constant {
                        assert forall|j: int| 0 <= j < k implies !((#[trigger] start[j]) is Constant) by {
                            if start[j] is Constant {
                                assert(start[j].same_monomial(el));
                            }
                        }
                        assert forall|j: int, m: int|
                            0 <= j < m < combined@.len() && (#[trigger] combined@[j]) is Constant
                                && (#[trigger] combined@[m]) is Constant
                            implies combined@[m].coefficient().val() == 0 by {
                            if m == k {
                                assert(combined@[j] == start[j]);
                            } else if j == k {
                                assert(combined@[m] == start[m]);
                                assert(start[j] is Constant);
                            } else {
                                assert(combined@[j] == start[j] && combined@[m] == start[m]);
                            }
                        }
                    } else {
                        assert(t0 is Expression);
                        assert forall|j: int| 0 <= j < combined@.len() && (
                        #[trigger] combined@[j]) is Constant implies combined@[j].coefficient().val()
                            == 0 by {
                            if j != k {
                                assert(combined@[j] == start[j]);
                            }
                        }
                    }
                }
            } else {
                k = k + 1;
            }
        }
        if !found {
            combined.push(el);
            proof {
                assert(k == start.len());
                assert(combined@ == start.push(el));
                assert forall|u: Term| #[trigger] monomial_coefficient(combined@, u) % p() == (
                monomial_coefficient(start, u) + if same_monomial_unordered(el, u) {
                    el.coefficient().val()
                } else {
                    0
                }) % p() by {
                    assert(combined@.drop_last() =~= start);
                }
                if all_constants_zero(ts@) {
                    assert forall|j: int| 0 <= j < combined@.len() && (#[trigger] combined@[j]) is Constant
                        implies combined@[j].coefficient().val() == 0 by {
                        if j < start.len() {
                            assert(combined@[j] == start[j]);
                        }
                    }
                }
                assert forall|p: int, q: int|
                    0 <= p < q < combined@.len() && (#[trigger] combined@[p]) is Expression
                        && (#[trigger] combined@[q]) is Expression
                    implies !combined@[p].same_monomial(combined@[q]) by {
                    assert(combined@[p] == start[p]);
                    if q < start.len() {
                        assert(combined@[q] == start[q]);
                    }
                }
                if terms_distinct(ts@) {
                    assert(combined@ =~= ts@.take(i + 1));
                }
                assert forall|j: int, w: Variable|
                    0 <= j < combined@.len() && #[trigger] combined@[j].variables().contains(w)
                        implies some_term_holds(ts@, w) by {
                    if j < start.len() {
                        assert(combined@[j] == start[j]);
                    } else {
                        assert(ts@[i as int].variables().contains(w));
                    }
                }
                if el is Constant {
                    assert forall|j: int| 0 <= j < start.len() implies !((#[trigger] start[j]) is Constant) by {
                        if start[j] is Constant {
                            assert(start[j].same_monomial(el));
                        }
                    }
                }
                assert forall|j: int, m: int|
                    0 <= j < m < combined@.len() && (#[trigger] combined@[j]) is Constant && (
                    #[trigger] combined@[m]) is Constant implies combined@[m].coefficient().val() == 0 by {
                    assert(combined@[j] == start[j]);
                    if m < start.len() {
                        assert(combined@[m] == start[m]);
                    }
                }
                if !(el is Constant) {
                    assert forall|j: int| 0 <= j < combined@.len() && (
                    #[trigger] combined@[j]) is Constant implies combined@[j].coefficient().val() == 0 by {
                        if j < start.len() {
                            assert(combined@[j] == start[j]);
                        }
                    }
                }
                assert forall|a: spec_fn(Variable) -> int| #[trigger] terms_sum(combined@, a)
                    % p() == (terms_sum(start, a) + el.value(a)) % p() by {
                    assert(combined@.drop_last() =~= start);
                }
            }
        }
        proof {
            assert forall|a: spec_fn(Variable) -> int| #[trigger] terms_sum(combined@, a) % p()
                == terms_sum(ts@.take(i + 1), a) % p() by {
                lemma_terms_sum_take_step(ts@, i as int, a);
                assert(terms_sum(start, a) % p() == terms_sum(ts@.take(i as int), a) % p());
                lemma_mod_add_congruent(
                    el.value(a),
                    terms_sum(start, a),
                    terms_sum(ts@.take(i as int), a),
                );
            }
            if i + 1 < ts@.len() && !(ts@[i + 1] is Constant) {
                assert(!(ts@[i as int] is Constant));
            }
            assert forall|u: Term| #[trigger] monomial_coefficient(combined@, u) % p() == monomial_coefficient(
                ts@.take(i + 1),
                u,
            ) % p() by {
                assert(ts@.take(i + 1).drop_last() =~= ts@.take(i as int));
                assert(ts@.take(i + 1).last() == el);
                let x = if same_monomial_unordered(el, u) {
                    el.coefficient().val()
                } else {
                    0
                };
                assert(monomial_coefficient(start, u) % p() == monomial_coefficient(ts@.take(i as int), u) % p());
                lemma_mod_add_both(monomial_coefficient(start, u), monomial_coefficient(ts@.take(i as int), u), x, x);
            }
        }
        i = i + 1;
    }
    assert(ts@.take(ts@.len() as int) =~= ts@);
    assert forall|w: Variable| #[trigger] some_term_holds(combined@, w) implies some_term_holds(ts@, w) by {
        let j = choose|j: int| 0 <= j < combined@.len() && (#[trigger] combined@[j]).variables().contains(w);
    }
    combined
}

/// The terms whose coefficient is not zero.
fn remove_zero_terms(ts: &Vec<Term>) -> (r: Vec<Term>)
    ensures
        forall|i: int| 0 <= i < r@.len() ==> ts@.contains(#[trigger] r@[i]),
        forall|i: int| 0 <= i < r@.len() ==> (#[trigger] r@[i]).coefficient().val() != 0,
        forall|a: spec_fn(Variable) -> int| #[trigger] terms_sum(r@, a) == terms_sum(ts@, a),
        terms_constant_count(r@) == terms_nonzero_constant_count(ts@),
        expressions_distinct(ts@) ==> expressions_distinct(r@),
        (forall|i: int| 0 <= i < ts@.len() ==> (#[trigger] ts@[i]).coefficient().val() != 0) ==> r@
            == ts@,
        forall|t: Term| #[trigger] monomial_coefficient(r@, t) == monomial_coefficient(ts@, t),
{
    let mut r: Vec<Term> = Vec::new();
    let mut i: usize = 0;
    while i < ts.len()
        invariant
            i <= ts@.len(),
            forall|j: int| 0 <= j < r@.len() ==> ts@.take(i as int).contains(#[trigger] r@[j]),
            expressions_distinct(ts@) ==> expressions_distinct(r@),
            (forall|j: int| 0 <= j < ts@.len() ==> (#[trigger] ts@[j]).coefficient().val() != 0)
                ==> r@ == ts@.take(i as int),
            forall|u: Term| #[trigger] monomial_coefficient(r@, u) == monomial_coefficient(ts@.take(i as int), u),
            terms_constant_count(r@) == terms_nonzero_constant_count(ts@.take(i as int)),
            forall|j: int| 0 <= j < r@.len() ==> ts@.contains(#[trigger] r@[j]),
            forall|j: int| 0 <= j < r@.len() ==> (#[trigger] r@[j]).coefficient().val() != 0,
            forall|a: spec_fn(Variable) -> int| #[trigger] terms_sum(r@, a) == terms_sum(
                ts@.take(i as int),
                a,
            ),
        decreases ts@.len() - i,
    {
        let t = ts[i];
        let ghost old_r = r@;
        if !t.is_zero() {
            r.push(t);
        }
        proof {
            assert forall|a: spec_fn(Variable) -> int| #[trigger] terms_sum(r@, a) == terms_sum(
                ts@.take(i + 1),
                a,
            ) by {
                lemma_terms_sum_take_step(ts@, i as int, a);
                assert(terms_sum(old_r, a) == terms_sum(ts@.take(i as int), a));
                if t.coefficient().val() == 0 {
                    let pr = vars_product(t.variables(), a);
                    assert(0 * pr == 0);
                    assert(t.value(a) == 0);
                    assert(r@ == old_r);
                } else {
                    assert(r@.drop_last() =~= old_r);
                    assert(terms_sum(r@, a) == terms_sum(old_r, a) + t.value(a));
                }
            }
            assert forall|j: int| 0 <= j < r@.len() implies ts@.contains(#[trigger] r@[j]) by {
                if j == old_r.len() {
                    assert(ts@[i as int] == t);
                }
            }
            assert(ts@.take(i + 1).drop_last() =~= ts@.take(i as int));
            if t.coefficient().val() != 0 {
                assert(r@.drop_last() =~= old_r);
            }
            assert forall|j: int| 0 <= j < r@.len() implies ts@.take(i + 1).contains(#[trigger] r@[j]) by {
                if j < old_r.len() {
                    assert(r@[j] == old_r[j]);
                    assert(ts@.take(i as int).contains(old_r[j]));
                    let w = choose|w: int| 0 <= w < ts@.take(i as int).len() && ts@.take(i as int)[w] == old_r[j];
                    assert(ts@.take(i + 1)[w] == old_r[j]);
                } else {
                    assert(ts@.take(i + 1)[i as int] == t);
                }
            }
            if expressions_distinct(ts@) && t.coefficient().val() != 0 {
                assert forall|m: int| 0 <= m < old_r.len() && (#[trigger] old_r[m]) is Expression && t is Expression
                    implies !old_r[m].same_monomial(t) by {
                    assert(ts@.take(i as int).contains(old_r[m]));
                    let w = choose|w: int| 0 <= w < ts@.take(i as int).len() && ts@.take(i as int)[w] == old_r[m];
                    assert(ts@[w] == old_r[m]);
                }
                assert forall|p: int, q: int|
                    0 <= p < q < r@.len() && (#[trigger] r@[p]) is Expression && (#[trigger] r@[q]) is Expression
                    implies !r@[p].same_monomial(r@[q]) by {
                    assert(r@[p] == old_r[p]);
                    if q < old_r.len() {
                        assert(r@[q] == old_r[q]);
                    }
                }
            }
            if forall|j: int| 0 <= j < ts@.len() ==> (#[trigger] ts@[j]).coefficient().val() != 0 {
                assert(ts@[i as int].coefficient().val() != 0);
                assert(r@ =~= ts@.take(i + 1));
            }
            assert forall|u: Term| #[trigger] monomial_coefficient(r@, u) == monomial_coefficient(ts@.take(i + 1), u) by {
                assert(ts@.take(i + 1).last() == t);
                assert(monomial_coefficient(old_r, u) == monomial_coefficient(ts@.take(i as int), u));
                if t.coefficient().val() != 0 {
                    assert(r@.drop_last() =~= old_r);
                    assert(r@.last() == t);
                } else {
                    assert(r@ == old_r);
                }
            }
        }
        i = i + 1;
    }
    assert(ts@.take(ts@.len() as int) =~= ts@);
    r
}

impl Constraint {
    /// The largest degree among the terms.
    pub fn degree(&self) -> (r: usize)
        ensures
            r == self.spec_degree(),
    {
        let mut d: usize = 0;
        let mut i: usize = 0;
        while i < self.terms.len()
            invariant
                i <= self.terms@.len(),
                d == terms_max_degree(self.terms@.take(i as int)),
            decreases self.terms@.len() - i,
        {
            let t = self.terms[i].degree();
            proof {
                assert(self.terms@.take(i + 1).drop_last() =~= self.terms@.take(i as int));
            }
            if t > d {
                d = t;
            }
            i = i + 1;
        }
        assert(self.terms@.take(i as int) =~= self.terms@);
        d
    }

    /// Brings the polynomial to normal form: each term normalized, multiples
    /// of the same monomial summed, zero terms dropped, terms in order.
    /// The value is kept under every assignment.
    pub fn normalize(&mut self)
        requires
            old(self).wf(),
            old(self).spec_degree() <= 2 || high_degree_cancels(old(self).terms@),
        ensures
            final(self).is_normalized(),
            final(self).spec_degree() <= old(self).spec_degree(),
            final(self).spec_degree() <= 2,
            forall|a: spec_fn(Variable) -> int| #[trigger] final(self).value(a) == old(self).value(
                a,
            ),
            terms_vars_within(final(self).terms@, old(self).terms@),
            old(self).is_normalized() ==> final(self).terms@ == old(self).terms@,
            terms_constant_count(old(self).terms@) == 0 ==> terms_constant_count(final(self).terms@) == 0,
    {
        let ghost d = old(self).spec_degree();
        proof {
            lemma_terms_max_degree_upper(self.terms@);
        }
        proof {
            if terms_constant_count(self.terms@) == 0 {
                assert forall|j: int| 0 <= j < self.terms@.len() && (#[trigger] self.terms@[j]) is Constant
                    implies self.terms@[j].coefficient().val() == 0 by {
                    lemma_terms_constant_count_pos(self.terms@, j);
                }
            }
        }
        let first = normalize_each_term(&self.terms);
        let sorted = sort_terms(&first);
        proof {
            if all_constants_zero(first@) {
                assert forall|j: int| 0 <= j < sorted@.len() && (#[trigger] sorted@[j]) is Constant
                    implies sorted@[j].coefficient().val() == 0 by {
                    let w = choose|w: int| 0 <= w < first@.len() && first@[w] == sorted@[j];
                }
            }
        }
        proof {
            assert forall|i: int| 0 <= i < sorted@.len() implies term_in_progress(
                #[trigger] sorted@[i],
                d,
            ) by {
                let w = choose|w: int| 0 <= w < first@.len() && first@[w] == sorted@[i];
            }
        }
        let combined = combine_like_terms(&sorted, Ghost(d));
        proof {
            lemma_terms_nonzero_constant_count_at_most_one(combined@);
            if all_constants_zero(combined@) {
                lemma_terms_nonzero_constant_count_zero(combined@);
            }
        }
        let nonzero = remove_zero_terms(&combined);
        proof {
            assert forall|i: int| 0 <= i < nonzero@.len() implies (#[trigger] nonzero@[i]).wf() by {
                let w = choose|w: int| 0 <= w < combined@.len() && combined@[w] == nonzero@[i];
                assert(term_in_progress(combined@[w], d));
            }
        }
        proof {
            assert forall|i: int| 0 <= i < nonzero@.len() implies (#[trigger] nonzero@[i]).is_normalized() by {
                let w = choose|w: int| 0 <= w < combined@.len() && combined@[w] == nonzero@[i];
                assert(term_in_progress(combined@[w], d));
            }
        }
        let second = normalize_each_term(&nonzero);
        proof {
            lemma_terms_distinct(second@);
        }
        let result = sort_terms(&second);
        proof {
            assert forall|i: int| 0 <= i < result@.len() implies (#[trigger] result@[i]).is_normalized()
                && result@[i].coefficient().val() != 0 && result@[i].spec_degree() <= d by {
                let w = choose|w: int| 0 <= w < second@.len() && second@[w] == result@[i];
                assert(nonzero@[w].coefficient().val() != 0);
                let w2 = choose|w2: int| 0 <= w2 < combined@.len() && combined@[w2] == nonzero@[w];
                assert(term_in_progress(combined@[w2], d));
            }
            lemma_terms_max_degree_bound(result@, d);
            assert forall|j: int| 0 <= j < result@.len() implies (#[trigger] result@[j]).spec_degree() <= 2 by {
                let u = result@[j];
                if u.spec_degree() > 2 {
                    let ts = old(self).terms@;
                    assert(monomial_coefficient(combined@, u) % p() == monomial_coefficient(sorted@, u) % p());
                    assert(monomial_coefficient(result@, u) == monomial_coefficient(combined@, u));
                    assert(monomial_coefficient(sorted@, u) == monomial_coefficient(ts, u));
                    assert forall|m: int| 0 <= m < result@.len() && m != j implies !same_monomial_unordered(
                        #[trigger] result@[m],
                        u,
                    ) by {
                        if same_monomial_unordered(result@[m], u) {
                            assert(result@[m].is_normalized());
                            lemma_sorted_same_counts(result@[m].variables(), u.variables());
                            assert(result@[m].same_monomial(u));
                        }
                    }
                    lemma_monomial_coefficient_single(result@, j, u);
                    vstd::arithmetic::div_mod::lemma_mod_twice(u.coefficient().0 as int, p());
                    assert(monomial_coefficient(ts, u) != 0);
                    lemma_monomial_coefficient_witness(ts, u);
                    let i = choose|i: int| 0 <= i < ts.len() && same_monomial_unordered(#[trigger] ts[i], u);
                    assert(ts[i].spec_degree() > 2);
                    assert(ts[i].spec_degree() <= d);
                    lemma_monomial_coefficient_same(ts, ts[i], u);
                }
            }
            lemma_terms_max_degree_bound(result@, 2);
            lemma_taken_terms_vars_within(sorted@, first@);
            lemma_taken_terms_vars_within(nonzero@, combined@);
            lemma_taken_terms_vars_within(result@, second@);
        }
        self.terms = result;
    }
}



/// The value of quadratic parts `c * x * y` (not reduced).
pub open spec fn quadratic_sum(q: Seq<(Mersenne31Field, Variable, Variable)>, a: spec_fn(Variable) -> int) -> int
    decreases q.len(),
{
    if q.len() == 0 {
        0
    } else {
        quadratic_sum(q.drop_last(), a) + q.last().0.val() * a(q.last().1) * a(q.last().2)
    }
}

/// The value of linear parts `c * x` (not reduced).
pub open spec fn linear_sum(l: Seq<(Mersenne31Field, Variable)>, a: spec_fn(Variable) -> int) -> int
    decreases l.len(),
{
    if l.len() == 0 {
        0
    } else {
        linear_sum(l.drop_last(), a) + l.last().0.val() * a(l.last().1)
    }
}

/// The largest number of times `v` occurs in one term.
pub open spec fn terms_max_var_degree(ts: Seq<Term>, v: Variable) -> nat
    decreases ts.len(),
{
    if ts.len() == 0 {
        0
    } else {
        let d = terms_max_var_degree(ts.drop_last(), v);
        let l = vars_count(ts.last().variables(), v);
        if d >= l {
            d
        } else {
            l
        }
    }
}

/// Some term holds the variable.
pub open spec fn terms_contain_var(ts: Seq<Term>, v: Variable) -> bool {
    exists|i: int| 0 <= i < ts.len() && (#[trigger] ts[i]).variables().contains(v)
}

pub proof fn lemma_vars_product_two(x: Variable, y: Variable, a: spec_fn(Variable) -> int)
    ensures
        vars_product(seq![x, y], a) == a(x) * a(y),
{
    reveal_with_fuel(vars_product, 3);
    assert(seq![x, y].drop_last() =~= seq![x]);
    assert(seq![x].drop_last() =~= Seq::<Variable>::empty());
}

pub proof fn lemma_vars_product_one(x: Variable, a: spec_fn(Variable) -> int)
    ensures
        vars_product(seq![x], a) == a(x),
{
    reveal_with_fuel(vars_product, 2);
    assert(seq![x].drop_last() =~= Seq::<Variable>::empty());
}

/// Sum and degree of a polynomial of one term.
pub proof fn lemma_terms_single(t: Term)
    ensures
        forall|a: spec_fn(Variable) -> int| terms_sum(seq![t], a) == #[trigger] t.value(a),
        terms_max_degree(seq![t]) == if t.spec_degree() >= 0 {
            t.spec_degree()
        } else {
            0
        },
{
    reveal_with_fuel(terms_sum, 2);
    reveal_with_fuel(terms_max_degree, 2);
    assert(seq![t].drop_last() =~= Seq::<Term>::empty());
}

/// Sum and degree of a polynomial of two terms.
pub proof fn lemma_terms_pair(t: Term, u: Term)
    ensures
        forall|a: spec_fn(Variable) -> int| terms_sum(seq![t, u], a) == #[trigger] t.value(a)
            + u.value(a),
        terms_max_degree(seq![t, u]) == vstd::math::max(
            vstd::math::max(0, t.spec_degree()),
            u.spec_degree(),
        ),
{
    reveal_with_fuel(terms_sum, 3);
    reveal_with_fuel(terms_max_degree, 3);
    assert(seq![t, u].drop_last() =~= seq![t]);
    assert(seq![t].drop_last() =~= Seq::<Term>::empty());
}

/// Two sequences of terms with pairwise the same monomials have the same
/// largest degree.
pub proof fn lemma_terms_same_degree(s: Seq<Term>, t: Seq<Term>)
    requires
        s.len() == t.len(),
        forall|i: int| 0 <= i < s.len() ==> (#[trigger] s[i]).same_monomial(t[i]),
    ensures
        terms_max_degree(s) == terms_max_degree(t),
    decreases s.len(),
{
    if s.len() > 0 {
        assert forall|i: int| 0 <= i < s.drop_last().len() implies (
        #[trigger] s.drop_last()[i]).same_monomial(t.drop_last()[i]) by {
            assert(s.drop_last()[i] == s[i]);
            assert(t.drop_last()[i] == t[i]);
        }
        lemma_terms_same_degree(s.drop_last(), t.drop_last());
        assert(s.last() == s[s.len() - 1]);
        assert(t.last() == t[t.len() - 1]);
    }
}

/// A variable occurs at most as many times as there are variables.
pub proof fn lemma_vars_count_le_len(s: Seq<Variable>, v: Variable)
    ensures
        vars_count(s, v) <= s.len(),
    decreases s.len(),
{
    if s.len() > 0 {
        lemma_vars_count_le_len(s.drop_last(), v);
    }
}

impl Constraint {
    /// The polynomial with no terms (the zero polynomial).
    pub fn empty() -> (r: Self)
        ensures
            r.terms@ == Seq::<Term>::empty(),
    {
        Constraint { terms: Vec::new() }
    }

    /// Whether there are no terms.
    pub fn is_empty(&self) -> (r: bool)
        ensures
            r == (self.terms@.len() == 0),
    {
        self.terms.len() == 0
    }

    /// The constant polynomial.
    pub fn constant(fr: Mersenne31Field) -> (r: Self)
        ensures
            r.terms@ == seq![Term::Constant(fr)],
    {
        let mut terms = Vec::new();
        terms.push(Term::Constant(fr));
        Constraint { terms }
    }

    /// The constant polynomial.
    pub fn from_field(value: Mersenne31Field) -> (r: Self)
        ensures
            r.terms@ == seq![Term::Constant(value)],
    {
        Constraint::constant(value)
    }

    /// The polynomial of a single term.
    pub fn from_term(value: Term) -> (r: Self)
        ensures
            r.terms@ == seq![value],
            value.wf() ==> r.wf(),
            value.wf() ==> r.spec_degree() == value.spec_degree(),
            forall|a: spec_fn(Variable) -> int| #[trigger] r.value(a) == value.value(a) % p(),
    {
        let mut terms = Vec::new();
        terms.push(value);
        let r = Constraint { terms };
        proof {
            assert(r.terms@ =~= seq![value]);
            lemma_terms_single(value);
        }
        r
    }

    /// The polynomial that is exactly the variable.
    pub fn from_variable(value: Variable) -> (r: Self)
        ensures
            r.wf(),
            r.spec_degree() == 1,
            r.terms@.len() == 1,
            forall|a: spec_fn(Variable) -> int| #[trigger] r.value(a) == a(value) % p(),
    {
        let t = Term::from_variable(value);
        Constraint::from_term(t)
    }

    /// The polynomial of a number.
    pub fn from_num(value: Num) -> (r: Self)
        ensures
            r.wf(),
            r.spec_degree() <= 1,
            r.terms@.len() == 1,
            forall|a: spec_fn(Variable) -> int| #[trigger] r.value(a) == value.value(a) % p(),
    {
        let t = Term::from_num(value);
        Constraint::from_term(t)
    }

    /// The polynomial `value mod p`.
    pub fn from_u32(value: u32) -> (r: Self)
        ensures
            r.terms@.len() == 1,
            r.terms@[0] is Constant,
            r.terms@[0].coefficient().val() == value as int % p(),
            r.wf(),
            r.spec_degree() == 0,
    {
        Constraint::from_term(Term::from_u32(value))
    }

    /// The polynomial one or zero.
    pub fn from_bool(value: bool) -> (r: Self)
        ensures
            r.terms@.len() == 1,
            r.terms@[0] is Constant,
            r.terms@[0].coefficient().val() == if value {
                1int
            } else {
                0int
            },
            r.wf(),
            r.spec_degree() == 0,
    {
        Constraint::from_term(Term::from_u32(if value {
            1
        } else {
            0
        }))
    }

    /// The polynomial of a boolean; a negated variable `v` becomes `1 - v`.
    pub fn from_boolean(value: Boolean) -> (r: Self)
        ensures
            r.wf(),
            r.spec_degree() <= 1,
            forall|a: spec_fn(Variable) -> int| #[trigger] r.value(a) == value.value(a) % p(),
    {
        match value {
            Boolean::Not(var) => {
                let one = Term::from_u32(1);
                let term = Term::from_variable(var);
                let r = one.sub(term);
                r
            },
            _ => {
                let t = Term::from_boolean(value);
                Constraint::from_term(t)
            },
        }
    }

    /// The coefficient of a polynomial that is a single constant term.
    pub fn as_constant(&self) -> (r: Mersenne31Field)
        requires
            self.spec_degree() == 0,
            self.terms@.len() == 1,
        ensures
            r == self.terms@[0].coefficient(),
    {
        self.terms[0].get_coef()
    }

    /// The single term of a polynomial of one term of degree at most one.
    pub fn as_term(&self) -> (r: Term)
        requires
            self.spec_degree() <= 1,
            self.terms@.len() == 1,
        ensures
            r == self.terms@[0],
    {
        self.terms[0]
    }

    /// Multiplies every coefficient by a constant.
    pub fn scale(&mut self, scaling_factor: Mersenne31Field)
        ensures
            final(self).terms@.len() == old(self).terms@.len(),
            forall|i: int|
                0 <= i < final(self).terms@.len() ==> (#[trigger] final(self).terms@[i]).same_monomial(
                    old(self).terms@[i],
                ) && (final(self).terms@[i] is Constant <==> old(self).terms@[i] is Constant)
                    && final(self).terms@[i].coefficient().val() == (old(self).terms@[i].coefficient().val()
                    * scaling_factor.val()) % p(),
            old(self).wf() ==> final(self).wf(),
            final(self).spec_degree() == old(self).spec_degree(),
            forall|a: spec_fn(Variable) -> int| #[trigger] final(self).value(a) == (old(self).value(a)
                * scaling_factor.val()) % p(),
    {
        let ghost o = self.terms@;
        let mut i: usize = 0;
        while i < self.terms.len()
            invariant
                i <= self.terms@.len(),
                self.terms@.len() == o.len(),
                forall|j: int| i <= j < o.len() ==> #[trigger] self.terms@[j] == o[j],
                forall|j: int|
                    0 <= j < i ==> (#[trigger] self.terms@[j]).same_monomial(o[j]) && (
                    self.terms@[j] is Constant <==> o[j] is Constant) && (o[j].wf()
                        ==> self.terms@[j].wf()) && self.terms@[j].coefficient().val() == (
                    o[j].coefficient().val() * scaling_factor.val()) % p(),
                forall|a: spec_fn(Variable) -> int| #[trigger] terms_sum(self.terms@.take(i as int), a)
                    % p() == (terms_sum(o.take(i as int), a) * scaling_factor.val()) % p(),
            decreases o.len() - i,
        {
            let mut t = self.terms[i];
            let ghost t0 = t;
            t.scale(&scaling_factor);
            let ghost before = self.terms@;
            self.terms.set(i, t);
            proof {
                assert forall|a: spec_fn(Variable) -> int| #[trigger] terms_sum(
                    self.terms@.take(i + 1),
                    a,
                ) % p() == (terms_sum(o.take(i + 1), a) * scaling_factor.val()) % p() by {
                    assert(self.terms@.take(i + 1).drop_last() =~= before.take(i as int));
                    assert(self.terms@.take(i + 1).last() == t);
                    assert(o.take(i + 1).drop_last() =~= o.take(i as int));
                    assert(o.take(i + 1).last() == t0);
                    assert(terms_sum(before.take(i as int), a) % p() == (terms_sum(
                        o.take(i as int),
                        a,
                    ) * scaling_factor.val()) % p());
                    lemma_mod_add_both(
                        terms_sum(before.take(i as int), a),
                        terms_sum(o.take(i as int), a) * scaling_factor.val(),
                        t.value(a),
                        t0.value(a) * scaling_factor.val(),
                    );
                    assert((terms_sum(o.take(i as int), a) + t0.value(a)) * scaling_factor.val()
                        == terms_sum(o.take(i as int), a) * scaling_factor.val() + t0.value(a)
                        * scaling_factor.val()) by (nonlinear_arith);
                }
            }
            i = i + 1;
        }
        proof {
            assert(self.terms@.take(i as int) =~= self.terms@);
            assert(o.take(i as int) =~= o);
            assert forall|a: spec_fn(Variable) -> int| #[trigger] terms_sum(self.terms@, a) % p() == (
            (terms_sum(o, a) % p()) * scaling_factor.val()) % p() by {
                lemma_mul_mod_left(terms_sum(o, a), scaling_factor.val());
            }
            lemma_terms_same_degree(self.terms@, o);
        }
    }

    /// Whether some term holds the variable.
    pub fn contains_var(&self, variable: &Variable) -> (r: bool)
        requires
            self.wf(),
        ensures
            r == terms_contain_var(self.terms@, *variable),
    {
        let mut i: usize = 0;
        while i < self.terms.len()
            invariant
                i <= self.terms@.len(),
                self.wf(),
                forall|j: int| 0 <= j < i ==> !(#[trigger] self.terms@[j]).variables().contains(
                    *variable,
                ),
            decreases self.terms@.len() - i,
        {
            if self.terms[i].contains_var(variable) {
                return true;
            }
            i = i + 1;
        }
        false
    }

    /// The largest number of times the variable occurs in one term.
    pub fn degree_for_var(&self, variable: &Variable) -> (r: usize)
        requires
            self.wf(),
        ensures
            r == terms_max_var_degree(self.terms@, *variable),
    {
        let mut degree: usize = 0;
        let mut i: usize = 0;
        while i < self.terms.len()
            invariant
                i <= self.terms@.len(),
                self.wf(),
                degree == terms_max_var_degree(self.terms@.take(i as int), *variable),
                degree <= 4,
            decreases self.terms@.len() - i,
        {
            let t = self.terms[i].degree_for_var(variable);
            proof {
                assert(self.terms@.take(i + 1).drop_last() =~= self.terms@.take(i as int));
                assert(self.terms@[i as int].wf());
                lemma_vars_count_le_len(self.terms@[i as int].variables(), *variable);
            }
            if t > degree {
                degree = t;
            }
            i = i + 1;
        }
        assert(self.terms@.take(i as int) =~= self.terms@);
        degree
    }

    /// The normal form split into quadratic parts `(c, x, y)`, linear parts
    /// `(c, x)` and the constant.
    pub fn split_max_quadratic(self) -> (r: (
        Vec<(Mersenne31Field, Variable, Variable)>,
        Vec<(Mersenne31Field, Variable)>,
        Mersenne31Field,
    ))
        requires
            self.wf(),
            self.spec_degree() <= 2 || high_degree_cancels(self.terms@),
        ensures
            forall|a: spec_fn(Variable) -> int| #[trigger] self.value(a) == (quadratic_sum(
                r.0@,
                a,
            ) + linear_sum(r.1@, a) + r.2.val()) % p(),
            forall|i: int| 0 <= i < r.0@.len() ==> (#[trigger] r.0@[i]).0.val() != 0 && r.0@[i].1.0
                <= r.0@[i].2.0,
            forall|i: int| 0 <= i < r.1@.len() ==> (#[trigger] r.1@[i]).0.val() != 0,
            self.spec_degree() <= 1 ==> r.0@.len() == 0,
            forall|i: int| 0 <= i < r.0@.len() ==> some_term_holds(self.terms@, (#[trigger] r.0@[i]).1)
                && some_term_holds(self.terms@, r.0@[i].2),
            forall|i: int| 0 <= i < r.1@.len() ==> some_term_holds(self.terms@, (#[trigger] r.1@[i]).1),
            forall|i: int, j: int|
                0 <= i < j < r.0@.len() ==> (#[trigger] r.0@[i]).1 != (#[trigger] r.0@[j]).1
                    || r.0@[i].2 != r.0@[j].2,
            forall|i: int, j: int|
                0 <= i < j < r.1@.len() ==> (#[trigger] r.1@[i]).1 != (#[trigger] r.1@[j]).1,
            terms_constant_count(self.terms@) == 0 ==> r.2 == Mersenne31Field(0),
    {
        let ghost orig = self;
        let mut this = self;
        this.normalize();
        let ghost normalized = this;
        let mut quadratic_terms: Vec<(Mersenne31Field, Variable, Variable)> = Vec::new();
        let mut linear_terms: Vec<(Mersenne31Field, Variable)> = Vec::new();
        let mut constant_term = Mersenne31Field(0);
        let mut constant_used = false;
        let mut i: usize = 0;
        let ghost mut qi: Seq<int> = Seq::empty();
        let ghost mut li: Seq<int> = Seq::empty();
        proof {
            lemma_terms_max_degree_upper(this.terms@);
        }
        while i < this.terms.len()
            invariant
                i <= this.terms@.len(),
                qi.len() == quadratic_terms@.len(),
                li.len() == linear_terms@.len(),
                forall|j: int| 0 <= j < qi.len() ==> 0 <= #[trigger] qi[j] < i && this.terms@[qi[j]].spec_degree() == 2
                    && this.terms@[qi[j]].variables() == seq![quadratic_terms@[j].1, quadratic_terms@[j].2],
                forall|j: int| 0 <= j < li.len() ==> 0 <= #[trigger] li[j] < i && this.terms@[li[j]].spec_degree() == 1
                    && this.terms@[li[j]].variables() == seq![linear_terms@[j].1],
                forall|j: int, m: int|
                    0 <= j < m < quadratic_terms@.len() ==> (#[trigger] quadratic_terms@[j]).1 != (
                    #[trigger] quadratic_terms@[m]).1 || quadratic_terms@[j].2 != quadratic_terms@[m].2,
                forall|j: int, m: int|
                    0 <= j < m < linear_terms@.len() ==> (#[trigger] linear_terms@[j]).1 != (
                    #[trigger] linear_terms@[m]).1,
                !constant_used ==> constant_term == Mersenne31Field(0),
                this.is_normalized(),
                this.spec_degree() <= 2,
                forall|j: int| 0 <= j < this.terms@.len() ==> (#[trigger] this.terms@[j]).spec_degree()
                    <= this.spec_degree(),
                forall|a: spec_fn(Variable) -> int| #[trigger] terms_sum(this.terms@.take(i as int), a)
                    == quadratic_sum(quadratic_terms@, a) + linear_sum(linear_terms@, a) + (
                    if constant_used {
                        constant_term.val()
                    } else {
                        0
                    }),
                constant_used ==> terms_constant_count(this.terms@.take(i as int)) >= 1,
                forall|j: int| 0 <= j < quadratic_terms@.len() ==> (#[trigger] quadratic_terms@[j]).0.val()
                    != 0 && quadratic_terms@[j].1.0 <= quadratic_terms@[j].2.0,
                forall|j: int| 0 <= j < linear_terms@.len() ==> (#[trigger] linear_terms@[j]).0.val()
                    != 0,
                orig.spec_degree() <= 1 ==> this.spec_degree() <= 1 && quadratic_terms@.len() == 0,
                terms_vars_within(this.terms@, orig.terms@),
                forall|j: int| 0 <= j < quadratic_terms@.len() ==> some_term_holds(
                    orig.terms@,
                    (#[trigger] quadratic_terms@[j]).1,
                ) && some_term_holds(orig.terms@, quadratic_terms@[j].2),
                forall|j: int| 0 <= j < linear_terms@.len() ==> some_term_holds(
                    orig.terms@,
                    (#[trigger] linear_terms@[j]).1,
                ),
            decreases this.terms@.len() - i,
        {
            let term = this.terms[i];
            let ghost oq = quadratic_terms@;
            let ghost ol = linear_terms@;
            proof {
                assert(term.is_normalized());
                assert(this.terms@.take(i + 1).drop_last() =~= this.terms@.take(i as int));
                assert(this.terms@.take(i + 1).last() == term);
            }
            match term {
                Term::Expression { coeff, inner, degree } => {
                    if degree == 2 {
                        quadratic_terms.push((coeff, inner[0], inner[1]));
                        proof {
                            assert forall|j: int| 0 <= j < oq.len() implies (#[trigger] oq[j]).1 != inner[0]
                                || oq[j].2 != inner[1] by {
                                assert(!this.terms@[qi[j]].same_monomial(this.terms@[i as int]));
                                if oq[j].1 == inner[0] && oq[j].2 == inner[1] {
                                    assert(this.terms@[qi[j]].variables() =~= term.variables());
                                }
                            }
                            assert forall|j: int, m: int|
                                0 <= j < m < quadratic_terms@.len() implies (#[trigger] quadratic_terms@[j]).1 != (
                                #[trigger] quadratic_terms@[m]).1 || quadratic_terms@[j].2 != quadratic_terms@[m].2 by {
                                assert(quadratic_terms@[j] == oq[j]);
                                if m < oq.len() {
                                    assert(quadratic_terms@[m] == oq[m]);
                                }
                            }
                            qi = qi.push(i as int);
                            assert(term.variables() =~= seq![inner[0], inner[1]]);
                            assert(this.terms@[i as int].variables()[0] == inner[0]);
                            assert(this.terms@[i as int].variables()[1] == inner[1]);
                            assert(some_term_holds(this.terms@, inner[0]));
                            assert(some_term_holds(this.terms@, inner[1]));
                            assert(quadratic_terms@.drop_last() =~= oq);
                            assert forall|a: spec_fn(Variable) -> int| #[trigger] terms_sum(
                                this.terms@.take(i + 1),
                                a,
                            ) == quadratic_sum(quadratic_terms@, a) + linear_sum(linear_terms@, a) + (
                            if constant_used {
                                constant_term.val()
                            } else {
                                0
                            }) by {
                                assert(terms_sum(this.terms@.take(i + 1), a) == terms_sum(
                                    this.terms@.take(i as int),
                                    a,
                                ) + term.value(a));
                                lemma_vars_product_two(inner[0], inner[1], a);
                                assert(coeff.val() * (a(inner[0]) * a(inner[1])) == coeff.val() * a(
                                    inner[0],
                                ) * a(inner[1])) by (nonlinear_arith);
                            }
                        }
                    } else {
                        linear_terms.push((coeff, inner[0]));
                        proof {
                            assert(degree == 1);
                            assert forall|j: int| 0 <= j < ol.len() implies (#[trigger] ol[j]).1 != inner[0] by {
                                assert(!this.terms@[li[j]].same_monomial(this.terms@[i as int]));
                                if ol[j].1 == inner[0] {
                                    assert(this.terms@[li[j]].variables() =~= term.variables());
                                }
                            }
                            assert forall|j: int, m: int|
                                0 <= j < m < linear_terms@.len() implies (#[trigger] linear_terms@[j]).1 != (
                                #[trigger] linear_terms@[m]).1 by {
                                assert(linear_terms@[j] == ol[j]);
                                if m < ol.len() {
                                    assert(linear_terms@[m] == ol[m]);
                                }
                            }
                            li = li.push(i as int);
                            assert(term.variables() =~= seq![inner[0]]);
                            assert(this.terms@[i as int].variables()[0] == inner[0]);
                            assert(some_term_holds(this.terms@, inner[0]));
                            assert(linear_terms@.drop_last() =~= ol);
                            assert forall|a: spec_fn(Variable) -> int| #[trigger] terms_sum(
                                this.terms@.take(i + 1),
                                a,
                            ) == quadratic_sum(quadratic_terms@, a) + linear_sum(linear_terms@, a) + (
                            if constant_used {
                                constant_term.val()
                            } else {
                                0
                            }) by {
                                assert(terms_sum(this.terms@.take(i + 1), a) == terms_sum(
                                    this.terms@.take(i as int),
                                    a,
                                ) + term.value(a));
                                lemma_vars_product_one(inner[0], a);
                            }
                        }
                    }
                },
                Term::Constant(c) => {
                    proof {
                        if constant_used {
                            lemma_terms_constant_count_prefix(this.terms@, i + 1);
                            assert(false);
                        }
                    }
                    constant_term = c;
                    constant_used = true;
                    proof {
                        assert forall|a: spec_fn(Variable) -> int| #[trigger] terms_sum(
                            this.terms@.take(i + 1),
                            a,
                        ) == quadratic_sum(quadratic_terms@, a) + linear_sum(linear_terms@, a)
                            + constant_term.val() by {
                            assert(terms_sum(this.terms@.take(i + 1), a) == terms_sum(
                                this.terms@.take(i as int),
                                a,
                            ) + term.value(a));
                            assert(term.variables() =~= Seq::<Variable>::empty());
                            assert(vars_product(term.variables(), a) == 1);
                        }
                        assert(terms_constant_count(this.terms@.take(i + 1)) >= 1);
                    }
                },
            }
            i = i + 1;
        }
        proof {
            assert(this.terms@.take(i as int) =~= this.terms@);
            if constant_used {
                lemma_terms_constant_count_prefix(this.terms@, i as int);
            }
            assert forall|a: spec_fn(Variable) -> int| #[trigger] orig.value(a) == (quadratic_sum(
                quadratic_terms@,
                a,
            ) + linear_sum(linear_terms@, a) + constant_term.val()) % p() by {
                assert(orig.value(a) == normalized.value(a));
                assert(terms_sum(this.terms@.take(i as int), a) == quadratic_sum(quadratic_terms@, a)
                    + linear_sum(linear_terms@, a) + (if constant_used {
                    constant_term.val()
                } else {
                    0
                }));
            }
        }
        (quadratic_terms, linear_terms, constant_term)
    }
}


/// The product over a concatenation is the product of the products.
pub proof fn lemma_vars_product_concat(s: Seq<Variable>, t: Seq<Variable>, a: spec_fn(Variable) -> int)
    ensures
        vars_product(s + t, a) == vars_product(s, a) * vars_product(t, a),
    decreases t.len(),
{
    if t.len() == 0 {
        assert(s + t =~= s);
    } else {
        assert((s + t).drop_last() =~= s + t.drop_last());
        lemma_vars_product_concat(s, t.drop_last(), a);
        let ps = vars_product(s, a);
        let pt = vars_product(t.drop_last(), a);
        assert(ps * pt * a(t.last()) == ps * (pt * a(t.last()))) by (nonlinear_arith);
    }
}

/// Multiplying by `p - 1` negates modulo `p`.
pub proof fn lemma_mul_minus_one(v: int)
    ensures
        (v * (p() - 1)) % p() == (-v) % p(),
{
    assert(v * (p() - 1) == -v + p() * v) by (nonlinear_arith);
    vstd::arithmetic::div_mod::lemma_mod_multiples_vanish(v, -v, p());
}

/// The term with its coefficient multiplied by minus one.
fn negated(t: Term) -> (r: Term)
    ensures
        r.same_monomial(t),
        r is Constant <==> t is Constant,
        t.wf() ==> r.wf(),
        vars_sorted(t.variables()) ==> vars_sorted(r.variables()),
        r.coefficient().val() == (t.coefficient().val() * (p() - 1)) % p(),
        forall|a: spec_fn(Variable) -> int| #[trigger] r.value(a) % p() == (-t.value(a)) % p(),
{
    let mut r = t;
    let m = Mersenne31Field::minus_one();
    r.scale(&m);
    proof {
        assert forall|a: spec_fn(Variable) -> int| #[trigger] r.value(a) % p() == (-t.value(a)) % p() by {
            lemma_mul_minus_one(t.value(a));
        }
    }
    r
}

impl Term {
    /// The polynomial `self + rhs`, as two terms.
    pub fn add(self, rhs: Term) -> (r: Constraint)
        ensures
            r.terms@ == seq![self, rhs],
            forall|a: spec_fn(Variable) -> int| #[trigger] r.value(a) == (self.value(a) + rhs.value(a))
                % p(),
    {
        let mut terms = Vec::new();
        terms.push(self);
        terms.push(rhs);
        let r = Constraint { terms };
        proof {
            assert(r.terms@ =~= seq![self, rhs]);
            lemma_terms_pair(self, rhs);
        }
        r
    }

    /// The polynomial `self - rhs`, as two terms.
    pub fn sub(self, rhs: Term) -> (r: Constraint)
        ensures
            r.terms@.len() == 2,
            r.terms@[0] == self,
            r.terms@[1].same_monomial(rhs),
            r.terms@[1] is Constant <==> rhs is Constant,
            r.terms@[1].coefficient().val() == (rhs.coefficient().val() * (p() - 1)) % p(),
            self.wf() && rhs.wf() ==> r.wf(),
            self.wf() && rhs.wf() ==> r.spec_degree() == if self.spec_degree() >= rhs.spec_degree() {
                self.spec_degree()
            } else {
                rhs.spec_degree()
            },
            forall|a: spec_fn(Variable) -> int| #[trigger] r.value(a) == (self.value(a) - rhs.value(a))
                % p(),
    {
        let inv_term = negated(rhs);
        let mut terms = Vec::new();
        terms.push(self);
        terms.push(inv_term);
        let r = Constraint { terms };
        proof {
            assert(r.terms@ =~= seq![self, inv_term]);
            lemma_terms_pair(self, inv_term);
            assert forall|a: spec_fn(Variable) -> int| #[trigger] r.value(a) == (self.value(a)
                - rhs.value(a)) % p() by {
                lemma_mod_add_congruent(self.value(a), inv_term.value(a), -rhs.value(a));
            }
        }
        r
    }

    /// The product of two terms, as a polynomial of one term.
    pub fn mul(self, rhs: Term) -> (r: Constraint)
        requires
            self.wf(),
            rhs.wf(),
            self.spec_degree() + rhs.spec_degree() <= 4,
        ensures
            r.terms@.len() == 1,
            r.wf(),
            r.terms@[0].spec_degree() == self.spec_degree() + rhs.spec_degree(),
            r.spec_degree() == self.spec_degree() + rhs.spec_degree(),
            r.terms@[0].variables() == self.variables() + rhs.variables(),
            r.terms@[0].coefficient().val() == (self.coefficient().val() * rhs.coefficient().val())
                % p(),
            r.terms@[0] is Constant <==> (self is Constant && rhs is Constant),
            forall|a: spec_fn(Variable) -> int| #[trigger] r.value(a) == (self.value(a) * rhs.value(a))
                % p(),
    {
        let c = self.get_coef().mul(&rhs.get_coef());
        let t = match (self, rhs) {
            (
                Term::Expression { inner, degree, .. },
                Term::Expression { inner: inner2, degree: degree2, .. },
            ) => {
                let mut res_inner = inner;
                let mut i: usize = 0;
                while i < degree2
                    invariant
                        i <= degree2,
                        degree + degree2 <= 4,
                        forall|j: int| 0 <= j < degree ==> res_inner[j] == inner[j],
                        forall|j: int| 0 <= j < i ==> res_inner[degree + j] == inner2[j],
                        forall|j: int| degree + i <= j < 4 ==> res_inner[j] == inner[j],
                    decreases degree2 - i,
                {
                    res_inner[degree + i] = inner2[i];
                    i = i + 1;
                }
                let t = Term::Expression { coeff: c, inner: res_inner, degree: degree + degree2 };
                proof {
                    assert(t.variables() =~= self.variables() + rhs.variables());
                }
                t
            },
            (Term::Expression { inner, degree, .. }, Term::Constant(_)) => {
                let t = Term::Expression { coeff: c, inner, degree };
                proof {
                    assert(t.variables() =~= self.variables() + rhs.variables());
                }
                t
            },
            (Term::Constant(_), Term::Expression { inner: inner2, degree: degree2, .. }) => {
                let t = Term::Expression { coeff: c, inner: inner2, degree: degree2 };
                proof {
                    assert(t.variables() =~= self.variables() + rhs.variables());
                }
                t
            },
            (Term::Constant(_), Term::Constant(_)) => {
                let t = Term::Constant(c);
                proof {
                    assert(t.variables() =~= self.variables() + rhs.variables());
                }
                t
            },
        };
        let r = Constraint::from_term(t);
        proof {
            assert forall|a: spec_fn(Variable) -> int| #[trigger] r.value(a) == (self.value(a)
                * rhs.value(a)) % p() by {
                let p1 = vars_product(self.variables(), a);
                let p2 = vars_product(rhs.variables(), a);
                lemma_vars_product_concat(self.variables(), rhs.variables(), a);
                let c1 = self.coefficient().val();
                let c2 = rhs.coefficient().val();
                lemma_mod_mul_assoc(c1, c2, p1 * p2);
                assert(c1 * (c2 * (p1 * p2)) == (c1 * p1) * (c2 * p2)) by (nonlinear_arith);
            }
        }
        r
    }

    /// The product of a term and a polynomial, in normal form.
    pub fn mul_constraint(self, rhs: Constraint) -> (r: Constraint)
        requires
            self.wf(),
            rhs.wf(),
            self.spec_degree() + rhs.spec_degree() <= 2,
        ensures
            r.is_normalized(),
            r.spec_degree() <= 2,
            forall|a: spec_fn(Variable) -> int| #[trigger] r.value(a) == (self.value(a) * rhs.value(a))
                % p(),
    {
        let ghost rt = rhs.terms@;
        let r = rhs.mul_term(self);
        proof {
            assert forall|a: spec_fn(Variable) -> int| #[trigger] r.value(a) == (self.value(a)
                * rhs.value(a)) % p() by {
                let q = terms_sum(rt, a);
                assert(q * self.value(a) == self.value(a) * q) by (nonlinear_arith);
                vstd::arithmetic::div_mod::lemma_mul_mod_noop_right(self.value(a), q, p());
            }
        }
        r
    }
}

impl Constraint {
    /// The sum of two polynomials, in normal form.
    pub fn add(self, rhs: Self) -> (r: Self)
        requires
            self.wf(),
            rhs.wf(),
            self.spec_degree() <= 2 || high_degree_cancels(self.terms@),
            rhs.spec_degree() <= 2 || high_degree_cancels(rhs.terms@),
        ensures
            r.is_normalized(),
            r.spec_degree() <= 2,
            forall|a: spec_fn(Variable) -> int| #[trigger] r.value(a) == (self.value(a) + rhs.value(a))
                % p(),
            forall|w: Variable| #[trigger] some_term_holds(r.terms@, w) ==> some_term_holds(self.terms@, w)
                || some_term_holds(rhs.terms@, w),
    {
        let mut ans = self;
        let ghost s0 = ans.terms@;
        let ghost r0 = rhs.terms@;
        let mut rhs_terms = rhs.terms;
        ans.terms.append(&mut rhs_terms);
        proof {
            assert(ans.terms@ == s0 + r0);
            assert forall|i: int| 0 <= i < ans.terms@.len() implies (#[trigger] ans.terms@[i]).wf() by {
                if i < s0.len() {
                    assert(ans.terms@[i] == s0[i]);
                } else {
                    assert(ans.terms@[i] == r0[i - s0.len()]);
                }
            }
            lemma_high_degree_cancels_append(s0, r0);
        }
        let ghost mid = ans;
        ans.normalize();
        proof {
            assert forall|a: spec_fn(Variable) -> int| #[trigger] ans.value(a) == (self.value(a)
                + rhs.value(a)) % p() by {
                assert(mid.value(a) == ans.value(a));
                lemma_terms_sum_append(s0, r0, a);
                vstd::arithmetic::div_mod::lemma_add_mod_noop(terms_sum(s0, a), terms_sum(r0, a), p());
            }
        }
        proof {
            assert forall|w: Variable| #[trigger] some_term_holds(ans.terms@, w) implies some_term_holds(s0, w)
                || some_term_holds(r0, w) by {
                assert(some_term_holds(mid.terms@, w));
                let k = choose|k: int| 0 <= k < mid.terms@.len() && (#[trigger] mid.terms@[k]).variables().contains(w);
                if k < s0.len() {
                    assert(mid.terms@[k] == s0[k]);
                } else {
                    assert(mid.terms@[k] == r0[k - s0.len()]);
                }
            }
        }
        ans
    }

    /// `self += rhs`, in normal form.
    pub fn add_assign(&mut self, rhs: Constraint)
        requires
            old(self).wf(),
            rhs.wf(),
            old(self).spec_degree() <= 2,
            rhs.spec_degree() <= 2,
        ensures
            final(self).is_normalized(),
            final(self).spec_degree() <= 2,
            forall|a: spec_fn(Variable) -> int| #[trigger] final(self).value(a) == (old(self).value(a)
                + rhs.value(a)) % p(),
    {
        let mut this = Constraint::empty();
        core::mem::swap(&mut this, self);
        *self = this.add(rhs);
    }

    /// The difference of two polynomials, in normal form.
    pub fn sub(self, rhs: Self) -> (r: Self)
        requires
            self.wf(),
            rhs.wf(),
            self.spec_degree() <= 2,
            rhs.spec_degree() <= 2,
        ensures
            r.is_normalized(),
            r.spec_degree() <= 2,
            forall|a: spec_fn(Variable) -> int| #[trigger] r.value(a) == (self.value(a) - rhs.value(a))
                % p(),
    {
        let ghost r0 = rhs;
        let mut neg = rhs;
        neg.scale(Mersenne31Field::minus_one());
        let ghost n0 = neg;
        let ghost s0 = self;
        let r = self.add(neg);
        proof {
            assert forall|a: spec_fn(Variable) -> int| #[trigger] r.value(a) == (s0.value(a)
                - r0.value(a)) % p() by {
                let x = terms_sum(s0.terms@, a);
                let y = terms_sum(r0.terms@, a);
                // neg.value == (y % p * (p - 1)) % p == (-y) % p
                lemma_mul_mod_left(y, p() - 1);
                lemma_mul_minus_one(y);
                assert(n0.value(a) == (-y) % p());
                vstd::arithmetic::div_mod::lemma_add_mod_noop(x, -y, p());
                vstd::arithmetic::div_mod::lemma_mod_twice(x, p());
                vstd::arithmetic::div_mod::lemma_mod_twice(-y, p());
            }
        }
        r
    }

    /// `self -= rhs`, in normal form.
    pub fn sub_assign(&mut self, rhs: Constraint)
        requires
            old(self).wf(),
            rhs.wf(),
            old(self).spec_degree() <= 2,
            rhs.spec_degree() <= 2,
        ensures
            final(self).is_normalized(),
            final(self).spec_degree() <= 2,
            forall|a: spec_fn(Variable) -> int| #[trigger] final(self).value(a) == (old(self).value(a)
                - rhs.value(a)) % p(),
    {
        let mut this = Constraint::empty();
        core::mem::swap(&mut this, self);
        *self = this.sub(rhs);
    }

    /// Appends a term without normalizing.
    pub fn add_term(self, rhs: Term) -> (r: Self)
        ensures
            r.terms@ == self.terms@.push(rhs),
            forall|a: spec_fn(Variable) -> int| #[trigger] r.value(a) == (terms_sum(self.terms@, a)
                + rhs.value(a)) % p(),
    {
        let ghost s0 = self.terms@;
        let mut ans = self;
        ans.terms.push(rhs);
        proof {
            assert(ans.terms@.drop_last() =~= s0);
        }
        ans
    }

    /// Appends a term without normalizing.
    pub fn add_assign_term(&mut self, rhs: Term)
        ensures
            final(self).terms@ == old(self).terms@.push(rhs),
    {
        self.terms.push(rhs);
    }

    /// Appends the negated term without normalizing.
    pub fn sub_term(self, rhs: Term) -> (r: Self)
        ensures
            r.terms@.len() == self.terms@.len() + 1,
            r.terms@.drop_last() == self.terms@,
            r.terms@.last().same_monomial(rhs),
            r.terms@.last() is Constant <==> rhs is Constant,
            r.terms@.last().coefficient().val() == (rhs.coefficient().val() * (p() - 1)) % p(),
            forall|a: spec_fn(Variable) -> int| #[trigger] r.value(a) == (terms_sum(self.terms@, a)
                - rhs.value(a)) % p(),
    {
        let ghost s0 = self.terms@;
        let mut ans = self;
        let t = negated(rhs);
        ans.terms.push(t);
        proof {
            assert(ans.terms@.drop_last() =~= s0);
            assert forall|a: spec_fn(Variable) -> int| #[trigger] ans.value(a) == (terms_sum(s0, a)
                - rhs.value(a)) % p() by {
                lemma_mod_add_congruent(terms_sum(s0, a), t.value(a), -rhs.value(a));
            }
        }
        ans
    }

    /// Appends the negated term without normalizing.
    pub fn sub_assign_term(&mut self, rhs: Term)
        ensures
            final(self).terms@.len() == old(self).terms@.len() + 1,
            final(self).terms@.drop_last() == old(self).terms@,
            final(self).terms@.last().same_monomial(rhs),
            final(self).terms@.last().coefficient().val() == (rhs.coefficient().val() * (p() - 1))
                % p(),
    {
        let t = negated(rhs);
        self.terms.push(t);
        proof {
            assert(self.terms@.drop_last() =~= old(self).terms@);
        }
    }

    /// The product of a polynomial and a term, in normal form.
    pub fn mul_term(self, rhs: Term) -> (r: Self)
        requires
            self.wf(),
            rhs.wf(),
            self.spec_degree() + rhs.spec_degree() <= 2,
        ensures
            r.is_normalized(),
            r.spec_degree() <= 2,
            forall|a: spec_fn(Variable) -> int| #[trigger] r.value(a) == (terms_sum(self.terms@, a)
                * rhs.value(a)) % p(),
            forall|w: Variable| #[trigger] some_term_holds(r.terms@, w) ==> some_term_holds(self.terms@, w)
                || rhs.variables().contains(w),
    {
        let mut ans = Constraint::empty();
        let mut i: usize = 0;
        proof {
            lemma_terms_max_degree_upper(self.terms@);
        }
        while i < self.terms.len()
            invariant
                i <= self.terms@.len(),
                self.wf(),
                rhs.wf(),
                self.spec_degree() + rhs.spec_degree() <= 2,
                forall|j: int| 0 <= j < self.terms@.len() ==> (#[trigger] self.terms@[j]).spec_degree()
                    <= self.spec_degree(),
                ans.wf(),
                ans.spec_degree() <= 2,
                forall|a: spec_fn(Variable) -> int| #[trigger] ans.value(a) == (terms_sum(
                    self.terms@.take(i as int),
                    a,
                ) * rhs.value(a)) % p(),
                forall|w: Variable| #[trigger] some_term_holds(ans.terms@, w) ==> some_term_holds(self.terms@, w)
                    || rhs.variables().contains(w),
            decreases self.terms@.len() - i,
        {
            let existing = self.terms[i];
            assert(existing.wf());
            let intermediate = existing.mul(rhs);
            let ghost prev = ans;
            ans = ans.add(intermediate);
            proof {
                assert forall|w: Variable| #[trigger] some_term_holds(ans.terms@, w) implies some_term_holds(
                    self.terms@,
                    w,
                ) || rhs.variables().contains(w) by {
                    if some_term_holds(intermediate.terms@, w) {
                        let k = choose|k: int| 0 <= k < intermediate.terms@.len() && (#[trigger] intermediate.terms@[k]).variables().contains(w);
                        assert(k == 0);
                        let vs = existing.variables() + rhs.variables();
                        let m = choose|m: int| 0 <= m < vs.len() && vs[m] == w;
                        if m < existing.variables().len() {
                            assert(existing.variables()[m] == w);
                            assert(self.terms@[i as int].variables().contains(w));
                        } else {
                            assert(rhs.variables()[m - existing.variables().len()] == w);
                        }
                    }
                }
                assert forall|j: int| 0 <= j < ans.terms@.len() implies (#[trigger] ans.terms@[j]).wf() by {
                    assert(ans.terms@[j].is_normalized());
                }
                assert forall|a: spec_fn(Variable) -> int| #[trigger] ans.value(a) == (terms_sum(
                    self.terms@.take(i + 1),
                    a,
                ) * rhs.value(a)) % p() by {
                    lemma_terms_sum_take_step(self.terms@, i as int, a);
                    let s = terms_sum(self.terms@.take(i as int), a);
                    let v = rhs.value(a);
                    let e = existing.value(a);
                    vstd::arithmetic::div_mod::lemma_mod_twice(s * v, p());
                    vstd::arithmetic::div_mod::lemma_mod_twice(e * v, p());
                    lemma_mod_add_both(prev.value(a), s * v, intermediate.value(a), e * v);
                    assert((s + e) * v == s * v + e * v) by (nonlinear_arith);
                }
            }
            i = i + 1;
        }
        proof {
            assert(self.terms@.take(i as int) =~= self.terms@);
        }
        let ghost before = ans;
        ans.normalize();
        proof {
            assert forall|w: Variable| #[trigger] some_term_holds(ans.terms@, w) implies some_term_holds(
                self.terms@,
                w,
            ) || rhs.variables().contains(w) by {
                assert(some_term_holds(before.terms@, w));
            }
        }
        ans
    }

    /// The product of two polynomials, in normal form.
    pub fn mul(self, rhs: Self) -> (r: Self)
        requires
            self.wf(),
            rhs.wf(),
            self.spec_degree() + rhs.spec_degree() <= 2,
        ensures
            r.is_normalized(),
            r.spec_degree() <= 2,
            forall|a: spec_fn(Variable) -> int| #[trigger] r.value(a) == (self.value(a) * rhs.value(a))
                % p(),
    {
        let mut ans = Constraint::empty();
        let mut i: usize = 0;
        proof {
            lemma_terms_max_degree_upper(self.terms@);
        }
        while i < self.terms.len()
            invariant
                i <= self.terms@.len(),
                self.wf(),
                rhs.wf(),
                self.spec_degree() + rhs.spec_degree() <= 2,
                forall|j: int| 0 <= j < self.terms@.len() ==> (#[trigger] self.terms@[j]).spec_degree()
                    <= self.spec_degree(),
                ans.wf(),
                ans.spec_degree() <= 2,
                forall|a: spec_fn(Variable) -> int| #[trigger] ans.value(a) == (terms_sum(
                    self.terms@.take(i as int),
                    a,
                ) * terms_sum(rhs.terms@, a)) % p(),
            decreases self.terms@.len() - i,
        {
            let term = self.terms[i];
            assert(term.wf());
            let product = term.mul_constraint(rhs.clone());
            let ghost prev = ans;
            ans = ans.add(product);
            proof {
                assert forall|j: int| 0 <= j < ans.terms@.len() implies (#[trigger] ans.terms@[j]).wf() by {
                    assert(ans.terms@[j].is_normalized());
                }
                assert forall|a: spec_fn(Variable) -> int| #[trigger] ans.value(a) == (terms_sum(
                    self.terms@.take(i + 1),
                    a,
                ) * terms_sum(rhs.terms@, a)) % p() by {
                    lemma_terms_sum_take_step(self.terms@, i as int, a);
                    let s = terms_sum(self.terms@.take(i as int), a);
                    let q = terms_sum(rhs.terms@, a);
                    let e = term.value(a);
                    vstd::arithmetic::div_mod::lemma_mul_mod_noop_right(e, q, p());
                    vstd::arithmetic::div_mod::lemma_mod_twice(s * q, p());
                    vstd::arithmetic::div_mod::lemma_mod_twice(e * q, p());
                    lemma_mod_add_both(prev.value(a), s * q, product.value(a), e * q);
                    assert((s + e) * q == s * q + e * q) by (nonlinear_arith);
                }
            }
            i = i + 1;
        }
        proof {
            assert(self.terms@.take(i as int) =~= self.terms@);
            assert forall|a: spec_fn(Variable) -> int| #[trigger] ans.value(a) == (self.value(a)
                * rhs.value(a)) % p() by {
                let s = terms_sum(self.terms@, a);
                let q = terms_sum(rhs.terms@, a);
                vstd::arithmetic::div_mod::lemma_mul_mod_noop(s, q, p());
            }
        }
        ans.normalize();
        ans
    }
}


/// The assignment `a` with `v` given the value `x`.
pub open spec fn assign_var(a: spec_fn(Variable) -> int, v: Variable, x: int) -> spec_fn(Variable) -> int {
    |w: Variable| if w == v {
        x
    } else {
        a(w)
    }
}

/// The sum of the values of polynomials (not reduced).
pub open spec fn constraints_sum(cs: Seq<Constraint>, a: spec_fn(Variable) -> int) -> int
    decreases cs.len(),
{
    if cs.len() == 0 {
        0
    } else {
        constraints_sum(cs.drop_last(), a) + cs.last().value(a)
    }
}

/// What `substitute_variable` needs of a polynomial, a variable and the
/// expression put in its place: every term holds the variable at most once;
/// a term that holds it has degree one, or degree two with another variable
/// that is not the placeholder; the result stays of degree at most two.
pub open spec fn substitution_allowed(c: Constraint, v: Variable, e: Constraint) -> bool {
    &&& c.wf()
    &&& e.wf()
    &&& c.spec_degree() <= 2
    &&& e.spec_degree() <= 2
    &&& terms_contain_var(c.terms@, v)
    &&& terms_max_var_degree(c.terms@, v) == 1
    &&& forall|i: int|
        0 <= i < c.terms@.len() && (#[trigger] c.terms@[i]).variables().contains(v) ==> {
            ||| c.terms@[i].spec_degree() == 1
            ||| (c.terms@[i].spec_degree() == 2 && e.spec_degree() <= 1 && forall|j: int|
                0 <= j < 2 && c.terms@[i].variables()[j] != v ==> !c.terms@[i].variables()[j].spec_is_placeholder())
        }
}

/// A term's count of a variable is at most the largest count.
pub proof fn lemma_terms_max_var_degree_upper(s: Seq<Term>, v: Variable)
    ensures
        forall|i: int| 0 <= i < s.len() ==> vars_count((#[trigger] s[i]).variables(), v)
            <= terms_max_var_degree(s, v),
    decreases s.len(),
{
    if s.len() > 0 {
        lemma_terms_max_var_degree_upper(s.drop_last(), v);
        assert forall|i: int| 0 <= i < s.len() implies vars_count((#[trigger] s[i]).variables(), v)
            <= terms_max_var_degree(s, v) by {
            if i < s.len() - 1 {
                assert(s[i] == s.drop_last()[i]);
            }
        }
    }
}

/// A variable that occurs is counted.
pub proof fn lemma_vars_count_contains(s: Seq<Variable>, v: Variable)
    ensures
        s.contains(v) <==> vars_count(s, v) >= 1,
    decreases s.len(),
{
    if s.len() > 0 {
        lemma_vars_count_contains(s.drop_last(), v);
        if s.contains(v) && s.last() != v {
            let i = choose|i: int| 0 <= i < s.len() && s[i] == v;
            assert(s.drop_last()[i] == v);
        }
        if s.drop_last().contains(v) {
            let i = choose|i: int| 0 <= i < s.drop_last().len() && s.drop_last()[i] == v;
            assert(s[i] == v);
        }
        if s.last() == v {
            assert(s[s.len() - 1] == v);
        }
    }
}

/// A term without the variable has the same value when the variable is
/// reassigned.
pub proof fn lemma_term_value_assign_absent(t: Term, a: spec_fn(Variable) -> int, v: Variable, x: int)
    requires
        !t.variables().contains(v),
    ensures
        t.value(assign_var(a, v, x)) == t.value(a),
{
    lemma_vars_product_update_absent(t.variables(), a, v, x);
    assert(assign_var(a, v, x) == (|w: Variable| if w == v {
        x
    } else {
        a(w)
    }));
}

impl Constraint {
    /// The polynomial with `variable` replaced by `expression`, in normal
    /// form: its value under any assignment is the value of `self` under the
    /// same assignment with `variable` given the value of `expression`.
    pub fn substitute_variable(&self, variable: Variable, expression: Constraint) -> (r: Self)
        requires
            substitution_allowed(*self, variable, expression),
        ensures
            r.is_normalized(),
            r.spec_degree() <= 2,
            forall|a: spec_fn(Variable) -> int| #[trigger] r.value(a) == self.value(
                assign_var(a, variable, expression.value(a)),
            ),
            terms_contain_var(r.terms@, variable) ==> terms_contain_var(expression.terms@, variable),
    {
        let ghost e = expression;
        let ghost ts = self.terms@;
        proof {
            lemma_terms_max_degree_upper(ts);
            lemma_terms_max_var_degree_upper(ts, variable);
        }
        let mut extra_constraints_to_add: Vec<Constraint> = Vec::new();
        let mut new_terms: Vec<Term> = Vec::new();
        let mut i: usize = 0;
        while i < self.terms.len()
            invariant
                i <= ts.len(),
                ts == self.terms@,
                e == expression,
                substitution_allowed(*self, variable, expression),
                forall|j: int| 0 <= j < ts.len() ==> (#[trigger] ts[j]).spec_degree() <= 2,
                forall|j: int| 0 <= j < ts.len() ==> vars_count((#[trigger] ts[j]).variables(), variable)
                    <= 1,
                forall|j: int| 0 <= j < new_terms@.len() ==> (#[trigger] new_terms@[j]).wf()
                    && new_terms@[j].spec_degree() <= 2,
                forall|j: int| 0 <= j < extra_constraints_to_add@.len() ==> (
                #[trigger] extra_constraints_to_add@[j]).wf()
                    && extra_constraints_to_add@[j].spec_degree() <= 2,
                forall|a: spec_fn(Variable) -> int| #[trigger] (terms_sum(new_terms@, a)
                    + constraints_sum(extra_constraints_to_add@, a)) % p() == terms_sum(
                    ts.take(i as int),
                    assign_var(a, variable, e.value(a)),
                ) % p(),
                forall|j: int| 0 <= j < new_terms@.len() ==> !(#[trigger] new_terms@[j]).variables().contains(variable),
                forall|j: int| 0 <= j < extra_constraints_to_add@.len() && some_term_holds(
                    (#[trigger] extra_constraints_to_add@[j]).terms@,
                    variable,
                ) ==> some_term_holds(e.terms@, variable),
            decreases ts.len() - i,
        {
            let term = self.terms[i];
            let ghost old_new = new_terms@;
            let ghost old_extra = extra_constraints_to_add@;
            proof {
                assert(term.wf());
                assert(ts.take(i + 1).drop_last() =~= ts.take(i as int));
                assert(ts.take(i + 1).last() == term);
            }
            if term.contains_var(&variable) {
                match term {
                    Term::Expression { coeff, inner, degree } => {
                        if degree == 1 {
                            let mut expr = expression.clone();
                            expr.scale(coeff);
                            extra_constraints_to_add.push(expr);
                            proof {
                                if some_term_holds(expr.terms@, variable) {
                                    let m = choose|m: int| 0 <= m < expr.terms@.len() && (#[trigger] expr.terms@[m]).variables().contains(variable);
                                    assert(expr.terms@[m].same_monomial(e.terms@[m]));
                                    assert(e.terms@[m].variables().contains(variable));
                                }
                                assert forall|j: int| 0 <= j < extra_constraints_to_add@.len() && some_term_holds(
                                    (#[trigger] extra_constraints_to_add@[j]).terms@,
                                    variable,
                                ) implies some_term_holds(e.terms@, variable) by {
                                    if j < old_extra.len() {
                                        assert(extra_constraints_to_add@[j] == old_extra[j]);
                                    }
                                }
                                assert(term.variables() =~= seq![inner[0]]);
                                assert(term.variables().contains(variable));
                                assert(inner[0] == variable);
                                assert(extra_constraints_to_add@.drop_last() =~= old_extra);
                                assert forall|a: spec_fn(Variable) -> int| #[trigger] (terms_sum(
                                    new_terms@,
                                    a,
                                ) + constraints_sum(extra_constraints_to_add@, a)) % p() == terms_sum(
                                    ts.take(i + 1),
                                    assign_var(a, variable, e.value(a)),
                                ) % p() by {
                                    let b = assign_var(a, variable, e.value(a));
                                    lemma_vars_product_one(inner[0], b);
                                    assert(term.value(b) == coeff.val() * e.value(a));
                                    assert(expr.value(a) == (e.value(a) * coeff.val()) % p());
                                    assert(e.value(a) * coeff.val() == coeff.val() * e.value(a))
                                        by (nonlinear_arith);
                                    lemma_mod_add_congruent(
                                        terms_sum(old_new, a) + constraints_sum(old_extra, a),
                                        expr.value(a),
                                        term.value(b),
                                    );
                                    vstd::arithmetic::div_mod::lemma_mod_twice(term.value(b), p());
                                    lemma_mod_add_both(
                                        terms_sum(old_new, a) + constraints_sum(old_extra, a),
                                        terms_sum(ts.take(i as int), b),
                                        term.value(b),
                                        term.value(b),
                                    );
                                }
                            }
                        } else {
                            proof {
                                assert(degree == 2);
                                assert(term.variables() =~= seq![inner[0], inner[1]]);
                                lemma_vars_count_contains(term.variables(), variable);
                                reveal_with_fuel(vars_count, 3);
                                assert(seq![inner[0], inner[1]].drop_last() =~= seq![inner[0]]);
                                assert(seq![inner[0]].drop_last() =~= Seq::<Variable>::empty());
                            }
                            let other_var = if inner[0] == variable {
                                inner[1]
                            } else {
                                inner[0]
                            };
                            proof {
                                assert(other_var != variable);
                                assert(term.variables()[0] == inner[0]);
                                assert(term.variables()[1] == inner[1]);
                                assert(!other_var.spec_is_placeholder());
                            }
                            let t = Term::from_coeff_and_variable(coeff, other_var);
                            let expr = expression.clone();
                            let prod = expr.mul_term(t);
                            extra_constraints_to_add.push(prod);
                            proof {
                                assert(!t.variables().contains(variable)) by {
                                    assert(t.variables() == seq![other_var]);
                                    if t.variables().contains(variable) {
                                        let m = choose|m: int| 0 <= m < t.variables().len() && t.variables()[m] == variable;
                                    }
                                }
                                assert forall|j: int| 0 <= j < extra_constraints_to_add@.len() && some_term_holds(
                                    (#[trigger] extra_constraints_to_add@[j]).terms@,
                                    variable,
                                ) implies some_term_holds(e.terms@, variable) by {
                                    if j < old_extra.len() {
                                        assert(extra_constraints_to_add@[j] == old_extra[j]);
                                    }
                                }
                                assert(extra_constraints_to_add@.drop_last() =~= old_extra);
                                assert forall|a: spec_fn(Variable) -> int| #[trigger] (terms_sum(
                                    new_terms@,
                                    a,
                                ) + constraints_sum(extra_constraints_to_add@, a)) % p() == terms_sum(
                                    ts.take(i + 1),
                                    assign_var(a, variable, e.value(a)),
                                ) % p() by {
                                    let b = assign_var(a, variable, e.value(a));
                                    lemma_vars_product_two(inner[0], inner[1], b);
                                    let q = terms_sum(e.terms@, a);
                                    let ao = a(other_var);
                                    assert(b(other_var) == ao);
                                    assert(b(variable) == q % p());
                                    assert(term.value(b) == coeff.val() * (q % p() * ao) || term.value(b)
                                        == coeff.val() * (ao * (q % p())));
                                    assert(coeff.val() * (ao * (q % p())) == coeff.val() * (q % p() * ao))
                                        by (nonlinear_arith);
                                    assert(prod.value(a) == (q * (coeff.val() * ao)) % p());
                                    lemma_mul_mod_left(q, coeff.val() * ao);
                                    assert(q % p() * (coeff.val() * ao) == coeff.val() * (q % p() * ao))
                                        by (nonlinear_arith);
                                    lemma_mod_add_congruent(
                                        terms_sum(old_new, a) + constraints_sum(old_extra, a),
                                        prod.value(a),
                                        term.value(b),
                                    );
                                    vstd::arithmetic::div_mod::lemma_mod_twice(
                                        (q * (coeff.val() * ao)),
                                        p(),
                                    );
                                    lemma_mod_add_both(
                                        terms_sum(old_new, a) + constraints_sum(old_extra, a),
                                        terms_sum(ts.take(i as int), b),
                                        term.value(b),
                                        term.value(b),
                                    );
                                }
                            }
                        }
                    },
                    Term::Constant(_) => {
                        proof {
                            assert(term.variables() =~= Seq::<Variable>::empty());
                        }
                    },
                }
            } else {
                new_terms.push(term);
                proof {
                    assert forall|j: int| 0 <= j < new_terms@.len() implies !(#[trigger] new_terms@[j]).variables().contains(variable) by {
                        if j < old_new.len() {
                            assert(new_terms@[j] == old_new[j]);
                        }
                    }
                    assert(new_terms@.drop_last() =~= old_new);
                    assert forall|a: spec_fn(Variable) -> int| #[trigger] (terms_sum(new_terms@, a)
                        + constraints_sum(extra_constraints_to_add@, a)) % p() == terms_sum(
                        ts.take(i + 1),
                        assign_var(a, variable, e.value(a)),
                    ) % p() by {
                        let b = assign_var(a, variable, e.value(a));
                        lemma_term_value_assign_absent(term, a, variable, e.value(a));
                        lemma_mod_add_both(
                            terms_sum(old_new, a) + constraints_sum(old_extra, a),
                            terms_sum(ts.take(i as int), b),
                            term.value(a),
                            term.value(b),
                        );
                    }
                }
            }
            i = i + 1;
        }
        let mut new = Constraint { terms: new_terms };
        let ghost nt = new.terms@;
        proof {
            lemma_terms_max_degree_bound(nt, 2);
        }
        let mut k: usize = 0;
        while k < extra_constraints_to_add.len()
            invariant
                k <= extra_constraints_to_add@.len(),
                forall|j: int| 0 <= j < extra_constraints_to_add@.len() ==> (
                #[trigger] extra_constraints_to_add@[j]).wf()
                    && extra_constraints_to_add@[j].spec_degree() <= 2,
                new.wf(),
                new.spec_degree() <= 2,
                forall|a: spec_fn(Variable) -> int| #[trigger] new.value(a) == (terms_sum(nt, a)
                    + constraints_sum(extra_constraints_to_add@.take(k as int), a)) % p(),
                some_term_holds(new.terms@, variable) ==> some_term_holds(e.terms@, variable),
                forall|j: int| 0 <= j < extra_constraints_to_add@.len() && some_term_holds(
                    (#[trigger] extra_constraints_to_add@[j]).terms@,
                    variable,
                ) ==> some_term_holds(e.terms@, variable),
            decreases extra_constraints_to_add@.len() - k,
        {
            let el = extra_constraints_to_add[k].clone();
            let ghost prev = new;
            proof {
                assert(extra_constraints_to_add@[k as int].wf());
                assert(el.terms@ == extra_constraints_to_add@[k as int].terms@);
            }
            new = new.add(el);
            proof {
                assert forall|j: int| 0 <= j < new.terms@.len() implies (#[trigger] new.terms@[j]).wf() by {
                    assert(new.terms@[j].is_normalized());
                }
                let ex = extra_constraints_to_add@;
                assert(ex.take(k + 1).drop_last() =~= ex.take(k as int));
                assert(ex.take(k + 1).last() == ex[k as int]);
                assert forall|a: spec_fn(Variable) -> int| #[trigger] new.value(a) == (terms_sum(nt, a)
                    + constraints_sum(ex.take(k + 1), a)) % p() by {
                    assert(el.value(a) == ex[k as int].value(a));
                    let base = terms_sum(nt, a) + constraints_sum(ex.take(k as int), a);
                    vstd::arithmetic::div_mod::lemma_add_mod_noop(base, el.value(a), p());
                    vstd::arithmetic::div_mod::lemma_mod_twice(el.value(a), p());
                    vstd::arithmetic::div_mod::lemma_add_mod_noop(prev.value(a), el.value(a), p());
                    vstd::arithmetic::div_mod::lemma_mod_twice(base, p());
                }
            }
            k = k + 1;
        }
        proof {
            assert(extra_constraints_to_add@.take(k as int) =~= extra_constraints_to_add@);
            assert(ts.take(ts.len() as int) =~= ts);
        }
        proof {
            if some_term_holds(nt, variable) {
                let m = choose|m: int| 0 <= m < nt.len() && (#[trigger] nt[m]).variables().contains(variable);
            }
        }
        let ghost before_norm = new;
        new.normalize();
        proof {
            if some_term_holds(new.terms@, variable) {
                assert(some_term_holds(before_norm.terms@, variable));
            }
            assert forall|a: spec_fn(Variable) -> int| #[trigger] new.value(a) == self.value(
                assign_var(a, variable, expression.value(a)),
            ) by {
                assert(new.value(a) == before_norm.value(a));
            }
        }
        new
    }
}


/// The terms that do not hold the variable, in order.
pub open spec fn terms_without_var(ts: Seq<Term>, v: Variable) -> Seq<Term>
    decreases ts.len(),
{
    if ts.len() == 0 {
        Seq::empty()
    } else if ts.last().variables().contains(v) {
        terms_without_var(ts.drop_last(), v)
    } else {
        terms_without_var(ts.drop_last(), v).push(ts.last())
    }
}

/// The terms that hold the variable, in order.
pub open spec fn terms_with_var(ts: Seq<Term>, v: Variable) -> Seq<Term>
    decreases ts.len(),
{
    if ts.len() == 0 {
        Seq::empty()
    } else if ts.last().variables().contains(v) {
        terms_with_var(ts.drop_last(), v).push(ts.last())
    } else {
        terms_with_var(ts.drop_last(), v)
    }
}

/// The coefficient of the last term that holds the variable.
pub open spec fn last_prefactor(ts: Seq<Term>, v: Variable) -> Mersenne31Field
    decreases ts.len(),
{
    if ts.len() == 0 {
        Mersenne31Field(0)
    } else if ts.last().variables().contains(v) {
        ts.last().coefficient()
    } else {
        last_prefactor(ts.drop_last(), v)
    }
}

/// A polynomial is the sum of its terms with and without a variable.
pub proof fn lemma_terms_sum_split_var(ts: Seq<Term>, v: Variable, a: spec_fn(Variable) -> int)
    ensures
        terms_sum(ts, a) == terms_sum(terms_without_var(ts, v), a) + terms_sum(
            terms_with_var(ts, v),
            a,
        ),
    decreases ts.len(),
{
    if ts.len() > 0 {
        lemma_terms_sum_split_var(ts.drop_last(), v, a);
        if ts.last().variables().contains(v) {
            assert(terms_with_var(ts, v).drop_last() =~= terms_with_var(ts.drop_last(), v));
        } else {
            assert(terms_without_var(ts, v).drop_last() =~= terms_without_var(ts.drop_last(), v));
        }
    }
}

impl Constraint {
    /// Solves for a variable: the polynomial `-(rest) / k`, in normal form,
    /// where `k` is the coefficient of the (last) term holding the variable
    /// and `rest` is the sum of the terms that do not hold it.
    pub fn express_variable(&self, variable: Variable) -> (r: Self)
        requires
            self.wf(),
            self.spec_degree() <= 2,
            terms_contain_var(self.terms@, variable),
            terms_max_var_degree(self.terms@, variable) == 1,
            last_prefactor(self.terms@, variable).val() != 0,
        ensures
            r.is_normalized(),
            forall|a: spec_fn(Variable) -> int| #[trigger] r.value(a) == (terms_sum(
                terms_without_var(self.terms@, variable),
                a,
            ) * (-inverse_value(last_prefactor(self.terms@, variable).val()))) % p(),
    {
        let ghost ts = self.terms@;
        proof {
            lemma_terms_max_degree_upper(ts);
        }
        let mut new_terms: Vec<Term> = Vec::new();
        let mut prefactor = Mersenne31Field(0);
        let mut i: usize = 0;
        while i < self.terms.len()
            invariant
                i <= ts.len(),
                ts == self.terms@,
                self.wf(),
                forall|j: int| 0 <= j < ts.len() ==> (#[trigger] ts[j]).spec_degree() <= 2,
                new_terms@ == terms_without_var(ts.take(i as int), variable),
                prefactor == last_prefactor(ts.take(i as int), variable),
            decreases ts.len() - i,
        {
            let term = self.terms[i];
            proof {
                assert(term.wf());
                assert(ts.take(i + 1).drop_last() =~= ts.take(i as int));
                assert(ts.take(i + 1).last() == term);
            }
            if term.contains_var(&variable) {
                prefactor = term.prefactor_for_var(&variable);
            } else {
                new_terms.push(term);
            }
            i = i + 1;
        }
        proof {
            assert(ts.take(i as int) =~= ts);
            lemma_terms_without_var_props(ts, variable);
        }
        let inv = prefactor.try_inverse();
        let mut prefactor = match inv {
            Some(x) => x,
            None => Mersenne31Field(0),
        };
        let ghost k_inv = prefactor;
        prefactor.negate();
        let mut new = Constraint { terms: new_terms };
        let ghost unscaled = new;
        new.scale(prefactor);
        proof {
            lemma_terms_max_degree_bound(new.terms@, 2);
        }
        let ghost scaled = new;
        new.normalize();
        proof {
            assert forall|a: spec_fn(Variable) -> int| #[trigger] new.value(a) == (terms_sum(
                terms_without_var(ts, variable),
                a,
            ) * (-inverse_value(last_prefactor(ts, variable).val()))) % p() by {
                let w = terms_sum(unscaled.terms@, a);
                assert(new.value(a) == scaled.value(a));
                assert(scaled.value(a) == ((w % p()) * prefactor.val()) % p());
                lemma_mul_mod_left(w, prefactor.val());
                assert(prefactor.val() == (-k_inv.val()) % p());
                vstd::arithmetic::div_mod::lemma_mul_mod_noop_right(w, -k_inv.val(), p());
                assert(k_inv.val() == inverse_value(last_prefactor(ts, variable).val()));
            }
        }
        new
    }
}

/// Terms without the variable are well formed and of bounded degree when all
/// terms are.
pub proof fn lemma_terms_without_var_props(ts: Seq<Term>, v: Variable)
    ensures
        forall|j: int| 0 <= j < terms_without_var(ts, v).len() ==> ts.contains(
            #[trigger] terms_without_var(ts, v)[j],
        ),
    decreases ts.len(),
{
    if ts.len() > 0 {
        lemma_terms_without_var_props(ts.drop_last(), v);
        let r = terms_without_var(ts, v);
        let r0 = terms_without_var(ts.drop_last(), v);
        assert forall|j: int| 0 <= j < r.len() implies ts.contains(#[trigger] r[j]) by {
            if j < r0.len() {
                assert(r[j] == r0[j]);
                assert(ts.drop_last().contains(r0[j]));
                let w = choose|w: int| 0 <= w < ts.drop_last().len() && ts.drop_last()[w] == r0[j];
                assert(ts[w] == r0[j]);
            } else {
                assert(r[j] == ts.last());
                assert(ts[ts.len() - 1] == ts.last());
            }
        }
    }
}

/// Solving for a variable undoes the polynomial: when the variable occurs in
/// exactly one term, as `k * v` with `k` nonzero, and the polynomial vanishes
/// under an assignment, the solved polynomial gives the variable's value.
pub proof fn lemma_express_variable_solves(c: Constraint, v: Variable, a: spec_fn(Variable) -> int)
    requires
        terms_with_var(c.terms@, v).len() == 1,
        terms_with_var(c.terms@, v)[0].variables() == seq![v],
        last_prefactor(c.terms@, v).val() != 0,
        c.value(a) == 0,
    ensures
        (terms_sum(terms_without_var(c.terms@, v), a) * (-inverse_value(
            last_prefactor(c.terms@, v).val(),
        ))) % p() == a(v) % p(),
{
    let ts = c.terms@;
    crate::fermat::lemma_inverse_value(last_prefactor(c.terms@, v).val());
    lemma_terms_sum_split_var(ts, v, a);
    lemma_last_prefactor_is_with_last(ts, v);
    let t = terms_with_var(ts, v)[0];
    let k = last_prefactor(ts, v).val();
    let inv = inverse_value(k);
    let w = terms_sum(terms_without_var(ts, v), a);
    assert(terms_with_var(ts, v) =~= seq![t]);
    lemma_terms_single(t);
    lemma_vars_product_one(v, a);
    assert(t.value(a) == k * a(v));
    // w + k * a(v) == 0 (mod p)
    assert((w + k * a(v)) % p() == 0);
    // w * (-inv) == (k * a(v)) * inv (mod p)
    assert(w * (-inv) == -(w * inv)) by (nonlinear_arith);
    assert((w + k * a(v)) * inv == w * inv + (k * inv) * a(v)) by (nonlinear_arith);
    lemma_mod_mul_congruent(w + k * a(v), 0, inv);
    assert(((w + k * a(v)) * inv) % p() == 0);
    // k * inv == 1 (mod p)
    lemma_mod_mul_congruent(k * inv, 1, a(v));
    // w * inv == -(k*inv)*a(v) (mod p) hence -(w*inv) == a(v) (mod p)
    lemma_mod_add_congruent(-(w * inv + (k * inv) * a(v)), (k * inv) * a(v), a(v));
    assert(-(w * inv + (k * inv) * a(v)) % p() == 0) by {
        let x = w * inv + (k * inv) * a(v);
        assert(x % p() == 0);
        vstd::arithmetic::div_mod::lemma_fundamental_div_mod(x, p());
        vstd::arithmetic::div_mod::lemma_mod_multiples_vanish(-(x / p()), 0, p());
        assert(-x == p() * (-(x / p())) + 0) by (nonlinear_arith)
            requires
                x == p() * (x / p()) + x % p(),
                x % p() == 0,
        ;
    }
    assert(-(w * inv) == -(w * inv + (k * inv) * a(v)) + (k * inv) * a(v));
}

/// The last term holding the variable is the last of the terms with it.
pub proof fn lemma_last_prefactor_is_with_last(ts: Seq<Term>, v: Variable)
    requires
        terms_with_var(ts, v).len() > 0,
    ensures
        last_prefactor(ts, v) == terms_with_var(ts, v).last().coefficient(),
    decreases ts.len(),
{
    if ts.len() > 0 && !ts.last().variables().contains(v) {
        lemma_last_prefactor_is_with_last(ts.drop_last(), v);
    }
}


/// No variable occurs twice.
pub open spec fn vars_distinct(s: Seq<Variable>) -> bool {
    forall|i: int, j: int| 0 <= i < j < s.len() ==> #[trigger] s[i] != #[trigger] s[j]
}

/// Some term of the sequence holds the variable.
pub open spec fn some_term_holds(ts: Seq<Term>, v: Variable) -> bool {
    exists|i: int| 0 <= i < ts.len() && (#[trigger] ts[i]).variables().contains(v)
}

/// Every variable held by a term of `r` is held by a term of `ts`.
pub open spec fn terms_vars_within(r: Seq<Term>, ts: Seq<Term>) -> bool {
    forall|w: Variable| #[trigger] some_term_holds(r, w) ==> some_term_holds(ts, w)
}

/// Terms taken from `ts` hold only variables that `ts` holds.
pub proof fn lemma_taken_terms_vars_within(r: Seq<Term>, ts: Seq<Term>)
    requires
        forall|i: int| 0 <= i < r.len() ==> ts.contains(#[trigger] r[i]),
    ensures
        terms_vars_within(r, ts),
{
    assert forall|w: Variable| #[trigger] some_term_holds(r, w) implies some_term_holds(ts, w) by {
        let i = choose|i: int| 0 <= i < r.len() && (#[trigger] r[i]).variables().contains(w);
        assert(ts.contains(r[i]));
        let k = choose|k: int| 0 <= k < ts.len() && ts[k] == r[i];
        assert(ts[k].variables().contains(w));
    }
}

/// Membership after inserting into a sequence.
pub proof fn lemma_vars_insert_contains(s: Seq<Variable>, k: int, x: Variable, w: Variable)
    requires
        0 <= k <= s.len(),
    ensures
        s.insert(k, x).contains(w) <==> (s.contains(w) || w == x),
{
    let t = s.insert(k, x);
    if t.contains(w) {
        let m = choose|m: int| 0 <= m < t.len() && t[m] == w;
        if m < k {
            assert(s[m] == w);
        } else if m > k {
            assert(s[m - 1] == w);
        }
    }
    if s.contains(w) {
        let n = choose|n: int| 0 <= n < s.len() && s[n] == w;
        if n < k {
            assert(t[n] == w);
        } else {
            assert(t[n + 1] == w);
        }
    }
    if w == x {
        assert(t[k] == x);
    }
}

/// Membership in a prefix one longer.
pub proof fn lemma_vars_take_step_contains(s: Seq<Variable>, i: int, w: Variable)
    requires
        0 <= i < s.len(),
    ensures
        s.take(i + 1).contains(w) <==> (s.take(i).contains(w) || w == s[i]),
{
    assert(s.take(i + 1) =~= s.take(i).insert(i, s[i]));
    lemma_vars_insert_contains(s.take(i), i, s[i], w);
}

/// Adds the variable to the collection unless it is there already.
fn insert_variable(into: &mut Vec<Variable>, var: Variable)
    ensures
        forall|w: Variable| #[trigger] final(into)@.contains(w) <==> (old(into)@.contains(w) || w == var),
        vars_distinct(old(into)@) ==> vars_distinct(final(into)@),
{
    let ghost init = into@;
    let mut i: usize = 0;
    while i < into.len()
        invariant
            i <= into@.len(),
            into@ == init,
            init == old(into)@,
            forall|j: int| 0 <= j < i ==> into@[j] != var,
        decreases into@.len() - i,
    {
        if into[i] == var {
            assert(into@[i as int] == var);
            return;
        }
        i = i + 1;
    }
    let ghost before = into@;
    into.push(var);
    proof {
        assert forall|w: Variable| into@.contains(w) <==> (before.contains(w) || w == var) by {
            if into@.contains(w) {
                let k = choose|k: int| 0 <= k < into@.len() && into@[k] == w;
                if k < before.len() {
                    assert(before[k] == w);
                }
            }
            if before.contains(w) {
                let k = choose|k: int| 0 <= k < before.len() && before[k] == w;
                assert(into@[k] == w);
            }
            if w == var {
                assert(into@[before.len() as int] == var);
            }
        }
        assert forall|p: int, q: int| 0 <= p < q < into@.len() && vars_distinct(before) implies #[trigger] into@[p]
            != #[trigger] into@[q] by {
            if q == before.len() {
                assert(into@[p] == before[p]);
            } else {
                assert(into@[p] == before[p] && into@[q] == before[q]);
            }
        }
    }
}

impl Term {
    /// Adds the variables of the term to the collection (each at most once).
    pub fn dump_variables(&self, into: &mut Vec<Variable>)
        requires
            self.wf(),
        ensures
            forall|w: Variable| #[trigger] final(into)@.contains(w) <==> (old(into)@.contains(w)
                || self.variables().contains(w)),
            vars_distinct(old(into)@) ==> vars_distinct(final(into)@),
    {
        match self {
            Term::Constant(_) => {},
            Term::Expression { degree, inner, .. } => {
                let ghost vars = inner@.take(*degree as int);
                let mut i: usize = 0;
                while i < *degree
                    invariant
                        i <= *degree <= 4,
                        vars == inner@.take(*degree as int),
                        forall|w: Variable| into@.contains(w) <==> (old(into)@.contains(w)
                            || vars.take(i as int).contains(w)),
                        vars_distinct(old(into)@) ==> vars_distinct(into@),
                    decreases *degree - i,
                {
                    insert_variable(into, inner[i]);
                    proof {
                        assert(vars.take(i + 1) =~= vars.take(i as int).push(inner[i as int]));
                        assert forall|w: Variable| vars.take(i + 1).contains(w) <==> (vars.take(
                            i as int,
                        ).contains(w) || w == inner[i as int]) by {
                            if vars.take(i + 1).contains(w) {
                                let k = choose|k: int| 0 <= k < i + 1 && #[trigger] vars.take(i + 1)[k] == w;
                                if k < i {
                                    assert(vars.take(i as int)[k] == w);
                                }
                            }
                            if vars.take(i as int).contains(w) {
                                let k = choose|k: int| 0 <= k < i && #[trigger] vars.take(i as int)[k] == w;
                                assert(vars.take(i + 1)[k] == w);
                            }
                            if w == inner[i as int] {
                                assert(vars.take(i + 1)[i as int] == w);
                            }
                        }
                    }
                    i = i + 1;
                }
                assert(vars.take(i as int) =~= vars);
            },
        }
    }
}

impl Constraint {
    /// Adds the variables of every term to the collection (each at most
    /// once).
    pub fn dump_variables(&self, into: &mut Vec<Variable>)
        requires
            self.wf(),
        ensures
            forall|w: Variable| #[trigger] final(into)@.contains(w) <==> (old(into)@.contains(w)
                || some_term_holds(self.terms@, w)),
            vars_distinct(old(into)@) ==> vars_distinct(final(into)@),
    {
        let ghost init = into@;
        let mut i: usize = 0;
        while i < self.terms.len()
            invariant
                i <= self.terms@.len(),
                self.wf(),
                init == old(into)@,
                forall|w: Variable| into@.contains(w) <==> (init.contains(w) || some_term_holds(
                    self.terms@.take(i as int),
                    w,
                )),
                vars_distinct(init) ==> vars_distinct(into@),
            decreases self.terms@.len() - i,
        {
            assert(self.terms@[i as int].wf());
            let ghost before = into@;
            assert(forall|w: Variable| before.contains(w) <==> (init.contains(w) || some_term_holds(
                self.terms@.take(i as int),
                w,
            )));
            let t = self.terms[i];
            t.dump_variables(into);
            assert(forall|w: Variable| into@.contains(w) <==> (before.contains(w) || t.variables().contains(w)));
            proof {
                let ts = self.terms@;
                assert forall|w: Variable| some_term_holds(ts.take(i + 1), w) <==> (some_term_holds(
                    ts.take(i as int),
                    w,
                ) || ts[i as int].variables().contains(w)) by {
                    if some_term_holds(ts.take(i + 1), w) {
                        let k = choose|k: int| 0 <= k < i + 1 && (#[trigger] ts.take(i + 1)[k]).variables().contains(w);
                        if k < i {
                            assert(ts.take(i as int)[k] == ts[k]);
                        }
                    }
                    if some_term_holds(ts.take(i as int), w) {
                        let k = choose|k: int| 0 <= k < i && (#[trigger] ts.take(i as int)[k]).variables().contains(w);
                        assert(ts.take(i + 1)[k] == ts[k]);
                    }
                    if ts[i as int].variables().contains(w) {
                        assert(ts.take(i + 1)[i as int] == ts[i as int]);
                    }
                }
                assert forall|w: Variable| into@.contains(w) <==> (init.contains(w)
                    || some_term_holds(ts.take(i + 1), w)) by {
                    assert(into@.contains(w) <==> (before.contains(w) || ts[i as int].variables().contains(
                        w,
                    )));
                    assert(before.contains(w) <==> (init.contains(w) || some_term_holds(
                        ts.take(i as int),
                        w,
                    )));
                }
            }
            i = i + 1;
        }
        assert(self.terms@.take(i as int) =~= self.terms@);
    }

    /// The variables of the polynomial in ascending order, each once.
    pub fn stable_variable_set(&self) -> (r: Vec<Variable>)
        requires
            self.wf(),
            forall|w: Variable| some_term_holds(self.terms@, w) ==> !w.spec_is_placeholder(),
        ensures
            forall|w: Variable| r@.contains(w) <==> some_term_holds(self.terms@, w),
            forall|i: int, j: int| 0 <= i < j < r@.len() ==> (#[trigger] r@[i]).0 < (#[trigger] r@[j]).0,
    {
        let mut tmp: Vec<Variable> = Vec::new();
        self.dump_variables(&mut tmp);
        let mut stable_set: Vec<Variable> = Vec::new();
        let mut i: usize = 0;
        while i < tmp.len()
            invariant
                i <= tmp@.len(),
                forall|w: Variable| stable_set@.contains(w) <==> tmp@.take(i as int).contains(w),
                forall|p: int, q: int| 0 <= p < q < stable_set@.len() ==> (#[trigger] stable_set@[p]).0
                    < (#[trigger] stable_set@[q]).0,
            decreases tmp@.len() - i,
        {
            let x = tmp[i];
            let mut k: usize = 0;
            while k < stable_set.len() && stable_set[k].0 < x.0
                invariant
                    k <= stable_set@.len(),
                    forall|j: int| 0 <= j < k ==> (#[trigger] stable_set@[j]).0 < x.0,
                decreases stable_set@.len() - k,
            {
                k = k + 1;
            }
            let ghost old_set = stable_set@;
            if k < stable_set.len() && stable_set[k].0 == x.0 {
                proof {
                    assert(stable_set@[k as int] == x);
                }
            } else {
                stable_set.insert(k, x);
                proof {
                    assert forall|p: int, q: int| 0 <= p < q < stable_set@.len() implies (
                    #[trigger] stable_set@[p]).0 < (#[trigger] stable_set@[q]).0 by {
                        if q < k {
                            assert(stable_set@[p] == old_set[p] && stable_set@[q] == old_set[q]);
                        } else if q == k {
                            assert(stable_set@[p] == old_set[p]);
                        } else if p == k {
                            assert(stable_set@[q] == old_set[q - 1]);
                            assert(old_set[k as int].0 > x.0);
                        } else if p < k {
                            assert(stable_set@[p] == old_set[p] && stable_set@[q] == old_set[q - 1]);
                        } else {
                            assert(stable_set@[p] == old_set[p - 1] && stable_set@[q] == old_set[q - 1]);
                        }
                    }
                }
            }
            proof {
                assert forall|w: Variable| stable_set@.contains(w) <==> tmp@.take(i + 1).contains(w) by {
                    lemma_vars_take_step_contains(tmp@, i as int, w);
                    if stable_set@.len() != old_set.len() {
                        lemma_vars_insert_contains(old_set, k as int, x, w);
                    } else {
                        assert(stable_set@ == old_set);
                        if w == x {
                            assert(old_set[k as int] == x);
                        }
                    }
                }
            }
            i = i + 1;
        }
        assert(tmp@.take(i as int) =~= tmp@);
        stable_set
    }
}


/// An assignment that agrees with the known values of variables: `values`
/// holds, at a variable's index, the variable's value when it is known.
pub open spec fn agrees_with(a: spec_fn(Variable) -> int, values: Seq<Option<Mersenne31Field>>) -> bool {
    forall|w: Variable|
        w.0 < values.len() && (#[trigger] values[w.0 as int]) is Some ==> a(w) == values[w.0 as int]->0.val()
}

/// Every variable of the terms has a known value.
pub open spec fn all_known(ts: Seq<Term>, values: Seq<Option<Mersenne31Field>>) -> bool {
    forall|w: Variable| #[trigger] some_term_holds(ts, w) ==> w.0 < values.len() && values[w.0 as int] is Some
}

/// The known value of a variable.
fn known_value(values: &Vec<Option<Mersenne31Field>>, v: Variable) -> (r: Option<Mersenne31Field>)
    ensures
        r matches Some(x) ==> v.0 < values@.len() && values@[v.0 as int] == Some(x),
        v.0 < values@.len() && values@[v.0 as int] is Some ==> r is Some,
{
    if v.0 < values.len() as u64 {
        values[v.0 as usize]
    } else {
        None
    }
}

impl Constraint {
    /// The value of the polynomial from the known values of its variables,
    /// or `None` when a variable of its normal form has no known value.
    pub fn get_value(&self, values: &Vec<Option<Mersenne31Field>>) -> (r: Option<Mersenne31Field>)
        requires
            self.wf(),
            self.spec_degree() <= 2 || high_degree_cancels(self.terms@),
        ensures
            r matches Some(x) ==> forall|a: spec_fn(Variable) -> int| #[trigger]
                agrees_with(a, values@) ==> x.val() == self.value(a),
            all_known(self.terms@, values@) ==> r is Some,
            r is None ==> exists|w: Variable| #[trigger] some_term_holds(self.terms@, w) && !(w.0 < values@.len()
                && values@[w.0 as int] is Some),
    {
        let ghost this = *self;
        let c = self.clone();
        let ghost cg = c;
        let (quad, linear, constant_term) = c.split_max_quadratic();
        proof {
            assert(cg.terms@ == this.terms@);
            assert(forall|a: spec_fn(Variable) -> int| #[trigger] cg.value(a) == this.value(a));
        }
        let mut result = constant_term;
        proof {
            assert(quad@.take(0) =~= Seq::<(Mersenne31Field, Variable, Variable)>::empty());
            vstd::arithmetic::div_mod::lemma_mod_twice(constant_term.0 as int, p());
        }
        let mut i: usize = 0;
        while i < quad.len()
            invariant
                i <= quad@.len(),
                forall|a: spec_fn(Variable) -> int| #[trigger] agrees_with(a, values@) ==> result.val()
                    == (quadratic_sum(quad@.take(i as int), a) + constant_term.val()) % p(),
                forall|k: int| 0 <= k < quad@.len() ==> some_term_holds(this.terms@, (#[trigger] quad@[k]).1)
                    && some_term_holds(this.terms@, quad@[k].2),
                this == *self,
            decreases quad@.len() - i,
        {
            let (coeff, x, y) = quad[i];
            let vx = known_value(values, x);
            let vy = known_value(values, y);
            match (vx, vy) {
                (Some(fx), Some(fy)) => {
                    let mut t = fx.mul(&fy);
                    t.mul_assign(&coeff);
                    let ghost prev = result;
                    result.add_assign(&t);
                    proof {
                        assert forall|a: spec_fn(Variable) -> int| #[trigger] agrees_with(a, values@)
                            implies result.val() == (quadratic_sum(quad@.take(i + 1), a) + constant_term.val())
                            % p() by {
                            assert(quad@.take(i + 1).drop_last() =~= quad@.take(i as int));
                            assert(quad@.take(i + 1).last() == quad@[i as int]);
                            assert(values@[x.0 as int] is Some);
                            assert(values@[y.0 as int] is Some);
                            assert(a(x) == fx.val());
                            assert(a(y) == fy.val());
                            let q = quadratic_sum(quad@.take(i as int), a) + constant_term.val();
                            lemma_mul_mod_left(fx.val() * fy.val(), coeff.val());
                            assert(fx.val() * fy.val() * coeff.val() == coeff.val() * a(x) * a(y))
                                by (nonlinear_arith)
                                requires
                                    a(x) == fx.val(),
                                    a(y) == fy.val(),
                            ;
                            vstd::arithmetic::div_mod::lemma_add_mod_noop(q, coeff.val() * a(x) * a(y), p());
                            vstd::arithmetic::div_mod::lemma_mod_twice(q, p());
                            vstd::arithmetic::div_mod::lemma_mod_twice(coeff.val() * a(x) * a(y), p());
                        }
                    }
                },
                _ => {
                    proof {
                        assert(quad@[i as int] == (coeff, x, y));
                        assert(some_term_holds(this.terms@, x) && some_term_holds(this.terms@, y));
                    }
                    return None;
                },
            }
            i = i + 1;
        }
        proof {
            assert(quad@.take(i as int) =~= quad@);
            assert(linear@.take(0) =~= Seq::<(Mersenne31Field, Variable)>::empty());
        }
        let mut j: usize = 0;
        while j < linear.len()
            invariant
                j <= linear@.len(),
                i == quad@.len(),
                forall|a: spec_fn(Variable) -> int| #[trigger] agrees_with(a, values@) ==> result.val()
                    == (quadratic_sum(quad@, a) + linear_sum(linear@.take(j as int), a)
                    + constant_term.val()) % p(),
                forall|k: int| 0 <= k < linear@.len() ==> some_term_holds(this.terms@, (#[trigger] linear@[k]).1),
                this == *self,
            decreases linear@.len() - j,
        {
            let (coeff, x) = linear[j];
            let vx = known_value(values, x);
            match vx {
                Some(fx) => {
                    let mut t = fx;
                    t.mul_assign(&coeff);
                    result.add_assign(&t);
                    proof {
                        assert forall|a: spec_fn(Variable) -> int| #[trigger] agrees_with(a, values@)
                            implies result.val() == (quadratic_sum(quad@, a) + linear_sum(
                            linear@.take(j + 1),
                            a,
                        ) + constant_term.val()) % p() by {
                            assert(linear@.take(j + 1).drop_last() =~= linear@.take(j as int));
                            assert(linear@.take(j + 1).last() == linear@[j as int]);
                            assert(values@[x.0 as int] is Some);
                            assert(a(x) == fx.val());
                            let q = quadratic_sum(quad@, a) + linear_sum(linear@.take(j as int), a)
                                + constant_term.val();
                            assert(fx.val() * coeff.val() == coeff.val() * a(x)) by (nonlinear_arith)
                                requires
                                    a(x) == fx.val(),
                            ;
                            vstd::arithmetic::div_mod::lemma_add_mod_noop(q, coeff.val() * a(x), p());
                            vstd::arithmetic::div_mod::lemma_mod_twice(q, p());
                            vstd::arithmetic::div_mod::lemma_mod_twice(coeff.val() * a(x), p());
                        }
                    }
                },
                None => {
                    proof {
                        assert(linear@[j as int] == (coeff, x));
                        assert(some_term_holds(this.terms@, x));
                    }
                    return None;
                },
            }
            j = j + 1;
        }
        proof {
            assert(quad@.take(i as int) =~= quad@);
            assert(linear@.take(j as int) =~= linear@);
            assert forall|a: spec_fn(Variable) -> int| #[trigger] agrees_with(a, values@) implies result.val()
                == this.value(a) by {
                assert(cg.value(a) == this.value(a));
                assert(linear_sum(linear@.take(j as int), a) == linear_sum(linear@, a));
            }
        }
        Some(result)
    }
}

} // verus!
