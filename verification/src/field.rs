use vstd::prelude::*;

verus! {

/// The Mersenne prime 2^31 - 1, the characteristic of the base field.
pub const CHARACTERISTICS: u32 = 0x7fff_ffffu32;

/// The characteristic as a mathematical integer.
pub open spec fn p() -> int {
    0x7fff_ffff
}

/// `b` raised to the power `e`, over the integers.
pub open spec fn pow(b: int, e: nat) -> int
    decreases e,
{
    if e == 0 {
        1
    } else {
        b * pow(b, (e - 1) as nat)
    }
}

/// The field element `v` (given by any integer) reduced into `[0, p)`.
pub open spec fn fmod(v: int) -> int {
    v % p()
}

/// The value that `inverse` gives: `a^(p - 2)`, the multiplicative inverse
/// of every nonzero `a` (see `fermat::lemma_inverse_value`).
pub open spec fn inverse_value(a: int) -> int {
    pow(a, (p() - 2) as nat) % p()
}

/// An element of the field of integers modulo 2^31 - 1.
///
/// The inner integer need not be reduced; its value in the field is the
/// inner integer taken modulo the characteristic.
#[derive(Clone, Copy, Debug)]
pub struct Mersenne31Field(pub u32);

impl Mersenne31Field {
    /// The value of this element in `[0, p)`.
    pub open spec fn val(self) -> int {
        self.0 as int % p()
    }

    /// Whether the inner integer is already the reduced representative.
    pub open spec fn is_reduced(self) -> bool {
        self.0 < CHARACTERISTICS
    }

    /// The additive identity.
    pub fn zero() -> (r: Self)
        ensures
            r.val() == 0,
            r.is_reduced(),
    {
        Mersenne31Field(0)
    }

    /// The multiplicative identity.
    pub fn one() -> (r: Self)
        ensures
            r.val() == 1,
            r.is_reduced(),
    {
        Mersenne31Field(1)
    }

    /// The additive inverse of one.
    pub fn minus_one() -> (r: Self)
        ensures
            r.val() == p() - 1,
            r.is_reduced(),
    {
        Mersenne31Field(0x7fff_fffe)
    }

    /// The reduced representative in `[0, p)`.
    pub fn as_u32_reduced(&self) -> (r: u32)
        ensures
            r as int == self.val(),
            r < CHARACTERISTICS,
    {
        self.0 % CHARACTERISTICS
    }

    /// The element whose value is `value` modulo the characteristic.
    pub fn from_u32_with_reduction(value: u32) -> (r: Self)
        ensures
            r.val() == value as int % p(),
            r.is_reduced(),
    {
        let v = Mersenne31Field(value);
        Mersenne31Field(v.as_u32_reduced())
    }

    /// The element whose value is `value` modulo the characteristic.
    pub fn from_u64_with_reduction(value: u64) -> (r: Self)
        ensures
            r.val() == value as int % p(),
            r.is_reduced(),
    {
        Mersenne31Field((value % 0x7fff_ffffu64) as u32)
    }

    /// The element `value` where `value < p`, and `None` otherwise.
    pub fn from_u32(value: u32) -> (r: Option<Self>)
        ensures
            value < CHARACTERISTICS <==> r is Some,
            r matches Some(x) ==> x.0 == value && x.is_reduced(),
    {
        if value < CHARACTERISTICS {
            Some(Mersenne31Field(value))
        } else {
            None
        }
    }

    /// One for `true`, zero for `false`.
    pub fn from_boolean(flag: bool) -> (r: Self)
        ensures
            r.val() == (if flag { 1int } else { 0int }),
            r.is_reduced(),
    {
        if flag {
            Mersenne31Field(1)
        } else {
            Mersenne31Field(0)
        }
    }

    /// Whether the value is zero.
    pub fn is_zero(&self) -> (r: bool)
        ensures
            r == (self.val() == 0),
    {
        self.as_u32_reduced() == 0
    }

    /// Whether the value is one.
    pub fn is_one(&self) -> (r: bool)
        ensures
            r == (self.val() == 1),
    {
        self.as_u32_reduced() == 1
    }

    /// Equality of values (representations may differ).
    pub fn equals(&self, other: &Self) -> (r: bool)
        ensures
            r == (self.val() == other.val()),
    {
        self.as_u32_reduced() == other.as_u32_reduced()
    }

    /// The value read as a boolean: false for zero, true otherwise.
    pub fn as_boolean(&self) -> (r: bool)
        ensures
            r == (self.val() != 0),
    {
        self.as_u32_reduced() != 0
    }

    /// The sum of two elements.
    pub fn add(&self, other: &Self) -> (r: Self)
        ensures
            r.val() == (self.val() + other.val()) % p(),
            r.is_reduced(),
    {
        let a = self.as_u32_reduced();
        let b = other.as_u32_reduced();
        let s = a + b;
        if s >= CHARACTERISTICS {
            Mersenne31Field(s - CHARACTERISTICS)
        } else {
            Mersenne31Field(s)
        }
    }

    /// The difference of two elements.
    pub fn sub(&self, other: &Self) -> (r: Self)
        ensures
            r.val() == (self.val() - other.val()) % p(),
            r.is_reduced(),
    {
        let a = self.as_u32_reduced();
        let b = other.as_u32_reduced();
        if a >= b {
            Mersenne31Field(a - b)
        } else {
            Mersenne31Field(a + (CHARACTERISTICS - b))
        }
    }

    /// The additive inverse.
    pub fn neg(&self) -> (r: Self)
        ensures
            r.val() == (-self.val()) % p(),
            r.is_reduced(),
    {
        let z = Mersenne31Field(0);
        z.sub(self)
    }

    /// The product of two elements.
    pub fn mul(&self, other: &Self) -> (r: Self)
        ensures
            r.val() == (self.val() * other.val()) % p(),
            r.is_reduced(),
    {
        let a = self.as_u32_reduced() as u64;
        let b = other.as_u32_reduced() as u64;
        assert(a * b <= 0x7fff_fffe * 0x7fff_fffe) by (nonlinear_arith)
            requires
                a <= 0x7fff_fffe,
                b <= 0x7fff_fffe,
        ;
        let prod = a * b;
        Mersenne31Field((prod % 0x7fff_ffffu64) as u32)
    }

    /// `self += other`.
    pub fn add_assign(&mut self, other: &Self)
        ensures
            final(self).val() == (old(self).val() + other.val()) % p(),
            final(self).is_reduced(),
    {
        *self = self.add(other);
    }

    /// `self -= other`.
    pub fn sub_assign(&mut self, other: &Self)
        ensures
            final(self).val() == (old(self).val() - other.val()) % p(),
            final(self).is_reduced(),
    {
        *self = self.sub(other);
    }

    /// `self *= other`.
    pub fn mul_assign(&mut self, other: &Self)
        ensures
            final(self).val() == (old(self).val() * other.val()) % p(),
            final(self).is_reduced(),
    {
        *self = self.mul(other);
    }

    /// `self = -self`.
    pub fn negate(&mut self)
        ensures
            final(self).val() == (-old(self).val()) % p(),
            final(self).is_reduced(),
    {
        *self = self.neg();
    }

    /// `self += a * b`.
    pub fn add_assign_product(&mut self, a: &Self, b: &Self)
        ensures
            final(self).val() == (old(self).val() + a.val() * b.val()) % p(),
            final(self).is_reduced(),
    {
        let t = a.mul(b);
        proof {
            lemma_mod_add_right(self.val(), a.val() * b.val());
        }
        *self = self.add(&t);
    }

    /// `self ^ (p - 2)`: the multiplicative inverse of a nonzero element,
    /// and zero for zero.
    pub fn pow_p_minus_two(&self) -> (r: Self)
        ensures
            r.val() == inverse_value(self.val()),
            r.is_reduced(),
    {
        let mut acc = Mersenne31Field(1);
        let mut base = Mersenne31Field(self.as_u32_reduced());
        let mut e: u32 = 0x7fff_fffd;
        proof {
            assert(base.val() == self.val()) by {
                vstd::arithmetic::div_mod::lemma_mod_twice(self.0 as int, p());
            }
            assert(acc.val() == 1);
            assert(e as nat == (p() - 2) as nat);
        }
        while e > 0
            invariant
                acc.is_reduced(),
                base.is_reduced(),
                (acc.val() * pow(base.val(), e as nat)) % p()
                    == pow(self.val(), (p() - 2) as nat) % p(),
            decreases e,
        {
            let ghost e0 = e;
            let ghost b0 = base.val();
            let ghost a0 = acc.val();
            let ghost t = pow(self.val(), (p() - 2) as nat) % p();
            if e % 2 == 1 {
                acc = acc.mul(&base);
                proof {
                    lemma_pow_odd(b0, e0 as nat);
                    assert(a0 * pow(b0, e0 as nat) == (a0 * b0) * pow(b0 * b0, (e0 / 2) as nat))
                        by (nonlinear_arith)
                        requires
                            pow(b0, e0 as nat) == b0 * pow(b0 * b0, (e0 / 2) as nat),
                    ;
                    lemma_mul_mod_left(a0 * b0, pow(b0 * b0, (e0 / 2) as nat));
                    assert((acc.val() * pow(b0 * b0, (e0 / 2) as nat)) % p() == t);
                }
            } else {
                proof {
                    lemma_pow_even(b0, e0 as nat);
                    assert((acc.val() * pow(b0 * b0, (e0 / 2) as nat)) % p() == t);
                }
            }
            base = base.mul(&base);
            e = e / 2;
            proof {
                let q = pow(b0 * b0, e as nat);
                lemma_pow_mod_base(b0 * b0, e as nat);
                assert(base.val() == (b0 * b0) % p());
                assert(pow(base.val(), e as nat) % p() == q % p());
                lemma_mul_mod_right(acc.val(), q);
                lemma_mul_mod_right(acc.val(), pow(base.val(), e as nat));
            }
        }
        acc
    }

    /// The multiplicative inverse, `None` for zero.
    pub fn try_inverse(&self) -> (r: Option<Self>)
        ensures
            self.val() == 0 <==> r is None,
            r matches Some(x) ==> x.val() == inverse_value(self.val()) && x.is_reduced(),
            r matches Some(x) ==> (self.val() * x.val()) % p() == 1,
    {
        proof {
            if self.val() != 0 {
                crate::fermat::lemma_inverse_value(self.val());
            }
        }
        if self.is_zero() {
            None
        } else {
            Some(self.pow_p_minus_two())
        }
    }
}

/// Subtraction undoes addition: `(a + b) - b == a` in the field.
pub proof fn lemma_sub_undoes_add(a: int, b: int)
    requires
        0 <= a < p(),
    ensures
        (((a + b) % p()) - b) % p() == a,
{
    vstd::arithmetic::div_mod::lemma_sub_mod_noop(a + b, b, p());
    vstd::arithmetic::div_mod::lemma_mod_twice(b, p());
    vstd::arithmetic::div_mod::lemma_sub_mod_noop(((a + b) % p()), b, p());
    vstd::arithmetic::div_mod::lemma_mod_twice(a + b, p());
    vstd::arithmetic::div_mod::lemma_small_mod(a as nat, p() as nat);
}

/// Negation gives the additive inverse: `a + (-a) == 0` in the field.
pub proof fn lemma_neg_is_additive_inverse(a: int)
    ensures
        (a + (-a) % p()) % p() == 0,
{
    lemma_mod_add_right(a, -a);
}

/// `(a + b % p) % p == (a + b) % p`.
pub proof fn lemma_mod_add_right(a: int, b: int)
    ensures
        (a + b % p()) % p() == (a + b) % p(),
{
    vstd::arithmetic::div_mod::lemma_add_mod_noop(a, b, p());
    vstd::arithmetic::div_mod::lemma_mod_twice(b, p());
    vstd::arithmetic::div_mod::lemma_add_mod_noop(a, b % p(), p());
}

/// `(a % p * b) % p == (a * b) % p`.
pub proof fn lemma_mul_mod_left(a: int, b: int)
    ensures
        ((a % p()) * b) % p() == (a * b) % p(),
{
    vstd::arithmetic::div_mod::lemma_mul_mod_noop_left(a, b, p());
}

/// `(a * (b % p)) % p == (a * b) % p`.
pub proof fn lemma_mul_mod_right(a: int, b: int)
    ensures
        (a * (b % p())) % p() == (a * b) % p(),
{
    vstd::arithmetic::div_mod::lemma_mul_mod_noop_right(a, b, p());
}

/// `((a + b) % p * c) % p == (a * c + b * c) % p`.
pub proof fn lemma_mod_sum_mul(a: int, b: int, c: int)
    ensures
        (((a + b) % p()) * c) % p() == (a * c + b * c) % p(),
{
    lemma_mul_mod_left(a + b, c);
    assert((a + b) * c == a * c + b * c) by (nonlinear_arith);
}

/// `((a * b) % p * c) % p == (a * (b * c)) % p`.
pub proof fn lemma_mod_mul_assoc(a: int, b: int, c: int)
    ensures
        (((a * b) % p()) * c) % p() == (a * (b * c)) % p(),
{
    lemma_mul_mod_left(a * b, c);
    assert((a * b) * c == a * (b * c)) by (nonlinear_arith);
}

/// Adding congruent integers to the same integer gives congruent results.
pub proof fn lemma_mod_add_congruent(base: int, x: int, y: int)
    requires
        x % p() == y % p(),
    ensures
        (base + x) % p() == (base + y) % p(),
{
    vstd::arithmetic::div_mod::lemma_add_mod_noop(base, x, p());
    vstd::arithmetic::div_mod::lemma_add_mod_noop(base, y, p());
}

/// Multiplying congruent integers by the same integer gives congruent
/// results.
pub proof fn lemma_mod_mul_congruent(x: int, y: int, f: int)
    requires
        x % p() == y % p(),
    ensures
        (x * f) % p() == (y * f) % p(),
{
    vstd::arithmetic::div_mod::lemma_mul_mod_noop_left(x, f, p());
    vstd::arithmetic::div_mod::lemma_mul_mod_noop_left(y, f, p());
}

/// Sums of congruent pairs are congruent.
pub proof fn lemma_mod_add_both(x1: int, y1: int, x2: int, y2: int)
    requires
        x1 % p() == y1 % p(),
        x2 % p() == y2 % p(),
    ensures
        (x1 + x2) % p() == (y1 + y2) % p(),
{
    lemma_mod_add_congruent(x1, x2, y2);
    lemma_mod_add_congruent(y2, x1, y1);
}

/// Powers may reduce their base first.
pub proof fn lemma_pow_mod_base(b: int, e: nat)
    ensures
        pow(b % p(), e) % p() == pow(b, e) % p(),
    decreases e,
{
    if e > 0 {
        lemma_pow_mod_base(b, (e - 1) as nat);
        // pow(b%p, e) = (b%p) * pow(b%p, e-1)
        vstd::arithmetic::div_mod::lemma_mul_mod_noop(b % p(), pow(b % p(), (e - 1) as nat), p());
        vstd::arithmetic::div_mod::lemma_mul_mod_noop(b, pow(b, (e - 1) as nat), p());
        vstd::arithmetic::div_mod::lemma_mod_twice(b, p());
    }
}

/// `b^(2k) == (b*b)^k`.
pub proof fn lemma_pow_double(b: int, k: nat)
    ensures
        pow(b, 2 * k) == pow(b * b, k),
    decreases k,
{
    if k > 0 {
        lemma_pow_double(b, (k - 1) as nat);
        assert(pow(b, (2 * k - 1) as nat) == b * pow(b, (2 * (k - 1)) as nat));
        assert(pow(b, 2 * k) == b * pow(b, (2 * k - 1) as nat));
        assert(b * (b * pow(b, (2 * (k - 1)) as nat)) == (b * b) * pow(b, (2 * (k - 1)) as nat))
            by (nonlinear_arith);
    }
}

/// For even `e`, `b^e == (b*b)^(e/2)`.
pub proof fn lemma_pow_even(b: int, e: nat)
    requires
        e % 2 == 0,
    ensures
        pow(b, e) == pow(b * b, e / 2),
{
    lemma_pow_double(b, e / 2);
}

/// For odd `e`, `b^e == b * (b*b)^(e/2)`.
pub proof fn lemma_pow_odd(b: int, e: nat)
    requires
        e % 2 == 1,
    ensures
        pow(b, e) == b * pow(b * b, e / 2),
{
    lemma_pow_double(b, e / 2);
    assert(e == 2 * (e / 2) + 1);
}

} // verus!
