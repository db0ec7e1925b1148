use vstd::prelude::*;

use crate::field::{inverse_value, p, pow};

verus! {

/// `n` is prime: greater than one, with no divisor strictly between one and
/// itself.
pub open spec fn is_prime(n: int) -> bool {
    n > 1 && forall|d: int| 1 < d < n ==> #[trigger] (n % d) != 0
}

/// No product of two integers from two and up, the first at most 46340,
/// is 2^31 - 1.
#[verifier::rlimit(100)]
proof fn lemma_no_small_factor()
    ensures
        forall|d: u64, e: u64|
            2 <= d <= 46340 && 2 <= e <= 0x7fff_ffff ==> #[trigger] (d * e) != 0x7fff_ffffu64,
{
    assert(forall|d: u64, e: u64|
        2 <= d <= 46340 && 2 <= e <= 0x7fff_ffff ==> #[trigger] (d * e) != 0x7fff_ffffu64)
        by (bit_vector);
}

/// The characteristic 2^31 - 1 is prime.
pub proof fn lemma_characteristic_is_prime()
    ensures
        is_prime(p()),
{
    lemma_no_small_factor();
    assert forall|d: int| 1 < d < p() implies #[trigger] (p() % d) != 0 by {
        if p() % d == 0 {
            let e = p() / d;
            vstd::arithmetic::div_mod::lemma_fundamental_div_mod(p(), d);
            assert(p() == d * e);
            assert(2 <= e <= 0x7fff_ffff) by (nonlinear_arith)
                requires
                    p() == d * e,
                    1 < d < p(),
                    p() == 0x7fff_ffff,
            ;
            if d <= 46340 {
                let du = d as u64;
                let eu = e as u64;
                assert(du * eu != 0x7fff_ffffu64);
            } else {
                assert(e <= 46340) by (nonlinear_arith)
                    requires
                        p() == d * e,
                        d >= 46341,
                        e >= 2,
                        p() == 0x7fff_ffff,
                ;
                let du = e as u64;
                let eu = d as u64;
                assert(du * eu != 0x7fff_ffffu64);
                assert(e * d == d * e) by (nonlinear_arith);
            }
        }
    }
}

/// Coefficients of the binomial expansion, by Pascal's rule.
pub open spec fn binom(n: nat, k: nat) -> nat
    decreases n,
{
    if k == 0 {
        1
    } else if n == 0 {
        0
    } else {
        binom((n - 1) as nat, (k - 1) as nat) + binom((n - 1) as nat, k)
    }
}

/// The first `k + 1` terms of the binomial expansion of `(a + 1)^n`.
pub open spec fn binom_sum(n: nat, a: int, k: nat) -> int
    decreases k,
{
    if k == 0 {
        1
    } else {
        binom_sum(n, a, (k - 1) as nat) + binom(n, k) * pow(a, k)
    }
}

proof fn lemma_binom_above(n: nat, k: nat)
    requires
        k > n,
    ensures
        binom(n, k) == 0,
    decreases n,
{
    if n > 0 {
        lemma_binom_above((n - 1) as nat, (k - 1) as nat);
        lemma_binom_above((n - 1) as nat, k);
    }
}

proof fn lemma_binom_diagonal(n: nat)
    ensures
        binom(n, n) == 1,
    decreases n,
{
    if n > 0 {
        lemma_binom_diagonal((n - 1) as nat);
        lemma_binom_above((n - 1) as nat, n);
    }
}

/// `k * C(n, k) == n * C(n - 1, k - 1)`.
proof fn lemma_binom_absorb(n: nat, k: nat)
    requires
        n >= 1,
        k >= 1,
    ensures
        k * binom(n, k) == n * binom((n - 1) as nat, (k - 1) as nat),
    decreases n,
{
    if n == 1 {
        if k >= 2 {
            lemma_binom_above(1, k);
            lemma_binom_above(0, (k - 1) as nat);
            assert(k * 0 == 0);
        } else {
            assert(binom(0, 1) == 0);
            assert(binom(0, 0) == 1);
            assert(binom(1, 1) == 1);
        }
    } else if k == 1 {
        let m = (n - 1) as nat;
        lemma_binom_absorb(m, 1);
        assert(binom((m - 1) as nat, 0) == 1);
        assert(1 * binom(m, 1) == m * 1);
        assert(binom(m, 1) == n - 1);
        assert(binom(m, 0) == 1);
        assert(binom(n, 1) == binom(m, 0) + binom(m, 1));
        assert(binom(n, 1) == n);
        assert(1 * binom(n, 1) == n * binom(m, 0));
    } else {
        lemma_binom_absorb((n - 1) as nat, (k - 1) as nat);
        lemma_binom_absorb((n - 1) as nat, k);
        let b1 = binom((n - 1) as nat, (k - 1) as nat);
        let b2 = binom((n - 1) as nat, k);
        let c1 = binom((n - 2) as nat, (k - 2) as nat);
        let c2 = binom((n - 2) as nat, (k - 1) as nat);
        assert(binom(n, k) == b1 + b2);
        assert(b1 == c1 + c2);
        assert(k * (b1 + b2) == n * b1) by (nonlinear_arith)
            requires
                (k - 1) * b1 == (n - 1) * c1,
                k * b2 == (n - 1) * c2,
                b1 == c1 + c2,
        ;
        assert(k * binom(n, k) == n * b1);
    }
}

/// One step of Pascal's rule across a partial binomial sum.
proof fn lemma_binom_sum_step(n: nat, a: int, k: nat)
    requires
        k >= 1,
    ensures
        binom_sum(n + 1, a, k) == binom_sum(n, a, k) + a * binom_sum(n, a, (k - 1) as nat),
    decreases k,
{
    if k == 1 {
        assert(pow(a, 0) == 1);
        assert(pow(a, 1) == a * pow(a, 0));
        assert(pow(a, 1) == a);
        assert(binom(n, 0) == 1);
        assert(binom((n + 1) as nat, 1) == binom(n, 0) + binom(n, 1));
        let b1 = binom(n, 1);
        assert(binom_sum(n + 1, a, 0) == 1);
        assert(binom_sum(n, a, 0) == 1);
        assert(binom_sum(n + 1, a, 1) == 1 + (1 + b1) * a);
        assert(binom_sum(n, a, 1) == 1 + b1 * a);
        assert((1 + b1) * a == a + b1 * a) by (nonlinear_arith);
        assert(a * 1 == a);
    } else {
        lemma_binom_sum_step(n, a, (k - 1) as nat);
        let bk = binom(n, (k - 1) as nat);
        let bk1 = binom(n, k);
        let pk = pow(a, (k - 1) as nat);
        let pk1 = pow(a, k);
        assert(pk1 == a * pk);
        assert(binom((n + 1) as nat, k) == bk + bk1);
        assert((bk + bk1) * pk1 == bk1 * pk1 + a * (bk * pk)) by (nonlinear_arith)
            requires
                pk1 == a * pk,
        ;
        assert(a * binom_sum(n, a, (k - 1) as nat) == a * binom_sum(n, a, (k - 2) as nat) + a * (bk
            * pk)) by (nonlinear_arith)
            requires
                binom_sum(n, a, (k - 1) as nat) == binom_sum(n, a, (k - 2) as nat) + bk * pk,
        ;
    }
}

/// The binomial theorem: `(a + 1)^n` is the sum of `C(n, k) a^k`.
pub proof fn lemma_binomial_theorem(a: int, n: nat)
    ensures
        pow(a + 1, n) == binom_sum(n, a, n),
    decreases n,
{
    if n > 0 {
        let m = (n - 1) as nat;
        lemma_binomial_theorem(a, m);
        lemma_binom_sum_step(m, a, n);
        lemma_binom_above(m, n);
        assert(binom_sum(m, a, n) == binom_sum(m, a, m));
        assert(pow(a + 1, n) == (a + 1) * pow(a + 1, m));
        assert((a + 1) * binom_sum(m, a, m) == binom_sum(m, a, m) + a * binom_sum(m, a, m)) by (nonlinear_arith);
    }
}

/// Integers with the given sum of multiples: `a * x + b * y == g`, where
/// `g` divides both `a` and `b`.
proof fn lemma_bezout(a: nat, b: nat) -> (r: (int, int, int, int, int))
    requires
        a > 0 || b > 0,
    ensures
        r.2 > 0,
        a * r.0 + b * r.1 == r.2,
        a == r.2 * r.3,
        b == r.2 * r.4,
    decreases b,
{
    if b == 0 {
        (1, 0, a as int, 1, 0)
    } else {
        let q = a / b;
        let rem = a % b;
        vstd::arithmetic::div_mod::lemma_fundamental_div_mod(a as int, b as int);
        let (x, y, g, cb, cr) = lemma_bezout(b, rem);
        assert(a * y + b * (x - q * y) == g) by (nonlinear_arith)
            requires
                b * x + rem * y == g,
                a == b * q + rem,
        ;
        assert(a == g * (cb * q + cr)) by (nonlinear_arith)
            requires
                a == b * q + rem,
                b == g * cb,
                rem == g * cr,
        ;
        (y, x - q * y, g, cb * q + cr, cb)
    }
}

/// Euclid's lemma for the characteristic: if it divides `k * m` and not
/// `k`, it divides `m`.
pub proof fn lemma_euclid(k: int, m: int)
    requires
        0 < k < p(),
        (k * m) % p() == 0,
    ensures
        m % p() == 0,
{
    lemma_characteristic_is_prime();
    let (x, y, g, ck, cp) = lemma_bezout(k as nat, p() as nat);
    assert(g == 1) by {
        if g > 1 {
            if g < p() {
                vstd::arithmetic::div_mod::lemma_mod_multiples_basic(cp, g);
                assert(p() % g == 0) by {
                    assert(p() == cp * g) by (nonlinear_arith)
                        requires
                            p() == g * cp,
                    ;
                }
            } else {
                assert(false) by (nonlinear_arith)
                    requires
                        k == g * ck,
                        0 < k < p(),
                        g >= p(),
                ;
            }
        }
    }
    vstd::arithmetic::div_mod::lemma_fundamental_div_mod(k * m, p());
    let t = (k * m) / p();
    assert(m == p() * (t * x + m * y)) by (nonlinear_arith)
        requires
            k * x + p() * y == 1,
            k * m == p() * t,
    ;
    vstd::arithmetic::div_mod::lemma_mod_multiples_basic(t * x + m * y, p());
    assert((t * x + m * y) * p() == p() * (t * x + m * y)) by (nonlinear_arith);
}

/// The characteristic divides the binomial coefficients strictly inside
/// its row.
proof fn lemma_binom_divisible(k: nat)
    requires
        0 < k < p(),
    ensures
        (binom(p() as nat, k) as int) % p() == 0,
{
    lemma_binom_absorb(p() as nat, k);
    let b = binom((p() - 1) as nat, (k - 1) as nat);
    vstd::arithmetic::div_mod::lemma_mod_multiples_basic(b as int, p());
    assert(b * p() == p() * b) by (nonlinear_arith);
    lemma_euclid(k as int, binom(p() as nat, k) as int);
}

/// The partial binomial sums of `(a + 1)^p` below the last term are one
/// modulo the characteristic.
proof fn lemma_binom_sum_inner(a: int, k: nat)
    requires
        k < p(),
    ensures
        binom_sum(p() as nat, a, k) % p() == 1,
    decreases k,
{
    if k > 0 {
        lemma_binom_sum_inner(a, (k - 1) as nat);
        lemma_binom_divisible(k);
        let b = binom(p() as nat, k);
        let t = b * pow(a, k);
        vstd::arithmetic::div_mod::lemma_mul_mod_noop_left(b as int, pow(a, k), p());
        vstd::arithmetic::div_mod::lemma_add_mod_noop(binom_sum(p() as nat, a, (k - 1) as nat), t, p());
    }
}

/// `a^p == a` modulo the characteristic, for `a >= 0`.
proof fn lemma_pow_characteristic(a: nat)
    ensures
        pow(a as int, p() as nat) % p() == (a as int) % p(),
    decreases a,
{
    if a == 0 {
        assert(pow(0, p() as nat) == 0 * pow(0, (p() - 1) as nat));
    } else {
        let b = (a - 1) as nat;
        lemma_pow_characteristic(b);
        lemma_binomial_theorem(b as int, p() as nat);
        lemma_binom_sum_inner(b as int, (p() - 1) as nat);
        lemma_binom_diagonal(p() as nat);
        let s = binom_sum(p() as nat, b as int, (p() - 1) as nat);
        let pb = pow(b as int, p() as nat);
        assert(pow(a as int, p() as nat) == s + pb);
        vstd::arithmetic::div_mod::lemma_add_mod_noop(s, pb, p());
        vstd::arithmetic::div_mod::lemma_add_mod_noop(1, b as int, p());
        vstd::arithmetic::div_mod::lemma_small_mod(1, p() as nat);
    }
}

/// Fermat's little theorem for the characteristic.
pub proof fn lemma_fermat(a: int)
    requires
        0 < a < p(),
    ensures
        pow(a, (p() - 1) as nat) % p() == 1,
{
    lemma_pow_characteristic(a as nat);
    let q = pow(a, (p() - 1) as nat);
    assert(pow(a, p() as nat) == a * q);
    vstd::arithmetic::div_mod::lemma_small_mod(a as nat, p() as nat);
    assert((a * (q - 1)) % p() == 0) by {
        assert(a * (q - 1) == a * q - a) by (nonlinear_arith);
        vstd::arithmetic::div_mod::lemma_sub_mod_noop(a * q, a, p());
    }
    lemma_euclid(a, q - 1);
    vstd::arithmetic::div_mod::lemma_add_mod_noop(q - 1, 1, p());
    vstd::arithmetic::div_mod::lemma_small_mod(1, p() as nat);
}

/// The inverse of a nonzero element multiplies with it to one.
pub proof fn lemma_inverse_value(a: int)
    requires
        0 < a < p(),
    ensures
        (a * inverse_value(a)) % p() == 1,
{
    lemma_fermat(a);
    let q = pow(a, (p() - 2) as nat);
    assert(pow(a, (p() - 1) as nat) == a * q);
    vstd::arithmetic::div_mod::lemma_mul_mod_noop_right(a, q, p());
}

} // verus!
