//! Primes, and the test that proves a number prime from a primitive root:
//! if the powers of `g` modulo `n` return to one at `n - 1` and at no
//! proper quotient of `n - 1` by a prime, then `n` is prime.
//!
//! A prime is taken here in the sense that matters for a field: a number
//! that divides a product only where it divides a factor.
use vstd::prelude::*;
use vstd::arithmetic::div_mod::{
    lemma_fundamental_div_mod, lemma_mod_multiples_basic, lemma_mul_mod_noop_left,
    lemma_mul_mod_noop_right, lemma_small_mod, lemma_sub_mod_noop,
};
use vstd::relations::injective_on;
use vstd::set_lib::{lemma_int_range, lemma_map_size, lemma_subset_equality, set_int_range};

verus! {

/// The product of two numbers modulo `n`.
pub open spec fn mulmod(a: nat, b: nat, n: nat) -> nat {
    (a * b) % n
}

/// The power `g^e` modulo `n`.
#[verifier::opaque]
pub open spec fn pow_mod(g: nat, e: nat, n: nat) -> nat
    decreases e,
{
    if e == 0 {
        1nat % n
    } else {
        mulmod(pow_mod(g, (e - 1) as nat, n), g, n)
    }
}

/// `p` is at least two and divides a product only where it divides a
/// factor.
pub open spec fn is_prime(p: nat) -> bool {
    &&& p >= 2
    &&& forall|a: nat, b: nat| #[trigger] mulmod(a, b, p) == 0 ==> a % p == 0 || b % p == 0
}

/// The product of the numbers of a sequence.
pub open spec fn product(s: Seq<nat>) -> nat
    decreases s.len(),
{
    if s.len() == 0 {
        1
    } else {
        product(s.drop_last()) * s.last()
    }
}

/// Every number of the sequence is prime.
pub open spec fn all_prime(s: Seq<nat>) -> bool {
    forall|j: int| 0 <= j < s.len() ==> is_prime(#[trigger] s[j])
}

/// The product modulo `n` does not depend on the order of the factors.
pub proof fn lemma_mulmod_comm(a: nat, b: nat, n: nat)
    ensures
        mulmod(a, b, n) == mulmod(b, a, n),
{
    assert(a * b == b * a) by (nonlinear_arith);
}

/// The product modulo `n` does not depend on how three factors are grouped.
pub proof fn lemma_mulmod_assoc(a: nat, b: nat, c: nat, n: nat)
    requires
        n > 0,
    ensures
        mulmod(mulmod(a, b, n), c, n) == mulmod(a, mulmod(b, c, n), n),
{
    let (x, y, z, m) = (a as int, b as int, c as int, n as int);
    lemma_mul_mod_noop_left(x * y, z, m);
    lemma_mul_mod_noop_right(x, y * z, m);
    assert((x * y) * z == x * (y * z)) by (nonlinear_arith);
}

/// A factor may be reduced before the product is.
pub proof fn lemma_mulmod_reduce(a: nat, b: nat, n: nat)
    requires
        n > 0,
    ensures
        mulmod(a % n, b, n) == mulmod(a, b, n),
        mulmod(b, a % n, n) == mulmod(b, a, n),
{
    lemma_mul_mod_noop_left(a as int, b as int, n as int);
    lemma_mul_mod_noop_right(b as int, a as int, n as int);
}

/// One and zero as factors.
pub proof fn lemma_mulmod_unit(a: nat, n: nat)
    requires
        n >= 2,
    ensures
        mulmod(1, a, n) == a % n,
        mulmod(a, 1, n) == a % n,
        mulmod(0, a, n) == 0,
        mulmod(a, 0, n) == 0,
{
    assert(1 * a == a && a * 1 == a && 0 * a == 0 && a * 0 == 0) by (nonlinear_arith);
}

/// A power modulo `n` is below `n`.
pub proof fn lemma_pow_range(g: nat, e: nat, n: nat)
    requires
        n > 0,
    ensures
        pow_mod(g, e, n) < n,
{
    reveal(pow_mod);}

/// The power at a sum of exponents is the product of the powers.
pub proof fn lemma_pow_add(g: nat, a: nat, b: nat, n: nat)
    requires
        n >= 2,
    ensures
        pow_mod(g, a + b, n) == mulmod(pow_mod(g, a, n), pow_mod(g, b, n), n),
    decreases b,
{
    reveal(pow_mod);    lemma_pow_range(g, a, n);
    lemma_small_mod(1, n);
    if b == 0 {
        lemma_mulmod_unit(pow_mod(g, a, n), n);
        lemma_small_mod(pow_mod(g, a, n), n);
    } else {
        let c = (b - 1) as nat;
        lemma_pow_add(g, a, c, n);
        lemma_mulmod_assoc(pow_mod(g, a, n), pow_mod(g, c, n), g, n);
        assert(pow_mod(g, a + b, n) == mulmod(pow_mod(g, (a + c) as nat, n), g, n));
    }
}

/// Every power of one is one.
pub proof fn lemma_pow_of_one(e: nat, n: nat)
    requires
        n >= 2,
    ensures
        pow_mod(1, e, n) == 1,
    decreases e,
{
    reveal(pow_mod);    lemma_small_mod(1, n);
    if e != 0 {
        lemma_pow_of_one((e - 1) as nat, n);
        lemma_mulmod_unit(1, n);
    }
}

/// A power of a power is the power at the product of the exponents.
pub proof fn lemma_pow_mul(g: nat, a: nat, b: nat, n: nat)
    requires
        n >= 2,
    ensures
        pow_mod(pow_mod(g, a, n), b, n) == pow_mod(g, a * b, n),
    decreases b,
{
    reveal(pow_mod);    if b == 0 {
        assert(a * 0 == 0) by (nonlinear_arith);
    } else {
        let c = (b - 1) as nat;
        lemma_pow_mul(g, a, c, n);
        lemma_pow_add(g, a * c, a, n);
        assert(a * c + a == a * b) by (nonlinear_arith)
            requires
                c + 1 == b,
        ;
    }
}

/// Where the power at `d` is one, so is the power at every multiple of
/// `d`.
pub proof fn lemma_pow_multiple(g: nat, d: nat, m: nat, n: nat)
    requires
        n >= 2,
        pow_mod(g, d, n) == 1,
    ensures
        pow_mod(g, d * m, n) == 1,
{
    lemma_pow_mul(g, d, m, n);
    lemma_pow_of_one(m, n);
}

/// `d` is the least exponent from one on at which the power of `g` is
/// one.
pub open spec fn is_order(g: nat, n: nat, d: nat) -> bool {
    &&& d >= 1
    &&& pow_mod(g, d, n) == 1
    &&& forall|k: nat| 1 <= k < d ==> #[trigger] pow_mod(g, k, n) != 1
}

/// Where some power of `g` from the first on is one, there is a least.
pub proof fn lemma_order_exists(g: nat, n: nat, big: nat, from: nat) -> (d: nat)
    requires
        1 <= from <= big,
        pow_mod(g, big, n) == 1,
        forall|k: nat| 1 <= k < from ==> #[trigger] pow_mod(g, k, n) != 1,
    ensures
        is_order(g, n, d),
        d <= big,
    decreases big - from,
{
    if pow_mod(g, from, n) == 1 {
        from
    } else {
        lemma_order_exists(g, n, big, from + 1)
    }
}

/// The least exponent divides every exponent at which the power is one.
pub proof fn lemma_order_divides(g: nat, n: nat, d: nat, e: nat)
    requires
        n >= 2,
        is_order(g, n, d),
        pow_mod(g, e, n) == 1,
    ensures
        e % d == 0,
        e == d * (e / d),
{
    let q = e / d;
    let r = e % d;
    lemma_fundamental_div_mod(e as int, d as int);
    lemma_pow_multiple(g, d, q, n);
    lemma_pow_add(g, d * q, r, n);
    lemma_pow_range(g, r, n);
    lemma_mulmod_unit(pow_mod(g, r, n), n);
    lemma_small_mod(pow_mod(g, r, n), n);
    assert(pow_mod(g, r, n) == 1);
}

/// A number from two on that divides a product of primes is divisible by
/// one of them.
pub proof fn lemma_divisor_has_factor(m: nat, c: nat, s: Seq<nat>) -> (i: int)
    requires
        m >= 2,
        product(s) == m * c,
        all_prime(s),
    ensures
        0 <= i < s.len(),
        m % s[i] == 0,
    decreases s.len(),
{
    if s.len() == 0 {
        assert(m * c != 1) by (nonlinear_arith)
            requires
                m >= 2,
        ;
        0
    } else {
        let f = s.last();
        let rest = s.drop_last();
        let last = s.len() - 1;
        assert(is_prime(s[last]));
        lemma_mod_multiples_basic(product(rest) as int, f as int);
        assert(mulmod(m, c, f) == 0);
        if m % f == 0 {
            last
        } else {
            let k = c / f;
            lemma_fundamental_div_mod(c as int, f as int);
            assert(product(rest) == m * k) by (nonlinear_arith)
                requires
                    product(rest) * f == m * c,
                    c == f * k,
                    f >= 2,
            ;
            assert(all_prime(rest)) by {
                assert forall|j: int| 0 <= j < rest.len() implies is_prime(#[trigger] rest[j]) by {
                    assert(rest[j] == s[j]);
                }
            }
            lemma_divisor_has_factor(m, k, rest)
        }
    }
}

/// The powers of `g` below the least exponent are all different, and none
/// of them is zero.
pub proof fn lemma_powers_distinct(g: nat, n: nat, d: nat, i: nat, j: nat)
    requires
        n >= 2,
        is_order(g, n, d),
        i < j < d,
    ensures
        pow_mod(g, i, n) != pow_mod(g, j, n),
        pow_mod(g, i, n) != 0,
        mulmod(pow_mod(g, i, n), pow_mod(g, (d - i) as nat, n), n) == 1,
{
    let rest = (d - j) as nat;
    lemma_pow_add(g, j, rest, n);
    lemma_pow_add(g, i, rest, n);
    lemma_pow_add(g, i, (d - i) as nat, n);
    lemma_mulmod_unit(pow_mod(g, (d - i) as nat, n), n);
    assert(1 <= i + rest < d);
}

/// Where the least exponent is `n - 1`, every number from one to `n - 1`
/// is a power of `g`, and so has an inverse modulo `n`.
pub proof fn lemma_powers_cover(g: nat, n: nat, x: nat) -> (y: nat)
    requires
        n >= 2,
        is_order(g, n, (n - 1) as nat),
        1 <= x < n,
    ensures
        mulmod(y, x, n) == 1,
{
    reveal(pow_mod);    let d = (n - 1) as nat;
    let f = |k: int| pow_mod(g, k as nat, n) as int;
    let domain = set_int_range(0, d as int);
    let image = domain.map(f);
    let target = set_int_range(1, n as int);
    lemma_int_range(0, d as int);
    lemma_int_range(1, n as int);
    assert(injective_on(f, domain)) by {
        assert forall|a: int, b: int|
            domain.contains(a) && domain.contains(b) && #[trigger] f(a) == #[trigger] f(
                b,
            ) implies a == b by {
            if a < b {
                lemma_powers_distinct(g, n, d, a as nat, b as nat);
            } else if b < a {
                lemma_powers_distinct(g, n, d, b as nat, a as nat);
            }
        }
    }
    lemma_map_size(domain, image, f);
    assert(image.subset_of(target)) by {
        assert forall|v: int| image.contains(v) implies target.contains(v) by {
            let k = choose|k: int| domain.contains(k) && f(k) == v;
            lemma_pow_range(g, k as nat, n);
            if k + 1 < d {
                lemma_powers_distinct(g, n, d, k as nat, (k + 1) as nat);
            } else if k >= 1 {
                lemma_powers_distinct(g, n, d, 0, k as nat);
                lemma_pow_zero_exponent(g, k as nat, d, n);
            } else {
                lemma_small_mod(1, n);
            }
        }
    }
    lemma_subset_equality(image, target);
    assert(image.contains(x as int));
    let k = choose|k: int| domain.contains(k) && f(k) == x as int;
    let y = pow_mod(g, (d - k) as nat, n);
    lemma_pow_add(g, k as nat, (d - k) as nat, n);
    lemma_mulmod_comm(x, y, n);
    y
}

/// A power of `g` that is zero stays zero from there on, and so cannot
/// come before the power that is one.
pub proof fn lemma_pow_zero_exponent(g: nat, k: nat, d: nat, n: nat)
    requires
        n >= 2,
        k <= d,
        pow_mod(g, d, n) == 1,
    ensures
        pow_mod(g, k, n) != 0,
{
    reveal(pow_mod);    lemma_pow_add(g, k, (d - k) as nat, n);
    lemma_mulmod_unit(pow_mod(g, (d - k) as nat, n), n);
}

/// The test. If the factors of `n - 1` are primes, the power of `g` at
/// `n - 1` is one, and the power at the quotient of `n - 1` by any of the
/// factors is not, then `n` is prime.
pub proof fn lemma_primitive_root(n: nat, g: nat, s: Seq<nat>)
    requires
        n >= 2,
        product(s) == n - 1,
        all_prime(s),
        pow_mod(g, (n - 1) as nat, n) == 1,
        forall|j: int| 0 <= j < s.len() ==> pow_mod(g, (n - 1) as nat / #[trigger] s[j], n) != 1,
    ensures
        is_prime(n),
{
    let top = (n - 1) as nat;
    let d = lemma_order_exists(g, n, top, 1);
    lemma_order_divides(g, n, d, top);
    let m = top / d;
    if d < top {
        assert(m >= 2) by (nonlinear_arith)
            requires
                top == d * m,
                d < top,
                d >= 1,
        ;
        assert(product(s) == m * d) by (nonlinear_arith)
            requires
                product(s) == top,
                top == d * m,
        ;
        let i = lemma_divisor_has_factor(m, d, s);
        let f = s[i];
        assert(is_prime(s[i]));
        let t = m / f;
        lemma_fundamental_div_mod(m as int, f as int);
        assert(top == f * (d * t)) by (nonlinear_arith)
            requires
                top == d * m,
                m == f * t,
        ;
        assert(top / f == d * t) by {
            lemma_fundamental_div_mod(top as int, f as int);
            lemma_mod_multiples_basic((d * t) as int, f as int);
            assert((d * t) * f == f * (d * t)) by (nonlinear_arith);
            assert(f * (top / f) == f * (d * t));
            assert(top / f == d * t) by (nonlinear_arith)
                requires
                    f * (top / f) == f * (d * t),
                    f >= 2,
            ;
        }
        lemma_pow_multiple(g, d, t, n);
        assert(false);
    }
    assert forall|a: nat, b: nat| #[trigger] mulmod(a, b, n) == 0 implies a % n == 0 || b % n
        == 0 by {
        if a % n != 0 {
            let x = a % n;
            let y = lemma_powers_cover(g, n, x);
            lemma_mulmod_reduce(a, b, n);
            lemma_mulmod_assoc(y, x, b, n);
            lemma_mulmod_unit(b, n);
            lemma_mulmod_unit(y, n);
        }
    }
}

/// Two is prime: a product is even only where a factor is.
pub proof fn lemma_two_is_prime()
    ensures
        is_prime(2),
{
    assert forall|a: nat, b: nat| #[trigger] mulmod(a, b, 2) == 0 implies a % 2 == 0 || b % 2
        == 0 by {
        if a % 2 == 1 && b % 2 == 1 {
            lemma_mulmod_reduce(a, b, 2);
            lemma_mulmod_reduce(b, 1, 2);
            assert(mulmod(1, 1, 2) == 1) by {
                assert(1 * 1 == 1) by (nonlinear_arith);
            }
        }
    }
}

/// The first power of `g` is `g` reduced.
pub proof fn lemma_pow_first(g: nat, n: nat, x: nat)
    requires
        n >= 2,
        x == g % n,
    ensures
        pow_mod(g, 1, n) == x,
{
    reveal(pow_mod);    lemma_small_mod(1, n);
    lemma_mulmod_unit(g, n);
    assert(pow_mod(g, 1, n) == mulmod(pow_mod(g, 0, n), g, n));
}

/// The power at twice an exponent is the square of the power.
pub proof fn lemma_pow_square(g: nat, n: nat, e: nat, x: nat, y: nat)
    requires
        n >= 2,
        pow_mod(g, e, n) == x,
        y == mulmod(x, x, n),
    ensures
        pow_mod(g, 2 * e, n) == y,
{
    lemma_pow_add(g, e, e, n);
}

/// The power at the next exponent is the power times `g`.
pub proof fn lemma_pow_times(g: nat, n: nat, e: nat, x: nat, y: nat)
    requires
        n >= 2,
        pow_mod(g, e, n) == x,
        y == mulmod(x, g, n),
    ensures
        pow_mod(g, e + 1, n) == y,
{
    reveal(pow_mod);}

/// The power at `b` of the power at `a` is the power at `a b`.
pub proof fn lemma_pow_raise(g: nat, n: nat, a: nat, x: nat, b: nat, y: nat, c: nat)
    requires
        n >= 2,
        pow_mod(g, a, n) == x,
        pow_mod(x, b, n) == y,
        c == a * b,
    ensures
        pow_mod(g, c, n) == y,
{
    lemma_pow_mul(g, a, b, n);
}

/// The factors in `s` are primes, and the power of `g` at the quotient of
/// `n - 1` by any of them is not one.
pub open spec fn witnessed(n: nat, g: nat, s: Seq<nat>) -> bool {
    &&& all_prime(s)
    &&& forall|j: int| 0 <= j < s.len() ==> pow_mod(g, (n - 1) as nat / #[trigger] s[j], n) != 1
}

/// No factor, nothing to witness.
pub proof fn lemma_witnessed_none(n: nat, g: nat)
    ensures
        witnessed(n, g, Seq::<nat>::empty()),
        product(Seq::<nat>::empty()) == 1,
{
}

/// One more prime factor `q`, with the power of `g` at `(n - 1) / q`.
pub proof fn lemma_witnessed_more(n: nat, g: nat, s: Seq<nat>, q: nat, e: nat, x: nat, t: nat)
    requires
        witnessed(n, g, s),
        is_prime(q),
        e == (n - 1) as nat / q,
        pow_mod(g, e, n) == x,
        x != 1,
        t == product(s) * q,
    ensures
        witnessed(n, g, s.push(q)),
        product(s.push(q)) == t,
{
    let r = s.push(q);
    assert(r.drop_last() =~= s);
    assert forall|j: int| 0 <= j < r.len() implies is_prime(#[trigger] r[j]) && pow_mod(
        g,
        (n - 1) as nat / r[j],
        n,
    ) != 1 by {
        if j < s.len() {
            assert(r[j] == s[j]);
        }
    }
}

/// The test, on factors that have been witnessed.
pub proof fn lemma_witnessed_prime(n: nat, g: nat, s: Seq<nat>)
    requires
        n >= 2,
        witnessed(n, g, s),
        product(s) == n - 1,
        pow_mod(g, (n - 1) as nat, n) == 1,
    ensures
        is_prime(n),
{
    lemma_primitive_root(n, g, s);
}

/// A prime has no divisor between one and itself.
pub proof fn lemma_prime_has_no_divisor(p: nat, d: nat)
    requires
        is_prime(p),
        1 < d < p,
    ensures
        p % d != 0,
{
    if p % d == 0 {
        let e = p / d;
        lemma_fundamental_div_mod(p as int, d as int);
        assert(1 <= e < p) by (nonlinear_arith)
            requires
                p == d * e,
                1 < d < p,
        ;
        assert(mulmod(d, e, p) == 0) by {
            lemma_mod_multiples_basic(1, p as int);
        }
        lemma_small_mod(d, p);
        lemma_small_mod(e, p);
    }
}

/// Modulo a prime, every number that the prime does not divide has an
/// inverse.
pub proof fn lemma_prime_inverse(p: nat, a: nat) -> (y: nat)
    requires
        is_prime(p),
        a % p != 0,
    ensures
        y < p,
        mulmod(a, y, p) == 1,
{
    let f = |k: int| mulmod(a, k as nat, p) as int;
    let domain = set_int_range(0, p as int);
    let image = domain.map(f);
    lemma_int_range(0, p as int);
    assert(injective_on(f, domain)) by {
        assert forall|u: int, v: int|
            domain.contains(u) && domain.contains(v) && #[trigger] f(u) == #[trigger] f(
                v,
            ) implies u == v by {
            if u < v {
                lemma_multiples_differ(p, a, u as nat, v as nat);
            } else if v < u {
                lemma_multiples_differ(p, a, v as nat, u as nat);
            }
        }
    }
    lemma_map_size(domain, image, f);
    assert(image.subset_of(domain));
    lemma_subset_equality(image, domain);
    assert(image.contains(1));
    let k = choose|k: int| domain.contains(k) && f(k) == 1;
    k as nat
}

/// Modulo a prime, the multiples of a number that the prime does not
/// divide by two different numbers below the prime are different.
pub proof fn lemma_multiples_differ(p: nat, a: nat, u: nat, v: nat)
    requires
        is_prime(p),
        a % p != 0,
        u < v < p,
    ensures
        mulmod(a, u, p) != mulmod(a, v, p),
{
    if mulmod(a, u, p) == mulmod(a, v, p) {
        let d = (v - u) as nat;
        let (x, y, z) = ((a * v) as int, (a * u) as int, (a * d) as int);
        assert(x - y == z) by (nonlinear_arith)
            requires
                x == a * v,
                y == a * u,
                z == a * d,
                d == v - u,
        ;
        lemma_sub_mod_noop(x, y, p as int);
        assert((x % (p as int)) - (y % (p as int)) == 0);
        assert(z % (p as int) == 0);
        assert(mulmod(a, d, p) == 0);
        lemma_small_mod(d, p);
    }
}

} // verus!
