//! The certificate that the modulus of the native field is prime: for the
//! modulus and for every prime that the certificate rests on, a primitive
//! root, the prime factors of the prime less one, and the powers of the
//! root that the test asks for, each reached by squaring and multiplying
//! one step at a time.
use vstd::prelude::*;
use crate::primality::{
    is_prime, lemma_pow_first, lemma_pow_raise, lemma_pow_square, lemma_pow_times,
    lemma_two_is_prime, lemma_witnessed_more, lemma_witnessed_none, lemma_witnessed_prime,
    pow_mod,
};

verus! {

// The prime 3.
// One less is 2; the primitive root is 2.

proof fn lemma_3_power_1()
    ensures
        pow_mod(2nat, 1nat, 3nat) == 2nat,
{
    let n: nat = 3nat;
    let g: nat = 2nat;
    let e0: nat = 1nat;
    let x0: nat = 2nat;
    lemma_pow_first(g, n, x0);
}

proof fn lemma_3_power_2()
    ensures
        pow_mod(2nat, 2nat, 3nat) == 1nat,
{
    let n: nat = 3nat;
    let g: nat = 2nat;
    let e0: nat = 1nat;
    let x0: nat = 2nat;
    lemma_pow_first(g, n, x0);
    let x1: nat = 1nat;
    let e1: nat = 2 * e0;
    lemma_pow_square(g, n, e0, x0, x1);
}

proof fn lemma_3_raise_1()
    ensures
        pow_mod(2nat, 2nat, 3nat) == 1nat,
{
    lemma_3_power_1();
    lemma_3_power_2();
    lemma_pow_raise(2nat, 3nat, 1nat, 2nat, 2nat, 1nat, 2nat);
}

/// `3` is prime.
pub proof fn lemma_prime_3()
    ensures
        is_prime(3nat),
{
    let n: nat = 3nat;
    let g: nat = 2nat;
    lemma_two_is_prime();
    lemma_3_power_1();
    lemma_3_raise_1();
    let s0: Seq<nat> = Seq::<nat>::empty();
    lemma_witnessed_none(n, g);
    let s1: Seq<nat> = s0.push(2nat);
    lemma_witnessed_more(n, g, s0, 2nat, 1nat, 2nat, 2nat);
    lemma_witnessed_prime(n, g, s1);
}

// The prime 5.
// One less is 2^2; the primitive root is 2.

proof fn lemma_5_power_1()
    ensures
        pow_mod(2nat, 2nat, 5nat) == 4nat,
{
    let n: nat = 5nat;
    let g: nat = 2nat;
    let e0: nat = 1nat;
    let x0: nat = 2nat;
    lemma_pow_first(g, n, x0);
    let x1: nat = 4nat;
    let e1: nat = 2 * e0;
    lemma_pow_square(g, n, e0, x0, x1);
}

proof fn lemma_5_power_2()
    ensures
        pow_mod(4nat, 2nat, 5nat) == 1nat,
{
    let n: nat = 5nat;
    let g: nat = 4nat;
    let e0: nat = 1nat;
    let x0: nat = 4nat;
    lemma_pow_first(g, n, x0);
    let x1: nat = 1nat;
    let e1: nat = 2 * e0;
    lemma_pow_square(g, n, e0, x0, x1);
}

proof fn lemma_5_raise_1()
    ensures
        pow_mod(2nat, 4nat, 5nat) == 1nat,
{
    lemma_5_power_1();
    lemma_5_power_2();
    lemma_pow_raise(2nat, 5nat, 2nat, 4nat, 2nat, 1nat, 4nat);
}

/// `5` is prime.
pub proof fn lemma_prime_5()
    ensures
        is_prime(5nat),
{
    let n: nat = 5nat;
    let g: nat = 2nat;
    lemma_two_is_prime();
    lemma_5_power_1();
    lemma_5_raise_1();
    let s0: Seq<nat> = Seq::<nat>::empty();
    lemma_witnessed_none(n, g);
    let s1: Seq<nat> = s0.push(2nat);
    lemma_witnessed_more(n, g, s0, 2nat, 2nat, 4nat, 2nat);
    let s2: Seq<nat> = s1.push(2nat);
    lemma_witnessed_more(n, g, s1, 2nat, 2nat, 4nat, 4nat);
    lemma_witnessed_prime(n, g, s2);
}

// The prime 7.
// One less is 2 * 3; the primitive root is 3.

proof fn lemma_7_power_1()
    ensures
        pow_mod(3nat, 1nat, 7nat) == 3nat,
{
    let n: nat = 7nat;
    let g: nat = 3nat;
    let e0: nat = 1nat;
    let x0: nat = 3nat;
    lemma_pow_first(g, n, x0);
}

proof fn lemma_7_power_2()
    ensures
        pow_mod(3nat, 2nat, 7nat) == 2nat,
{
    let n: nat = 7nat;
    let g: nat = 3nat;
    let e0: nat = 1nat;
    let x0: nat = 3nat;
    lemma_pow_first(g, n, x0);
    let x1: nat = 2nat;
    let e1: nat = 2 * e0;
    lemma_pow_square(g, n, e0, x0, x1);
}

proof fn lemma_7_raise_1()
    ensures
        pow_mod(3nat, 2nat, 7nat) == 2nat,
{
    lemma_7_power_1();
    lemma_7_power_2();
    lemma_pow_raise(3nat, 7nat, 1nat, 3nat, 2nat, 2nat, 2nat);
}

proof fn lemma_7_power_3()
    ensures
        pow_mod(3nat, 3nat, 7nat) == 6nat,
{
    let n: nat = 7nat;
    let g: nat = 3nat;
    let e0: nat = 1nat;
    let x0: nat = 3nat;
    lemma_pow_first(g, n, x0);
    let x1: nat = 2nat;
    let e1: nat = 2 * e0;
    lemma_pow_square(g, n, e0, x0, x1);
    let x2: nat = 6nat;
    let e2: nat = e1 + 1;
    lemma_pow_times(g, n, e1, x1, x2);
}

proof fn lemma_7_raise_2()
    ensures
        pow_mod(3nat, 3nat, 7nat) == 6nat,
{
    lemma_7_power_1();
    lemma_7_power_3();
    lemma_pow_raise(3nat, 7nat, 1nat, 3nat, 3nat, 6nat, 3nat);
}

proof fn lemma_7_power_4()
    ensures
        pow_mod(6nat, 2nat, 7nat) == 1nat,
{
    let n: nat = 7nat;
    let g: nat = 6nat;
    let e0: nat = 1nat;
    let x0: nat = 6nat;
    lemma_pow_first(g, n, x0);
    let x1: nat = 1nat;
    let e1: nat = 2 * e0;
    lemma_pow_square(g, n, e0, x0, x1);
}

proof fn lemma_7_raise_3()
    ensures
        pow_mod(3nat, 6nat, 7nat) == 1nat,
{
    lemma_7_raise_2();
    lemma_7_power_4();
    lemma_pow_raise(3nat, 7nat, 3nat, 6nat, 2nat, 1nat, 6nat);
}

/// `7` is prime.
pub proof fn lemma_prime_7()
    ensures
        is_prime(7nat),
{
    let n: nat = 7nat;
    let g: nat = 3nat;
    lemma_two_is_prime();
    lemma_7_raise_2();
    lemma_prime_3();
    lemma_7_raise_1();
    lemma_7_raise_3();
    let s0: Seq<nat> = Seq::<nat>::empty();
    lemma_witnessed_none(n, g);
    let s1: Seq<nat> = s0.push(2nat);
    lemma_witnessed_more(n, g, s0, 2nat, 3nat, 6nat, 2nat);
    let s2: Seq<nat> = s1.push(3nat);
    lemma_witnessed_more(n, g, s1, 3nat, 2nat, 2nat, 6nat);
    lemma_witnessed_prime(n, g, s2);
}

// The prime 11.
// One less is 2 * 5; the primitive root is 2.

proof fn lemma_11_power_1()
    ensures
        pow_mod(2nat, 1nat, 11nat) == 2nat,
{
    let n: nat = 11nat;
    let g: nat = 2nat;
    let e0: nat = 1nat;
    let x0: nat = 2nat;
    lemma_pow_first(g, n, x0);
}

proof fn lemma_11_power_2()
    ensures
        pow_mod(2nat, 2nat, 11nat) == 4nat,
{
    let n: nat = 11nat;
    let g: nat = 2nat;
    let e0: nat = 1nat;
    let x0: nat = 2nat;
    lemma_pow_first(g, n, x0);
    let x1: nat = 4nat;
    let e1: nat = 2 * e0;
    lemma_pow_square(g, n, e0, x0, x1);
}

proof fn lemma_11_raise_1()
    ensures
        pow_mod(2nat, 2nat, 11nat) == 4nat,
{
    lemma_11_power_1();
    lemma_11_power_2();
    lemma_pow_raise(2nat, 11nat, 1nat, 2nat, 2nat, 4nat, 2nat);
}

proof fn lemma_11_power_3()
    ensures
        pow_mod(2nat, 5nat, 11nat) == 10nat,
{
    let n: nat = 11nat;
    let g: nat = 2nat;
    let e0: nat = 1nat;
    let x0: nat = 2nat;
    lemma_pow_first(g, n, x0);
    let x1: nat = 4nat;
    let e1: nat = 2 * e0;
    lemma_pow_square(g, n, e0, x0, x1);
    let x2: nat = 5nat;
    let e2: nat = 2 * e1;
    lemma_pow_square(g, n, e1, x1, x2);
    let x3: nat = 10nat;
    let e3: nat = e2 + 1;
    lemma_pow_times(g, n, e2, x2, x3);
}

proof fn lemma_11_raise_2()
    ensures
        pow_mod(2nat, 5nat, 11nat) == 10nat,
{
    lemma_11_power_1();
    lemma_11_power_3();
    lemma_pow_raise(2nat, 11nat, 1nat, 2nat, 5nat, 10nat, 5nat);
}

proof fn lemma_11_power_4()
    ensures
        pow_mod(10nat, 2nat, 11nat) == 1nat,
{
    let n: nat = 11nat;
    let g: nat = 10nat;
    let e0: nat = 1nat;
    let x0: nat = 10nat;
    lemma_pow_first(g, n, x0);
    let x1: nat = 1nat;
    let e1: nat = 2 * e0;
    lemma_pow_square(g, n, e0, x0, x1);
}

proof fn lemma_11_raise_3()
    ensures
        pow_mod(2nat, 10nat, 11nat) == 1nat,
{
    lemma_11_raise_2();
    lemma_11_power_4();
    lemma_pow_raise(2nat, 11nat, 5nat, 10nat, 2nat, 1nat, 10nat);
}

/// `11` is prime.
pub proof fn lemma_prime_11()
    ensures
        is_prime(11nat),
{
    let n: nat = 11nat;
    let g: nat = 2nat;
    lemma_two_is_prime();
    lemma_11_raise_2();
    lemma_prime_5();
    lemma_11_raise_1();
    lemma_11_raise_3();
    let s0: Seq<nat> = Seq::<nat>::empty();
    lemma_witnessed_none(n, g);
    let s1: Seq<nat> = s0.push(2nat);
    lemma_witnessed_more(n, g, s0, 2nat, 5nat, 10nat, 2nat);
    let s2: Seq<nat> = s1.push(5nat);
    lemma_witnessed_more(n, g, s1, 5nat, 2nat, 4nat, 10nat);
    lemma_witnessed_prime(n, g, s2);
}

// The prime 13.
// One less is 2^2 * 3; the primitive root is 2.

proof fn lemma_13_power_1()
    ensures
        pow_mod(2nat, 2nat, 13nat) == 4nat,
{
    let n: nat = 13nat;
    let g: nat = 2nat;
    let e0: nat = 1nat;
    let x0: nat = 2nat;
    lemma_pow_first(g, n, x0);
    let x1: nat = 4nat;
    let e1: nat = 2 * e0;
    lemma_pow_square(g, n, e0, x0, x1);
}

proof fn lemma_13_power_2()
    ensures
        pow_mod(4nat, 2nat, 13nat) == 3nat,
{
    let n: nat = 13nat;
    let g: nat = 4nat;
    let e0: nat = 1nat;
    let x0: nat = 4nat;
    lemma_pow_first(g, n, x0);
    let x1: nat = 3nat;
    let e1: nat = 2 * e0;
    lemma_pow_square(g, n, e0, x0, x1);
}

proof fn lemma_13_raise_1()
    ensures
        pow_mod(2nat, 4nat, 13nat) == 3nat,
{
    lemma_13_power_1();
    lemma_13_power_2();
    lemma_pow_raise(2nat, 13nat, 2nat, 4nat, 2nat, 3nat, 4nat);
}

proof fn lemma_13_power_3()
    ensures
        pow_mod(4nat, 3nat, 13nat) == 12nat,
{
    let n: nat = 13nat;
    let g: nat = 4nat;
    let e0: nat = 1nat;
    let x0: nat = 4nat;
    lemma_pow_first(g, n, x0);
    let x1: nat = 3nat;
    let e1: nat = 2 * e0;
    lemma_pow_square(g, n, e0, x0, x1);
    let x2: nat = 12nat;
    let e2: nat = e1 + 1;
    lemma_pow_times(g, n, e1, x1, x2);
}

proof fn lemma_13_raise_2()
    ensures
        pow_mod(2nat, 6nat, 13nat) == 12nat,
{
    lemma_13_power_1();
    lemma_13_power_3();
    lemma_pow_raise(2nat, 13nat, 2nat, 4nat, 3nat, 12nat, 6nat);
}

proof fn lemma_13_power_4()
    ensures
        pow_mod(12nat, 2nat, 13nat) == 1nat,
{
    let n: nat = 13nat;
    let g: nat = 12nat;
    let e0: nat = 1nat;
    let x0: nat = 12nat;
    lemma_pow_first(g, n, x0);
    let x1: nat = 1nat;
    let e1: nat = 2 * e0;
    lemma_pow_square(g, n, e0, x0, x1);
}

proof fn lemma_13_raise_3()
    ensures
        pow_mod(2nat, 12nat, 13nat) == 1nat,
{
    lemma_13_raise_2();
    lemma_13_power_4();
    lemma_pow_raise(2nat, 13nat, 6nat, 12nat, 2nat, 1nat, 12nat);
}

/// `13` is prime.
pub proof fn lemma_prime_13()
    ensures
        is_prime(13nat),
{
    let n: nat = 13nat;
    let g: nat = 2nat;
    lemma_two_is_prime();
    lemma_13_raise_2();
    lemma_prime_3();
    lemma_13_raise_1();
    lemma_13_raise_3();
    let s0: Seq<nat> = Seq::<nat>::empty();
    lemma_witnessed_none(n, g);
    let s1: Seq<nat> = s0.push(2nat);
    lemma_witnessed_more(n, g, s0, 2nat, 6nat, 12nat, 2nat);
    let s2: Seq<nat> = s1.push(2nat);
    lemma_witnessed_more(n, g, s1, 2nat, 6nat, 12nat, 4nat);
    let s3: Seq<nat> = s2.push(3nat);
    lemma_witnessed_more(n, g, s2, 3nat, 4nat, 3nat, 12nat);
    lemma_witnessed_prime(n, g, s3);
}

// The prime 17.
// One less is 2^4; the primitive root is 3.

proof fn lemma_17_power_1()
    ensures
        pow_mod(3nat, 8nat, 17nat) == 16nat,
{
    let n: nat = 17nat;
    let g: nat = 3nat;
    let e0: nat = 1nat;
    let x0: nat = 3nat;
    lemma_pow_first(g, n, x0);
    let x1: nat = 9nat;
    let e1: nat = 2 * e0;
    lemma_pow_square(g, n, e0, x0, x1);
    let x2: nat = 13nat;
    let e2: nat = 2 * e1;
    lemma_pow_square(g, n, e1, x1, x2);
    let x3: nat = 16nat;
    let e3: nat = 2 * e2;
    lemma_pow_square(g, n, e2, x2, x3);
}

proof fn lemma_17_power_2()
    ensures
        pow_mod(16nat, 2nat, 17nat) == 1nat,
{
    let n: nat = 17nat;
    let g: nat = 16nat;
    let e0: nat = 1nat;
    let x0: nat = 16nat;
    lemma_pow_first(g, n, x0);
    let x1: nat = 1nat;
    let e1: nat = 2 * e0;
    lemma_pow_square(g, n, e0, x0, x1);
}

proof fn lemma_17_raise_1()
    ensures
        pow_mod(3nat, 16nat, 17nat) == 1nat,
{
    lemma_17_power_1();
    lemma_17_power_2();
    lemma_pow_raise(3nat, 17nat, 8nat, 16nat, 2nat, 1nat, 16nat);
}

/// `17` is prime.
pub proof fn lemma_prime_17()
    ensures
        is_prime(17nat),
{
    let n: nat = 17nat;
    let g: nat = 3nat;
    lemma_two_is_prime();
    lemma_17_power_1();
    lemma_17_raise_1();
    let s0: Seq<nat> = Seq::<nat>::empty();
    lemma_witnessed_none(n, g);
    let s1: Seq<nat> = s0.push(2nat);
    lemma_witnessed_more(n, g, s0, 2nat, 8nat, 16nat, 2nat);
    let s2: Seq<nat> = s1.push(2nat);
    lemma_witnessed_more(n, g, s1, 2nat, 8nat, 16nat, 4nat);
    let s3: Seq<nat> = s2.push(2nat);
    lemma_witnessed_more(n, g, s2, 2nat, 8nat, 16nat, 8nat);
    let s4: Seq<nat> = s3.push(2nat);
    lemma_witnessed_more(n, g, s3, 2nat, 8nat, 16nat, 16nat);
    lemma_witnessed_prime(n, g, s4);
}

// The prime 19.
// One less is 2 * 3^2; the primitive root is 2.

proof fn lemma_19_power_1()
    ensures
        pow_mod(2nat, 3nat, 19nat) == 8nat,
{
    let n: nat = 19nat;
    let g: nat = 2nat;
    let e0: nat = 1nat;
    let x0: nat = 2nat;
    lemma_pow_first(g, n, x0);
    let x1: nat = 4nat;
    let e1: nat = 2 * e0;
    lemma_pow_square(g, n, e0, x0, x1);
    let x2: nat = 8nat;
    let e2: nat = e1 + 1;
    lemma_pow_times(g, n, e1, x1, x2);
}

proof fn lemma_19_power_2()
    ensures
        pow_mod(8nat, 2nat, 19nat) == 7nat,
{
    let n: nat = 19nat;
    let g: nat = 8nat;
    let e0: nat = 1nat;
    let x0: nat = 8nat;
    lemma_pow_first(g, n, x0);
    let x1: nat = 7nat;
    let e1: nat = 2 * e0;
    lemma_pow_square(g, n, e0, x0, x1);
}

proof fn lemma_19_raise_1()
    ensures
        pow_mod(2nat, 6nat, 19nat) == 7nat,
{
    lemma_19_power_1();
    lemma_19_power_2();
    lemma_pow_raise(2nat, 19nat, 3nat, 8nat, 2nat, 7nat, 6nat);
}

proof fn lemma_19_power_3()
    ensures
        pow_mod(8nat, 3nat, 19nat) == 18nat,
{
    let n: nat = 19nat;
    let g: nat = 8nat;
    let e0: nat = 1nat;
    let x0: nat = 8nat;
    lemma_pow_first(g, n, x0);
    let x1: nat = 7nat;
    let e1: nat = 2 * e0;
    lemma_pow_square(g, n, e0, x0, x1);
    let x2: nat = 18nat;
    let e2: nat = e1 + 1;
    lemma_pow_times(g, n, e1, x1, x2);
}

proof fn lemma_19_raise_2()
    ensures
        pow_mod(2nat, 9nat, 19nat) == 18nat,
{
    lemma_19_power_1();
    lemma_19_power_3();
    lemma_pow_raise(2nat, 19nat, 3nat, 8nat, 3nat, 18nat, 9nat);
}

proof fn lemma_19_power_4()
    ensures
        pow_mod(18nat, 2nat, 19nat) == 1nat,
{
    let n: nat = 19nat;
    let g: nat = 18nat;
    let e0: nat = 1nat;
    let x0: nat = 18nat;
    lemma_pow_first(g, n, x0);
    let x1: nat = 1nat;
    let e1: nat = 2 * e0;
    lemma_pow_square(g, n, e0, x0, x1);
}

proof fn lemma_19_raise_3()
    ensures
        pow_mod(2nat, 18nat, 19nat) == 1nat,
{
    lemma_19_raise_2();
    lemma_19_power_4();
    lemma_pow_raise(2nat, 19nat, 9nat, 18nat, 2nat, 1nat, 18nat);
}

/// `19` is prime.
pub proof fn lemma_prime_19()
    ensures
        is_prime(19nat),
{
    let n: nat = 19nat;
    let g: nat = 2nat;
    lemma_two_is_prime();
    lemma_19_raise_2();
    lemma_prime_3();
    lemma_19_raise_1();
    lemma_19_raise_3();
    let s0: Seq<nat> = Seq::<nat>::empty();
    lemma_witnessed_none(n, g);
    let s1: Seq<nat> = s0.push(2nat);
    lemma_witnessed_more(n, g, s0, 2nat, 9nat, 18nat, 2nat);
    let s2: Seq<nat> = s1.push(3nat);
    lemma_witnessed_more(n, g, s1, 3nat, 6nat, 7nat, 6nat);
    let s3: Seq<nat> = s2.push(3nat);
    lemma_witnessed_more(n, g, s2, 3nat, 6nat, 7nat, 18nat);
    lemma_witnessed_prime(n, g, s3);
}

// The prime 23.
// One less is 2 * 11; the primitive root is 5.

proof fn lemma_23_power_1()
    ensures
        pow_mod(5nat, 1nat, 23nat) == 5nat,
{
    let n: nat = 23nat;
    let g: nat = 5nat;
    let e0: nat = 1nat;
    let x0: nat = 5nat;
    lemma_pow_first(g, n, x0);
}

proof fn lemma_23_power_2()
    ensures
        pow_mod(5nat, 2nat, 23nat) == 2nat,
{
    let n: nat = 23nat;
    let g: nat = 5nat;
    let e0: nat = 1nat;
    let x0: nat = 5nat;
    lemma_pow_first(g, n, x0);
    let x1: nat = 2nat;
    let e1: nat = 2 * e0;
    lemma_pow_square(g, n, e0, x0, x1);
}

proof fn lemma_23_raise_1()
    ensures
        pow_mod(5nat, 2nat, 23nat) == 2nat,
{
    lemma_23_power_1();
    lemma_23_power_2();
    lemma_pow_raise(5nat, 23nat, 1nat, 5nat, 2nat, 2nat, 2nat);
}

proof fn lemma_23_power_3()
    ensures
        pow_mod(5nat, 11nat, 23nat) == 22nat,
{
    let n: nat = 23nat;
    let g: nat = 5nat;
    let e0: nat = 1nat;
    let x0: nat = 5nat;
    lemma_pow_first(g, n, x0);
    let x1: nat = 2nat;
    let e1: nat = 2 * e0;
    lemma_pow_square(g, n, e0, x0, x1);
    let x2: nat = 4nat;
    let e2: nat = 2 * e1;
    lemma_pow_square(g, n, e1, x1, x2);
    let x3: nat = 20nat;
    let e3: nat = e2 + 1;
    lemma_pow_times(g, n, e2, x2, x3);
    let x4: nat = 9nat;
    let e4: nat = 2 * e3;
    lemma_pow_square(g, n, e3, x3, x4);
    let x5: nat = 22nat;
    let e5: nat = e4 + 1;
    lemma_pow_times(g, n, e4, x4, x5);
}

proof fn lemma_23_raise_2()
    ensures
        pow_mod(5nat, 11nat, 23nat) == 22nat,
{
    lemma_23_power_1();
    lemma_23_power_3();
    lemma_pow_raise(5nat, 23nat, 1nat, 5nat, 11nat, 22nat, 11nat);
}

proof fn lemma_23_power_4()
    ensures
        pow_mod(22nat, 2nat, 23nat) == 1nat,
{
    let n: nat = 23nat;
    let g: nat = 22nat;
    let e0: nat = 1nat;
    let x0: nat = 22nat;
    lemma_pow_first(g, n, x0);
    let x1: nat = 1nat;
    let e1: nat = 2 * e0;
    lemma_pow_square(g, n, e0, x0, x1);
}

proof fn lemma_23_raise_3()
    ensures
        pow_mod(5nat, 22nat, 23nat) == 1nat,
{
    lemma_23_raise_2();
    lemma_23_power_4();
    lemma_pow_raise(5nat, 23nat, 11nat, 22nat, 2nat, 1nat, 22nat);
}

/// `23` is prime.
pub proof fn lemma_prime_23()
    ensures
        is_prime(23nat),
{
    let n: nat = 23nat;
    let g: nat = 5nat;
    lemma_two_is_prime();
    lemma_23_raise_2();
    lemma_prime_11();
    lemma_23_raise_1();
    lemma_23_raise_3();
    let s0: Seq<nat> = Seq::<nat>::empty();
    lemma_witnessed_none(n, g);
    let s1: Seq<nat> = s0.push(2nat);
    lemma_witnessed_more(n, g, s0, 2nat, 11nat, 22nat, 2nat);
    let s2: Seq<nat> = s1.push(11nat);
    lemma_witnessed_more(n, g, s1, 11nat, 2nat, 2nat, 22nat);
    lemma_witnessed_prime(n, g, s2);
}

// The prime 29.
// One less is 2^2 * 7; the primitive root is 2.

proof fn lemma_29_power_1()
    ensures
        pow_mod(2nat, 2nat, 29nat) == 4nat,
{
    let n: nat = 29nat;
    let g: nat = 2nat;
    let e0: nat = 1nat;
    let x0: nat = 2nat;
    lemma_pow_first(g, n, x0);
    let x1: nat = 4nat;
    let e1: nat = 2 * e0;
    lemma_pow_square(g, n, e0, x0, x1);
}

proof fn lemma_29_power_2()
    ensures
        pow_mod(4nat, 2nat, 29nat) == 16nat,
{
    let n: nat = 29nat;
    let g: nat = 4nat;
    let e0: nat = 1nat;
    let x0: nat = 4nat;
    lemma_pow_first(g, n, x0);
    let x1: nat = 16nat;
    let e1: nat = 2 * e0;
    lemma_pow_square(g, n, e0, x0, x1);
}

proof fn lemma_29_raise_1()
    ensures
        pow_mod(2nat, 4nat, 29nat) == 16nat,
{
    lemma_29_power_1();
    lemma_29_power_2();
    lemma_pow_raise(2nat, 29nat, 2nat, 4nat, 2nat, 16nat, 4nat);
}

proof fn lemma_29_power_3()
    ensures
        pow_mod(4nat, 7nat, 29nat) == 28nat,
{
    let n: nat = 29nat;
    let g: nat = 4nat;
    let e0: nat = 1nat;
    let x0: nat = 4nat;
    lemma_pow_first(g, n, x0);
    let x1: nat = 16nat;
    let e1: nat = 2 * e0;
    lemma_pow_square(g, n, e0, x0, x1);
    let x2: nat = 6nat;
    let e2: nat = e1 + 1;
    lemma_pow_times(g, n, e1, x1, x2);
    let x3: nat = 7nat;
    let e3: nat = 2 * e2;
    lemma_pow_square(g, n, e2, x2, x3);
    let x4: nat = 28nat;
    let e4: nat = e3 + 1;
    lemma_pow_times(g, n, e3, x3, x4);
}

proof fn lemma_29_raise_2()
    ensures
        pow_mod(2nat, 14nat, 29nat) == 28nat,
{
    lemma_29_power_1();
    lemma_29_power_3();
    lemma_pow_raise(2nat, 29nat, 2nat, 4nat, 7nat, 28nat, 14nat);
}

proof fn lemma_29_power_4()
    ensures
        pow_mod(28nat, 2nat, 29nat) == 1nat,
{
    let n: nat = 29nat;
    let g: nat = 28nat;
    let e0: nat = 1nat;
    let x0: nat = 28nat;
    lemma_pow_first(g, n, x0);
    let x1: nat = 1nat;
    let e1: nat = 2 * e0;
    lemma_pow_square(g, n, e0, x0, x1);
}

proof fn lemma_29_raise_3()
    ensures
        pow_mod(2nat, 28nat, 29nat) == 1nat,
{
    lemma_29_raise_2();
    lemma_29_power_4();
    lemma_pow_raise(2nat, 29nat, 14nat, 28nat, 2nat, 1nat, 28nat);
}

/// `29` is prime.
pub proof fn lemma_prime_29()
    ensures
        is_prime(29nat),
{
    let n: nat = 29nat;
    let g: nat = 2nat;
    lemma_two_is_prime();
    lemma_29_raise_2();
    lemma_prime_7();
    lemma_29_raise_1();
    lemma_29_raise_3();
    let s0: Seq<nat> = Seq::<nat>::empty();
    lemma_witnessed_none(n, g);
    let s1: Seq<nat> = s0.push(2nat);
    lemma_witnessed_more(n, g, s0, 2nat, 14nat, 28nat, 2nat);
    let s2: Seq<nat> = s1.push(2nat);
    lemma_witnessed_more(n, g, s1, 2nat, 14nat, 28nat, 4nat);
    let s3: Seq<nat> = s2.push(7nat);
    lemma_witnessed_more(n, g, s2, 7nat, 4nat, 16nat, 28nat);
    lemma_witnessed_prime(n, g, s3);
}

// The prime 31.
// One less is 2 * 3 * 5; the primitive root is 3.

proof fn lemma_31_power_1()
    ensures
        pow_mod(3nat, 1nat, 31nat) == 3nat,
{
    let n: nat = 31nat;
    let g: nat = 3nat;
    let e0: nat = 1nat;
    let x0: nat = 3nat;
    lemma_pow_first(g, n, x0);
}

proof fn lemma_31_power_2()
    ensures
        pow_mod(3nat, 6nat, 31nat) == 16nat,
{
    let n: nat = 31nat;
    let g: nat = 3nat;
    let e0: nat = 1nat;
    let x0: nat = 3nat;
    lemma_pow_first(g, n, x0);
    let x1: nat = 9nat;
    let e1: nat = 2 * e0;
    lemma_pow_square(g, n, e0, x0, x1);
    let x2: nat = 27nat;
    let e2: nat = e1 + 1;
    lemma_pow_times(g, n, e1, x1, x2);
    let x3: nat = 16nat;
    let e3: nat = 2 * e2;
    lemma_pow_square(g, n, e2, x2, x3);
}

proof fn lemma_31_raise_1()
    ensures
        pow_mod(3nat, 6nat, 31nat) == 16nat,
{
    lemma_31_power_1();
    lemma_31_power_2();
    lemma_pow_raise(3nat, 31nat, 1nat, 3nat, 6nat, 16nat, 6nat);
}

proof fn lemma_31_power_3()
    ensures
        pow_mod(3nat, 5nat, 31nat) == 26nat,
{
    let n: nat = 31nat;
    let g: nat = 3nat;
    let e0: nat = 1nat;
    let x0: nat = 3nat;
    lemma_pow_first(g, n, x0);
    let x1: nat = 9nat;
    let e1: nat = 2 * e0;
    lemma_pow_square(g, n, e0, x0, x1);
    let x2: nat = 19nat;
    let e2: nat = 2 * e1;
    lemma_pow_square(g, n, e1, x1, x2);
    let x3: nat = 26nat;
    let e3: nat = e2 + 1;
    lemma_pow_times(g, n, e2, x2, x3);
}

proof fn lemma_31_raise_2()
    ensures
        pow_mod(3nat, 5nat, 31nat) == 26nat,
{
    lemma_31_power_1();
    lemma_31_power_3();
    lemma_pow_raise(3nat, 31nat, 1nat, 3nat, 5nat, 26nat, 5nat);
}

proof fn lemma_31_power_4()
    ensures
        pow_mod(26nat, 2nat, 31nat) == 25nat,
{
    let n: nat = 31nat;
    let g: nat = 26nat;
    let e0: nat = 1nat;
    let x0: nat = 26nat;
    lemma_pow_first(g, n, x0);
    let x1: nat = 25nat;
    let e1: nat = 2 * e0;
    lemma_pow_square(g, n, e0, x0, x1);
}

proof fn lemma_31_raise_3()
    ensures
        pow_mod(3nat, 10nat, 31nat) == 25nat,
{
    lemma_31_raise_2();
    lemma_31_power_4();
    lemma_pow_raise(3nat, 31nat, 5nat, 26nat, 2nat, 25nat, 10nat);
}

proof fn lemma_31_power_5()
    ensures
        pow_mod(26nat, 3nat, 31nat) == 30nat,
{
    let n: nat = 31nat;
    let g: nat = 26nat;
    let e0: nat = 1nat;
    let x0: nat = 26nat;
    lemma_pow_first(g, n, x0);
    let x1: nat = 25nat;
    let e1: nat = 2 * e0;
    lemma_pow_square(g, n, e0, x0, x1);
    let x2: nat = 30nat;
    let e2: nat = e1 + 1;
    lemma_pow_times(g, n, e1, x1, x2);
}

proof fn lemma_31_raise_4()
    ensures
        pow_mod(3nat, 15nat, 31nat) == 30nat,
{
    lemma_31_raise_2();
    lemma_31_power_5();
    lemma_pow_raise(3nat, 31nat, 5nat, 26nat, 3nat, 30nat, 15nat);
}

proof fn lemma_31_power_6()
    ensures
        pow_mod(30nat, 2nat, 31nat) == 1nat,
{
    let n: nat = 31nat;
    let g: nat = 30nat;
    let e0: nat = 1nat;
    let x0: nat = 30nat;
    lemma_pow_first(g, n, x0);
    let x1: nat = 1nat;
    let e1: nat = 2 * e0;
    lemma_pow_square(g, n, e0, x0, x1);
}

proof fn lemma_31_raise_5()
    ensures
        pow_mod(3nat, 30nat, 31nat) == 1nat,
{
    lemma_31_raise_4();
    lemma_31_power_6();
    lemma_pow_raise(3nat, 31nat, 15nat, 30nat, 2nat, 1nat, 30nat);
}

/// `31` is prime.
pub proof fn lemma_prime_31()
    ensures
        is_prime(31nat),
{
    let n: nat = 31nat;
    let g: nat = 3nat;
    lemma_two_is_prime();
    lemma_31_raise_4();
    lemma_prime_3();
    lemma_31_raise_3();
    lemma_prime_5();
    lemma_31_raise_1();
    lemma_31_raise_5();
    let s0: Seq<nat> = Seq::<nat>::empty();
    lemma_witnessed_none(n, g);
    let s1: Seq<nat> = s0.push(2nat);
    lemma_witnessed_more(n, g, s0, 2nat, 15nat, 30nat, 2nat);
    let s2: Seq<nat> = s1.push(3nat);
    lemma_witnessed_more(n, g, s1, 3nat, 10nat, 25nat, 6nat);
    let s3: Seq<nat> = s2.push(5nat);
    lemma_witnessed_more(n, g, s2, 5nat, 6nat, 16nat, 30nat);
    lemma_witnessed_prime(n, g, s3);
}

// The prime 37.
// One less is 2^2 * 3^2; the primitive root is 2.

proof fn lemma_37_power_1()
    ensures
        pow_mod(2nat, 6nat, 37nat) == 27nat,
{
    let n: nat = 37nat;
    let g: nat = 2nat;
    let e0: nat = 1nat;
    let x0: nat = 2nat;
    lemma_pow_first(g, n, x0);
    let x1: nat = 4nat;
    let e1: nat = 2 * e0;
    lemma_pow_square(g, n, e0, x0, x1);
    let x2: nat = 8nat;
    let e2: nat = e1 + 1;
    lemma_pow_times(g, n, e1, x1, x2);
    let x3: nat = 27nat;
    let e3: nat = 2 * e2;
    lemma_pow_square(g, n, e2, x2, x3);
}

proof fn lemma_37_power_2()
    ensures
        pow_mod(27nat, 2nat, 37nat) == 26nat,
{
    let n: nat = 37nat;
    let g: nat = 27nat;
    let e0: nat = 1nat;
    let x0: nat = 27nat;
    lemma_pow_first(g, n, x0);
    let x1: nat = 26nat;
    let e1: nat = 2 * e0;
    lemma_pow_square(g, n, e0, x0, x1);
}

proof fn lemma_37_raise_1()
    ensures
        pow_mod(2nat, 12nat, 37nat) == 26nat,
{
    lemma_37_power_1();
    lemma_37_power_2();
    lemma_pow_raise(2nat, 37nat, 6nat, 27nat, 2nat, 26nat, 12nat);
}

proof fn lemma_37_power_3()
    ensures
        pow_mod(27nat, 3nat, 37nat) == 36nat,
{
    let n: nat = 37nat;
    let g: nat = 27nat;
    let e0: nat = 1nat;
    let x0: nat = 27nat;
    lemma_pow_first(g, n, x0);
    let x1: nat = 26nat;
    let e1: nat = 2 * e0;
    lemma_pow_square(g, n, e0, x0, x1);
    let x2: nat = 36nat;
    let e2: nat = e1 + 1;
    lemma_pow_times(g, n, e1, x1, x2);
}

proof fn lemma_37_raise_2()
    ensures
        pow_mod(2nat, 18nat, 37nat) == 36nat,
{
    lemma_37_power_1();
    lemma_37_power_3();
    lemma_pow_raise(2nat, 37nat, 6nat, 27nat, 3nat, 36nat, 18nat);
}

proof fn lemma_37_power_4()
    ensures
        pow_mod(36nat, 2nat, 37nat) == 1nat,
{
    let n: nat = 37nat;
    let g: nat = 36nat;
    let e0: nat = 1nat;
    let x0: nat = 36nat;
    lemma_pow_first(g, n, x0);
    let x1: nat = 1nat;
    let e1: nat = 2 * e0;
    lemma_pow_square(g, n, e0, x0, x1);
}

proof fn lemma_37_raise_3()
    ensures
        pow_mod(2nat, 36nat, 37nat) == 1nat,
{
    lemma_37_raise_2();
    lemma_37_power_4();
    lemma_pow_raise(2nat, 37nat, 18nat, 36nat, 2nat, 1nat, 36nat);
}

/// `37` is prime.
pub proof fn lemma_prime_37()
    ensures
        is_prime(37nat),
{
    let n: nat = 37nat;
    let g: nat = 2nat;
    lemma_two_is_prime();
    lemma_37_raise_2();
    lemma_prime_3();
    lemma_37_raise_1();
    lemma_37_raise_3();
    let s0: Seq<nat> = Seq::<nat>::empty();
    lemma_witnessed_none(n, g);
    let s1: Seq<nat> = s0.push(2nat);
    lemma_witnessed_more(n, g, s0, 2nat, 18nat, 36nat, 2nat);
    let s2: Seq<nat> = s1.push(2nat);
    lemma_witnessed_more(n, g, s1, 2nat, 18nat, 36nat, 4nat);
    let s3: Seq<nat> = s2.push(3nat);
    lemma_witnessed_more(n, g, s2, 3nat, 12nat, 26nat, 12nat);
    let s4: Seq<nat> = s3.push(3nat);
    lemma_witnessed_more(n, g, s3, 3nat, 12nat, 26nat, 36nat);
    lemma_witnessed_prime(n, g, s4);
}

// The prime 41.
// One less is 2^3 * 5; the primitive root is 6.

proof fn lemma_41_power_1()
    ensures
        pow_mod(6nat, 4nat, 41nat) == 25nat,
{
    let n: nat = 41nat;
    let g: nat = 6nat;
    let e0: nat = 1nat;
    let x0: nat = 6nat;
    lemma_pow_first(g, n, x0);
    let x1: nat = 36nat;
    let e1: nat = 2 * e0;
    lemma_pow_square(g, n, e0, x0, x1);
    let x2: nat = 25nat;
    let e2: nat = 2 * e1;
    lemma_pow_square(g, n, e1, x1, x2);
}

proof fn lemma_41_power_2()
    ensures
        pow_mod(25nat, 2nat, 41nat) == 10nat,
{
    let n: nat = 41nat;
    let g: nat = 25nat;
    let e0: nat = 1nat;
    let x0: nat = 25nat;
    lemma_pow_first(g, n, x0);
    let x1: nat = 10nat;
    let e1: nat = 2 * e0;
    lemma_pow_square(g, n, e0, x0, x1);
}

proof fn lemma_41_raise_1()
    ensures
        pow_mod(6nat, 8nat, 41nat) == 10nat,
{
    lemma_41_power_1();
    lemma_41_power_2();
    lemma_pow_raise(6nat, 41nat, 4nat, 25nat, 2nat, 10nat, 8nat);
}

proof fn lemma_41_power_3()
    ensures
        pow_mod(25nat, 5nat, 41nat) == 40nat,
{
    let n: nat = 41nat;
    let g: nat = 25nat;
    let e0: nat = 1nat;
    let x0: nat = 25nat;
    lemma_pow_first(g, n, x0);
    let x1: nat = 10nat;
    let e1: nat = 2 * e0;
    lemma_pow_square(g, n, e0, x0, x1);
    let x2: nat = 18nat;
    let e2: nat = 2 * e1;
    lemma_pow_square(g, n, e1, x1, x2);
    let x3: nat = 40nat;
    let e3: nat = e2 + 1;
    lemma_pow_times(g, n, e2, x2, x3);
}

proof fn lemma_41_raise_2()
    ensures
        pow_mod(6nat, 20nat, 41nat) == 40nat,
{
    lemma_41_power_1();
    lemma_41_power_3();
    lemma_pow_raise(6nat, 41nat, 4nat, 25nat, 5nat, 40nat, 20nat);
}

proof fn lemma_41_power_4()
    ensures
        pow_mod(40nat, 2nat, 41nat) == 1nat,
{
    let n: nat = 41nat;
    let g: nat = 40nat;
    let e0: nat = 1nat;
    let x0: nat = 40nat;
    lemma_pow_first(g, n, x0);
    let x1: nat = 1nat;
    let e1: nat = 2 * e0;
    lemma_pow_square(g, n, e0, x0, x1);
}

proof fn lemma_41_raise_3()
    ensures
        pow_mod(6nat, 40nat, 41nat) == 1nat,
{
    lemma_41_raise_2();
    lemma_41_power_4();
    lemma_pow_raise(6nat, 41nat, 20nat, 40nat, 2nat, 1nat, 40nat);
}

/// `41` is prime.
pub proof fn lemma_prime_41()
    ensures
        is_prime(41nat),
{
    let n: nat = 41nat;
    let g: nat = 6nat;
    lemma_two_is_prime();
    lemma_41_raise_2();
    lemma_prime_5();
    lemma_41_raise_1();
    lemma_41_raise_3();
    let s0: Seq<nat> = Seq::<nat>::empty();
    lemma_witnessed_none(n, g);
    let s1: Seq<nat> = s0.push(2nat);
    lemma_witnessed_more(n, g, s0, 2nat, 20nat, 40nat, 2nat);
    let s2: Seq<nat> = s1.push(2nat);
    lemma_witnessed_more(n, g, s1, 2nat, 20nat, 40nat, 4nat);
    let s3: Seq<nat> = s2.push(2nat);
    lemma_witnessed_more(n, g, s2, 2nat, 20nat, 40nat, 8nat);
    let s4: Seq<nat> = s3.push(5nat);
    lemma_witnessed_more(n, g, s3, 5nat, 8nat, 10nat, 40nat);
    lemma_witnessed_prime(n, g, s4);
}

// The prime 47.
// One less is 2 * 23; the primitive root is 5.

proof fn lemma_47_power_1()
    ensures
        pow_mod(5nat, 1nat, 47nat) == 5nat,
{
    let n: nat = 47nat;
    let g: nat = 5nat;
    let e0: nat = 1nat;
    let x0: nat = 5nat;
    lemma_pow_first(g, n, x0);
}

proof fn lemma_47_power_2()
    ensures
        pow_mod(5nat, 2nat, 47nat) == 25nat,
{
    let n: nat = 47nat;
    let g: nat = 5nat;
    let e0: nat = 1nat;
    let x0: nat = 5nat;
    lemma_pow_first(g, n, x0);
    let x1: nat = 25nat;
    let e1: nat = 2 * e0;
    lemma_pow_square(g, n, e0, x0, x1);
}

proof fn lemma_47_raise_1()
    ensures
        pow_mod(5nat, 2nat, 47nat) == 25nat,
{
    lemma_47_power_1();
    lemma_47_power_2();
    lemma_pow_raise(5nat, 47nat, 1nat, 5nat, 2nat, 25nat, 2nat);
}

proof fn lemma_47_power_3()
    ensures
        pow_mod(5nat, 23nat, 47nat) == 46nat,
{
    let n: nat = 47nat;
    let g: nat = 5nat;
    let e0: nat = 1nat;
    let x0: nat = 5nat;
    lemma_pow_first(g, n, x0);
    let x1: nat = 25nat;
    let e1: nat = 2 * e0;
    lemma_pow_square(g, n, e0, x0, x1);
    let x2: nat = 14nat;
    let e2: nat = 2 * e1;
    lemma_pow_square(g, n, e1, x1, x2);
    let x3: nat = 23nat;
    let e3: nat = e2 + 1;
    lemma_pow_times(g, n, e2, x2, x3);
    let x4: nat = 12nat;
    let e4: nat = 2 * e3;
    lemma_pow_square(g, n, e3, x3, x4);
    let x5: nat = 13nat;
    let e5: nat = e4 + 1;
    lemma_pow_times(g, n, e4, x4, x5);
    let x6: nat = 28nat;
    let e6: nat = 2 * e5;
    lemma_pow_square(g, n, e5, x5, x6);
    let x7: nat = 46nat;
    let e7: nat = e6 + 1;
    lemma_pow_times(g, n, e6, x6, x7);
}

proof fn lemma_47_raise_2()
    ensures
        pow_mod(5nat, 23nat, 47nat) == 46nat,
{
    lemma_47_power_1();
    lemma_47_power_3();
    lemma_pow_raise(5nat, 47nat, 1nat, 5nat, 23nat, 46nat, 23nat);
}

proof fn lemma_47_power_4()
    ensures
        pow_mod(46nat, 2nat, 47nat) == 1nat,
{
    let n: nat = 47nat;
    let g: nat = 46nat;
    let e0: nat = 1nat;
    let x0: nat = 46nat;
    lemma_pow_first(g, n, x0);
    let x1: nat = 1nat;
    let e1: nat = 2 * e0;
    lemma_pow_square(g, n, e0, x0, x1);
}

proof fn lemma_47_raise_3()
    ensures
        pow_mod(5nat, 46nat, 47nat) == 1nat,
{
    lemma_47_raise_2();
    lemma_47_power_4();
    lemma_pow_raise(5nat, 47nat, 23nat, 46nat, 2nat, 1nat, 46nat);
}

/// `47` is prime.
pub proof fn lemma_prime_47()
    ensures
        is_prime(47nat),
{
    let n: nat = 47nat;
    let g: nat = 5nat;
    lemma_two_is_prime();
    lemma_47_raise_2();
    lemma_prime_23();
    lemma_47_raise_1();
    lemma_47_raise_3();
    let s0: Seq<nat> = Seq::<nat>::empty();
    lemma_witnessed_none(n, g);
    let s1: Seq<nat> = s0.push(2nat);
    lemma_witnessed_more(n, g, s0, 2nat, 23nat, 46nat, 2nat);
    let s2: Seq<nat> = s1.push(23nat);
    lemma_witnessed_more(n, g, s1, 23nat, 2nat, 25nat, 46nat);
    lemma_witnessed_prime(n, g, s2);
}

// The prime 53.
// One less is 2^2 * 13; the primitive root is 2.

proof fn lemma_53_power_1()
    ensures
        pow_mod(2nat, 2nat, 53nat) == 4nat,
{
    let n: nat = 53nat;
    let g: nat = 2nat;
    let e0: nat = 1nat;
    let x0: nat = 2nat;
    lemma_pow_first(g, n, x0);
    let x1: nat = 4nat;
    let e1: nat = 2 * e0;
    lemma_pow_square(g, n, e0, x0, x1);
}

proof fn lemma_53_power_2()
    ensures
        pow_mod(4nat, 2nat, 53nat) == 16nat,
{
    let n: nat = 53nat;
    let g: nat = 4nat;
    let e0: nat = 1nat;
    let x0: nat = 4nat;
    lemma_pow_first(g, n, x0);
    let x1: nat = 16nat;
    let e1: nat = 2 * e0;
    lemma_pow_square(g, n, e0, x0, x1);
}

proof fn lemma_53_raise_1()
    ensures
        pow_mod(2nat, 4nat, 53nat) == 16nat,
{
    lemma_53_power_1();
    lemma_53_power_2();
    lemma_pow_raise(2nat, 53nat, 2nat, 4nat, 2nat, 16nat, 4nat);
}

proof fn lemma_53_power_3()
    ensures
        pow_mod(4nat, 13nat, 53nat) == 52nat,
{
    let n: nat = 53nat;
    let g: nat = 4nat;
    let e0: nat = 1nat;
    let x0: nat = 4nat;
    lemma_pow_first(g, n, x0);
    let x1: nat = 16nat;
    let e1: nat = 2 * e0;
    lemma_pow_square(g, n, e0, x0, x1);
    let x2: nat = 11nat;
    let e2: nat = e1 + 1;
    lemma_pow_times(g, n, e1, x1, x2);
    let x3: nat = 15nat;
    let e3: nat = 2 * e2;
    lemma_pow_square(g, n, e2, x2, x3);
    let x4: nat = 13nat;
    let e4: nat = 2 * e3;
    lemma_pow_square(g, n, e3, x3, x4);
    let x5: nat = 52nat;
    let e5: nat = e4 + 1;
    lemma_pow_times(g, n, e4, x4, x5);
}

proof fn lemma_53_raise_2()
    ensures
        pow_mod(2nat, 26nat, 53nat) == 52nat,
{
    lemma_53_power_1();
    lemma_53_power_3();
    lemma_pow_raise(2nat, 53nat, 2nat, 4nat, 13nat, 52nat, 26nat);
}

proof fn lemma_53_power_4()
    ensures
        pow_mod(52nat, 2nat, 53nat) == 1nat,
{
    let n: nat = 53nat;
    let g: nat = 52nat;
    let e0: nat = 1nat;
    let x0: nat = 52nat;
    lemma_pow_first(g, n, x0);
    let x1: nat = 1nat;
    let e1: nat = 2 * e0;
    lemma_pow_square(g, n, e0, x0, x1);
}

proof fn lemma_53_raise_3()
    ensures
        pow_mod(2nat, 52nat, 53nat) == 1nat,
{
    lemma_53_raise_2();
    lemma_53_power_4();
    lemma_pow_raise(2nat, 53nat, 26nat, 52nat, 2nat, 1nat, 52nat);
}

/// `53` is prime.
pub proof fn lemma_prime_53()
    ensures
        is_prime(53nat),
{
    let n: nat = 53nat;
    let g: nat = 2nat;
    lemma_two_is_prime();
    lemma_53_raise_2();
    lemma_prime_13();
    lemma_53_raise_1();
    lemma_53_raise_3();
    let s0: Seq<nat> = Seq::<nat>::empty();
    lemma_witnessed_none(n, g);
    let s1: Seq<nat> = s0.push(2nat);
    lemma_witnessed_more(n, g, s0, 2nat, 26nat, 52nat, 2nat);
    let s2: Seq<nat> = s1.push(2nat);
    lemma_witnessed_more(n, g, s1, 2nat, 26nat, 52nat, 4nat);
    let s3: Seq<nat> = s2.push(13nat);
    lemma_witnessed_more(n, g, s2, 13nat, 4nat, 16nat, 52nat);
    lemma_witnessed_prime(n, g, s3);
}

// The prime 71.
// One less is 2 * 5 * 7; the primitive root is 7.

proof fn lemma_71_power_1()
    ensures
        pow_mod(7nat, 1nat, 71nat) == 7nat,
{
    let n: nat = 71nat;
    let g: nat = 7nat;
    let e0: nat = 1nat;
    let x0: nat = 7nat;
    lemma_pow_first(g, n, x0);
}

proof fn lemma_71_power_2()
    ensures
        pow_mod(7nat, 5nat, 71nat) == 51nat,
{
    let n: nat = 71nat;
    let g: nat = 7nat;
    let e0: nat = 1nat;
    let x0: nat = 7nat;
    lemma_pow_first(g, n, x0);
    let x1: nat = 49nat;
    let e1: nat = 2 * e0;
    lemma_pow_square(g, n, e0, x0, x1);
    let x2: nat = 58nat;
    let e2: nat = 2 * e1;
    lemma_pow_square(g, n, e1, x1, x2);
    let x3: nat = 51nat;
    let e3: nat = e2 + 1;
    lemma_pow_times(g, n, e2, x2, x3);
}

proof fn lemma_71_raise_1()
    ensures
        pow_mod(7nat, 5nat, 71nat) == 51nat,
{
    lemma_71_power_1();
    lemma_71_power_2();
    lemma_pow_raise(7nat, 71nat, 1nat, 7nat, 5nat, 51nat, 5nat);
}

proof fn lemma_71_power_3()
    ensures
        pow_mod(51nat, 2nat, 71nat) == 45nat,
{
    let n: nat = 71nat;
    let g: nat = 51nat;
    let e0: nat = 1nat;
    let x0: nat = 51nat;
    lemma_pow_first(g, n, x0);
    let x1: nat = 45nat;
    let e1: nat = 2 * e0;
    lemma_pow_square(g, n, e0, x0, x1);
}

proof fn lemma_71_raise_2()
    ensures
        pow_mod(7nat, 10nat, 71nat) == 45nat,
{
    lemma_71_raise_1();
    lemma_71_power_3();
    lemma_pow_raise(7nat, 71nat, 5nat, 51nat, 2nat, 45nat, 10nat);
}

proof fn lemma_71_power_4()
    ensures
        pow_mod(51nat, 7nat, 71nat) == 70nat,
{
    let n: nat = 71nat;
    let g: nat = 51nat;
    let e0: nat = 1nat;
    let x0: nat = 51nat;
    lemma_pow_first(g, n, x0);
    let x1: nat = 45nat;
    let e1: nat = 2 * e0;
    lemma_pow_square(g, n, e0, x0, x1);
    let x2: nat = 23nat;
    let e2: nat = e1 + 1;
    lemma_pow_times(g, n, e1, x1, x2);
    let x3: nat = 32nat;
    let e3: nat = 2 * e2;
    lemma_pow_square(g, n, e2, x2, x3);
    let x4: nat = 70nat;
    let e4: nat = e3 + 1;
    lemma_pow_times(g, n, e3, x3, x4);
}

proof fn lemma_71_raise_3()
    ensures
        pow_mod(7nat, 35nat, 71nat) == 70nat,
{
    lemma_71_raise_1();
    lemma_71_power_4();
    lemma_pow_raise(7nat, 71nat, 5nat, 51nat, 7nat, 70nat, 35nat);
}

proof fn lemma_71_power_5()
    ensures
        pow_mod(7nat, 14nat, 71nat) == 54nat,
{
    let n: nat = 71nat;
    let g: nat = 7nat;
    let e0: nat = 1nat;
    let x0: nat = 7nat;
    lemma_pow_first(g, n, x0);
    let x1: nat = 49nat;
    let e1: nat = 2 * e0;
    lemma_pow_square(g, n, e0, x0, x1);
    let x2: nat = 59nat;
    let e2: nat = e1 + 1;
    lemma_pow_times(g, n, e1, x1, x2);
    let x3: nat = 2nat;
    let e3: nat = 2 * e2;
    lemma_pow_square(g, n, e2, x2, x3);
    let x4: nat = 14nat;
    let e4: nat = e3 + 1;
    lemma_pow_times(g, n, e3, x3, x4);
    let x5: nat = 54nat;
    let e5: nat = 2 * e4;
    lemma_pow_square(g, n, e4, x4, x5);
}

proof fn lemma_71_raise_4()
    ensures
        pow_mod(7nat, 14nat, 71nat) == 54nat,
{
    lemma_71_power_1();
    lemma_71_power_5();
    lemma_pow_raise(7nat, 71nat, 1nat, 7nat, 14nat, 54nat, 14nat);
}

proof fn lemma_71_power_6()
    ensures
        pow_mod(70nat, 2nat, 71nat) == 1nat,
{
    let n: nat = 71nat;
    let g: nat = 70nat;
    let e0: nat = 1nat;
    let x0: nat = 70nat;
    lemma_pow_first(g, n, x0);
    let x1: nat = 1nat;
    let e1: nat = 2 * e0;
    lemma_pow_square(g, n, e0, x0, x1);
}

proof fn lemma_71_raise_5()
    ensures
        pow_mod(7nat, 70nat, 71nat) == 1nat,
{
    lemma_71_raise_3();
    lemma_71_power_6();
    lemma_pow_raise(7nat, 71nat, 35nat, 70nat, 2nat, 1nat, 70nat);
}

/// `71` is prime.
pub proof fn lemma_prime_71()
    ensures
        is_prime(71nat),
{
    let n: nat = 71nat;
    let g: nat = 7nat;
    lemma_two_is_prime();
    lemma_71_raise_3();
    lemma_prime_5();
    lemma_71_raise_4();
    lemma_prime_7();
    lemma_71_raise_2();
    lemma_71_raise_5();
    let s0: Seq<nat> = Seq::<nat>::empty();
    lemma_witnessed_none(n, g);
    let s1: Seq<nat> = s0.push(2nat);
    lemma_witnessed_more(n, g, s0, 2nat, 35nat, 70nat, 2nat);
    let s2: Seq<nat> = s1.push(5nat);
    lemma_witnessed_more(n, g, s1, 5nat, 14nat, 54nat, 10nat);
    let s3: Seq<nat> = s2.push(7nat);
    lemma_witnessed_more(n, g, s2, 7nat, 10nat, 45nat, 70nat);
    lemma_witnessed_prime(n, g, s3);
}

// The prime 83.
// One less is 2 * 41; the primitive root is 2.

proof fn lemma_83_power_1()
    ensures
        pow_mod(2nat, 1nat, 83nat) == 2nat,
{
    let n: nat = 83nat;
    let g: nat = 2nat;
    let e0: nat = 1nat;
    let x0: nat = 2nat;
    lemma_pow_first(g, n, x0);
}

proof fn lemma_83_power_2()
    ensures
        pow_mod(2nat, 2nat, 83nat) == 4nat,
{
    let n: nat = 83nat;
    let g: nat = 2nat;
    let e0: nat = 1nat;
    let x0: nat = 2nat;
    lemma_pow_first(g, n, x0);
    let x1: nat = 4nat;
    let e1: nat = 2 * e0;
    lemma_pow_square(g, n, e0, x0, x1);
}

proof fn lemma_83_raise_1()
    ensures
        pow_mod(2nat, 2nat, 83nat) == 4nat,
{
    lemma_83_power_1();
    lemma_83_power_2();
    lemma_pow_raise(2nat, 83nat, 1nat, 2nat, 2nat, 4nat, 2nat);
}

proof fn lemma_83_power_3()
    ensures
        pow_mod(2nat, 41nat, 83nat) == 82nat,
{
    let n: nat = 83nat;
    let g: nat = 2nat;
    let e0: nat = 1nat;
    let x0: nat = 2nat;
    lemma_pow_first(g, n, x0);
    let x1: nat = 4nat;
    let e1: nat = 2 * e0;
    lemma_pow_square(g, n, e0, x0, x1);
    let x2: nat = 16nat;
    let e2: nat = 2 * e1;
    lemma_pow_square(g, n, e1, x1, x2);
    let x3: nat = 32nat;
    let e3: nat = e2 + 1;
    lemma_pow_times(g, n, e2, x2, x3);
    let x4: nat = 28nat;
    let e4: nat = 2 * e3;
    lemma_pow_square(g, n, e3, x3, x4);
    let x5: nat = 37nat;
    let e5: nat = 2 * e4;
    lemma_pow_square(g, n, e4, x4, x5);
    let x6: nat = 41nat;
    let e6: nat = 2 * e5;
    lemma_pow_square(g, n, e5, x5, x6);
    let x7: nat = 82nat;
    let e7: nat = e6 + 1;
    lemma_pow_times(g, n, e6, x6, x7);
}

proof fn lemma_83_raise_2()
    ensures
        pow_mod(2nat, 41nat, 83nat) == 82nat,
{
    lemma_83_power_1();
    lemma_83_power_3();
    lemma_pow_raise(2nat, 83nat, 1nat, 2nat, 41nat, 82nat, 41nat);
}

proof fn lemma_83_power_4()
    ensures
        pow_mod(82nat, 2nat, 83nat) == 1nat,
{
    let n: nat = 83nat;
    let g: nat = 82nat;
    let e0: nat = 1nat;
    let x0: nat = 82nat;
    lemma_pow_first(g, n, x0);
    let x1: nat = 1nat;
    let e1: nat = 2 * e0;
    lemma_pow_square(g, n, e0, x0, x1);
}

proof fn lemma_83_raise_3()
    ensures
        pow_mod(2nat, 82nat, 83nat) == 1nat,
{
    lemma_83_raise_2();
    lemma_83_power_4();
    lemma_pow_raise(2nat, 83nat, 41nat, 82nat, 2nat, 1nat, 82nat);
}

/// `83` is prime.
pub proof fn lemma_prime_83()
    ensures
        is_prime(83nat),
{
    let n: nat = 83nat;
    let g: nat = 2nat;
    lemma_two_is_prime();
    lemma_83_raise_2();
    lemma_prime_41();
    lemma_83_raise_1();
    lemma_83_raise_3();
    let s0: Seq<nat> = Seq::<nat>::empty();
    lemma_witnessed_none(n, g);
    let s1: Seq<nat> = s0.push(2nat);
    lemma_witnessed_more(n, g, s0, 2nat, 41nat, 82nat, 2nat);
    let s2: Seq<nat> = s1.push(41nat);
    lemma_witnessed_more(n, g, s1, 41nat, 2nat, 4nat, 82nat);
    lemma_witnessed_prime(n, g, s2);
}

// The prime 107.
// One less is 2 * 53; the primitive root is 2.

proof fn lemma_107_power_1()
    ensures
        pow_mod(2nat, 1nat, 107nat) == 2nat,
{
    let n: nat = 107nat;
    let g: nat = 2nat;
    let e0: nat = 1nat;
    let x0: nat = 2nat;
    lemma_pow_first(g, n, x0);
}

proof fn lemma_107_power_2()
    ensures
        pow_mod(2nat, 2nat, 107nat) == 4nat,
{
    let n: nat = 107nat;
    let g: nat = 2nat;
    let e0: nat = 1nat;
    let x0: nat = 2nat;
    lemma_pow_first(g, n, x0);
    let x1: nat = 4nat;
    let e1: nat = 2 * e0;
    lemma_pow_square(g, n, e0, x0, x1);
}

proof fn lemma_107_raise_1()
    ensures
        pow_mod(2nat, 2nat, 107nat) == 4nat,
{
    lemma_107_power_1();
    lemma_107_power_2();
    lemma_pow_raise(2nat, 107nat, 1nat, 2nat, 2nat, 4nat, 2nat);
}

proof fn lemma_107_power_3()
    ensures
        pow_mod(2nat, 53nat, 107nat) == 106nat,
{
    let n: nat = 107nat;
    let g: nat = 2nat;
    let e0: nat = 1nat;
    let x0: nat = 2nat;
    lemma_pow_first(g, n, x0);
    let x1: nat = 4nat;
    let e1: nat = 2 * e0;
    lemma_pow_square(g, n, e0, x0, x1);
    let x2: nat = 8nat;
    let e2: nat = e1 + 1;
    lemma_pow_times(g, n, e1, x1, x2);
    let x3: nat = 64nat;
    let e3: nat = 2 * e2;
    lemma_pow_square(g, n, e2, x2, x3);
    let x4: nat = 30nat;
    let e4: nat = 2 * e3;
    lemma_pow_square(g, n, e3, x3, x4);
    let x5: nat = 60nat;
    let e5: nat = e4 + 1;
    lemma_pow_times(g, n, e4, x4, x5);
    let x6: nat = 69nat;
    let e6: nat = 2 * e5;
    lemma_pow_square(g, n, e5, x5, x6);
    let x7: nat = 53nat;
    let e7: nat = 2 * e6;
    lemma_pow_square(g, n, e6, x6, x7);
    let x8: nat = 106nat;
    let e8: nat = e7 + 1;
    lemma_pow_times(g, n, e7, x7, x8);
}

proof fn lemma_107_raise_2()
    ensures
        pow_mod(2nat, 53nat, 107nat) == 106nat,
{
    lemma_107_power_1();
    lemma_107_power_3();
    lemma_pow_raise(2nat, 107nat, 1nat, 2nat, 53nat, 106nat, 53nat);
}

proof fn lemma_107_power_4()
    ensures
        pow_mod(106nat, 2nat, 107nat) == 1nat,
{
    let n: nat = 107nat;
    let g: nat = 106nat;
    let e0: nat = 1nat;
    let x0: nat = 106nat;
    lemma_pow_first(g, n, x0);
    let x1: nat = 1nat;
    let e1: nat = 2 * e0;
    lemma_pow_square(g, n, e0, x0, x1);
}

proof fn lemma_107_raise_3()
    ensures
        pow_mod(2nat, 106nat, 107nat) == 1nat,
{
    lemma_107_raise_2();
    lemma_107_power_4();
    lemma_pow_raise(2nat, 107nat, 53nat, 106nat, 2nat, 1nat, 106nat);
}

/// `107` is prime.
pub proof fn lemma_prime_107()
    ensures
        is_prime(107nat),
{
    let n: nat = 107nat;
    let g: nat = 2nat;
    lemma_two_is_prime();
    lemma_107_raise_2();
    lemma_prime_53();
    lemma_107_raise_1();
    lemma_107_raise_3();
    let s0: Seq<nat> = Seq::<nat>::empty();
    lemma_witnessed_none(n, g);
    let s1: Seq<nat> = s0.push(2nat);
    lemma_witnessed_more(n, g, s0, 2nat, 53nat, 106nat, 2nat);
    let s2: Seq<nat> = s1.push(53nat);
    lemma_witnessed_more(n, g, s1, 53nat, 2nat, 4nat, 106nat);
    lemma_witnessed_prime(n, g, s2);
}

// The prime 137.
// One less is 2^3 * 17; the primitive root is 3.

proof fn lemma_137_power_1()
    ensures
        pow_mod(3nat, 4nat, 137nat) == 81nat,
{
    let n: nat = 137nat;
    let g: nat = 3nat;
    let e0: nat = 1nat;
    let x0: nat = 3nat;
    lemma_pow_first(g, n, x0);
    let x1: nat = 9nat;
    let e1: nat = 2 * e0;
    lemma_pow_square(g, n, e0, x0, x1);
    let x2: nat = 81nat;
    let e2: nat = 2 * e1;
    lemma_pow_square(g, n, e1, x1, x2);
}

proof fn lemma_137_power_2()
    ensures
        pow_mod(81nat, 2nat, 137nat) == 122nat,
{
    let n: nat = 137nat;
    let g: nat = 81nat;
    let e0: nat = 1nat;
    let x0: nat = 81nat;
    lemma_pow_first(g, n, x0);
    let x1: nat = 122nat;
    let e1: nat = 2 * e0;
    lemma_pow_square(g, n, e0, x0, x1);
}

proof fn lemma_137_raise_1()
    ensures
        pow_mod(3nat, 8nat, 137nat) == 122nat,
{
    lemma_137_power_1();
    lemma_137_power_2();
    lemma_pow_raise(3nat, 137nat, 4nat, 81nat, 2nat, 122nat, 8nat);
}

proof fn lemma_137_power_3()
    ensures
        pow_mod(81nat, 17nat, 137nat) == 136nat,
{
    let n: nat = 137nat;
    let g: nat = 81nat;
    let e0: nat = 1nat;
    let x0: nat = 81nat;
    lemma_pow_first(g, n, x0);
    let x1: nat = 122nat;
    let e1: nat = 2 * e0;
    lemma_pow_square(g, n, e0, x0, x1);
    let x2: nat = 88nat;
    let e2: nat = 2 * e1;
    lemma_pow_square(g, n, e1, x1, x2);
    let x3: nat = 72nat;
    let e3: nat = 2 * e2;
    lemma_pow_square(g, n, e2, x2, x3);
    let x4: nat = 115nat;
    let e4: nat = 2 * e3;
    lemma_pow_square(g, n, e3, x3, x4);
    let x5: nat = 136nat;
    let e5: nat = e4 + 1;
    lemma_pow_times(g, n, e4, x4, x5);
}

proof fn lemma_137_raise_2()
    ensures
        pow_mod(3nat, 68nat, 137nat) == 136nat,
{
    lemma_137_power_1();
    lemma_137_power_3();
    lemma_pow_raise(3nat, 137nat, 4nat, 81nat, 17nat, 136nat, 68nat);
}

proof fn lemma_137_power_4()
    ensures
        pow_mod(136nat, 2nat, 137nat) == 1nat,
{
    let n: nat = 137nat;
    let g: nat = 136nat;
    let e0: nat = 1nat;
    let x0: nat = 136nat;
    lemma_pow_first(g, n, x0);
    let x1: nat = 1nat;
    let e1: nat = 2 * e0;
    lemma_pow_square(g, n, e0, x0, x1);
}

proof fn lemma_137_raise_3()
    ensures
        pow_mod(3nat, 136nat, 137nat) == 1nat,
{
    lemma_137_raise_2();
    lemma_137_power_4();
    lemma_pow_raise(3nat, 137nat, 68nat, 136nat, 2nat, 1nat, 136nat);
}

/// `137` is prime.
pub proof fn lemma_prime_137()
    ensures
        is_prime(137nat),
{
    let n: nat = 137nat;
    let g: nat = 3nat;
    lemma_two_is_prime();
    lemma_137_raise_2();
    lemma_prime_17();
    lemma_137_raise_1();
    lemma_137_raise_3();
    let s0: Seq<nat> = Seq::<nat>::empty();
    lemma_witnessed_none(n, g);
    let s1: Seq<nat> = s0.push(2nat);
    lemma_witnessed_more(n, g, s0, 2nat, 68nat, 136nat, 2nat);
    let s2: Seq<nat> = s1.push(2nat);
    lemma_witnessed_more(n, g, s1, 2nat, 68nat, 136nat, 4nat);
    let s3: Seq<nat> = s2.push(2nat);
    lemma_witnessed_more(n, g, s2, 2nat, 68nat, 136nat, 8nat);
    let s4: Seq<nat> = s3.push(17nat);
    lemma_witnessed_more(n, g, s3, 17nat, 8nat, 122nat, 136nat);
    lemma_witnessed_prime(n, g, s4);
}

// The prime 223.
// One less is 2 * 3 * 37; the primitive root is 3.

proof fn lemma_223_power_1()
    ensures
        pow_mod(3nat, 1nat, 223nat) == 3nat,
{
    let n: nat = 223nat;
    let g: nat = 3nat;
    let e0: nat = 1nat;
    let x0: nat = 3nat;
    lemma_pow_first(g, n, x0);
}

proof fn lemma_223_power_2()
    ensures
        pow_mod(3nat, 6nat, 223nat) == 60nat,
{
    let n: nat = 223nat;
    let g: nat = 3nat;
    let e0: nat = 1nat;
    let x0: nat = 3nat;
    lemma_pow_first(g, n, x0);
    let x1: nat = 9nat;
    let e1: nat = 2 * e0;
    lemma_pow_square(g, n, e0, x0, x1);
    let x2: nat = 27nat;
    let e2: nat = e1 + 1;
    lemma_pow_times(g, n, e1, x1, x2);
    let x3: nat = 60nat;
    let e3: nat = 2 * e2;
    lemma_pow_square(g, n, e2, x2, x3);
}

proof fn lemma_223_raise_1()
    ensures
        pow_mod(3nat, 6nat, 223nat) == 60nat,
{
    lemma_223_power_1();
    lemma_223_power_2();
    lemma_pow_raise(3nat, 223nat, 1nat, 3nat, 6nat, 60nat, 6nat);
}

proof fn lemma_223_power_3()
    ensures
        pow_mod(3nat, 37nat, 223nat) == 184nat,
{
    let n: nat = 223nat;
    let g: nat = 3nat;
    let e0: nat = 1nat;
    let x0: nat = 3nat;
    lemma_pow_first(g, n, x0);
    let x1: nat = 9nat;
    let e1: nat = 2 * e0;
    lemma_pow_square(g, n, e0, x0, x1);
    let x2: nat = 81nat;
    let e2: nat = 2 * e1;
    lemma_pow_square(g, n, e1, x1, x2);
    let x3: nat = 94nat;
    let e3: nat = 2 * e2;
    lemma_pow_square(g, n, e2, x2, x3);
    let x4: nat = 59nat;
    let e4: nat = e3 + 1;
    lemma_pow_times(g, n, e3, x3, x4);
    let x5: nat = 136nat;
    let e5: nat = 2 * e4;
    lemma_pow_square(g, n, e4, x4, x5);
    let x6: nat = 210nat;
    let e6: nat = 2 * e5;
    lemma_pow_square(g, n, e5, x5, x6);
    let x7: nat = 184nat;
    let e7: nat = e6 + 1;
    lemma_pow_times(g, n, e6, x6, x7);
}

proof fn lemma_223_raise_2()
    ensures
        pow_mod(3nat, 37nat, 223nat) == 184nat,
{
    lemma_223_power_1();
    lemma_223_power_3();
    lemma_pow_raise(3nat, 223nat, 1nat, 3nat, 37nat, 184nat, 37nat);
}

proof fn lemma_223_power_4()
    ensures
        pow_mod(184nat, 2nat, 223nat) == 183nat,
{
    let n: nat = 223nat;
    let g: nat = 184nat;
    let e0: nat = 1nat;
    let x0: nat = 184nat;
    lemma_pow_first(g, n, x0);
    let x1: nat = 183nat;
    let e1: nat = 2 * e0;
    lemma_pow_square(g, n, e0, x0, x1);
}

proof fn lemma_223_raise_3()
    ensures
        pow_mod(3nat, 74nat, 223nat) == 183nat,
{
    lemma_223_raise_2();
    lemma_223_power_4();
    lemma_pow_raise(3nat, 223nat, 37nat, 184nat, 2nat, 183nat, 74nat);
}

proof fn lemma_223_power_5()
    ensures
        pow_mod(184nat, 3nat, 223nat) == 222nat,
{
    let n: nat = 223nat;
    let g: nat = 184nat;
    let e0: nat = 1nat;
    let x0: nat = 184nat;
    lemma_pow_first(g, n, x0);
    let x1: nat = 183nat;
    let e1: nat = 2 * e0;
    lemma_pow_square(g, n, e0, x0, x1);
    let x2: nat = 222nat;
    let e2: nat = e1 + 1;
    lemma_pow_times(g, n, e1, x1, x2);
}

proof fn lemma_223_raise_4()
    ensures
        pow_mod(3nat, 111nat, 223nat) == 222nat,
{
    lemma_223_raise_2();
    lemma_223_power_5();
    lemma_pow_raise(3nat, 223nat, 37nat, 184nat, 3nat, 222nat, 111nat);
}

proof fn lemma_223_power_6()
    ensures
        pow_mod(222nat, 2nat, 223nat) == 1nat,
{
    let n: nat = 223nat;
    let g: nat = 222nat;
    let e0: nat = 1nat;
    let x0: nat = 222nat;
    lemma_pow_first(g, n, x0);
    let x1: nat = 1nat;
    let e1: nat = 2 * e0;
    lemma_pow_square(g, n, e0, x0, x1);
}

proof fn lemma_223_raise_5()
    ensures
        pow_mod(3nat, 222nat, 223nat) == 1nat,
{
    lemma_223_raise_4();
    lemma_223_power_6();
    lemma_pow_raise(3nat, 223nat, 111nat, 222nat, 2nat, 1nat, 222nat);
}

/// `223` is prime.
pub proof fn lemma_prime_223()
    ensures
        is_prime(223nat),
{
    let n: nat = 223nat;
    let g: nat = 3nat;
    lemma_two_is_prime();
    lemma_223_raise_4();
    lemma_prime_3();
    lemma_223_raise_3();
    lemma_prime_37();
    lemma_223_raise_1();
    lemma_223_raise_5();
    let s0: Seq<nat> = Seq::<nat>::empty();
    lemma_witnessed_none(n, g);
    let s1: Seq<nat> = s0.push(2nat);
    lemma_witnessed_more(n, g, s0, 2nat, 111nat, 222nat, 2nat);
    let s2: Seq<nat> = s1.push(3nat);
    lemma_witnessed_more(n, g, s1, 3nat, 74nat, 183nat, 6nat);
    let s3: Seq<nat> = s2.push(37nat);
    lemma_witnessed_more(n, g, s2, 37nat, 6nat, 60nat, 222nat);
    lemma_witnessed_prime(n, g, s3);
}

// The prime 229.
// One less is 2^2 * 3 * 19; the primitive root is 6.

proof fn lemma_229_power_1()
    ensures
        pow_mod(6nat, 2nat, 229nat) == 36nat,
{
    let n: nat = 229nat;
    let g: nat = 6nat;
    let e0: nat = 1nat;
    let x0: nat = 6nat;
    lemma_pow_first(g, n, x0);
    let x1: nat = 36nat;
    let e1: nat = 2 * e0;
    lemma_pow_square(g, n, e0, x0, x1);
}

proof fn lemma_229_power_2()
    ensures
        pow_mod(36nat, 6nat, 229nat) == 165nat,
{
    let n: nat = 229nat;
    let g: nat = 36nat;
    let e0: nat = 1nat;
    let x0: nat = 36nat;
    lemma_pow_first(g, n, x0);
    let x1: nat = 151nat;
    let e1: nat = 2 * e0;
    lemma_pow_square(g, n, e0, x0, x1);
    let x2: nat = 169nat;
    let e2: nat = e1 + 1;
    lemma_pow_times(g, n, e1, x1, x2);
    let x3: nat = 165nat;
    let e3: nat = 2 * e2;
    lemma_pow_square(g, n, e2, x2, x3);
}

proof fn lemma_229_raise_1()
    ensures
        pow_mod(6nat, 12nat, 229nat) == 165nat,
{
    lemma_229_power_1();
    lemma_229_power_2();
    lemma_pow_raise(6nat, 229nat, 2nat, 36nat, 6nat, 165nat, 12nat);
}

proof fn lemma_229_power_3()
    ensures
        pow_mod(36nat, 19nat, 229nat) == 135nat,
{
    let n: nat = 229nat;
    let g: nat = 36nat;
    let e0: nat = 1nat;
    let x0: nat = 36nat;
    lemma_pow_first(g, n, x0);
    let x1: nat = 151nat;
    let e1: nat = 2 * e0;
    lemma_pow_square(g, n, e0, x0, x1);
    let x2: nat = 130nat;
    let e2: nat = 2 * e1;
    lemma_pow_square(g, n, e1, x1, x2);
    let x3: nat = 183nat;
    let e3: nat = 2 * e2;
    lemma_pow_square(g, n, e2, x2, x3);
    let x4: nat = 176nat;
    let e4: nat = e3 + 1;
    lemma_pow_times(g, n, e3, x3, x4);
    let x5: nat = 61nat;
    let e5: nat = 2 * e4;
    lemma_pow_square(g, n, e4, x4, x5);
    let x6: nat = 135nat;
    let e6: nat = e5 + 1;
    lemma_pow_times(g, n, e5, x5, x6);
}

proof fn lemma_229_raise_2()
    ensures
        pow_mod(6nat, 38nat, 229nat) == 135nat,
{
    lemma_229_power_1();
    lemma_229_power_3();
    lemma_pow_raise(6nat, 229nat, 2nat, 36nat, 19nat, 135nat, 38nat);
}

proof fn lemma_229_power_4()
    ensures
        pow_mod(135nat, 2nat, 229nat) == 134nat,
{
    let n: nat = 229nat;
    let g: nat = 135nat;
    let e0: nat = 1nat;
    let x0: nat = 135nat;
    lemma_pow_first(g, n, x0);
    let x1: nat = 134nat;
    let e1: nat = 2 * e0;
    lemma_pow_square(g, n, e0, x0, x1);
}

proof fn lemma_229_raise_3()
    ensures
        pow_mod(6nat, 76nat, 229nat) == 134nat,
{
    lemma_229_raise_2();
    lemma_229_power_4();
    lemma_pow_raise(6nat, 229nat, 38nat, 135nat, 2nat, 134nat, 76nat);
}

proof fn lemma_229_power_5()
    ensures
        pow_mod(135nat, 3nat, 229nat) == 228nat,
{
    let n: nat = 229nat;
    let g: nat = 135nat;
    let e0: nat = 1nat;
    let x0: nat = 135nat;
    lemma_pow_first(g, n, x0);
    let x1: nat = 134nat;
    let e1: nat = 2 * e0;
    lemma_pow_square(g, n, e0, x0, x1);
    let x2: nat = 228nat;
    let e2: nat = e1 + 1;
    lemma_pow_times(g, n, e1, x1, x2);
}

proof fn lemma_229_raise_4()
    ensures
        pow_mod(6nat, 114nat, 229nat) == 228nat,
{
    lemma_229_raise_2();
    lemma_229_power_5();
    lemma_pow_raise(6nat, 229nat, 38nat, 135nat, 3nat, 228nat, 114nat);
}

proof fn lemma_229_power_6()
    ensures
        pow_mod(228nat, 2nat, 229nat) == 1nat,
{
    let n: nat = 229nat;
    let g: nat = 228nat;
    let e0: nat = 1nat;
    let x0: nat = 228nat;
    lemma_pow_first(g, n, x0);
    let x1: nat = 1nat;
    let e1: nat = 2 * e0;
    lemma_pow_square(g, n, e0, x0, x1);
}

proof fn lemma_229_raise_5()
    ensures
        pow_mod(6nat, 228nat, 229nat) == 1nat,
{
    lemma_229_raise_4();
    lemma_229_power_6();
    lemma_pow_raise(6nat, 229nat, 114nat, 228nat, 2nat, 1nat, 228nat);
}

/// `229` is prime.
pub proof fn lemma_prime_229()
    ensures
        is_prime(229nat),
{
    let n: nat = 229nat;
    let g: nat = 6nat;
    lemma_two_is_prime();
    lemma_229_raise_4();
    lemma_prime_3();
    lemma_229_raise_3();
    lemma_prime_19();
    lemma_229_raise_1();
    lemma_229_raise_5();
    let s0: Seq<nat> = Seq::<nat>::empty();
    lemma_witnessed_none(n, g);
    let s1: Seq<nat> = s0.push(2nat);
    lemma_witnessed_more(n, g, s0, 2nat, 114nat, 228nat, 2nat);
    let s2: Seq<nat> = s1.push(2nat);
    lemma_witnessed_more(n, g, s1, 2nat, 114nat, 228nat, 4nat);
    let s3: Seq<nat> = s2.push(3nat);
    lemma_witnessed_more(n, g, s2, 3nat, 76nat, 134nat, 12nat);
    let s4: Seq<nat> = s3.push(19nat);
    lemma_witnessed_more(n, g, s3, 19nat, 12nat, 165nat, 228nat);
    lemma_witnessed_prime(n, g, s4);
}

// The prime 379.
// One less is 2 * 3^3 * 7; the primitive root is 2.

proof fn lemma_379_power_1()
    ensures
        pow_mod(2nat, 9nat, 379nat) == 133nat,
{
    let n: nat = 379nat;
    let g: nat = 2nat;
    let e0: nat = 1nat;
    let x0: nat = 2nat;
    lemma_pow_first(g, n, x0);
    let x1: nat = 4nat;
    let e1: nat = 2 * e0;
    lemma_pow_square(g, n, e0, x0, x1);
    let x2: nat = 16nat;
    let e2: nat = 2 * e1;
    lemma_pow_square(g, n, e1, x1, x2);
    let x3: nat = 256nat;
    let e3: nat = 2 * e2;
    lemma_pow_square(g, n, e2, x2, x3);
    let x4: nat = 133nat;
    let e4: nat = e3 + 1;
    lemma_pow_times(g, n, e3, x3, x4);
}

proof fn lemma_379_power_2()
    ensures
        pow_mod(133nat, 6nat, 379nat) == 125nat,
{
    let n: nat = 379nat;
    let g: nat = 133nat;
    let e0: nat = 1nat;
    let x0: nat = 133nat;
    lemma_pow_first(g, n, x0);
    let x1: nat = 255nat;
    let e1: nat = 2 * e0;
    lemma_pow_square(g, n, e0, x0, x1);
    let x2: nat = 184nat;
    let e2: nat = e1 + 1;
    lemma_pow_times(g, n, e1, x1, x2);
    let x3: nat = 125nat;
    let e3: nat = 2 * e2;
    lemma_pow_square(g, n, e2, x2, x3);
}

proof fn lemma_379_raise_1()
    ensures
        pow_mod(2nat, 54nat, 379nat) == 125nat,
{
    lemma_379_power_1();
    lemma_379_power_2();
    lemma_pow_raise(2nat, 379nat, 9nat, 133nat, 6nat, 125nat, 54nat);
}

proof fn lemma_379_power_3()
    ensures
        pow_mod(133nat, 7nat, 379nat) == 328nat,
{
    let n: nat = 379nat;
    let g: nat = 133nat;
    let e0: nat = 1nat;
    let x0: nat = 133nat;
    lemma_pow_first(g, n, x0);
    let x1: nat = 255nat;
    let e1: nat = 2 * e0;
    lemma_pow_square(g, n, e0, x0, x1);
    let x2: nat = 184nat;
    let e2: nat = e1 + 1;
    lemma_pow_times(g, n, e1, x1, x2);
    let x3: nat = 125nat;
    let e3: nat = 2 * e2;
    lemma_pow_square(g, n, e2, x2, x3);
    let x4: nat = 328nat;
    let e4: nat = e3 + 1;
    lemma_pow_times(g, n, e3, x3, x4);
}

proof fn lemma_379_raise_2()
    ensures
        pow_mod(2nat, 63nat, 379nat) == 328nat,
{
    lemma_379_power_1();
    lemma_379_power_3();
    lemma_pow_raise(2nat, 379nat, 9nat, 133nat, 7nat, 328nat, 63nat);
}

proof fn lemma_379_power_4()
    ensures
        pow_mod(328nat, 2nat, 379nat) == 327nat,
{
    let n: nat = 379nat;
    let g: nat = 328nat;
    let e0: nat = 1nat;
    let x0: nat = 328nat;
    lemma_pow_first(g, n, x0);
    let x1: nat = 327nat;
    let e1: nat = 2 * e0;
    lemma_pow_square(g, n, e0, x0, x1);
}

proof fn lemma_379_raise_3()
    ensures
        pow_mod(2nat, 126nat, 379nat) == 327nat,
{
    lemma_379_raise_2();
    lemma_379_power_4();
    lemma_pow_raise(2nat, 379nat, 63nat, 328nat, 2nat, 327nat, 126nat);
}

proof fn lemma_379_power_5()
    ensures
        pow_mod(328nat, 3nat, 379nat) == 378nat,
{
    let n: nat = 379nat;
    let g: nat = 328nat;
    let e0: nat = 1nat;
    let x0: nat = 328nat;
    lemma_pow_first(g, n, x0);
    let x1: nat = 327nat;
    let e1: nat = 2 * e0;
    lemma_pow_square(g, n, e0, x0, x1);
    let x2: nat = 378nat;
    let e2: nat = e1 + 1;
    lemma_pow_times(g, n, e1, x1, x2);
}

proof fn lemma_379_raise_4()
    ensures
        pow_mod(2nat, 189nat, 379nat) == 378nat,
{
    lemma_379_raise_2();
    lemma_379_power_5();
    lemma_pow_raise(2nat, 379nat, 63nat, 328nat, 3nat, 378nat, 189nat);
}

proof fn lemma_379_power_6()
    ensures
        pow_mod(378nat, 2nat, 379nat) == 1nat,
{
    let n: nat = 379nat;
    let g: nat = 378nat;
    let e0: nat = 1nat;
    let x0: nat = 378nat;
    lemma_pow_first(g, n, x0);
    let x1: nat = 1nat;
    let e1: nat = 2 * e0;
    lemma_pow_square(g, n, e0, x0, x1);
}

proof fn lemma_379_raise_5()
    ensures
        pow_mod(2nat, 378nat, 379nat) == 1nat,
{
    lemma_379_raise_4();
    lemma_379_power_6();
    lemma_pow_raise(2nat, 379nat, 189nat, 378nat, 2nat, 1nat, 378nat);
}

/// `379` is prime.
pub proof fn lemma_prime_379()
    ensures
        is_prime(379nat),
{
    let n: nat = 379nat;
    let g: nat = 2nat;
    lemma_two_is_prime();
    lemma_379_raise_4();
    lemma_prime_3();
    lemma_379_raise_3();
    lemma_prime_7();
    lemma_379_raise_1();
    lemma_379_raise_5();
    let s0: Seq<nat> = Seq::<nat>::empty();
    lemma_witnessed_none(n, g);
    let s1: Seq<nat> = s0.push(2nat);
    lemma_witnessed_more(n, g, s0, 2nat, 189nat, 378nat, 2nat);
    let s2: Seq<nat> = s1.push(3nat);
    lemma_witnessed_more(n, g, s1, 3nat, 126nat, 327nat, 6nat);
    let s3: Seq<nat> = s2.push(3nat);
    lemma_witnessed_more(n, g, s2, 3nat, 126nat, 327nat, 18nat);
    let s4: Seq<nat> = s3.push(3nat);
    lemma_witnessed_more(n, g, s3, 3nat, 126nat, 327nat, 54nat);
    let s5: Seq<nat> = s4.push(7nat);
    lemma_witnessed_more(n, g, s4, 7nat, 54nat, 125nat, 378nat);
    lemma_witnessed_prime(n, g, s5);
}

// The prime 409.
// One less is 2^3 * 3 * 17; the primitive root is 21.

proof fn lemma_409_power_1()
    ensures
        pow_mod(21nat, 4nat, 409nat) == 206nat,
{
    let n: nat = 409nat;
    let g: nat = 21nat;
    let e0: nat = 1nat;
    let x0: nat = 21nat;
    lemma_pow_first(g, n, x0);
    let x1: nat = 32nat;
    let e1: nat = 2 * e0;
    lemma_pow_square(g, n, e0, x0, x1);
    let x2: nat = 206nat;
    let e2: nat = 2 * e1;
    lemma_pow_square(g, n, e1, x1, x2);
}

proof fn lemma_409_power_2()
    ensures
        pow_mod(206nat, 6nat, 409nat) == 5nat,
{
    let n: nat = 409nat;
    let g: nat = 206nat;
    let e0: nat = 1nat;
    let x0: nat = 206nat;
    lemma_pow_first(g, n, x0);
    let x1: nat = 309nat;
    let e1: nat = 2 * e0;
    lemma_pow_square(g, n, e0, x0, x1);
    let x2: nat = 259nat;
    let e2: nat = e1 + 1;
    lemma_pow_times(g, n, e1, x1, x2);
    let x3: nat = 5nat;
    let e3: nat = 2 * e2;
    lemma_pow_square(g, n, e2, x2, x3);
}

proof fn lemma_409_raise_1()
    ensures
        pow_mod(21nat, 24nat, 409nat) == 5nat,
{
    lemma_409_power_1();
    lemma_409_power_2();
    lemma_pow_raise(21nat, 409nat, 4nat, 206nat, 6nat, 5nat, 24nat);
}

proof fn lemma_409_power_3()
    ensures
        pow_mod(206nat, 17nat, 409nat) == 356nat,
{
    let n: nat = 409nat;
    let g: nat = 206nat;
    let e0: nat = 1nat;
    let x0: nat = 206nat;
    lemma_pow_first(g, n, x0);
    let x1: nat = 309nat;
    let e1: nat = 2 * e0;
    lemma_pow_square(g, n, e0, x0, x1);
    let x2: nat = 184nat;
    let e2: nat = 2 * e1;
    lemma_pow_square(g, n, e1, x1, x2);
    let x3: nat = 318nat;
    let e3: nat = 2 * e2;
    lemma_pow_square(g, n, e2, x2, x3);
    let x4: nat = 101nat;
    let e4: nat = 2 * e3;
    lemma_pow_square(g, n, e3, x3, x4);
    let x5: nat = 356nat;
    let e5: nat = e4 + 1;
    lemma_pow_times(g, n, e4, x4, x5);
}

proof fn lemma_409_raise_2()
    ensures
        pow_mod(21nat, 68nat, 409nat) == 356nat,
{
    lemma_409_power_1();
    lemma_409_power_3();
    lemma_pow_raise(21nat, 409nat, 4nat, 206nat, 17nat, 356nat, 68nat);
}

proof fn lemma_409_power_4()
    ensures
        pow_mod(356nat, 2nat, 409nat) == 355nat,
{
    let n: nat = 409nat;
    let g: nat = 356nat;
    let e0: nat = 1nat;
    let x0: nat = 356nat;
    lemma_pow_first(g, n, x0);
    let x1: nat = 355nat;
    let e1: nat = 2 * e0;
    lemma_pow_square(g, n, e0, x0, x1);
}

proof fn lemma_409_raise_3()
    ensures
        pow_mod(21nat, 136nat, 409nat) == 355nat,
{
    lemma_409_raise_2();
    lemma_409_power_4();
    lemma_pow_raise(21nat, 409nat, 68nat, 356nat, 2nat, 355nat, 136nat);
}

proof fn lemma_409_power_5()
    ensures
        pow_mod(356nat, 3nat, 409nat) == 408nat,
{
    let n: nat = 409nat;
    let g: nat = 356nat;
    let e0: nat = 1nat;
    let x0: nat = 356nat;
    lemma_pow_first(g, n, x0);
    let x1: nat = 355nat;
    let e1: nat = 2 * e0;
    lemma_pow_square(g, n, e0, x0, x1);
    let x2: nat = 408nat;
    let e2: nat = e1 + 1;
    lemma_pow_times(g, n, e1, x1, x2);
}

proof fn lemma_409_raise_4()
    ensures
        pow_mod(21nat, 204nat, 409nat) == 408nat,
{
    lemma_409_raise_2();
    lemma_409_power_5();
    lemma_pow_raise(21nat, 409nat, 68nat, 356nat, 3nat, 408nat, 204nat);
}

proof fn lemma_409_power_6()
    ensures
        pow_mod(408nat, 2nat, 409nat) == 1nat,
{
    let n: nat = 409nat;
    let g: nat = 408nat;
    let e0: nat = 1nat;
    let x0: nat = 408nat;
    lemma_pow_first(g, n, x0);
    let x1: nat = 1nat;
    let e1: nat = 2 * e0;
    lemma_pow_square(g, n, e0, x0, x1);
}

proof fn lemma_409_raise_5()
    ensures
        pow_mod(21nat, 408nat, 409nat) == 1nat,
{
    lemma_409_raise_4();
    lemma_409_power_6();
    lemma_pow_raise(21nat, 409nat, 204nat, 408nat, 2nat, 1nat, 408nat);
}

/// `409` is prime.
pub proof fn lemma_prime_409()
    ensures
        is_prime(409nat),
{
    let n: nat = 409nat;
    let g: nat = 21nat;
    lemma_two_is_prime();
    lemma_409_raise_4();
    lemma_prime_3();
    lemma_409_raise_3();
    lemma_prime_17();
    lemma_409_raise_1();
    lemma_409_raise_5();
    let s0: Seq<nat> = Seq::<nat>::empty();
    lemma_witnessed_none(n, g);
    let s1: Seq<nat> = s0.push(2nat);
    lemma_witnessed_more(n, g, s0, 2nat, 204nat, 408nat, 2nat);
    let s2: Seq<nat> = s1.push(2nat);
    lemma_witnessed_more(n, g, s1, 2nat, 204nat, 408nat, 4nat);
    let s3: Seq<nat> = s2.push(2nat);
    lemma_witnessed_more(n, g, s2, 2nat, 204nat, 408nat, 8nat);
    let s4: Seq<nat> = s3.push(3nat);
    lemma_witnessed_more(n, g, s3, 3nat, 136nat, 355nat, 24nat);
    let s5: Seq<nat> = s4.push(17nat);
    lemma_witnessed_more(n, g, s4, 17nat, 24nat, 5nat, 408nat);
    lemma_witnessed_prime(n, g, s5);
}

// The prime 449.
// One less is 2^6 * 7; the primitive root is 3.

proof fn lemma_449_power_1()
    ensures
        pow_mod(3nat, 32nat, 449nat) == 431nat,
{
    let n: nat = 449nat;
    let g: nat = 3nat;
    let e0: nat = 1nat;
    let x0: nat = 3nat;
    lemma_pow_first(g, n, x0);
    let x1: nat = 9nat;
    let e1: nat = 2 * e0;
    lemma_pow_square(g, n, e0, x0, x1);
    let x2: nat = 81nat;
    let e2: nat = 2 * e1;
    lemma_pow_square(g, n, e1, x1, x2);
    let x3: nat = 275nat;
    let e3: nat = 2 * e2;
    lemma_pow_square(g, n, e2, x2, x3);
    let x4: nat = 193nat;
    let e4: nat = 2 * e3;
    lemma_pow_square(g, n, e3, x3, x4);
    let x5: nat = 431nat;
    let e5: nat = 2 * e4;
    lemma_pow_square(g, n, e4, x4, x5);
}

proof fn lemma_449_power_2()
    ensures
        pow_mod(431nat, 2nat, 449nat) == 324nat,
{
    let n: nat = 449nat;
    let g: nat = 431nat;
    let e0: nat = 1nat;
    let x0: nat = 431nat;
    lemma_pow_first(g, n, x0);
    let x1: nat = 324nat;
    let e1: nat = 2 * e0;
    lemma_pow_square(g, n, e0, x0, x1);
}

proof fn lemma_449_raise_1()
    ensures
        pow_mod(3nat, 64nat, 449nat) == 324nat,
{
    lemma_449_power_1();
    lemma_449_power_2();
    lemma_pow_raise(3nat, 449nat, 32nat, 431nat, 2nat, 324nat, 64nat);
}

proof fn lemma_449_power_3()
    ensures
        pow_mod(431nat, 7nat, 449nat) == 448nat,
{
    let n: nat = 449nat;
    let g: nat = 431nat;
    let e0: nat = 1nat;
    let x0: nat = 431nat;
    lemma_pow_first(g, n, x0);
    let x1: nat = 324nat;
    let e1: nat = 2 * e0;
    lemma_pow_square(g, n, e0, x0, x1);
    let x2: nat = 5nat;
    let e2: nat = e1 + 1;
    lemma_pow_times(g, n, e1, x1, x2);
    let x3: nat = 25nat;
    let e3: nat = 2 * e2;
    lemma_pow_square(g, n, e2, x2, x3);
    let x4: nat = 448nat;
    let e4: nat = e3 + 1;
    lemma_pow_times(g, n, e3, x3, x4);
}

proof fn lemma_449_raise_2()
    ensures
        pow_mod(3nat, 224nat, 449nat) == 448nat,
{
    lemma_449_power_1();
    lemma_449_power_3();
    lemma_pow_raise(3nat, 449nat, 32nat, 431nat, 7nat, 448nat, 224nat);
}

proof fn lemma_449_power_4()
    ensures
        pow_mod(448nat, 2nat, 449nat) == 1nat,
{
    let n: nat = 449nat;
    let g: nat = 448nat;
    let e0: nat = 1nat;
    let x0: nat = 448nat;
    lemma_pow_first(g, n, x0);
    let x1: nat = 1nat;
    let e1: nat = 2 * e0;
    lemma_pow_square(g, n, e0, x0, x1);
}

proof fn lemma_449_raise_3()
    ensures
        pow_mod(3nat, 448nat, 449nat) == 1nat,
{
    lemma_449_raise_2();
    lemma_449_power_4();
    lemma_pow_raise(3nat, 449nat, 224nat, 448nat, 2nat, 1nat, 448nat);
}

/// `449` is prime.
pub proof fn lemma_prime_449()
    ensures
        is_prime(449nat),
{
    let n: nat = 449nat;
    let g: nat = 3nat;
    lemma_two_is_prime();
    lemma_449_raise_2();
    lemma_prime_7();
    lemma_449_raise_1();
    lemma_449_raise_3();
    let s0: Seq<nat> = Seq::<nat>::empty();
    lemma_witnessed_none(n, g);
    let s1: Seq<nat> = s0.push(2nat);
    lemma_witnessed_more(n, g, s0, 2nat, 224nat, 448nat, 2nat);
    let s2: Seq<nat> = s1.push(2nat);
    lemma_witnessed_more(n, g, s1, 2nat, 224nat, 448nat, 4nat);
    let s3: Seq<nat> = s2.push(2nat);
    lemma_witnessed_more(n, g, s2, 2nat, 224nat, 448nat, 8nat);
    let s4: Seq<nat> = s3.push(2nat);
    lemma_witnessed_more(n, g, s3, 2nat, 224nat, 448nat, 16nat);
    let s5: Seq<nat> = s4.push(2nat);
    lemma_witnessed_more(n, g, s4, 2nat, 224nat, 448nat, 32nat);
    let s6: Seq<nat> = s5.push(2nat);
    lemma_witnessed_more(n, g, s5, 2nat, 224nat, 448nat, 64nat);
    let s7: Seq<nat> = s6.push(7nat);
    lemma_witnessed_more(n, g, s6, 7nat, 64nat, 324nat, 448nat);
    lemma_witnessed_prime(n, g, s7);
}

// The prime 491.
// One less is 2 * 5 * 7^2; the primitive root is 2.

proof fn lemma_491_power_1()
    ensures
        pow_mod(2nat, 7nat, 491nat) == 128nat,
{
    let n: nat = 491nat;
    let g: nat = 2nat;
    let e0: nat = 1nat;
    let x0: nat = 2nat;
    lemma_pow_first(g, n, x0);
    let x1: nat = 4nat;
    let e1: nat = 2 * e0;
    lemma_pow_square(g, n, e0, x0, x1);
    let x2: nat = 8nat;
    let e2: nat = e1 + 1;
    lemma_pow_times(g, n, e1, x1, x2);
    let x3: nat = 64nat;
    let e3: nat = 2 * e2;
    lemma_pow_square(g, n, e2, x2, x3);
    let x4: nat = 128nat;
    let e4: nat = e3 + 1;
    lemma_pow_times(g, n, e3, x3, x4);
}

proof fn lemma_491_power_2()
    ensures
        pow_mod(128nat, 5nat, 491nat) == 268nat,
{
    let n: nat = 491nat;
    let g: nat = 128nat;
    let e0: nat = 1nat;
    let x0: nat = 128nat;
    lemma_pow_first(g, n, x0);
    let x1: nat = 181nat;
    let e1: nat = 2 * e0;
    lemma_pow_square(g, n, e0, x0, x1);
    let x2: nat = 355nat;
    let e2: nat = 2 * e1;
    lemma_pow_square(g, n, e1, x1, x2);
    let x3: nat = 268nat;
    let e3: nat = e2 + 1;
    lemma_pow_times(g, n, e2, x2, x3);
}

proof fn lemma_491_raise_1()
    ensures
        pow_mod(2nat, 35nat, 491nat) == 268nat,
{
    lemma_491_power_1();
    lemma_491_power_2();
    lemma_pow_raise(2nat, 491nat, 7nat, 128nat, 5nat, 268nat, 35nat);
}

proof fn lemma_491_power_3()
    ensures
        pow_mod(268nat, 2nat, 491nat) == 138nat,
{
    let n: nat = 491nat;
    let g: nat = 268nat;
    let e0: nat = 1nat;
    let x0: nat = 268nat;
    lemma_pow_first(g, n, x0);
    let x1: nat = 138nat;
    let e1: nat = 2 * e0;
    lemma_pow_square(g, n, e0, x0, x1);
}

proof fn lemma_491_raise_2()
    ensures
        pow_mod(2nat, 70nat, 491nat) == 138nat,
{
    lemma_491_raise_1();
    lemma_491_power_3();
    lemma_pow_raise(2nat, 491nat, 35nat, 268nat, 2nat, 138nat, 70nat);
}

proof fn lemma_491_power_4()
    ensures
        pow_mod(268nat, 7nat, 491nat) == 490nat,
{
    let n: nat = 491nat;
    let g: nat = 268nat;
    let e0: nat = 1nat;
    let x0: nat = 268nat;
    lemma_pow_first(g, n, x0);
    let x1: nat = 138nat;
    let e1: nat = 2 * e0;
    lemma_pow_square(g, n, e0, x0, x1);
    let x2: nat = 159nat;
    let e2: nat = e1 + 1;
    lemma_pow_times(g, n, e1, x1, x2);
    let x3: nat = 240nat;
    let e3: nat = 2 * e2;
    lemma_pow_square(g, n, e2, x2, x3);
    let x4: nat = 490nat;
    let e4: nat = e3 + 1;
    lemma_pow_times(g, n, e3, x3, x4);
}

proof fn lemma_491_raise_3()
    ensures
        pow_mod(2nat, 245nat, 491nat) == 490nat,
{
    lemma_491_raise_1();
    lemma_491_power_4();
    lemma_pow_raise(2nat, 491nat, 35nat, 268nat, 7nat, 490nat, 245nat);
}

proof fn lemma_491_power_5()
    ensures
        pow_mod(128nat, 14nat, 491nat) == 381nat,
{
    let n: nat = 491nat;
    let g: nat = 128nat;
    let e0: nat = 1nat;
    let x0: nat = 128nat;
    lemma_pow_first(g, n, x0);
    let x1: nat = 181nat;
    let e1: nat = 2 * e0;
    lemma_pow_square(g, n, e0, x0, x1);
    let x2: nat = 91nat;
    let e2: nat = e1 + 1;
    lemma_pow_times(g, n, e1, x1, x2);
    let x3: nat = 425nat;
    let e3: nat = 2 * e2;
    lemma_pow_square(g, n, e2, x2, x3);
    let x4: nat = 390nat;
    let e4: nat = e3 + 1;
    lemma_pow_times(g, n, e3, x3, x4);
    let x5: nat = 381nat;
    let e5: nat = 2 * e4;
    lemma_pow_square(g, n, e4, x4, x5);
}

proof fn lemma_491_raise_4()
    ensures
        pow_mod(2nat, 98nat, 491nat) == 381nat,
{
    lemma_491_power_1();
    lemma_491_power_5();
    lemma_pow_raise(2nat, 491nat, 7nat, 128nat, 14nat, 381nat, 98nat);
}

proof fn lemma_491_power_6()
    ensures
        pow_mod(490nat, 2nat, 491nat) == 1nat,
{
    let n: nat = 491nat;
    let g: nat = 490nat;
    let e0: nat = 1nat;
    let x0: nat = 490nat;
    lemma_pow_first(g, n, x0);
    let x1: nat = 1nat;
    let e1: nat = 2 * e0;
    lemma_pow_square(g, n, e0, x0, x1);
}

proof fn lemma_491_raise_5()
    ensures
        pow_mod(2nat, 490nat, 491nat) == 1nat,
{
    lemma_491_raise_3();
    lemma_491_power_6();
    lemma_pow_raise(2nat, 491nat, 245nat, 490nat, 2nat, 1nat, 490nat);
}

/// `491` is prime.
pub proof fn lemma_prime_491()
    ensures
        is_prime(491nat),
{
    let n: nat = 491nat;
    let g: nat = 2nat;
    lemma_two_is_prime();
    lemma_491_raise_3();
    lemma_prime_5();
    lemma_491_raise_4();
    lemma_prime_7();
    lemma_491_raise_2();
    lemma_491_raise_5();
    let s0: Seq<nat> = Seq::<nat>::empty();
    lemma_witnessed_none(n, g);
    let s1: Seq<nat> = s0.push(2nat);
    lemma_witnessed_more(n, g, s0, 2nat, 245nat, 490nat, 2nat);
    let s2: Seq<nat> = s1.push(5nat);
    lemma_witnessed_more(n, g, s1, 5nat, 98nat, 381nat, 10nat);
    let s3: Seq<nat> = s2.push(7nat);
    lemma_witnessed_more(n, g, s2, 7nat, 70nat, 138nat, 70nat);
    let s4: Seq<nat> = s3.push(7nat);
    lemma_witnessed_more(n, g, s3, 7nat, 70nat, 138nat, 490nat);
    lemma_witnessed_prime(n, g, s4);
}

// The prime 661.
// One less is 2^2 * 3 * 5 * 11; the primitive root is 2.

proof fn lemma_661_power_1()
    ensures
        pow_mod(2nat, 2nat, 661nat) == 4nat,
{
    let n: nat = 661nat;
    let g: nat = 2nat;
    let e0: nat = 1nat;
    let x0: nat = 2nat;
    lemma_pow_first(g, n, x0);
    let x1: nat = 4nat;
    let e1: nat = 2 * e0;
    lemma_pow_square(g, n, e0, x0, x1);
}

proof fn lemma_661_power_2()
    ensures
        pow_mod(4nat, 15nat, 661nat) == 204nat,
{
    let n: nat = 661nat;
    let g: nat = 4nat;
    let e0: nat = 1nat;
    let x0: nat = 4nat;
    lemma_pow_first(g, n, x0);
    let x1: nat = 16nat;
    let e1: nat = 2 * e0;
    lemma_pow_square(g, n, e0, x0, x1);
    let x2: nat = 64nat;
    let e2: nat = e1 + 1;
    lemma_pow_times(g, n, e1, x1, x2);
    let x3: nat = 130nat;
    let e3: nat = 2 * e2;
    lemma_pow_square(g, n, e2, x2, x3);
    let x4: nat = 520nat;
    let e4: nat = e3 + 1;
    lemma_pow_times(g, n, e3, x3, x4);
    let x5: nat = 51nat;
    let e5: nat = 2 * e4;
    lemma_pow_square(g, n, e4, x4, x5);
    let x6: nat = 204nat;
    let e6: nat = e5 + 1;
    lemma_pow_times(g, n, e5, x5, x6);
}

proof fn lemma_661_raise_1()
    ensures
        pow_mod(2nat, 30nat, 661nat) == 204nat,
{
    lemma_661_power_1();
    lemma_661_power_2();
    lemma_pow_raise(2nat, 661nat, 2nat, 4nat, 15nat, 204nat, 30nat);
}

proof fn lemma_661_power_3()
    ensures
        pow_mod(204nat, 2nat, 661nat) == 634nat,
{
    let n: nat = 661nat;
    let g: nat = 204nat;
    let e0: nat = 1nat;
    let x0: nat = 204nat;
    lemma_pow_first(g, n, x0);
    let x1: nat = 634nat;
    let e1: nat = 2 * e0;
    lemma_pow_square(g, n, e0, x0, x1);
}

proof fn lemma_661_raise_2()
    ensures
        pow_mod(2nat, 60nat, 661nat) == 634nat,
{
    lemma_661_raise_1();
    lemma_661_power_3();
    lemma_pow_raise(2nat, 661nat, 30nat, 204nat, 2nat, 634nat, 60nat);
}

proof fn lemma_661_power_4()
    ensures
        pow_mod(204nat, 11nat, 661nat) == 660nat,
{
    let n: nat = 661nat;
    let g: nat = 204nat;
    let e0: nat = 1nat;
    let x0: nat = 204nat;
    lemma_pow_first(g, n, x0);
    let x1: nat = 634nat;
    let e1: nat = 2 * e0;
    lemma_pow_square(g, n, e0, x0, x1);
    let x2: nat = 68nat;
    let e2: nat = 2 * e1;
    lemma_pow_square(g, n, e1, x1, x2);
    let x3: nat = 652nat;
    let e3: nat = e2 + 1;
    lemma_pow_times(g, n, e2, x2, x3);
    let x4: nat = 81nat;
    let e4: nat = 2 * e3;
    lemma_pow_square(g, n, e3, x3, x4);
    let x5: nat = 660nat;
    let e5: nat = e4 + 1;
    lemma_pow_times(g, n, e4, x4, x5);
}

proof fn lemma_661_raise_3()
    ensures
        pow_mod(2nat, 330nat, 661nat) == 660nat,
{
    lemma_661_raise_1();
    lemma_661_power_4();
    lemma_pow_raise(2nat, 661nat, 30nat, 204nat, 11nat, 660nat, 330nat);
}

proof fn lemma_661_power_5()
    ensures
        pow_mod(4nat, 22nat, 661nat) == 320nat,
{
    let n: nat = 661nat;
    let g: nat = 4nat;
    let e0: nat = 1nat;
    let x0: nat = 4nat;
    lemma_pow_first(g, n, x0);
    let x1: nat = 16nat;
    let e1: nat = 2 * e0;
    lemma_pow_square(g, n, e0, x0, x1);
    let x2: nat = 256nat;
    let e2: nat = 2 * e1;
    lemma_pow_square(g, n, e1, x1, x2);
    let x3: nat = 363nat;
    let e3: nat = e2 + 1;
    lemma_pow_times(g, n, e2, x2, x3);
    let x4: nat = 230nat;
    let e4: nat = 2 * e3;
    lemma_pow_square(g, n, e3, x3, x4);
    let x5: nat = 259nat;
    let e5: nat = e4 + 1;
    lemma_pow_times(g, n, e4, x4, x5);
    let x6: nat = 320nat;
    let e6: nat = 2 * e5;
    lemma_pow_square(g, n, e5, x5, x6);
}

proof fn lemma_661_raise_4()
    ensures
        pow_mod(2nat, 44nat, 661nat) == 320nat,
{
    lemma_661_power_1();
    lemma_661_power_5();
    lemma_pow_raise(2nat, 661nat, 2nat, 4nat, 22nat, 320nat, 44nat);
}

proof fn lemma_661_power_6()
    ensures
        pow_mod(320nat, 3nat, 661nat) == 247nat,
{
    let n: nat = 661nat;
    let g: nat = 320nat;
    let e0: nat = 1nat;
    let x0: nat = 320nat;
    lemma_pow_first(g, n, x0);
    let x1: nat = 606nat;
    let e1: nat = 2 * e0;
    lemma_pow_square(g, n, e0, x0, x1);
    let x2: nat = 247nat;
    let e2: nat = e1 + 1;
    lemma_pow_times(g, n, e1, x1, x2);
}

proof fn lemma_661_raise_5()
    ensures
        pow_mod(2nat, 132nat, 661nat) == 247nat,
{
    lemma_661_raise_4();
    lemma_661_power_6();
    lemma_pow_raise(2nat, 661nat, 44nat, 320nat, 3nat, 247nat, 132nat);
}

proof fn lemma_661_power_7()
    ensures
        pow_mod(320nat, 5nat, 661nat) == 296nat,
{
    let n: nat = 661nat;
    let g: nat = 320nat;
    let e0: nat = 1nat;
    let x0: nat = 320nat;
    lemma_pow_first(g, n, x0);
    let x1: nat = 606nat;
    let e1: nat = 2 * e0;
    lemma_pow_square(g, n, e0, x0, x1);
    let x2: nat = 381nat;
    let e2: nat = 2 * e1;
    lemma_pow_square(g, n, e1, x1, x2);
    let x3: nat = 296nat;
    let e3: nat = e2 + 1;
    lemma_pow_times(g, n, e2, x2, x3);
}

proof fn lemma_661_raise_6()
    ensures
        pow_mod(2nat, 220nat, 661nat) == 296nat,
{
    lemma_661_raise_4();
    lemma_661_power_7();
    lemma_pow_raise(2nat, 661nat, 44nat, 320nat, 5nat, 296nat, 220nat);
}

proof fn lemma_661_power_8()
    ensures
        pow_mod(660nat, 2nat, 661nat) == 1nat,
{
    let n: nat = 661nat;
    let g: nat = 660nat;
    let e0: nat = 1nat;
    let x0: nat = 660nat;
    lemma_pow_first(g, n, x0);
    let x1: nat = 1nat;
    let e1: nat = 2 * e0;
    lemma_pow_square(g, n, e0, x0, x1);
}

proof fn lemma_661_raise_7()
    ensures
        pow_mod(2nat, 660nat, 661nat) == 1nat,
{
    lemma_661_raise_3();
    lemma_661_power_8();
    lemma_pow_raise(2nat, 661nat, 330nat, 660nat, 2nat, 1nat, 660nat);
}

/// `661` is prime.
pub proof fn lemma_prime_661()
    ensures
        is_prime(661nat),
{
    let n: nat = 661nat;
    let g: nat = 2nat;
    lemma_two_is_prime();
    lemma_661_raise_3();
    lemma_prime_3();
    lemma_661_raise_6();
    lemma_prime_5();
    lemma_661_raise_5();
    lemma_prime_11();
    lemma_661_raise_2();
    lemma_661_raise_7();
    let s0: Seq<nat> = Seq::<nat>::empty();
    lemma_witnessed_none(n, g);
    let s1: Seq<nat> = s0.push(2nat);
    lemma_witnessed_more(n, g, s0, 2nat, 330nat, 660nat, 2nat);
    let s2: Seq<nat> = s1.push(2nat);
    lemma_witnessed_more(n, g, s1, 2nat, 330nat, 660nat, 4nat);
    let s3: Seq<nat> = s2.push(3nat);
    lemma_witnessed_more(n, g, s2, 3nat, 220nat, 296nat, 12nat);
    let s4: Seq<nat> = s3.push(5nat);
    lemma_witnessed_more(n, g, s3, 5nat, 132nat, 247nat, 60nat);
    let s5: Seq<nat> = s4.push(11nat);
    lemma_witnessed_more(n, g, s4, 11nat, 60nat, 634nat, 660nat);
    lemma_witnessed_prime(n, g, s5);
}

// The prime 823.
// One less is 2 * 3 * 137; the primitive root is 3.

proof fn lemma_823_power_1()
    ensures
        pow_mod(3nat, 1nat, 823nat) == 3nat,
{
    let n: nat = 823nat;
    let g: nat = 3nat;
    let e0: nat = 1nat;
    let x0: nat = 3nat;
    lemma_pow_first(g, n, x0);
}

proof fn lemma_823_power_2()
    ensures
        pow_mod(3nat, 6nat, 823nat) == 729nat,
{
    let n: nat = 823nat;
    let g: nat = 3nat;
    let e0: nat = 1nat;
    let x0: nat = 3nat;
    lemma_pow_first(g, n, x0);
    let x1: nat = 9nat;
    let e1: nat = 2 * e0;
    lemma_pow_square(g, n, e0, x0, x1);
    let x2: nat = 27nat;
    let e2: nat = e1 + 1;
    lemma_pow_times(g, n, e1, x1, x2);
    let x3: nat = 729nat;
    let e3: nat = 2 * e2;
    lemma_pow_square(g, n, e2, x2, x3);
}

proof fn lemma_823_raise_1()
    ensures
        pow_mod(3nat, 6nat, 823nat) == 729nat,
{
    lemma_823_power_1();
    lemma_823_power_2();
    lemma_pow_raise(3nat, 823nat, 1nat, 3nat, 6nat, 729nat, 6nat);
}

proof fn lemma_823_power_3()
    ensures
        pow_mod(3nat, 137nat, 823nat) == 649nat,
{
    let n: nat = 823nat;
    let g: nat = 3nat;
    let e0: nat = 1nat;
    let x0: nat = 3nat;
    lemma_pow_first(g, n, x0);
    let x1: nat = 9nat;
    let e1: nat = 2 * e0;
    lemma_pow_square(g, n, e0, x0, x1);
    let x2: nat = 81nat;
    let e2: nat = 2 * e1;
    lemma_pow_square(g, n, e1, x1, x2);
    let x3: nat = 800nat;
    let e3: nat = 2 * e2;
    lemma_pow_square(g, n, e2, x2, x3);
    let x4: nat = 529nat;
    let e4: nat = 2 * e3;
    lemma_pow_square(g, n, e3, x3, x4);
    let x5: nat = 764nat;
    let e5: nat = e4 + 1;
    lemma_pow_times(g, n, e4, x4, x5);
    let x6: nat = 189nat;
    let e6: nat = 2 * e5;
    lemma_pow_square(g, n, e5, x5, x6);
    let x7: nat = 332nat;
    let e7: nat = 2 * e6;
    lemma_pow_square(g, n, e6, x6, x7);
    let x8: nat = 765nat;
    let e8: nat = 2 * e7;
    lemma_pow_square(g, n, e7, x7, x8);
    let x9: nat = 649nat;
    let e9: nat = e8 + 1;
    lemma_pow_times(g, n, e8, x8, x9);
}

proof fn lemma_823_raise_2()
    ensures
        pow_mod(3nat, 137nat, 823nat) == 649nat,
{
    lemma_823_power_1();
    lemma_823_power_3();
    lemma_pow_raise(3nat, 823nat, 1nat, 3nat, 137nat, 649nat, 137nat);
}

proof fn lemma_823_power_4()
    ensures
        pow_mod(649nat, 2nat, 823nat) == 648nat,
{
    let n: nat = 823nat;
    let g: nat = 649nat;
    let e0: nat = 1nat;
    let x0: nat = 649nat;
    lemma_pow_first(g, n, x0);
    let x1: nat = 648nat;
    let e1: nat = 2 * e0;
    lemma_pow_square(g, n, e0, x0, x1);
}

proof fn lemma_823_raise_3()
    ensures
        pow_mod(3nat, 274nat, 823nat) == 648nat,
{
    lemma_823_raise_2();
    lemma_823_power_4();
    lemma_pow_raise(3nat, 823nat, 137nat, 649nat, 2nat, 648nat, 274nat);
}

proof fn lemma_823_power_5()
    ensures
        pow_mod(649nat, 3nat, 823nat) == 822nat,
{
    let n: nat = 823nat;
    let g: nat = 649nat;
    let e0: nat = 1nat;
    let x0: nat = 649nat;
    lemma_pow_first(g, n, x0);
    let x1: nat = 648nat;
    let e1: nat = 2 * e0;
    lemma_pow_square(g, n, e0, x0, x1);
    let x2: nat = 822nat;
    let e2: nat = e1 + 1;
    lemma_pow_times(g, n, e1, x1, x2);
}

proof fn lemma_823_raise_4()
    ensures
        pow_mod(3nat, 411nat, 823nat) == 822nat,
{
    lemma_823_raise_2();
    lemma_823_power_5();
    lemma_pow_raise(3nat, 823nat, 137nat, 649nat, 3nat, 822nat, 411nat);
}

proof fn lemma_823_power_6()
    ensures
        pow_mod(822nat, 2nat, 823nat) == 1nat,
{
    let n: nat = 823nat;
    let g: nat = 822nat;
    let e0: nat = 1nat;
    let x0: nat = 822nat;
    lemma_pow_first(g, n, x0);
    let x1: nat = 1nat;
    let e1: nat = 2 * e0;
    lemma_pow_square(g, n, e0, x0, x1);
}

proof fn lemma_823_raise_5()
    ensures
        pow_mod(3nat, 822nat, 823nat) == 1nat,
{
    lemma_823_raise_4();
    lemma_823_power_6();
    lemma_pow_raise(3nat, 823nat, 411nat, 822nat, 2nat, 1nat, 822nat);
}

/// `823` is prime.
pub proof fn lemma_prime_823()
    ensures
        is_prime(823nat),
{
    let n: nat = 823nat;
    let g: nat = 3nat;
    lemma_two_is_prime();
    lemma_823_raise_4();
    lemma_prime_3();
    lemma_823_raise_3();
    lemma_prime_137();
    lemma_823_raise_1();
    lemma_823_raise_5();
    let s0: Seq<nat> = Seq::<nat>::empty();
    lemma_witnessed_none(n, g);
    let s1: Seq<nat> = s0.push(2nat);
    lemma_witnessed_more(n, g, s0, 2nat, 411nat, 822nat, 2nat);
    let s2: Seq<nat> = s1.push(3nat);
    lemma_witnessed_more(n, g, s1, 3nat, 274nat, 648nat, 6nat);
    let s3: Seq<nat> = s2.push(137nat);
    lemma_witnessed_more(n, g, s2, 137nat, 6nat, 729nat, 822nat);
    lemma_witnessed_prime(n, g, s3);
}

// The prime 853.
// One less is 2^2 * 3 * 71; the primitive root is 2.

proof fn lemma_853_power_1()
    ensures
        pow_mod(2nat, 2nat, 853nat) == 4nat,
{
    let n: nat = 853nat;
    let g: nat = 2nat;
    let e0: nat = 1nat;
    let x0: nat = 2nat;
    lemma_pow_first(g, n, x0);
    let x1: nat = 4nat;
    let e1: nat = 2 * e0;
    lemma_pow_square(g, n, e0, x0, x1);
}

proof fn lemma_853_power_2()
    ensures
        pow_mod(4nat, 6nat, 853nat) == 684nat,
{
    let n: nat = 853nat;
    let g: nat = 4nat;
    let e0: nat = 1nat;
    let x0: nat = 4nat;
    lemma_pow_first(g, n, x0);
    let x1: nat = 16nat;
    let e1: nat = 2 * e0;
    lemma_pow_square(g, n, e0, x0, x1);
    let x2: nat = 64nat;
    let e2: nat = e1 + 1;
    lemma_pow_times(g, n, e1, x1, x2);
    let x3: nat = 684nat;
    let e3: nat = 2 * e2;
    lemma_pow_square(g, n, e2, x2, x3);
}

proof fn lemma_853_raise_1()
    ensures
        pow_mod(2nat, 12nat, 853nat) == 684nat,
{
    lemma_853_power_1();
    lemma_853_power_2();
    lemma_pow_raise(2nat, 853nat, 2nat, 4nat, 6nat, 684nat, 12nat);
}

proof fn lemma_853_power_3()
    ensures
        pow_mod(4nat, 71nat, 853nat) == 633nat,
{
    let n: nat = 853nat;
    let g: nat = 4nat;
    let e0: nat = 1nat;
    let x0: nat = 4nat;
    lemma_pow_first(g, n, x0);
    let x1: nat = 16nat;
    let e1: nat = 2 * e0;
    lemma_pow_square(g, n, e0, x0, x1);
    let x2: nat = 256nat;
    let e2: nat = 2 * e1;
    lemma_pow_square(g, n, e1, x1, x2);
    let x3: nat = 708nat;
    let e3: nat = 2 * e2;
    lemma_pow_square(g, n, e2, x2, x3);
    let x4: nat = 553nat;
    let e4: nat = 2 * e3;
    lemma_pow_square(g, n, e3, x3, x4);
    let x5: nat = 506nat;
    let e5: nat = e4 + 1;
    lemma_pow_times(g, n, e4, x4, x5);
    let x6: nat = 136nat;
    let e6: nat = 2 * e5;
    lemma_pow_square(g, n, e5, x5, x6);
    let x7: nat = 544nat;
    let e7: nat = e6 + 1;
    lemma_pow_times(g, n, e6, x6, x7);
    let x8: nat = 798nat;
    let e8: nat = 2 * e7;
    lemma_pow_square(g, n, e7, x7, x8);
    let x9: nat = 633nat;
    let e9: nat = e8 + 1;
    lemma_pow_times(g, n, e8, x8, x9);
}

proof fn lemma_853_raise_2()
    ensures
        pow_mod(2nat, 142nat, 853nat) == 633nat,
{
    lemma_853_power_1();
    lemma_853_power_3();
    lemma_pow_raise(2nat, 853nat, 2nat, 4nat, 71nat, 633nat, 142nat);
}

proof fn lemma_853_power_4()
    ensures
        pow_mod(633nat, 2nat, 853nat) == 632nat,
{
    let n: nat = 853nat;
    let g: nat = 633nat;
    let e0: nat = 1nat;
    let x0: nat = 633nat;
    lemma_pow_first(g, n, x0);
    let x1: nat = 632nat;
    let e1: nat = 2 * e0;
    lemma_pow_square(g, n, e0, x0, x1);
}

proof fn lemma_853_raise_3()
    ensures
        pow_mod(2nat, 284nat, 853nat) == 632nat,
{
    lemma_853_raise_2();
    lemma_853_power_4();
    lemma_pow_raise(2nat, 853nat, 142nat, 633nat, 2nat, 632nat, 284nat);
}

proof fn lemma_853_power_5()
    ensures
        pow_mod(633nat, 3nat, 853nat) == 852nat,
{
    let n: nat = 853nat;
    let g: nat = 633nat;
    let e0: nat = 1nat;
    let x0: nat = 633nat;
    lemma_pow_first(g, n, x0);
    let x1: nat = 632nat;
    let e1: nat = 2 * e0;
    lemma_pow_square(g, n, e0, x0, x1);
    let x2: nat = 852nat;
    let e2: nat = e1 + 1;
    lemma_pow_times(g, n, e1, x1, x2);
}

proof fn lemma_853_raise_4()
    ensures
        pow_mod(2nat, 426nat, 853nat) == 852nat,
{
    lemma_853_raise_2();
    lemma_853_power_5();
    lemma_pow_raise(2nat, 853nat, 142nat, 633nat, 3nat, 852nat, 426nat);
}

proof fn lemma_853_power_6()
    ensures
        pow_mod(852nat, 2nat, 853nat) == 1nat,
{
    let n: nat = 853nat;
    let g: nat = 852nat;
    let e0: nat = 1nat;
    let x0: nat = 852nat;
    lemma_pow_first(g, n, x0);
    let x1: nat = 1nat;
    let e1: nat = 2 * e0;
    lemma_pow_square(g, n, e0, x0, x1);
}

proof fn lemma_853_raise_5()
    ensures
        pow_mod(2nat, 852nat, 853nat) == 1nat,
{
    lemma_853_raise_4();
    lemma_853_power_6();
    lemma_pow_raise(2nat, 853nat, 426nat, 852nat, 2nat, 1nat, 852nat);
}

/// `853` is prime.
pub proof fn lemma_prime_853()
    ensures
        is_prime(853nat),
{
    let n: nat = 853nat;
    let g: nat = 2nat;
    lemma_two_is_prime();
    lemma_853_raise_4();
    lemma_prime_3();
    lemma_853_raise_3();
    lemma_prime_71();
    lemma_853_raise_1();
    lemma_853_raise_5();
    let s0: Seq<nat> = Seq::<nat>::empty();
    lemma_witnessed_none(n, g);
    let s1: Seq<nat> = s0.push(2nat);
    lemma_witnessed_more(n, g, s0, 2nat, 426nat, 852nat, 2nat);
    let s2: Seq<nat> = s1.push(2nat);
    lemma_witnessed_more(n, g, s1, 2nat, 426nat, 852nat, 4nat);
    let s3: Seq<nat> = s2.push(3nat);
    lemma_witnessed_more(n, g, s2, 3nat, 284nat, 632nat, 12nat);
    let s4: Seq<nat> = s3.push(71nat);
    lemma_witnessed_more(n, g, s3, 71nat, 12nat, 684nat, 852nat);
    lemma_witnessed_prime(n, g, s4);
}

// The prime 983.
// One less is 2 * 491; the primitive root is 5.

proof fn lemma_983_power_1()
    ensures
        pow_mod(5nat, 1nat, 983nat) == 5nat,
{
    let n: nat = 983nat;
    let g: nat = 5nat;
    let e0: nat = 1nat;
    let x0: nat = 5nat;
    lemma_pow_first(g, n, x0);
}

proof fn lemma_983_power_2()
    ensures
        pow_mod(5nat, 2nat, 983nat) == 25nat,
{
    let n: nat = 983nat;
    let g: nat = 5nat;
    let e0: nat = 1nat;
    let x0: nat = 5nat;
    lemma_pow_first(g, n, x0);
    let x1: nat = 25nat;
    let e1: nat = 2 * e0;
    lemma_pow_square(g, n, e0, x0, x1);
}

proof fn lemma_983_raise_1()
    ensures
        pow_mod(5nat, 2nat, 983nat) == 25nat,
{
    lemma_983_power_1();
    lemma_983_power_2();
    lemma_pow_raise(5nat, 983nat, 1nat, 5nat, 2nat, 25nat, 2nat);
}

proof fn lemma_983_power_3()
    ensures
        pow_mod(5nat, 491nat, 983nat) == 982nat,
{
    let n: nat = 983nat;
    let g: nat = 5nat;
    let e0: nat = 1nat;
    let x0: nat = 5nat;
    lemma_pow_first(g, n, x0);
    let x1: nat = 25nat;
    let e1: nat = 2 * e0;
    lemma_pow_square(g, n, e0, x0, x1);
    let x2: nat = 125nat;
    let e2: nat = e1 + 1;
    lemma_pow_times(g, n, e1, x1, x2);
    let x3: nat = 880nat;
    let e3: nat = 2 * e2;
    lemma_pow_square(g, n, e2, x2, x3);
    let x4: nat = 468nat;
    let e4: nat = e3 + 1;
    lemma_pow_times(g, n, e3, x3, x4);
    let x5: nat = 798nat;
    let e5: nat = 2 * e4;
    lemma_pow_square(g, n, e4, x4, x5);
    let x6: nat = 58nat;
    let e6: nat = e5 + 1;
    lemma_pow_times(g, n, e5, x5, x6);
    let x7: nat = 415nat;
    let e7: nat = 2 * e6;
    lemma_pow_square(g, n, e6, x6, x7);
    let x8: nat = 200nat;
    let e8: nat = 2 * e7;
    lemma_pow_square(g, n, e7, x7, x8);
    let x9: nat = 17nat;
    let e9: nat = e8 + 1;
    lemma_pow_times(g, n, e8, x8, x9);
    let x10: nat = 289nat;
    let e10: nat = 2 * e9;
    lemma_pow_square(g, n, e9, x9, x10);
    let x11: nat = 949nat;
    let e11: nat = 2 * e10;
    lemma_pow_square(g, n, e10, x10, x11);
    let x12: nat = 813nat;
    let e12: nat = e11 + 1;
    lemma_pow_times(g, n, e11, x11, x12);
    let x13: nat = 393nat;
    let e13: nat = 2 * e12;
    lemma_pow_square(g, n, e12, x12, x13);
    let x14: nat = 982nat;
    let e14: nat = e13 + 1;
    lemma_pow_times(g, n, e13, x13, x14);
}

proof fn lemma_983_raise_2()
    ensures
        pow_mod(5nat, 491nat, 983nat) == 982nat,
{
    lemma_983_power_1();
    lemma_983_power_3();
    lemma_pow_raise(5nat, 983nat, 1nat, 5nat, 491nat, 982nat, 491nat);
}

proof fn lemma_983_power_4()
    ensures
        pow_mod(982nat, 2nat, 983nat) == 1nat,
{
    let n: nat = 983nat;
    let g: nat = 982nat;
    let e0: nat = 1nat;
    let x0: nat = 982nat;
    lemma_pow_first(g, n, x0);
    let x1: nat = 1nat;
    let e1: nat = 2 * e0;
    lemma_pow_square(g, n, e0, x0, x1);
}

proof fn lemma_983_raise_3()
    ensures
        pow_mod(5nat, 982nat, 983nat) == 1nat,
{
    lemma_983_raise_2();
    lemma_983_power_4();
    lemma_pow_raise(5nat, 983nat, 491nat, 982nat, 2nat, 1nat, 982nat);
}

/// `983` is prime.
pub proof fn lemma_prime_983()
    ensures
        is_prime(983nat),
{
    let n: nat = 983nat;
    let g: nat = 5nat;
    lemma_two_is_prime();
    lemma_983_raise_2();
    lemma_prime_491();
    lemma_983_raise_1();
    lemma_983_raise_3();
    let s0: Seq<nat> = Seq::<nat>::empty();
    lemma_witnessed_none(n, g);
    let s1: Seq<nat> = s0.push(2nat);
    lemma_witnessed_more(n, g, s0, 2nat, 491nat, 982nat, 2nat);
    let s2: Seq<nat> = s1.push(491nat);
    lemma_witnessed_more(n, g, s1, 491nat, 2nat, 25nat, 982nat);
    lemma_witnessed_prime(n, g, s2);
}

// The prime 1637.
// One less is 2^2 * 409; the primitive root is 2.

proof fn lemma_1637_power_1()
    ensures
        pow_mod(2nat, 2nat, 1637nat) == 4nat,
{
    let n: nat = 1637nat;
    let g: nat = 2nat;
    let e0: nat = 1nat;
    let x0: nat = 2nat;
    lemma_pow_first(g, n, x0);
    let x1: nat = 4nat;
    let e1: nat = 2 * e0;
    lemma_pow_square(g, n, e0, x0, x1);
}

proof fn lemma_1637_power_2()
    ensures
        pow_mod(4nat, 2nat, 1637nat) == 16nat,
{
    let n: nat = 1637nat;
    let g: nat = 4nat;
    let e0: nat = 1nat;
    let x0: nat = 4nat;
    lemma_pow_first(g, n, x0);
    let x1: nat = 16nat;
    let e1: nat = 2 * e0;
    lemma_pow_square(g, n, e0, x0, x1);
}

proof fn lemma_1637_raise_1()
    ensures
        pow_mod(2nat, 4nat, 1637nat) == 16nat,
{
    lemma_1637_power_1();
    lemma_1637_power_2();
    lemma_pow_raise(2nat, 1637nat, 2nat, 4nat, 2nat, 16nat, 4nat);
}

proof fn lemma_1637_power_3()
    ensures
        pow_mod(4nat, 409nat, 1637nat) == 1636nat,
{
    let n: nat = 1637nat;
    let g: nat = 4nat;
    let e0: nat = 1nat;
    let x0: nat = 4nat;
    lemma_pow_first(g, n, x0);
    let x1: nat = 16nat;
    let e1: nat = 2 * e0;
    lemma_pow_square(g, n, e0, x0, x1);
    let x2: nat = 64nat;
    let e2: nat = e1 + 1;
    lemma_pow_times(g, n, e1, x1, x2);
    let x3: nat = 822nat;
    let e3: nat = 2 * e2;
    lemma_pow_square(g, n, e2, x2, x3);
    let x4: nat = 1240nat;
    let e4: nat = 2 * e3;
    lemma_pow_square(g, n, e3, x3, x4);
    let x5: nat = 457nat;
    let e5: nat = 2 * e4;
    lemma_pow_square(g, n, e4, x4, x5);
    let x6: nat = 191nat;
    let e6: nat = e5 + 1;
    lemma_pow_times(g, n, e5, x5, x6);
    let x7: nat = 467nat;
    let e7: nat = 2 * e6;
    lemma_pow_square(g, n, e6, x6, x7);
    let x8: nat = 231nat;
    let e8: nat = e7 + 1;
    lemma_pow_times(g, n, e7, x7, x8);
    let x9: nat = 977nat;
    let e9: nat = 2 * e8;
    lemma_pow_square(g, n, e8, x8, x9);
    let x10: nat = 158nat;
    let e10: nat = 2 * e9;
    lemma_pow_square(g, n, e9, x9, x10);
    let x11: nat = 409nat;
    let e11: nat = 2 * e10;
    lemma_pow_square(g, n, e10, x10, x11);
    let x12: nat = 1636nat;
    let e12: nat = e11 + 1;
    lemma_pow_times(g, n, e11, x11, x12);
}

proof fn lemma_1637_raise_2()
    ensures
        pow_mod(2nat, 818nat, 1637nat) == 1636nat,
{
    lemma_1637_power_1();
    lemma_1637_power_3();
    lemma_pow_raise(2nat, 1637nat, 2nat, 4nat, 409nat, 1636nat, 818nat);
}

proof fn lemma_1637_power_4()
    ensures
        pow_mod(1636nat, 2nat, 1637nat) == 1nat,
{
    let n: nat = 1637nat;
    let g: nat = 1636nat;
    let e0: nat = 1nat;
    let x0: nat = 1636nat;
    lemma_pow_first(g, n, x0);
    let x1: nat = 1nat;
    let e1: nat = 2 * e0;
    lemma_pow_square(g, n, e0, x0, x1);
}

proof fn lemma_1637_raise_3()
    ensures
        pow_mod(2nat, 1636nat, 1637nat) == 1nat,
{
    lemma_1637_raise_2();
    lemma_1637_power_4();
    lemma_pow_raise(2nat, 1637nat, 818nat, 1636nat, 2nat, 1nat, 1636nat);
}

/// `1637` is prime.
pub proof fn lemma_prime_1637()
    ensures
        is_prime(1637nat),
{
    let n: nat = 1637nat;
    let g: nat = 2nat;
    lemma_two_is_prime();
    lemma_1637_raise_2();
    lemma_prime_409();
    lemma_1637_raise_1();
    lemma_1637_raise_3();
    let s0: Seq<nat> = Seq::<nat>::empty();
    lemma_witnessed_none(n, g);
    let s1: Seq<nat> = s0.push(2nat);
    lemma_witnessed_more(n, g, s0, 2nat, 818nat, 1636nat, 2nat);
    let s2: Seq<nat> = s1.push(2nat);
    lemma_witnessed_more(n, g, s1, 2nat, 818nat, 1636nat, 4nat);
    let s3: Seq<nat> = s2.push(409nat);
    lemma_witnessed_more(n, g, s2, 409nat, 4nat, 16nat, 1636nat);
    lemma_witnessed_prime(n, g, s3);
}

// The prime 3691.
// One less is 2 * 3^2 * 5 * 41; the primitive root is 2.

proof fn lemma_3691_power_1()
    ensures
        pow_mod(2nat, 3nat, 3691nat) == 8nat,
{
    let n: nat = 3691nat;
    let g: nat = 2nat;
    let e0: nat = 1nat;
    let x0: nat = 2nat;
    lemma_pow_first(g, n, x0);
    let x1: nat = 4nat;
    let e1: nat = 2 * e0;
    lemma_pow_square(g, n, e0, x0, x1);
    let x2: nat = 8nat;
    let e2: nat = e1 + 1;
    lemma_pow_times(g, n, e1, x1, x2);
}

proof fn lemma_3691_power_2()
    ensures
        pow_mod(8nat, 30nat, 3691nat) == 1752nat,
{
    let n: nat = 3691nat;
    let g: nat = 8nat;
    let e0: nat = 1nat;
    let x0: nat = 8nat;
    lemma_pow_first(g, n, x0);
    let x1: nat = 64nat;
    let e1: nat = 2 * e0;
    lemma_pow_square(g, n, e0, x0, x1);
    let x2: nat = 512nat;
    let e2: nat = e1 + 1;
    lemma_pow_times(g, n, e1, x1, x2);
    let x3: nat = 83nat;
    let e3: nat = 2 * e2;
    lemma_pow_square(g, n, e2, x2, x3);
    let x4: nat = 664nat;
    let e4: nat = e3 + 1;
    lemma_pow_times(g, n, e3, x3, x4);
    let x5: nat = 1667nat;
    let e5: nat = 2 * e4;
    lemma_pow_square(g, n, e4, x4, x5);
    let x6: nat = 2263nat;
    let e6: nat = e5 + 1;
    lemma_pow_times(g, n, e5, x5, x6);
    let x7: nat = 1752nat;
    let e7: nat = 2 * e6;
    lemma_pow_square(g, n, e6, x6, x7);
}

proof fn lemma_3691_raise_1()
    ensures
        pow_mod(2nat, 90nat, 3691nat) == 1752nat,
{
    lemma_3691_power_1();
    lemma_3691_power_2();
    lemma_pow_raise(2nat, 3691nat, 3nat, 8nat, 30nat, 1752nat, 90nat);
}

proof fn lemma_3691_power_3()
    ensures
        pow_mod(8nat, 41nat, 3691nat) == 2763nat,
{
    let n: nat = 3691nat;
    let g: nat = 8nat;
    let e0: nat = 1nat;
    let x0: nat = 8nat;
    lemma_pow_first(g, n, x0);
    let x1: nat = 64nat;
    let e1: nat = 2 * e0;
    lemma_pow_square(g, n, e0, x0, x1);
    let x2: nat = 405nat;
    let e2: nat = 2 * e1;
    lemma_pow_square(g, n, e1, x1, x2);
    let x3: nat = 3240nat;
    let e3: nat = e2 + 1;
    lemma_pow_times(g, n, e2, x2, x3);
    let x4: nat = 396nat;
    let e4: nat = 2 * e3;
    lemma_pow_square(g, n, e3, x3, x4);
    let x5: nat = 1794nat;
    let e5: nat = 2 * e4;
    lemma_pow_square(g, n, e4, x4, x5);
    let x6: nat = 3575nat;
    let e6: nat = 2 * e5;
    lemma_pow_square(g, n, e5, x5, x6);
    let x7: nat = 2763nat;
    let e7: nat = e6 + 1;
    lemma_pow_times(g, n, e6, x6, x7);
}

proof fn lemma_3691_raise_2()
    ensures
        pow_mod(2nat, 123nat, 3691nat) == 2763nat,
{
    lemma_3691_power_1();
    lemma_3691_power_3();
    lemma_pow_raise(2nat, 3691nat, 3nat, 8nat, 41nat, 2763nat, 123nat);
}

proof fn lemma_3691_power_4()
    ensures
        pow_mod(2763nat, 6nat, 3691nat) == 643nat,
{
    let n: nat = 3691nat;
    let g: nat = 2763nat;
    let e0: nat = 1nat;
    let x0: nat = 2763nat;
    lemma_pow_first(g, n, x0);
    let x1: nat = 1181nat;
    let e1: nat = 2 * e0;
    lemma_pow_square(g, n, e0, x0, x1);
    let x2: nat = 259nat;
    let e2: nat = e1 + 1;
    lemma_pow_times(g, n, e1, x1, x2);
    let x3: nat = 643nat;
    let e3: nat = 2 * e2;
    lemma_pow_square(g, n, e2, x2, x3);
}

proof fn lemma_3691_raise_3()
    ensures
        pow_mod(2nat, 738nat, 3691nat) == 643nat,
{
    lemma_3691_raise_2();
    lemma_3691_power_4();
    lemma_pow_raise(2nat, 3691nat, 123nat, 2763nat, 6nat, 643nat, 738nat);
}

proof fn lemma_3691_power_5()
    ensures
        pow_mod(2763nat, 5nat, 3691nat) == 3217nat,
{
    let n: nat = 3691nat;
    let g: nat = 2763nat;
    let e0: nat = 1nat;
    let x0: nat = 2763nat;
    lemma_pow_first(g, n, x0);
    let x1: nat = 1181nat;
    let e1: nat = 2 * e0;
    lemma_pow_square(g, n, e0, x0, x1);
    let x2: nat = 3254nat;
    let e2: nat = 2 * e1;
    lemma_pow_square(g, n, e1, x1, x2);
    let x3: nat = 3217nat;
    let e3: nat = e2 + 1;
    lemma_pow_times(g, n, e2, x2, x3);
}

proof fn lemma_3691_raise_4()
    ensures
        pow_mod(2nat, 615nat, 3691nat) == 3217nat,
{
    lemma_3691_raise_2();
    lemma_3691_power_5();
    lemma_pow_raise(2nat, 3691nat, 123nat, 2763nat, 5nat, 3217nat, 615nat);
}

proof fn lemma_3691_power_6()
    ensures
        pow_mod(3217nat, 2nat, 3691nat) == 3216nat,
{
    let n: nat = 3691nat;
    let g: nat = 3217nat;
    let e0: nat = 1nat;
    let x0: nat = 3217nat;
    lemma_pow_first(g, n, x0);
    let x1: nat = 3216nat;
    let e1: nat = 2 * e0;
    lemma_pow_square(g, n, e0, x0, x1);
}

proof fn lemma_3691_raise_5()
    ensures
        pow_mod(2nat, 1230nat, 3691nat) == 3216nat,
{
    lemma_3691_raise_4();
    lemma_3691_power_6();
    lemma_pow_raise(2nat, 3691nat, 615nat, 3217nat, 2nat, 3216nat, 1230nat);
}

proof fn lemma_3691_power_7()
    ensures
        pow_mod(3217nat, 3nat, 3691nat) == 3690nat,
{
    let n: nat = 3691nat;
    let g: nat = 3217nat;
    let e0: nat = 1nat;
    let x0: nat = 3217nat;
    lemma_pow_first(g, n, x0);
    let x1: nat = 3216nat;
    let e1: nat = 2 * e0;
    lemma_pow_square(g, n, e0, x0, x1);
    let x2: nat = 3690nat;
    let e2: nat = e1 + 1;
    lemma_pow_times(g, n, e1, x1, x2);
}

proof fn lemma_3691_raise_6()
    ensures
        pow_mod(2nat, 1845nat, 3691nat) == 3690nat,
{
    lemma_3691_raise_4();
    lemma_3691_power_7();
    lemma_pow_raise(2nat, 3691nat, 615nat, 3217nat, 3nat, 3690nat, 1845nat);
}

proof fn lemma_3691_power_8()
    ensures
        pow_mod(3690nat, 2nat, 3691nat) == 1nat,
{
    let n: nat = 3691nat;
    let g: nat = 3690nat;
    let e0: nat = 1nat;
    let x0: nat = 3690nat;
    lemma_pow_first(g, n, x0);
    let x1: nat = 1nat;
    let e1: nat = 2 * e0;
    lemma_pow_square(g, n, e0, x0, x1);
}

proof fn lemma_3691_raise_7()
    ensures
        pow_mod(2nat, 3690nat, 3691nat) == 1nat,
{
    lemma_3691_raise_6();
    lemma_3691_power_8();
    lemma_pow_raise(2nat, 3691nat, 1845nat, 3690nat, 2nat, 1nat, 3690nat);
}

/// `3691` is prime.
pub proof fn lemma_prime_3691()
    ensures
        is_prime(3691nat),
{
    let n: nat = 3691nat;
    let g: nat = 2nat;
    lemma_two_is_prime();
    lemma_3691_raise_6();
    lemma_prime_3();
    lemma_3691_raise_5();
    lemma_prime_5();
    lemma_3691_raise_3();
    lemma_prime_41();
    lemma_3691_raise_1();
    lemma_3691_raise_7();
    let s0: Seq<nat> = Seq::<nat>::empty();
    lemma_witnessed_none(n, g);
    let s1: Seq<nat> = s0.push(2nat);
    lemma_witnessed_more(n, g, s0, 2nat, 1845nat, 3690nat, 2nat);
    let s2: Seq<nat> = s1.push(3nat);
    lemma_witnessed_more(n, g, s1, 3nat, 1230nat, 3216nat, 6nat);
    let s3: Seq<nat> = s2.push(3nat);
    lemma_witnessed_more(n, g, s2, 3nat, 1230nat, 3216nat, 18nat);
    let s4: Seq<nat> = s3.push(5nat);
    lemma_witnessed_more(n, g, s3, 5nat, 738nat, 643nat, 90nat);
    let s5: Seq<nat> = s4.push(41nat);
    lemma_witnessed_more(n, g, s4, 41nat, 90nat, 1752nat, 3690nat);
    lemma_witnessed_prime(n, g, s5);
}

// The prime 4999.
// One less is 2 * 3 * 7^2 * 17; the primitive root is 3.

proof fn lemma_4999_power_1()
    ensures
        pow_mod(3nat, 7nat, 4999nat) == 2187nat,
{
    let n: nat = 4999nat;
    let g: nat = 3nat;
    let e0: nat = 1nat;
    let x0: nat = 3nat;
    lemma_pow_first(g, n, x0);
    let x1: nat = 9nat;
    let e1: nat = 2 * e0;
    lemma_pow_square(g, n, e0, x0, x1);
    let x2: nat = 27nat;
    let e2: nat = e1 + 1;
    lemma_pow_times(g, n, e1, x1, x2);
    let x3: nat = 729nat;
    let e3: nat = 2 * e2;
    lemma_pow_square(g, n, e2, x2, x3);
    let x4: nat = 2187nat;
    let e4: nat = e3 + 1;
    lemma_pow_times(g, n, e3, x3, x4);
}

proof fn lemma_4999_power_2()
    ensures
        pow_mod(2187nat, 21nat, 4999nat) == 4679nat,
{
    let n: nat = 4999nat;
    let g: nat = 2187nat;
    let e0: nat = 1nat;
    let x0: nat = 2187nat;
    lemma_pow_first(g, n, x0);
    let x1: nat = 3925nat;
    let e1: nat = 2 * e0;
    lemma_pow_square(g, n, e0, x0, x1);
    let x2: nat = 3706nat;
    let e2: nat = 2 * e1;
    lemma_pow_square(g, n, e1, x1, x2);
    let x3: nat = 1643nat;
    let e3: nat = e2 + 1;
    lemma_pow_times(g, n, e2, x2, x3);
    let x4: nat = 4988nat;
    let e4: nat = 2 * e3;
    lemma_pow_square(g, n, e3, x3, x4);
    let x5: nat = 121nat;
    let e5: nat = 2 * e4;
    lemma_pow_square(g, n, e4, x4, x5);
    let x6: nat = 4679nat;
    let e6: nat = e5 + 1;
    lemma_pow_times(g, n, e5, x5, x6);
}

proof fn lemma_4999_raise_1()
    ensures
        pow_mod(3nat, 147nat, 4999nat) == 4679nat,
{
    lemma_4999_power_1();
    lemma_4999_power_2();
    lemma_pow_raise(3nat, 4999nat, 7nat, 2187nat, 21nat, 4679nat, 147nat);
}

proof fn lemma_4999_power_3()
    ensures
        pow_mod(4679nat, 2nat, 4999nat) == 2420nat,
{
    let n: nat = 4999nat;
    let g: nat = 4679nat;
    let e0: nat = 1nat;
    let x0: nat = 4679nat;
    lemma_pow_first(g, n, x0);
    let x1: nat = 2420nat;
    let e1: nat = 2 * e0;
    lemma_pow_square(g, n, e0, x0, x1);
}

proof fn lemma_4999_raise_2()
    ensures
        pow_mod(3nat, 294nat, 4999nat) == 2420nat,
{
    lemma_4999_raise_1();
    lemma_4999_power_3();
    lemma_pow_raise(3nat, 4999nat, 147nat, 4679nat, 2nat, 2420nat, 294nat);
}

proof fn lemma_4999_power_4()
    ensures
        pow_mod(4679nat, 17nat, 4999nat) == 4998nat,
{
    let n: nat = 4999nat;
    let g: nat = 4679nat;
    let e0: nat = 1nat;
    let x0: nat = 4679nat;
    lemma_pow_first(g, n, x0);
    let x1: nat = 2420nat;
    let e1: nat = 2 * e0;
    lemma_pow_square(g, n, e0, x0, x1);
    let x2: nat = 2571nat;
    let e2: nat = 2 * e1;
    lemma_pow_square(g, n, e1, x1, x2);
    let x3: nat = 1363nat;
    let e3: nat = 2 * e2;
    lemma_pow_square(g, n, e2, x2, x3);
    let x4: nat = 3140nat;
    let e4: nat = 2 * e3;
    lemma_pow_square(g, n, e3, x3, x4);
    let x5: nat = 4998nat;
    let e5: nat = e4 + 1;
    lemma_pow_times(g, n, e4, x4, x5);
}

proof fn lemma_4999_raise_3()
    ensures
        pow_mod(3nat, 2499nat, 4999nat) == 4998nat,
{
    lemma_4999_raise_1();
    lemma_4999_power_4();
    lemma_pow_raise(3nat, 4999nat, 147nat, 4679nat, 17nat, 4998nat, 2499nat);
}

proof fn lemma_4999_power_5()
    ensures
        pow_mod(2187nat, 34nat, 4999nat) == 1327nat,
{
    let n: nat = 4999nat;
    let g: nat = 2187nat;
    let e0: nat = 1nat;
    let x0: nat = 2187nat;
    lemma_pow_first(g, n, x0);
    let x1: nat = 3925nat;
    let e1: nat = 2 * e0;
    lemma_pow_square(g, n, e0, x0, x1);
    let x2: nat = 3706nat;
    let e2: nat = 2 * e1;
    lemma_pow_square(g, n, e1, x1, x2);
    let x3: nat = 2183nat;
    let e3: nat = 2 * e2;
    lemma_pow_square(g, n, e2, x2, x3);
    let x4: nat = 1442nat;
    let e4: nat = 2 * e3;
    lemma_pow_square(g, n, e3, x3, x4);
    let x5: nat = 4284nat;
    let e5: nat = e4 + 1;
    lemma_pow_times(g, n, e4, x4, x5);
    let x6: nat = 1327nat;
    let e6: nat = 2 * e5;
    lemma_pow_square(g, n, e5, x5, x6);
}

proof fn lemma_4999_raise_4()
    ensures
        pow_mod(3nat, 238nat, 4999nat) == 1327nat,
{
    lemma_4999_power_1();
    lemma_4999_power_5();
    lemma_pow_raise(3nat, 4999nat, 7nat, 2187nat, 34nat, 1327nat, 238nat);
}

proof fn lemma_4999_power_6()
    ensures
        pow_mod(1327nat, 3nat, 4999nat) == 227nat,
{
    let n: nat = 4999nat;
    let g: nat = 1327nat;
    let e0: nat = 1nat;
    let x0: nat = 1327nat;
    lemma_pow_first(g, n, x0);
    let x1: nat = 1281nat;
    let e1: nat = 2 * e0;
    lemma_pow_square(g, n, e0, x0, x1);
    let x2: nat = 227nat;
    let e2: nat = e1 + 1;
    lemma_pow_times(g, n, e1, x1, x2);
}

proof fn lemma_4999_raise_5()
    ensures
        pow_mod(3nat, 714nat, 4999nat) == 227nat,
{
    lemma_4999_raise_4();
    lemma_4999_power_6();
    lemma_pow_raise(3nat, 4999nat, 238nat, 1327nat, 3nat, 227nat, 714nat);
}

proof fn lemma_4999_power_7()
    ensures
        pow_mod(1327nat, 7nat, 4999nat) == 2661nat,
{
    let n: nat = 4999nat;
    let g: nat = 1327nat;
    let e0: nat = 1nat;
    let x0: nat = 1327nat;
    lemma_pow_first(g, n, x0);
    let x1: nat = 1281nat;
    let e1: nat = 2 * e0;
    lemma_pow_square(g, n, e0, x0, x1);
    let x2: nat = 227nat;
    let e2: nat = e1 + 1;
    lemma_pow_times(g, n, e1, x1, x2);
    let x3: nat = 1539nat;
    let e3: nat = 2 * e2;
    lemma_pow_square(g, n, e2, x2, x3);
    let x4: nat = 2661nat;
    let e4: nat = e3 + 1;
    lemma_pow_times(g, n, e3, x3, x4);
}

proof fn lemma_4999_raise_6()
    ensures
        pow_mod(3nat, 1666nat, 4999nat) == 2661nat,
{
    lemma_4999_raise_4();
    lemma_4999_power_7();
    lemma_pow_raise(3nat, 4999nat, 238nat, 1327nat, 7nat, 2661nat, 1666nat);
}

proof fn lemma_4999_power_8()
    ensures
        pow_mod(4998nat, 2nat, 4999nat) == 1nat,
{
    let n: nat = 4999nat;
    let g: nat = 4998nat;
    let e0: nat = 1nat;
    let x0: nat = 4998nat;
    lemma_pow_first(g, n, x0);
    let x1: nat = 1nat;
    let e1: nat = 2 * e0;
    lemma_pow_square(g, n, e0, x0, x1);
}

proof fn lemma_4999_raise_7()
    ensures
        pow_mod(3nat, 4998nat, 4999nat) == 1nat,
{
    lemma_4999_raise_3();
    lemma_4999_power_8();
    lemma_pow_raise(3nat, 4999nat, 2499nat, 4998nat, 2nat, 1nat, 4998nat);
}

/// `4999` is prime.
pub proof fn lemma_prime_4999()
    ensures
        is_prime(4999nat),
{
    let n: nat = 4999nat;
    let g: nat = 3nat;
    lemma_two_is_prime();
    lemma_4999_raise_3();
    lemma_prime_3();
    lemma_4999_raise_6();
    lemma_prime_7();
    lemma_4999_raise_5();
    lemma_prime_17();
    lemma_4999_raise_2();
    lemma_4999_raise_7();
    let s0: Seq<nat> = Seq::<nat>::empty();
    lemma_witnessed_none(n, g);
    let s1: Seq<nat> = s0.push(2nat);
    lemma_witnessed_more(n, g, s0, 2nat, 2499nat, 4998nat, 2nat);
    let s2: Seq<nat> = s1.push(3nat);
    lemma_witnessed_more(n, g, s1, 3nat, 1666nat, 2661nat, 6nat);
    let s3: Seq<nat> = s2.push(7nat);
    lemma_witnessed_more(n, g, s2, 7nat, 714nat, 227nat, 42nat);
    let s4: Seq<nat> = s3.push(7nat);
    lemma_witnessed_more(n, g, s3, 7nat, 714nat, 227nat, 294nat);
    let s5: Seq<nat> = s4.push(17nat);
    lemma_witnessed_more(n, g, s4, 17nat, 294nat, 2420nat, 4998nat);
    lemma_witnessed_prime(n, g, s5);
}

// The prime 5501.
// One less is 2^2 * 5^3 * 11; the primitive root is 2.

proof fn lemma_5501_power_1()
    ensures
        pow_mod(2nat, 50nat, 5501nat) == 4219nat,
{
    let n: nat = 5501nat;
    let g: nat = 2nat;
    let e0: nat = 1nat;
    let x0: nat = 2nat;
    lemma_pow_first(g, n, x0);
    let x1: nat = 4nat;
    let e1: nat = 2 * e0;
    lemma_pow_square(g, n, e0, x0, x1);
    let x2: nat = 8nat;
    let e2: nat = e1 + 1;
    lemma_pow_times(g, n, e1, x1, x2);
    let x3: nat = 64nat;
    let e3: nat = 2 * e2;
    lemma_pow_square(g, n, e2, x2, x3);
    let x4: nat = 4096nat;
    let e4: nat = 2 * e3;
    lemma_pow_square(g, n, e3, x3, x4);
    let x5: nat = 4667nat;
    let e5: nat = 2 * e4;
    lemma_pow_square(g, n, e4, x4, x5);
    let x6: nat = 3833nat;
    let e6: nat = e5 + 1;
    lemma_pow_times(g, n, e5, x5, x6);
    let x7: nat = 4219nat;
    let e7: nat = 2 * e6;
    lemma_pow_square(g, n, e6, x6, x7);
}

proof fn lemma_5501_power_2()
    ensures
        pow_mod(4219nat, 10nat, 5501nat) == 4772nat,
{
    let n: nat = 5501nat;
    let g: nat = 4219nat;
    let e0: nat = 1nat;
    let x0: nat = 4219nat;
    lemma_pow_first(g, n, x0);
    let x1: nat = 4226nat;
    let e1: nat = 2 * e0;
    lemma_pow_square(g, n, e0, x0, x1);
    let x2: nat = 2830nat;
    let e2: nat = 2 * e1;
    lemma_pow_square(g, n, e1, x1, x2);
    let x3: nat = 2600nat;
    let e3: nat = e2 + 1;
    lemma_pow_times(g, n, e2, x2, x3);
    let x4: nat = 4772nat;
    let e4: nat = 2 * e3;
    lemma_pow_square(g, n, e3, x3, x4);
}

proof fn lemma_5501_raise_1()
    ensures
        pow_mod(2nat, 500nat, 5501nat) == 4772nat,
{
    lemma_5501_power_1();
    lemma_5501_power_2();
    lemma_pow_raise(2nat, 5501nat, 50nat, 4219nat, 10nat, 4772nat, 500nat);
}

proof fn lemma_5501_power_3()
    ensures
        pow_mod(4219nat, 11nat, 5501nat) == 4909nat,
{
    let n: nat = 5501nat;
    let g: nat = 4219nat;
    let e0: nat = 1nat;
    let x0: nat = 4219nat;
    lemma_pow_first(g, n, x0);
    let x1: nat = 4226nat;
    let e1: nat = 2 * e0;
    lemma_pow_square(g, n, e0, x0, x1);
    let x2: nat = 2830nat;
    let e2: nat = 2 * e1;
    lemma_pow_square(g, n, e1, x1, x2);
    let x3: nat = 2600nat;
    let e3: nat = e2 + 1;
    lemma_pow_times(g, n, e2, x2, x3);
    let x4: nat = 4772nat;
    let e4: nat = 2 * e3;
    lemma_pow_square(g, n, e3, x3, x4);
    let x5: nat = 4909nat;
    let e5: nat = e4 + 1;
    lemma_pow_times(g, n, e4, x4, x5);
}

proof fn lemma_5501_raise_2()
    ensures
        pow_mod(2nat, 550nat, 5501nat) == 4909nat,
{
    lemma_5501_power_1();
    lemma_5501_power_3();
    lemma_pow_raise(2nat, 5501nat, 50nat, 4219nat, 11nat, 4909nat, 550nat);
}

proof fn lemma_5501_power_4()
    ensures
        pow_mod(4909nat, 2nat, 5501nat) == 3901nat,
{
    let n: nat = 5501nat;
    let g: nat = 4909nat;
    let e0: nat = 1nat;
    let x0: nat = 4909nat;
    lemma_pow_first(g, n, x0);
    let x1: nat = 3901nat;
    let e1: nat = 2 * e0;
    lemma_pow_square(g, n, e0, x0, x1);
}

proof fn lemma_5501_raise_3()
    ensures
        pow_mod(2nat, 1100nat, 5501nat) == 3901nat,
{
    lemma_5501_raise_2();
    lemma_5501_power_4();
    lemma_pow_raise(2nat, 5501nat, 550nat, 4909nat, 2nat, 3901nat, 1100nat);
}

proof fn lemma_5501_power_5()
    ensures
        pow_mod(4909nat, 5nat, 5501nat) == 5500nat,
{
    let n: nat = 5501nat;
    let g: nat = 4909nat;
    let e0: nat = 1nat;
    let x0: nat = 4909nat;
    lemma_pow_first(g, n, x0);
    let x1: nat = 3901nat;
    let e1: nat = 2 * e0;
    lemma_pow_square(g, n, e0, x0, x1);
    let x2: nat = 2035nat;
    let e2: nat = 2 * e1;
    lemma_pow_square(g, n, e1, x1, x2);
    let x3: nat = 5500nat;
    let e3: nat = e2 + 1;
    lemma_pow_times(g, n, e2, x2, x3);
}

proof fn lemma_5501_raise_4()
    ensures
        pow_mod(2nat, 2750nat, 5501nat) == 5500nat,
{
    lemma_5501_raise_2();
    lemma_5501_power_5();
    lemma_pow_raise(2nat, 5501nat, 550nat, 4909nat, 5nat, 5500nat, 2750nat);
}

proof fn lemma_5501_power_6()
    ensures
        pow_mod(5500nat, 2nat, 5501nat) == 1nat,
{
    let n: nat = 5501nat;
    let g: nat = 5500nat;
    let e0: nat = 1nat;
    let x0: nat = 5500nat;
    lemma_pow_first(g, n, x0);
    let x1: nat = 1nat;
    let e1: nat = 2 * e0;
    lemma_pow_square(g, n, e0, x0, x1);
}

proof fn lemma_5501_raise_5()
    ensures
        pow_mod(2nat, 5500nat, 5501nat) == 1nat,
{
    lemma_5501_raise_4();
    lemma_5501_power_6();
    lemma_pow_raise(2nat, 5501nat, 2750nat, 5500nat, 2nat, 1nat, 5500nat);
}

/// `5501` is prime.
pub proof fn lemma_prime_5501()
    ensures
        is_prime(5501nat),
{
    let n: nat = 5501nat;
    let g: nat = 2nat;
    lemma_two_is_prime();
    lemma_5501_raise_4();
    lemma_prime_5();
    lemma_5501_raise_3();
    lemma_prime_11();
    lemma_5501_raise_1();
    lemma_5501_raise_5();
    let s0: Seq<nat> = Seq::<nat>::empty();
    lemma_witnessed_none(n, g);
    let s1: Seq<nat> = s0.push(2nat);
    lemma_witnessed_more(n, g, s0, 2nat, 2750nat, 5500nat, 2nat);
    let s2: Seq<nat> = s1.push(2nat);
    lemma_witnessed_more(n, g, s1, 2nat, 2750nat, 5500nat, 4nat);
    let s3: Seq<nat> = s2.push(5nat);
    lemma_witnessed_more(n, g, s2, 5nat, 1100nat, 3901nat, 20nat);
    let s4: Seq<nat> = s3.push(5nat);
    lemma_witnessed_more(n, g, s3, 5nat, 1100nat, 3901nat, 100nat);
    let s5: Seq<nat> = s4.push(5nat);
    lemma_witnessed_more(n, g, s4, 5nat, 1100nat, 3901nat, 500nat);
    let s6: Seq<nat> = s5.push(11nat);
    lemma_witnessed_more(n, g, s5, 11nat, 500nat, 4772nat, 5500nat);
    lemma_witnessed_prime(n, g, s6);
}

// The prime 11003.
// One less is 2 * 5501; the primitive root is 2.

proof fn lemma_11003_power_1()
    ensures
        pow_mod(2nat, 1nat, 11003nat) == 2nat,
{
    let n: nat = 11003nat;
    let g: nat = 2nat;
    let e0: nat = 1nat;
    let x0: nat = 2nat;
    lemma_pow_first(g, n, x0);
}

proof fn lemma_11003_power_2()
    ensures
        pow_mod(2nat, 2nat, 11003nat) == 4nat,
{
    let n: nat = 11003nat;
    let g: nat = 2nat;
    let e0: nat = 1nat;
    let x0: nat = 2nat;
    lemma_pow_first(g, n, x0);
    let x1: nat = 4nat;
    let e1: nat = 2 * e0;
    lemma_pow_square(g, n, e0, x0, x1);
}

proof fn lemma_11003_raise_1()
    ensures
        pow_mod(2nat, 2nat, 11003nat) == 4nat,
{
    lemma_11003_power_1();
    lemma_11003_power_2();
    lemma_pow_raise(2nat, 11003nat, 1nat, 2nat, 2nat, 4nat, 2nat);
}

proof fn lemma_11003_power_3()
    ensures
        pow_mod(2nat, 5501nat, 11003nat) == 11002nat,
{
    let n: nat = 11003nat;
    let g: nat = 2nat;
    let e0: nat = 1nat;
    let x0: nat = 2nat;
    lemma_pow_first(g, n, x0);
    let x1: nat = 4nat;
    let e1: nat = 2 * e0;
    lemma_pow_square(g, n, e0, x0, x1);
    let x2: nat = 16nat;
    let e2: nat = 2 * e1;
    lemma_pow_square(g, n, e1, x1, x2);
    let x3: nat = 32nat;
    let e3: nat = e2 + 1;
    lemma_pow_times(g, n, e2, x2, x3);
    let x4: nat = 1024nat;
    let e4: nat = 2 * e3;
    lemma_pow_square(g, n, e3, x3, x4);
    let x5: nat = 3291nat;
    let e5: nat = 2 * e4;
    lemma_pow_square(g, n, e4, x4, x5);
    let x6: nat = 6582nat;
    let e6: nat = e5 + 1;
    lemma_pow_times(g, n, e5, x5, x6);
    let x7: nat = 3913nat;
    let e7: nat = 2 * e6;
    lemma_pow_square(g, n, e6, x6, x7);
    let x8: nat = 6396nat;
    let e8: nat = 2 * e7;
    lemma_pow_square(g, n, e7, x7, x8);
    let x9: nat = 1789nat;
    let e9: nat = e8 + 1;
    lemma_pow_times(g, n, e8, x8, x9);
    let x10: nat = 9651nat;
    let e10: nat = 2 * e9;
    lemma_pow_square(g, n, e9, x9, x10);
    let x11: nat = 8299nat;
    let e11: nat = e10 + 1;
    lemma_pow_times(g, n, e10, x10, x11);
    let x12: nat = 5624nat;
    let e12: nat = 2 * e11;
    lemma_pow_square(g, n, e11, x11, x12);
    let x13: nat = 245nat;
    let e13: nat = e12 + 1;
    lemma_pow_times(g, n, e12, x12, x13);
    let x14: nat = 5010nat;
    let e14: nat = 2 * e13;
    lemma_pow_square(g, n, e13, x13, x14);
    let x15: nat = 10020nat;
    let e15: nat = e14 + 1;
    lemma_pow_times(g, n, e14, x14, x15);
    let x16: nat = 9028nat;
    let e16: nat = 2 * e15;
    lemma_pow_square(g, n, e15, x15, x16);
    let x17: nat = 7053nat;
    let e17: nat = e16 + 1;
    lemma_pow_times(g, n, e16, x16, x17);
    let x18: nat = 246nat;
    let e18: nat = 2 * e17;
    lemma_pow_square(g, n, e17, x17, x18);
    let x19: nat = 5501nat;
    let e19: nat = 2 * e18;
    lemma_pow_square(g, n, e18, x18, x19);
    let x20: nat = 11002nat;
    let e20: nat = e19 + 1;
    lemma_pow_times(g, n, e19, x19, x20);
}

proof fn lemma_11003_raise_2()
    ensures
        pow_mod(2nat, 5501nat, 11003nat) == 11002nat,
{
    lemma_11003_power_1();
    lemma_11003_power_3();
    lemma_pow_raise(2nat, 11003nat, 1nat, 2nat, 5501nat, 11002nat, 5501nat);
}

proof fn lemma_11003_power_4()
    ensures
        pow_mod(11002nat, 2nat, 11003nat) == 1nat,
{
    let n: nat = 11003nat;
    let g: nat = 11002nat;
    let e0: nat = 1nat;
    let x0: nat = 11002nat;
    lemma_pow_first(g, n, x0);
    let x1: nat = 1nat;
    let e1: nat = 2 * e0;
    lemma_pow_square(g, n, e0, x0, x1);
}

proof fn lemma_11003_raise_3()
    ensures
        pow_mod(2nat, 11002nat, 11003nat) == 1nat,
{
    lemma_11003_raise_2();
    lemma_11003_power_4();
    lemma_pow_raise(2nat, 11003nat, 5501nat, 11002nat, 2nat, 1nat, 11002nat);
}

/// `11003` is prime.
pub proof fn lemma_prime_11003()
    ensures
        is_prime(11003nat),
{
    let n: nat = 11003nat;
    let g: nat = 2nat;
    lemma_two_is_prime();
    lemma_11003_raise_2();
    lemma_prime_5501();
    lemma_11003_raise_1();
    lemma_11003_raise_3();
    let s0: Seq<nat> = Seq::<nat>::empty();
    lemma_witnessed_none(n, g);
    let s1: Seq<nat> = s0.push(2nat);
    lemma_witnessed_more(n, g, s0, 2nat, 5501nat, 11002nat, 2nat);
    let s2: Seq<nat> = s1.push(5501nat);
    lemma_witnessed_more(n, g, s1, 5501nat, 2nat, 4nat, 11002nat);
    lemma_witnessed_prime(n, g, s2);
}

// The prime 20963.
// One less is 2 * 47 * 223; the primitive root is 2.

proof fn lemma_20963_power_1()
    ensures
        pow_mod(2nat, 1nat, 20963nat) == 2nat,
{
    let n: nat = 20963nat;
    let g: nat = 2nat;
    let e0: nat = 1nat;
    let x0: nat = 2nat;
    lemma_pow_first(g, n, x0);
}

proof fn lemma_20963_power_2()
    ensures
        pow_mod(2nat, 94nat, 20963nat) == 12288nat,
{
    let n: nat = 20963nat;
    let g: nat = 2nat;
    let e0: nat = 1nat;
    let x0: nat = 2nat;
    lemma_pow_first(g, n, x0);
    let x1: nat = 4nat;
    let e1: nat = 2 * e0;
    lemma_pow_square(g, n, e0, x0, x1);
    let x2: nat = 16nat;
    let e2: nat = 2 * e1;
    lemma_pow_square(g, n, e1, x1, x2);
    let x3: nat = 32nat;
    let e3: nat = e2 + 1;
    lemma_pow_times(g, n, e2, x2, x3);
    let x4: nat = 1024nat;
    let e4: nat = 2 * e3;
    lemma_pow_square(g, n, e3, x3, x4);
    let x5: nat = 2048nat;
    let e5: nat = e4 + 1;
    lemma_pow_times(g, n, e4, x4, x5);
    let x6: nat = 1704nat;
    let e6: nat = 2 * e5;
    lemma_pow_square(g, n, e5, x5, x6);
    let x7: nat = 3408nat;
    let e7: nat = e6 + 1;
    lemma_pow_times(g, n, e6, x6, x7);
    let x8: nat = 962nat;
    let e8: nat = 2 * e7;
    lemma_pow_square(g, n, e7, x7, x8);
    let x9: nat = 1924nat;
    let e9: nat = e8 + 1;
    lemma_pow_times(g, n, e8, x8, x9);
    let x10: nat = 12288nat;
    let e10: nat = 2 * e9;
    lemma_pow_square(g, n, e9, x9, x10);
}

proof fn lemma_20963_raise_1()
    ensures
        pow_mod(2nat, 94nat, 20963nat) == 12288nat,
{
    lemma_20963_power_1();
    lemma_20963_power_2();
    lemma_pow_raise(2nat, 20963nat, 1nat, 2nat, 94nat, 12288nat, 94nat);
}

proof fn lemma_20963_power_3()
    ensures
        pow_mod(2nat, 223nat, 20963nat) == 8507nat,
{
    let n: nat = 20963nat;
    let g: nat = 2nat;
    let e0: nat = 1nat;
    let x0: nat = 2nat;
    lemma_pow_first(g, n, x0);
    let x1: nat = 4nat;
    let e1: nat = 2 * e0;
    lemma_pow_square(g, n, e0, x0, x1);
    let x2: nat = 8nat;
    let e2: nat = e1 + 1;
    lemma_pow_times(g, n, e1, x1, x2);
    let x3: nat = 64nat;
    let e3: nat = 2 * e2;
    lemma_pow_square(g, n, e2, x2, x3);
    let x4: nat = 4096nat;
    let e4: nat = 2 * e3;
    lemma_pow_square(g, n, e3, x3, x4);
    let x5: nat = 8192nat;
    let e5: nat = e4 + 1;
    lemma_pow_times(g, n, e4, x4, x5);
    let x6: nat = 6301nat;
    let e6: nat = 2 * e5;
    lemma_pow_square(g, n, e5, x5, x6);
    let x7: nat = 12602nat;
    let e7: nat = e6 + 1;
    lemma_pow_times(g, n, e6, x6, x7);
    let x8: nat = 15679nat;
    let e8: nat = 2 * e7;
    lemma_pow_square(g, n, e7, x7, x8);
    let x9: nat = 10395nat;
    let e9: nat = e8 + 1;
    lemma_pow_times(g, n, e8, x8, x9);
    let x10: nat = 12723nat;
    let e10: nat = 2 * e9;
    lemma_pow_square(g, n, e9, x9, x10);
    let x11: nat = 4483nat;
    let e11: nat = e10 + 1;
    lemma_pow_times(g, n, e10, x10, x11);
    let x12: nat = 14735nat;
    let e12: nat = 2 * e11;
    lemma_pow_square(g, n, e11, x11, x12);
    let x13: nat = 8507nat;
    let e13: nat = e12 + 1;
    lemma_pow_times(g, n, e12, x12, x13);
}

proof fn lemma_20963_raise_2()
    ensures
        pow_mod(2nat, 223nat, 20963nat) == 8507nat,
{
    lemma_20963_power_1();
    lemma_20963_power_3();
    lemma_pow_raise(2nat, 20963nat, 1nat, 2nat, 223nat, 8507nat, 223nat);
}

proof fn lemma_20963_power_4()
    ensures
        pow_mod(8507nat, 2nat, 20963nat) == 4773nat,
{
    let n: nat = 20963nat;
    let g: nat = 8507nat;
    let e0: nat = 1nat;
    let x0: nat = 8507nat;
    lemma_pow_first(g, n, x0);
    let x1: nat = 4773nat;
    let e1: nat = 2 * e0;
    lemma_pow_square(g, n, e0, x0, x1);
}

proof fn lemma_20963_raise_3()
    ensures
        pow_mod(2nat, 446nat, 20963nat) == 4773nat,
{
    lemma_20963_raise_2();
    lemma_20963_power_4();
    lemma_pow_raise(2nat, 20963nat, 223nat, 8507nat, 2nat, 4773nat, 446nat);
}

proof fn lemma_20963_power_5()
    ensures
        pow_mod(8507nat, 47nat, 20963nat) == 20962nat,
{
    let n: nat = 20963nat;
    let g: nat = 8507nat;
    let e0: nat = 1nat;
    let x0: nat = 8507nat;
    lemma_pow_first(g, n, x0);
    let x1: nat = 4773nat;
    let e1: nat = 2 * e0;
    lemma_pow_square(g, n, e0, x0, x1);
    let x2: nat = 15711nat;
    let e2: nat = 2 * e1;
    lemma_pow_square(g, n, e1, x1, x2);
    let x3: nat = 14352nat;
    let e3: nat = e2 + 1;
    lemma_pow_times(g, n, e2, x2, x3);
    let x4: nat = 18429nat;
    let e4: nat = 2 * e3;
    lemma_pow_square(g, n, e3, x3, x4);
    let x5: nat = 14189nat;
    let e5: nat = e4 + 1;
    lemma_pow_times(g, n, e4, x4, x5);
    let x6: nat = 20032nat;
    let e6: nat = 2 * e5;
    lemma_pow_square(g, n, e5, x5, x6);
    let x7: nat = 3997nat;
    let e7: nat = e6 + 1;
    lemma_pow_times(g, n, e6, x6, x7);
    let x8: nat = 2203nat;
    let e8: nat = 2 * e7;
    lemma_pow_square(g, n, e7, x7, x8);
    let x9: nat = 20962nat;
    let e9: nat = e8 + 1;
    lemma_pow_times(g, n, e8, x8, x9);
}

proof fn lemma_20963_raise_4()
    ensures
        pow_mod(2nat, 10481nat, 20963nat) == 20962nat,
{
    lemma_20963_raise_2();
    lemma_20963_power_5();
    lemma_pow_raise(2nat, 20963nat, 223nat, 8507nat, 47nat, 20962nat, 10481nat);
}

proof fn lemma_20963_power_6()
    ensures
        pow_mod(20962nat, 2nat, 20963nat) == 1nat,
{
    let n: nat = 20963nat;
    let g: nat = 20962nat;
    let e0: nat = 1nat;
    let x0: nat = 20962nat;
    lemma_pow_first(g, n, x0);
    let x1: nat = 1nat;
    let e1: nat = 2 * e0;
    lemma_pow_square(g, n, e0, x0, x1);
}

proof fn lemma_20963_raise_5()
    ensures
        pow_mod(2nat, 20962nat, 20963nat) == 1nat,
{
    lemma_20963_raise_4();
    lemma_20963_power_6();
    lemma_pow_raise(2nat, 20963nat, 10481nat, 20962nat, 2nat, 1nat, 20962nat);
}

/// `20963` is prime.
pub proof fn lemma_prime_20963()
    ensures
        is_prime(20963nat),
{
    let n: nat = 20963nat;
    let g: nat = 2nat;
    lemma_two_is_prime();
    lemma_20963_raise_4();
    lemma_prime_47();
    lemma_20963_raise_3();
    lemma_prime_223();
    lemma_20963_raise_1();
    lemma_20963_raise_5();
    let s0: Seq<nat> = Seq::<nat>::empty();
    lemma_witnessed_none(n, g);
    let s1: Seq<nat> = s0.push(2nat);
    lemma_witnessed_more(n, g, s0, 2nat, 10481nat, 20962nat, 2nat);
    let s2: Seq<nat> = s1.push(47nat);
    lemma_witnessed_more(n, g, s1, 47nat, 446nat, 4773nat, 94nat);
    let s3: Seq<nat> = s2.push(223nat);
    lemma_witnessed_more(n, g, s2, 223nat, 94nat, 12288nat, 20962nat);
    lemma_witnessed_prime(n, g, s3);
}

// The prime 41927.
// One less is 2 * 20963; the primitive root is 5.

proof fn lemma_41927_power_1()
    ensures
        pow_mod(5nat, 1nat, 41927nat) == 5nat,
{
    let n: nat = 41927nat;
    let g: nat = 5nat;
    let e0: nat = 1nat;
    let x0: nat = 5nat;
    lemma_pow_first(g, n, x0);
}

proof fn lemma_41927_power_2()
    ensures
        pow_mod(5nat, 2nat, 41927nat) == 25nat,
{
    let n: nat = 41927nat;
    let g: nat = 5nat;
    let e0: nat = 1nat;
    let x0: nat = 5nat;
    lemma_pow_first(g, n, x0);
    let x1: nat = 25nat;
    let e1: nat = 2 * e0;
    lemma_pow_square(g, n, e0, x0, x1);
}

proof fn lemma_41927_raise_1()
    ensures
        pow_mod(5nat, 2nat, 41927nat) == 25nat,
{
    lemma_41927_power_1();
    lemma_41927_power_2();
    lemma_pow_raise(5nat, 41927nat, 1nat, 5nat, 2nat, 25nat, 2nat);
}

proof fn lemma_41927_power_3()
    ensures
        pow_mod(5nat, 20963nat, 41927nat) == 41926nat,
{
    let n: nat = 41927nat;
    let g: nat = 5nat;
    let e0: nat = 1nat;
    let x0: nat = 5nat;
    lemma_pow_first(g, n, x0);
    let x1: nat = 25nat;
    let e1: nat = 2 * e0;
    lemma_pow_square(g, n, e0, x0, x1);
    let x2: nat = 625nat;
    let e2: nat = 2 * e1;
    lemma_pow_square(g, n, e1, x1, x2);
    let x3: nat = 3125nat;
    let e3: nat = e2 + 1;
    lemma_pow_times(g, n, e2, x2, x3);
    let x4: nat = 38561nat;
    let e4: nat = 2 * e3;
    lemma_pow_square(g, n, e3, x3, x4);
    let x5: nat = 9666nat;
    let e5: nat = 2 * e4;
    lemma_pow_square(g, n, e4, x4, x5);
    let x6: nat = 18200nat;
    let e6: nat = 2 * e5;
    lemma_pow_square(g, n, e5, x5, x6);
    let x7: nat = 16700nat;
    let e7: nat = 2 * e6;
    lemma_pow_square(g, n, e6, x6, x7);
    let x8: nat = 41573nat;
    let e8: nat = e7 + 1;
    lemma_pow_times(g, n, e7, x7, x8);
    let x9: nat = 41462nat;
    let e9: nat = 2 * e8;
    lemma_pow_square(g, n, e8, x8, x9);
    let x10: nat = 39602nat;
    let e10: nat = e9 + 1;
    lemma_pow_times(g, n, e9, x9, x10);
    let x11: nat = 38969nat;
    let e11: nat = 2 * e10;
    lemma_pow_square(g, n, e10, x10, x11);
    let x12: nat = 27137nat;
    let e12: nat = e11 + 1;
    lemma_pow_times(g, n, e11, x11, x12);
    let x13: nat = 10941nat;
    let e13: nat = 2 * e12;
    lemma_pow_square(g, n, e12, x12, x13);
    let x14: nat = 12778nat;
    let e14: nat = e13 + 1;
    lemma_pow_times(g, n, e13, x13, x14);
    let x15: nat = 13546nat;
    let e15: nat = 2 * e14;
    lemma_pow_square(g, n, e14, x14, x15);
    let x16: nat = 21564nat;
    let e16: nat = 2 * e15;
    lemma_pow_square(g, n, e15, x15, x16);
    let x17: nat = 35666nat;
    let e17: nat = 2 * e16;
    lemma_pow_square(g, n, e16, x16, x17);
    let x18: nat = 40303nat;
    let e18: nat = 2 * e17;
    lemma_pow_square(g, n, e17, x17, x18);
    let x19: nat = 33807nat;
    let e19: nat = e18 + 1;
    lemma_pow_times(g, n, e18, x18, x19);
    let x20: nat = 25156nat;
    let e20: nat = 2 * e19;
    lemma_pow_square(g, n, e19, x19, x20);
    let x21: nat = 41926nat;
    let e21: nat = e20 + 1;
    lemma_pow_times(g, n, e20, x20, x21);
}

proof fn lemma_41927_raise_2()
    ensures
        pow_mod(5nat, 20963nat, 41927nat) == 41926nat,
{
    lemma_41927_power_1();
    lemma_41927_power_3();
    lemma_pow_raise(5nat, 41927nat, 1nat, 5nat, 20963nat, 41926nat, 20963nat);
}

proof fn lemma_41927_power_4()
    ensures
        pow_mod(41926nat, 2nat, 41927nat) == 1nat,
{
    let n: nat = 41927nat;
    let g: nat = 41926nat;
    let e0: nat = 1nat;
    let x0: nat = 41926nat;
    lemma_pow_first(g, n, x0);
    let x1: nat = 1nat;
    let e1: nat = 2 * e0;
    lemma_pow_square(g, n, e0, x0, x1);
}

proof fn lemma_41927_raise_3()
    ensures
        pow_mod(5nat, 41926nat, 41927nat) == 1nat,
{
    lemma_41927_raise_2();
    lemma_41927_power_4();
    lemma_pow_raise(5nat, 41927nat, 20963nat, 41926nat, 2nat, 1nat, 41926nat);
}

/// `41927` is prime.
pub proof fn lemma_prime_41927()
    ensures
        is_prime(41927nat),
{
    let n: nat = 41927nat;
    let g: nat = 5nat;
    lemma_two_is_prime();
    lemma_41927_raise_2();
    lemma_prime_20963();
    lemma_41927_raise_1();
    lemma_41927_raise_3();
    let s0: Seq<nat> = Seq::<nat>::empty();
    lemma_witnessed_none(n, g);
    let s1: Seq<nat> = s0.push(2nat);
    lemma_witnessed_more(n, g, s0, 2nat, 20963nat, 41926nat, 2nat);
    let s2: Seq<nat> = s1.push(20963nat);
    lemma_witnessed_more(n, g, s1, 20963nat, 2nat, 25nat, 41926nat);
    lemma_witnessed_prime(n, g, s2);
}

// The prime 93001.
// One less is 2^3 * 3 * 5^3 * 31; the primitive root is 14.

proof fn lemma_93001_power_1()
    ensures
        pow_mod(14nat, 100nat, 93001nat) == 63405nat,
{
    let n: nat = 93001nat;
    let g: nat = 14nat;
    let e0: nat = 1nat;
    let x0: nat = 14nat;
    lemma_pow_first(g, n, x0);
    let x1: nat = 196nat;
    let e1: nat = 2 * e0;
    lemma_pow_square(g, n, e0, x0, x1);
    let x2: nat = 2744nat;
    let e2: nat = e1 + 1;
    lemma_pow_times(g, n, e1, x1, x2);
    let x3: nat = 89456nat;
    let e3: nat = 2 * e2;
    lemma_pow_square(g, n, e2, x2, x3);
    let x4: nat = 11890nat;
    let e4: nat = 2 * e3;
    lemma_pow_square(g, n, e3, x3, x4);
    let x5: nat = 10580nat;
    let e5: nat = 2 * e4;
    lemma_pow_square(g, n, e4, x4, x5);
    let x6: nat = 55119nat;
    let e6: nat = e5 + 1;
    lemma_pow_times(g, n, e5, x5, x6);
    let x7: nat = 40494nat;
    let e7: nat = 2 * e6;
    lemma_pow_square(g, n, e6, x6, x7);
    let x8: nat = 63405nat;
    let e8: nat = 2 * e7;
    lemma_pow_square(g, n, e7, x7, x8);
}

proof fn lemma_93001_power_2()
    ensures
        pow_mod(63405nat, 15nat, 93001nat) == 37537nat,
{
    let n: nat = 93001nat;
    let g: nat = 63405nat;
    let e0: nat = 1nat;
    let x0: nat = 63405nat;
    lemma_pow_first(g, n, x0);
    let x1: nat = 39798nat;
    let e1: nat = 2 * e0;
    lemma_pow_square(g, n, e0, x0, x1);
    let x2: nat = 89058nat;
    let e2: nat = e1 + 1;
    lemma_pow_times(g, n, e1, x1, x2);
    let x3: nat = 16082nat;
    let e3: nat = 2 * e2;
    lemma_pow_square(g, n, e2, x2, x3);
    let x4: nat = 16246nat;
    let e4: nat = e3 + 1;
    lemma_pow_times(g, n, e3, x3, x4);
    let x5: nat = 88679nat;
    let e5: nat = 2 * e4;
    lemma_pow_square(g, n, e4, x4, x5);
    let x6: nat = 37537nat;
    let e6: nat = e5 + 1;
    lemma_pow_times(g, n, e5, x5, x6);
}

proof fn lemma_93001_raise_1()
    ensures
        pow_mod(14nat, 1500nat, 93001nat) == 37537nat,
{
    lemma_93001_power_1();
    lemma_93001_power_2();
    lemma_pow_raise(14nat, 93001nat, 100nat, 63405nat, 15nat, 37537nat, 1500nat);
}

proof fn lemma_93001_power_3()
    ensures
        pow_mod(37537nat, 2nat, 93001nat) == 61219nat,
{
    let n: nat = 93001nat;
    let g: nat = 37537nat;
    let e0: nat = 1nat;
    let x0: nat = 37537nat;
    lemma_pow_first(g, n, x0);
    let x1: nat = 61219nat;
    let e1: nat = 2 * e0;
    lemma_pow_square(g, n, e0, x0, x1);
}

proof fn lemma_93001_raise_2()
    ensures
        pow_mod(14nat, 3000nat, 93001nat) == 61219nat,
{
    lemma_93001_raise_1();
    lemma_93001_power_3();
    lemma_pow_raise(14nat, 93001nat, 1500nat, 37537nat, 2nat, 61219nat, 3000nat);
}

proof fn lemma_93001_power_4()
    ensures
        pow_mod(37537nat, 31nat, 93001nat) == 93000nat,
{
    let n: nat = 93001nat;
    let g: nat = 37537nat;
    let e0: nat = 1nat;
    let x0: nat = 37537nat;
    lemma_pow_first(g, n, x0);
    let x1: nat = 61219nat;
    let e1: nat = 2 * e0;
    lemma_pow_square(g, n, e0, x0, x1);
    let x2: nat = 15894nat;
    let e2: nat = e1 + 1;
    lemma_pow_times(g, n, e1, x1, x2);
    let x3: nat = 28520nat;
    let e3: nat = 2 * e2;
    lemma_pow_square(g, n, e2, x2, x3);
    let x4: nat = 20729nat;
    let e4: nat = e3 + 1;
    lemma_pow_times(g, n, e3, x3, x4);
    let x5: nat = 26821nat;
    let e5: nat = 2 * e4;
    lemma_pow_square(g, n, e4, x4, x5);
    let x6: nat = 44052nat;
    let e6: nat = e5 + 1;
    lemma_pow_times(g, n, e5, x5, x6);
    let x7: nat = 19838nat;
    let e7: nat = 2 * e6;
    lemma_pow_square(g, n, e6, x6, x7);
    let x8: nat = 93000nat;
    let e8: nat = e7 + 1;
    lemma_pow_times(g, n, e7, x7, x8);
}

proof fn lemma_93001_raise_3()
    ensures
        pow_mod(14nat, 46500nat, 93001nat) == 93000nat,
{
    lemma_93001_raise_1();
    lemma_93001_power_4();
    lemma_pow_raise(14nat, 93001nat, 1500nat, 37537nat, 31nat, 93000nat, 46500nat);
}

proof fn lemma_93001_power_5()
    ensures
        pow_mod(63405nat, 62nat, 93001nat) == 89084nat,
{
    let n: nat = 93001nat;
    let g: nat = 63405nat;
    let e0: nat = 1nat;
    let x0: nat = 63405nat;
    lemma_pow_first(g, n, x0);
    let x1: nat = 39798nat;
    let e1: nat = 2 * e0;
    lemma_pow_square(g, n, e0, x0, x1);
    let x2: nat = 89058nat;
    let e2: nat = e1 + 1;
    lemma_pow_times(g, n, e1, x1, x2);
    let x3: nat = 16082nat;
    let e3: nat = 2 * e2;
    lemma_pow_square(g, n, e2, x2, x3);
    let x4: nat = 16246nat;
    let e4: nat = e3 + 1;
    lemma_pow_times(g, n, e3, x3, x4);
    let x5: nat = 88679nat;
    let e5: nat = 2 * e4;
    lemma_pow_square(g, n, e4, x4, x5);
    let x6: nat = 37537nat;
    let e6: nat = e5 + 1;
    lemma_pow_times(g, n, e5, x5, x6);
    let x7: nat = 61219nat;
    let e7: nat = 2 * e6;
    lemma_pow_square(g, n, e6, x6, x7);
    let x8: nat = 7958nat;
    let e8: nat = e7 + 1;
    lemma_pow_times(g, n, e7, x7, x8);
    let x9: nat = 89084nat;
    let e9: nat = 2 * e8;
    lemma_pow_square(g, n, e8, x8, x9);
}

proof fn lemma_93001_raise_4()
    ensures
        pow_mod(14nat, 6200nat, 93001nat) == 89084nat,
{
    lemma_93001_power_1();
    lemma_93001_power_5();
    lemma_pow_raise(14nat, 93001nat, 100nat, 63405nat, 62nat, 89084nat, 6200nat);
}

proof fn lemma_93001_power_6()
    ensures
        pow_mod(89084nat, 3nat, 93001nat) == 79997nat,
{
    let n: nat = 93001nat;
    let g: nat = 89084nat;
    let e0: nat = 1nat;
    let x0: nat = 89084nat;
    lemma_pow_first(g, n, x0);
    let x1: nat = 90725nat;
    let e1: nat = 2 * e0;
    lemma_pow_square(g, n, e0, x0, x1);
    let x2: nat = 79997nat;
    let e2: nat = e1 + 1;
    lemma_pow_times(g, n, e1, x1, x2);
}

proof fn lemma_93001_raise_5()
    ensures
        pow_mod(14nat, 18600nat, 93001nat) == 79997nat,
{
    lemma_93001_raise_4();
    lemma_93001_power_6();
    lemma_pow_raise(14nat, 93001nat, 6200nat, 89084nat, 3nat, 79997nat, 18600nat);
}

proof fn lemma_93001_power_7()
    ensures
        pow_mod(89084nat, 5nat, 93001nat) == 22786nat,
{
    let n: nat = 93001nat;
    let g: nat = 89084nat;
    let e0: nat = 1nat;
    let x0: nat = 89084nat;
    lemma_pow_first(g, n, x0);
    let x1: nat = 90725nat;
    let e1: nat = 2 * e0;
    lemma_pow_square(g, n, e0, x0, x1);
    let x2: nat = 65121nat;
    let e2: nat = 2 * e1;
    lemma_pow_square(g, n, e1, x1, x2);
    let x3: nat = 22786nat;
    let e3: nat = e2 + 1;
    lemma_pow_times(g, n, e2, x2, x3);
}

proof fn lemma_93001_raise_6()
    ensures
        pow_mod(14nat, 31000nat, 93001nat) == 22786nat,
{
    lemma_93001_raise_4();
    lemma_93001_power_7();
    lemma_pow_raise(14nat, 93001nat, 6200nat, 89084nat, 5nat, 22786nat, 31000nat);
}

proof fn lemma_93001_power_8()
    ensures
        pow_mod(93000nat, 2nat, 93001nat) == 1nat,
{
    let n: nat = 93001nat;
    let g: nat = 93000nat;
    let e0: nat = 1nat;
    let x0: nat = 93000nat;
    lemma_pow_first(g, n, x0);
    let x1: nat = 1nat;
    let e1: nat = 2 * e0;
    lemma_pow_square(g, n, e0, x0, x1);
}

proof fn lemma_93001_raise_7()
    ensures
        pow_mod(14nat, 93000nat, 93001nat) == 1nat,
{
    lemma_93001_raise_3();
    lemma_93001_power_8();
    lemma_pow_raise(14nat, 93001nat, 46500nat, 93000nat, 2nat, 1nat, 93000nat);
}

/// `93001` is prime.
pub proof fn lemma_prime_93001()
    ensures
        is_prime(93001nat),
{
    let n: nat = 93001nat;
    let g: nat = 14nat;
    lemma_two_is_prime();
    lemma_93001_raise_3();
    lemma_prime_3();
    lemma_93001_raise_6();
    lemma_prime_5();
    lemma_93001_raise_5();
    lemma_prime_31();
    lemma_93001_raise_2();
    lemma_93001_raise_7();
    let s0: Seq<nat> = Seq::<nat>::empty();
    lemma_witnessed_none(n, g);
    let s1: Seq<nat> = s0.push(2nat);
    lemma_witnessed_more(n, g, s0, 2nat, 46500nat, 93000nat, 2nat);
    let s2: Seq<nat> = s1.push(2nat);
    lemma_witnessed_more(n, g, s1, 2nat, 46500nat, 93000nat, 4nat);
    let s3: Seq<nat> = s2.push(2nat);
    lemma_witnessed_more(n, g, s2, 2nat, 46500nat, 93000nat, 8nat);
    let s4: Seq<nat> = s3.push(3nat);
    lemma_witnessed_more(n, g, s3, 3nat, 31000nat, 22786nat, 24nat);
    let s5: Seq<nat> = s4.push(5nat);
    lemma_witnessed_more(n, g, s4, 5nat, 18600nat, 79997nat, 120nat);
    let s6: Seq<nat> = s5.push(5nat);
    lemma_witnessed_more(n, g, s5, 5nat, 18600nat, 79997nat, 600nat);
    let s7: Seq<nat> = s6.push(5nat);
    lemma_witnessed_more(n, g, s6, 5nat, 18600nat, 79997nat, 3000nat);
    let s8: Seq<nat> = s7.push(31nat);
    lemma_witnessed_more(n, g, s7, 31nat, 3000nat, 61219nat, 93000nat);
    lemma_witnessed_prime(n, g, s8);
}

// The prime 237073.
// One less is 2^4 * 3 * 11 * 449; the primitive root is 15.

proof fn lemma_237073_power_1()
    ensures
        pow_mod(15nat, 8nat, 237073nat) == 131495nat,
{
    let n: nat = 237073nat;
    let g: nat = 15nat;
    let e0: nat = 1nat;
    let x0: nat = 15nat;
    lemma_pow_first(g, n, x0);
    let x1: nat = 225nat;
    let e1: nat = 2 * e0;
    lemma_pow_square(g, n, e0, x0, x1);
    let x2: nat = 50625nat;
    let e2: nat = 2 * e1;
    lemma_pow_square(g, n, e1, x1, x2);
    let x3: nat = 131495nat;
    let e3: nat = 2 * e2;
    lemma_pow_square(g, n, e2, x2, x3);
}

proof fn lemma_237073_power_2()
    ensures
        pow_mod(131495nat, 66nat, 237073nat) == 197030nat,
{
    let n: nat = 237073nat;
    let g: nat = 131495nat;
    let e0: nat = 1nat;
    let x0: nat = 131495nat;
    lemma_pow_first(g, n, x0);
    let x1: nat = 15770nat;
    let e1: nat = 2 * e0;
    lemma_pow_square(g, n, e0, x0, x1);
    let x2: nat = 3323nat;
    let e2: nat = 2 * e1;
    lemma_pow_square(g, n, e1, x1, x2);
    let x3: nat = 136971nat;
    let e3: nat = 2 * e2;
    lemma_pow_square(g, n, e2, x2, x3);
    let x4: nat = 45913nat;
    let e4: nat = 2 * e3;
    lemma_pow_square(g, n, e3, x3, x4);
    let x5: nat = 187526nat;
    let e5: nat = 2 * e4;
    lemma_pow_square(g, n, e4, x4, x5);
    let x6: nat = 57421nat;
    let e6: nat = e5 + 1;
    lemma_pow_times(g, n, e5, x5, x6);
    let x7: nat = 197030nat;
    let e7: nat = 2 * e6;
    lemma_pow_square(g, n, e6, x6, x7);
}

proof fn lemma_237073_raise_1()
    ensures
        pow_mod(15nat, 528nat, 237073nat) == 197030nat,
{
    lemma_237073_power_1();
    lemma_237073_power_2();
    lemma_pow_raise(15nat, 237073nat, 8nat, 131495nat, 66nat, 197030nat, 528nat);
}

proof fn lemma_237073_power_3()
    ensures
        pow_mod(131495nat, 449nat, 237073nat) == 100056nat,
{
    let n: nat = 237073nat;
    let g: nat = 131495nat;
    let e0: nat = 1nat;
    let x0: nat = 131495nat;
    lemma_pow_first(g, n, x0);
    let x1: nat = 15770nat;
    let e1: nat = 2 * e0;
    lemma_pow_square(g, n, e0, x0, x1);
    let x2: nat = 235692nat;
    let e2: nat = e1 + 1;
    lemma_pow_times(g, n, e1, x1, x2);
    let x3: nat = 10577nat;
    let e3: nat = 2 * e2;
    lemma_pow_square(g, n, e2, x2, x3);
    let x4: nat = 152397nat;
    let e4: nat = e3 + 1;
    lemma_pow_times(g, n, e3, x3, x4);
    let x5: nat = 226237nat;
    let e5: nat = 2 * e4;
    lemma_pow_square(g, n, e4, x4, x5);
    let x6: nat = 67761nat;
    let e6: nat = 2 * e5;
    lemma_pow_square(g, n, e5, x5, x6);
    let x7: nat = 160330nat;
    let e7: nat = 2 * e6;
    lemma_pow_square(g, n, e6, x6, x7);
    let x8: nat = 120583nat;
    let e8: nat = 2 * e7;
    lemma_pow_square(g, n, e7, x7, x8);
    let x9: nat = 98653nat;
    let e9: nat = 2 * e8;
    lemma_pow_square(g, n, e8, x8, x9);
    let x10: nat = 93613nat;
    let e10: nat = 2 * e9;
    lemma_pow_square(g, n, e9, x9, x10);
    let x11: nat = 100056nat;
    let e11: nat = e10 + 1;
    lemma_pow_times(g, n, e10, x10, x11);
}

proof fn lemma_237073_raise_2()
    ensures
        pow_mod(15nat, 3592nat, 237073nat) == 100056nat,
{
    lemma_237073_power_1();
    lemma_237073_power_3();
    lemma_pow_raise(15nat, 237073nat, 8nat, 131495nat, 449nat, 100056nat, 3592nat);
}

proof fn lemma_237073_power_4()
    ensures
        pow_mod(100056nat, 6nat, 237073nat) == 224235nat,
{
    let n: nat = 237073nat;
    let g: nat = 100056nat;
    let e0: nat = 1nat;
    let x0: nat = 100056nat;
    lemma_pow_first(g, n, x0);
    let x1: nat = 84492nat;
    let e1: nat = 2 * e0;
    lemma_pow_square(g, n, e0, x0, x1);
    let x2: nat = 145445nat;
    let e2: nat = e1 + 1;
    lemma_pow_times(g, n, e1, x1, x2);
    let x3: nat = 224235nat;
    let e3: nat = 2 * e2;
    lemma_pow_square(g, n, e2, x2, x3);
}

proof fn lemma_237073_raise_3()
    ensures
        pow_mod(15nat, 21552nat, 237073nat) == 224235nat,
{
    lemma_237073_raise_2();
    lemma_237073_power_4();
    lemma_pow_raise(15nat, 237073nat, 3592nat, 100056nat, 6nat, 224235nat, 21552nat);
}

proof fn lemma_237073_power_5()
    ensures
        pow_mod(100056nat, 11nat, 237073nat) == 63337nat,
{
    let n: nat = 237073nat;
    let g: nat = 100056nat;
    let e0: nat = 1nat;
    let x0: nat = 100056nat;
    lemma_pow_first(g, n, x0);
    let x1: nat = 84492nat;
    let e1: nat = 2 * e0;
    lemma_pow_square(g, n, e0, x0, x1);
    let x2: nat = 155888nat;
    let e2: nat = 2 * e1;
    lemma_pow_square(g, n, e1, x1, x2);
    let x3: nat = 22912nat;
    let e3: nat = e2 + 1;
    lemma_pow_times(g, n, e2, x2, x3);
    let x4: nat = 80122nat;
    let e4: nat = 2 * e3;
    lemma_pow_square(g, n, e3, x3, x4);
    let x5: nat = 63337nat;
    let e5: nat = e4 + 1;
    lemma_pow_times(g, n, e4, x4, x5);
}

proof fn lemma_237073_raise_4()
    ensures
        pow_mod(15nat, 39512nat, 237073nat) == 63337nat,
{
    lemma_237073_raise_2();
    lemma_237073_power_5();
    lemma_pow_raise(15nat, 237073nat, 3592nat, 100056nat, 11nat, 63337nat, 39512nat);
}

proof fn lemma_237073_power_6()
    ensures
        pow_mod(63337nat, 2nat, 237073nat) == 63336nat,
{
    let n: nat = 237073nat;
    let g: nat = 63337nat;
    let e0: nat = 1nat;
    let x0: nat = 63337nat;
    lemma_pow_first(g, n, x0);
    let x1: nat = 63336nat;
    let e1: nat = 2 * e0;
    lemma_pow_square(g, n, e0, x0, x1);
}

proof fn lemma_237073_raise_5()
    ensures
        pow_mod(15nat, 79024nat, 237073nat) == 63336nat,
{
    lemma_237073_raise_4();
    lemma_237073_power_6();
    lemma_pow_raise(15nat, 237073nat, 39512nat, 63337nat, 2nat, 63336nat, 79024nat);
}

proof fn lemma_237073_power_7()
    ensures
        pow_mod(63337nat, 3nat, 237073nat) == 237072nat,
{
    let n: nat = 237073nat;
    let g: nat = 63337nat;
    let e0: nat = 1nat;
    let x0: nat = 63337nat;
    lemma_pow_first(g, n, x0);
    let x1: nat = 63336nat;
    let e1: nat = 2 * e0;
    lemma_pow_square(g, n, e0, x0, x1);
    let x2: nat = 237072nat;
    let e2: nat = e1 + 1;
    lemma_pow_times(g, n, e1, x1, x2);
}

proof fn lemma_237073_raise_6()
    ensures
        pow_mod(15nat, 118536nat, 237073nat) == 237072nat,
{
    lemma_237073_raise_4();
    lemma_237073_power_7();
    lemma_pow_raise(15nat, 237073nat, 39512nat, 63337nat, 3nat, 237072nat, 118536nat);
}

proof fn lemma_237073_power_8()
    ensures
        pow_mod(237072nat, 2nat, 237073nat) == 1nat,
{
    let n: nat = 237073nat;
    let g: nat = 237072nat;
    let e0: nat = 1nat;
    let x0: nat = 237072nat;
    lemma_pow_first(g, n, x0);
    let x1: nat = 1nat;
    let e1: nat = 2 * e0;
    lemma_pow_square(g, n, e0, x0, x1);
}

proof fn lemma_237073_raise_7()
    ensures
        pow_mod(15nat, 237072nat, 237073nat) == 1nat,
{
    lemma_237073_raise_6();
    lemma_237073_power_8();
    lemma_pow_raise(15nat, 237073nat, 118536nat, 237072nat, 2nat, 1nat, 237072nat);
}

/// `237073` is prime.
pub proof fn lemma_prime_237073()
    ensures
        is_prime(237073nat),
{
    let n: nat = 237073nat;
    let g: nat = 15nat;
    lemma_two_is_prime();
    lemma_237073_raise_6();
    lemma_prime_3();
    lemma_237073_raise_5();
    lemma_prime_11();
    lemma_237073_raise_3();
    lemma_prime_449();
    lemma_237073_raise_1();
    lemma_237073_raise_7();
    let s0: Seq<nat> = Seq::<nat>::empty();
    lemma_witnessed_none(n, g);
    let s1: Seq<nat> = s0.push(2nat);
    lemma_witnessed_more(n, g, s0, 2nat, 118536nat, 237072nat, 2nat);
    let s2: Seq<nat> = s1.push(2nat);
    lemma_witnessed_more(n, g, s1, 2nat, 118536nat, 237072nat, 4nat);
    let s3: Seq<nat> = s2.push(2nat);
    lemma_witnessed_more(n, g, s2, 2nat, 118536nat, 237072nat, 8nat);
    let s4: Seq<nat> = s3.push(2nat);
    lemma_witnessed_more(n, g, s3, 2nat, 118536nat, 237072nat, 16nat);
    let s5: Seq<nat> = s4.push(3nat);
    lemma_witnessed_more(n, g, s4, 3nat, 79024nat, 63336nat, 48nat);
    let s6: Seq<nat> = s5.push(11nat);
    lemma_witnessed_more(n, g, s5, 11nat, 21552nat, 224235nat, 528nat);
    let s7: Seq<nat> = s6.push(449nat);
    lemma_witnessed_more(n, g, s6, 449nat, 528nat, 197030nat, 237072nat);
    lemma_witnessed_prime(n, g, s7);
}

// The prime 1593227.
// One less is 2 * 19 * 41927; the primitive root is 2.

proof fn lemma_1593227_power_1()
    ensures
        pow_mod(2nat, 1nat, 1593227nat) == 2nat,
{
    let n: nat = 1593227nat;
    let g: nat = 2nat;
    let e0: nat = 1nat;
    let x0: nat = 2nat;
    lemma_pow_first(g, n, x0);
}

proof fn lemma_1593227_power_2()
    ensures
        pow_mod(2nat, 38nat, 1593227nat) == 45861nat,
{
    let n: nat = 1593227nat;
    let g: nat = 2nat;
    let e0: nat = 1nat;
    let x0: nat = 2nat;
    lemma_pow_first(g, n, x0);
    let x1: nat = 4nat;
    let e1: nat = 2 * e0;
    lemma_pow_square(g, n, e0, x0, x1);
    let x2: nat = 16nat;
    let e2: nat = 2 * e1;
    lemma_pow_square(g, n, e1, x1, x2);
    let x3: nat = 256nat;
    let e3: nat = 2 * e2;
    lemma_pow_square(g, n, e2, x2, x3);
    let x4: nat = 512nat;
    let e4: nat = e3 + 1;
    lemma_pow_times(g, n, e3, x3, x4);
    let x5: nat = 262144nat;
    let e5: nat = 2 * e4;
    lemma_pow_square(g, n, e4, x4, x5);
    let x6: nat = 524288nat;
    let e6: nat = e5 + 1;
    lemma_pow_times(g, n, e5, x5, x6);
    let x7: nat = 45861nat;
    let e7: nat = 2 * e6;
    lemma_pow_square(g, n, e6, x6, x7);
}

proof fn lemma_1593227_raise_1()
    ensures
        pow_mod(2nat, 38nat, 1593227nat) == 45861nat,
{
    lemma_1593227_power_1();
    lemma_1593227_power_2();
    lemma_pow_raise(2nat, 1593227nat, 1nat, 2nat, 38nat, 45861nat, 38nat);
}

proof fn lemma_1593227_power_3()
    ensures
        pow_mod(2nat, 41927nat, 1593227nat) == 347988nat,
{
    let n: nat = 1593227nat;
    let g: nat = 2nat;
    let e0: nat = 1nat;
    let x0: nat = 2nat;
    lemma_pow_first(g, n, x0);
    let x1: nat = 4nat;
    let e1: nat = 2 * e0;
    lemma_pow_square(g, n, e0, x0, x1);
    let x2: nat = 16nat;
    let e2: nat = 2 * e1;
    lemma_pow_square(g, n, e1, x1, x2);
    let x3: nat = 32nat;
    let e3: nat = e2 + 1;
    lemma_pow_times(g, n, e2, x2, x3);
    let x4: nat = 1024nat;
    let e4: nat = 2 * e3;
    lemma_pow_square(g, n, e3, x3, x4);
    let x5: nat = 1048576nat;
    let e5: nat = 2 * e4;
    lemma_pow_square(g, n, e4, x4, x5);
    let x6: nat = 183444nat;
    let e6: nat = 2 * e5;
    lemma_pow_square(g, n, e5, x5, x6);
    let x7: nat = 1153669nat;
    let e7: nat = 2 * e6;
    lemma_pow_square(g, n, e6, x6, x7);
    let x8: nat = 714111nat;
    let e8: nat = e7 + 1;
    lemma_pow_times(g, n, e7, x7, x8);
    let x9: nat = 795069nat;
    let e9: nat = 2 * e8;
    lemma_pow_square(g, n, e8, x8, x9);
    let x10: nat = 1590138nat;
    let e10: nat = e9 + 1;
    lemma_pow_times(g, n, e9, x9, x10);
    let x11: nat = 1575786nat;
    let e11: nat = 2 * e10;
    lemma_pow_square(g, n, e10, x10, x11);
    let x12: nat = 1558345nat;
    let e12: nat = e11 + 1;
    lemma_pow_times(g, n, e11, x11, x12);
    let x13: nat = 1121723nat;
    let e13: nat = 2 * e12;
    lemma_pow_square(g, n, e12, x12, x13);
    let x14: nat = 650219nat;
    let e14: nat = e13 + 1;
    lemma_pow_times(g, n, e13, x13, x14);
    let x15: nat = 1251560nat;
    let e15: nat = 2 * e14;
    lemma_pow_square(g, n, e14, x14, x15);
    let x16: nat = 596599nat;
    let e16: nat = 2 * e15;
    lemma_pow_square(g, n, e15, x15, x16);
    let x17: nat = 268547nat;
    let e17: nat = 2 * e16;
    lemma_pow_square(g, n, e16, x16, x17);
    let x18: nat = 71054nat;
    let e18: nat = 2 * e17;
    lemma_pow_square(g, n, e17, x17, x18);
    let x19: nat = 142108nat;
    let e19: nat = e18 + 1;
    lemma_pow_times(g, n, e18, x18, x19);
    let x20: nat = 531439nat;
    let e20: nat = 2 * e19;
    lemma_pow_square(g, n, e19, x19, x20);
    let x21: nat = 1062878nat;
    let e21: nat = e20 + 1;
    lemma_pow_times(g, n, e20, x20, x21);
    let x22: nat = 173994nat;
    let e22: nat = 2 * e21;
    lemma_pow_square(g, n, e21, x21, x22);
    let x23: nat = 347988nat;
    let e23: nat = e22 + 1;
    lemma_pow_times(g, n, e22, x22, x23);
}

proof fn lemma_1593227_raise_2()
    ensures
        pow_mod(2nat, 41927nat, 1593227nat) == 347988nat,
{
    lemma_1593227_power_1();
    lemma_1593227_power_3();
    lemma_pow_raise(2nat, 1593227nat, 1nat, 2nat, 41927nat, 347988nat, 41927nat);
}

proof fn lemma_1593227_power_4()
    ensures
        pow_mod(347988nat, 2nat, 1593227nat) == 836782nat,
{
    let n: nat = 1593227nat;
    let g: nat = 347988nat;
    let e0: nat = 1nat;
    let x0: nat = 347988nat;
    lemma_pow_first(g, n, x0);
    let x1: nat = 836782nat;
    let e1: nat = 2 * e0;
    lemma_pow_square(g, n, e0, x0, x1);
}

proof fn lemma_1593227_raise_3()
    ensures
        pow_mod(2nat, 83854nat, 1593227nat) == 836782nat,
{
    lemma_1593227_raise_2();
    lemma_1593227_power_4();
    lemma_pow_raise(2nat, 1593227nat, 41927nat, 347988nat, 2nat, 836782nat, 83854nat);
}

proof fn lemma_1593227_power_5()
    ensures
        pow_mod(347988nat, 19nat, 1593227nat) == 1593226nat,
{
    let n: nat = 1593227nat;
    let g: nat = 347988nat;
    let e0: nat = 1nat;
    let x0: nat = 347988nat;
    lemma_pow_first(g, n, x0);
    let x1: nat = 836782nat;
    let e1: nat = 2 * e0;
    lemma_pow_square(g, n, e0, x0, x1);
    let x2: nat = 1560975nat;
    let e2: nat = 2 * e1;
    lemma_pow_square(g, n, e1, x1, x2);
    let x3: nat = 1407500nat;
    let e3: nat = 2 * e2;
    lemma_pow_square(g, n, e2, x2, x3);
    let x4: nat = 79206nat;
    let e4: nat = e3 + 1;
    lemma_pow_times(g, n, e3, x3, x4);
    let x5: nat = 1055737nat;
    let e5: nat = 2 * e4;
    lemma_pow_square(g, n, e4, x4, x5);
    let x6: nat = 1593226nat;
    let e6: nat = e5 + 1;
    lemma_pow_times(g, n, e5, x5, x6);
}

proof fn lemma_1593227_raise_4()
    ensures
        pow_mod(2nat, 796613nat, 1593227nat) == 1593226nat,
{
    lemma_1593227_raise_2();
    lemma_1593227_power_5();
    lemma_pow_raise(2nat, 1593227nat, 41927nat, 347988nat, 19nat, 1593226nat, 796613nat);
}

proof fn lemma_1593227_power_6()
    ensures
        pow_mod(1593226nat, 2nat, 1593227nat) == 1nat,
{
    let n: nat = 1593227nat;
    let g: nat = 1593226nat;
    let e0: nat = 1nat;
    let x0: nat = 1593226nat;
    lemma_pow_first(g, n, x0);
    let x1: nat = 1nat;
    let e1: nat = 2 * e0;
    lemma_pow_square(g, n, e0, x0, x1);
}

proof fn lemma_1593227_raise_5()
    ensures
        pow_mod(2nat, 1593226nat, 1593227nat) == 1nat,
{
    lemma_1593227_raise_4();
    lemma_1593227_power_6();
    lemma_pow_raise(2nat, 1593227nat, 796613nat, 1593226nat, 2nat, 1nat, 1593226nat);
}

/// `1593227` is prime.
pub proof fn lemma_prime_1593227()
    ensures
        is_prime(1593227nat),
{
    let n: nat = 1593227nat;
    let g: nat = 2nat;
    lemma_two_is_prime();
    lemma_1593227_raise_4();
    lemma_prime_19();
    lemma_1593227_raise_3();
    lemma_prime_41927();
    lemma_1593227_raise_1();
    lemma_1593227_raise_5();
    let s0: Seq<nat> = Seq::<nat>::empty();
    lemma_witnessed_none(n, g);
    let s1: Seq<nat> = s0.push(2nat);
    lemma_witnessed_more(n, g, s0, 2nat, 796613nat, 1593226nat, 2nat);
    let s2: Seq<nat> = s1.push(19nat);
    lemma_witnessed_more(n, g, s1, 19nat, 83854nat, 836782nat, 38nat);
    let s3: Seq<nat> = s2.push(41927nat);
    lemma_witnessed_more(n, g, s2, 41927nat, 38nat, 45861nat, 1593226nat);
    lemma_witnessed_prime(n, g, s3);
}

// The prime 405928799.
// One less is 2 * 11 * 3691 * 4999; the primitive root is 22.

proof fn lemma_405928799_power_1()
    ensures
        pow_mod(22nat, 1nat, 405928799nat) == 22nat,
{
    let n: nat = 405928799nat;
    let g: nat = 22nat;
    let e0: nat = 1nat;
    let x0: nat = 22nat;
    lemma_pow_first(g, n, x0);
}

proof fn lemma_405928799_power_2()
    ensures
        pow_mod(22nat, 40601nat, 405928799nat) == 63930760nat,
{
    let n: nat = 405928799nat;
    let g: nat = 22nat;
    let e0: nat = 1nat;
    let x0: nat = 22nat;
    lemma_pow_first(g, n, x0);
    let x1: nat = 484nat;
    let e1: nat = 2 * e0;
    lemma_pow_square(g, n, e0, x0, x1);
    let x2: nat = 234256nat;
    let e2: nat = 2 * e1;
    lemma_pow_square(g, n, e1, x1, x2);
    let x3: nat = 75485671nat;
    let e3: nat = 2 * e2;
    lemma_pow_square(g, n, e2, x2, x3);
    let x4: nat = 36969566nat;
    let e4: nat = e3 + 1;
    lemma_pow_times(g, n, e3, x3, x4);
    let x5: nat = 345574522nat;
    let e5: nat = 2 * e4;
    lemma_pow_square(g, n, e4, x4, x5);
    let x6: nat = 295921102nat;
    let e6: nat = e5 + 1;
    lemma_pow_times(g, n, e5, x5, x6);
    let x7: nat = 344660963nat;
    let e7: nat = 2 * e6;
    lemma_pow_square(g, n, e6, x6, x7);
    let x8: nat = 275822804nat;
    let e8: nat = e7 + 1;
    lemma_pow_times(g, n, e7, x7, x8);
    let x9: nat = 66092860nat;
    let e9: nat = 2 * e8;
    lemma_pow_square(g, n, e8, x8, x9);
    let x10: nat = 236256523nat;
    let e10: nat = e9 + 1;
    lemma_pow_times(g, n, e9, x9, x10);
    let x11: nat = 140893495nat;
    let e11: nat = 2 * e10;
    lemma_pow_square(g, n, e10, x10, x11);
    let x12: nat = 405836032nat;
    let e12: nat = 2 * e11;
    lemma_pow_square(g, n, e11, x11, x12);
    let x13: nat = 403887925nat;
    let e13: nat = e12 + 1;
    lemma_pow_times(g, n, e12, x12, x13);
    let x14: nat = 337206136nat;
    let e14: nat = 2 * e13;
    lemma_pow_square(g, n, e13, x13, x14);
    let x15: nat = 224331732nat;
    let e15: nat = 2 * e14;
    lemma_pow_square(g, n, e14, x14, x15);
    let x16: nat = 265975692nat;
    let e16: nat = 2 * e15;
    lemma_pow_square(g, n, e15, x15, x16);
    let x17: nat = 168462038nat;
    let e17: nat = e16 + 1;
    lemma_pow_times(g, n, e16, x16, x17);
    let x18: nat = 56190648nat;
    let e18: nat = 2 * e17;
    lemma_pow_square(g, n, e17, x17, x18);
    let x19: nat = 18407859nat;
    let e19: nat = e18 + 1;
    lemma_pow_times(g, n, e18, x18, x19);
    let x20: nat = 207998631nat;
    let e20: nat = 2 * e19;
    lemma_pow_square(g, n, e19, x19, x20);
    let x21: nat = 235569825nat;
    let e21: nat = 2 * e20;
    lemma_pow_square(g, n, e20, x20, x21);
    let x22: nat = 150516416nat;
    let e22: nat = 2 * e21;
    lemma_pow_square(g, n, e21, x21, x22);
    let x23: nat = 63930760nat;
    let e23: nat = e22 + 1;
    lemma_pow_times(g, n, e22, x22, x23);
}

proof fn lemma_405928799_raise_1()
    ensures
        pow_mod(22nat, 40601nat, 405928799nat) == 63930760nat,
{
    lemma_405928799_power_1();
    lemma_405928799_power_2();
    lemma_pow_raise(22nat, 405928799nat, 1nat, 22nat, 40601nat, 63930760nat, 40601nat);
}

proof fn lemma_405928799_power_3()
    ensures
        pow_mod(63930760nat, 2nat, 405928799nat) == 61847818nat,
{
    let n: nat = 405928799nat;
    let g: nat = 63930760nat;
    let e0: nat = 1nat;
    let x0: nat = 63930760nat;
    lemma_pow_first(g, n, x0);
    let x1: nat = 61847818nat;
    let e1: nat = 2 * e0;
    lemma_pow_square(g, n, e0, x0, x1);
}

proof fn lemma_405928799_raise_2()
    ensures
        pow_mod(22nat, 81202nat, 405928799nat) == 61847818nat,
{
    lemma_405928799_raise_1();
    lemma_405928799_power_3();
    lemma_pow_raise(22nat, 405928799nat, 40601nat, 63930760nat, 2nat, 61847818nat, 81202nat);
}

proof fn lemma_405928799_power_4()
    ensures
        pow_mod(63930760nat, 4999nat, 405928799nat) == 405928798nat,
{
    let n: nat = 405928799nat;
    let g: nat = 63930760nat;
    let e0: nat = 1nat;
    let x0: nat = 63930760nat;
    lemma_pow_first(g, n, x0);
    let x1: nat = 61847818nat;
    let e1: nat = 2 * e0;
    lemma_pow_square(g, n, e0, x0, x1);
    let x2: nat = 273336334nat;
    let e2: nat = 2 * e1;
    lemma_pow_square(g, n, e1, x1, x2);
    let x3: nat = 103522989nat;
    let e3: nat = 2 * e2;
    lemma_pow_square(g, n, e2, x2, x3);
    let x4: nat = 38394539nat;
    let e4: nat = e3 + 1;
    lemma_pow_times(g, n, e3, x3, x4);
    let x5: nat = 43234046nat;
    let e5: nat = 2 * e4;
    lemma_pow_square(g, n, e4, x4, x5);
    let x6: nat = 395040799nat;
    let e6: nat = e5 + 1;
    lemma_pow_times(g, n, e5, x5, x6);
    let x7: nat = 285682442nat;
    let e7: nat = 2 * e6;
    lemma_pow_square(g, n, e6, x6, x7);
    let x8: nat = 41984775nat;
    let e8: nat = e7 + 1;
    lemma_pow_times(g, n, e7, x7, x8);
    let x9: nat = 283799864nat;
    let e9: nat = 2 * e8;
    lemma_pow_square(g, n, e8, x8, x9);
    let x10: nat = 152833496nat;
    let e10: nat = 2 * e9;
    lemma_pow_square(g, n, e9, x9, x10);
    let x11: nat = 362955517nat;
    let e11: nat = 2 * e10;
    lemma_pow_square(g, n, e10, x10, x11);
    let x12: nat = 120483251nat;
    let e12: nat = 2 * e11;
    lemma_pow_square(g, n, e11, x11, x12);
    let x13: nat = 202319893nat;
    let e13: nat = 2 * e12;
    lemma_pow_square(g, n, e12, x12, x13);
    let x14: nat = 12372555nat;
    let e14: nat = e13 + 1;
    lemma_pow_times(g, n, e13, x13, x14);
    let x15: nat = 307837135nat;
    let e15: nat = 2 * e14;
    lemma_pow_square(g, n, e14, x14, x15);
    let x16: nat = 43499454nat;
    let e16: nat = e15 + 1;
    lemma_pow_times(g, n, e15, x15, x16);
    let x17: nat = 311636330nat;
    let e17: nat = 2 * e16;
    lemma_pow_square(g, n, e16, x16, x17);
    let x18: nat = 405928798nat;
    let e18: nat = e17 + 1;
    lemma_pow_times(g, n, e17, x17, x18);
}

proof fn lemma_405928799_raise_3()
    ensures
        pow_mod(22nat, 202964399nat, 405928799nat) == 405928798nat,
{
    lemma_405928799_raise_1();
    lemma_405928799_power_4();
    lemma_pow_raise(22nat, 405928799nat, 40601nat, 63930760nat, 4999nat, 405928798nat, 202964399nat);
}

proof fn lemma_405928799_power_5()
    ensures
        pow_mod(22nat, 9998nat, 405928799nat) == 386086986nat,
{
    let n: nat = 405928799nat;
    let g: nat = 22nat;
    let e0: nat = 1nat;
    let x0: nat = 22nat;
    lemma_pow_first(g, n, x0);
    let x1: nat = 484nat;
    let e1: nat = 2 * e0;
    lemma_pow_square(g, n, e0, x0, x1);
    let x2: nat = 234256nat;
    let e2: nat = 2 * e1;
    lemma_pow_square(g, n, e1, x1, x2);
    let x3: nat = 75485671nat;
    let e3: nat = 2 * e2;
    lemma_pow_square(g, n, e2, x2, x3);
    let x4: nat = 36969566nat;
    let e4: nat = e3 + 1;
    lemma_pow_times(g, n, e3, x3, x4);
    let x5: nat = 345574522nat;
    let e5: nat = 2 * e4;
    lemma_pow_square(g, n, e4, x4, x5);
    let x6: nat = 295921102nat;
    let e6: nat = e5 + 1;
    lemma_pow_times(g, n, e5, x5, x6);
    let x7: nat = 344660963nat;
    let e7: nat = 2 * e6;
    lemma_pow_square(g, n, e6, x6, x7);
    let x8: nat = 275822804nat;
    let e8: nat = e7 + 1;
    lemma_pow_times(g, n, e7, x7, x8);
    let x9: nat = 66092860nat;
    let e9: nat = 2 * e8;
    lemma_pow_square(g, n, e8, x8, x9);
    let x10: nat = 170546363nat;
    let e10: nat = 2 * e9;
    lemma_pow_square(g, n, e9, x9, x10);
    let x11: nat = 233755281nat;
    let e11: nat = 2 * e10;
    lemma_pow_square(g, n, e10, x10, x11);
    let x12: nat = 112518420nat;
    let e12: nat = 2 * e11;
    lemma_pow_square(g, n, e11, x11, x12);
    let x13: nat = 58494708nat;
    let e13: nat = 2 * e12;
    lemma_pow_square(g, n, e12, x12, x13);
    let x14: nat = 69097179nat;
    let e14: nat = e13 + 1;
    lemma_pow_times(g, n, e13, x13, x14);
    let x15: nat = 83841359nat;
    let e15: nat = 2 * e14;
    lemma_pow_square(g, n, e14, x14, x15);
    let x16: nat = 220794702nat;
    let e16: nat = e15 + 1;
    lemma_pow_times(g, n, e15, x15, x16);
    let x17: nat = 6706097nat;
    let e17: nat = 2 * e16;
    lemma_pow_square(g, n, e16, x16, x17);
    let x18: nat = 147534134nat;
    let e18: nat = e17 + 1;
    lemma_pow_times(g, n, e17, x17, x18);
    let x19: nat = 386086986nat;
    let e19: nat = 2 * e18;
    lemma_pow_square(g, n, e18, x18, x19);
}

proof fn lemma_405928799_raise_4()
    ensures
        pow_mod(22nat, 9998nat, 405928799nat) == 386086986nat,
{
    lemma_405928799_power_1();
    lemma_405928799_power_5();
    lemma_pow_raise(22nat, 405928799nat, 1nat, 22nat, 9998nat, 386086986nat, 9998nat);
}

proof fn lemma_405928799_power_6()
    ensures
        pow_mod(386086986nat, 11nat, 405928799nat) == 147917081nat,
{
    let n: nat = 405928799nat;
    let g: nat = 386086986nat;
    let e0: nat = 1nat;
    let x0: nat = 386086986nat;
    lemma_pow_first(g, n, x0);
    let x1: nat = 190698437nat;
    let e1: nat = 2 * e0;
    lemma_pow_square(g, n, e0, x0, x1);
    let x2: nat = 81543447nat;
    let e2: nat = 2 * e1;
    lemma_pow_square(g, n, e1, x1, x2);
    let x3: nat = 258958342nat;
    let e3: nat = e2 + 1;
    lemma_pow_times(g, n, e2, x2, x3);
    let x4: nat = 315954527nat;
    let e4: nat = 2 * e3;
    lemma_pow_square(g, n, e3, x3, x4);
    let x5: nat = 147917081nat;
    let e5: nat = e4 + 1;
    lemma_pow_times(g, n, e4, x4, x5);
}

proof fn lemma_405928799_raise_5()
    ensures
        pow_mod(22nat, 109978nat, 405928799nat) == 147917081nat,
{
    lemma_405928799_raise_4();
    lemma_405928799_power_6();
    lemma_pow_raise(22nat, 405928799nat, 9998nat, 386086986nat, 11nat, 147917081nat, 109978nat);
}

proof fn lemma_405928799_power_7()
    ensures
        pow_mod(386086986nat, 3691nat, 405928799nat) == 215859951nat,
{
    let n: nat = 405928799nat;
    let g: nat = 386086986nat;
    let e0: nat = 1nat;
    let x0: nat = 386086986nat;
    lemma_pow_first(g, n, x0);
    let x1: nat = 190698437nat;
    let e1: nat = 2 * e0;
    lemma_pow_square(g, n, e0, x0, x1);
    let x2: nat = 60497173nat;
    let e2: nat = e1 + 1;
    lemma_pow_times(g, n, e1, x1, x2);
    let x3: nat = 306606461nat;
    let e3: nat = 2 * e2;
    lemma_pow_square(g, n, e2, x2, x3);
    let x4: nat = 55558473nat;
    let e4: nat = e3 + 1;
    lemma_pow_times(g, n, e3, x3, x4);
    let x5: nat = 39247080nat;
    let e5: nat = 2 * e4;
    lemma_pow_square(g, n, e4, x4, x5);
    let x6: nat = 333057789nat;
    let e6: nat = 2 * e5;
    lemma_pow_square(g, n, e5, x5, x6);
    let x7: nat = 128929665nat;
    let e7: nat = 2 * e6;
    lemma_pow_square(g, n, e6, x6, x7);
    let x8: nat = 304020868nat;
    let e8: nat = e7 + 1;
    lemma_pow_times(g, n, e7, x7, x8);
    let x9: nat = 25259023nat;
    let e9: nat = 2 * e8;
    lemma_pow_square(g, n, e8, x8, x9);
    let x10: nat = 51902239nat;
    let e10: nat = e9 + 1;
    lemma_pow_times(g, n, e9, x9, x10);
    let x11: nat = 262350964nat;
    let e11: nat = 2 * e10;
    lemma_pow_square(g, n, e10, x10, x11);
    let x12: nat = 344423794nat;
    let e12: nat = 2 * e11;
    lemma_pow_square(g, n, e11, x11, x12);
    let x13: nat = 268039631nat;
    let e13: nat = e12 + 1;
    lemma_pow_times(g, n, e12, x12, x13);
    let x14: nat = 233016328nat;
    let e14: nat = 2 * e13;
    lemma_pow_square(g, n, e13, x13, x14);
    let x15: nat = 403388931nat;
    let e15: nat = 2 * e14;
    lemma_pow_square(g, n, e14, x14, x15);
    let x16: nat = 337362432nat;
    let e16: nat = e15 + 1;
    lemma_pow_times(g, n, e15, x15, x16);
    let x17: nat = 300342791nat;
    let e17: nat = 2 * e16;
    lemma_pow_square(g, n, e16, x16, x17);
    let x18: nat = 215859951nat;
    let e18: nat = e17 + 1;
    lemma_pow_times(g, n, e17, x17, x18);
}

proof fn lemma_405928799_raise_6()
    ensures
        pow_mod(22nat, 36902618nat, 405928799nat) == 215859951nat,
{
    lemma_405928799_raise_4();
    lemma_405928799_power_7();
    lemma_pow_raise(22nat, 405928799nat, 9998nat, 386086986nat, 3691nat, 215859951nat, 36902618nat);
}

proof fn lemma_405928799_power_8()
    ensures
        pow_mod(405928798nat, 2nat, 405928799nat) == 1nat,
{
    let n: nat = 405928799nat;
    let g: nat = 405928798nat;
    let e0: nat = 1nat;
    let x0: nat = 405928798nat;
    lemma_pow_first(g, n, x0);
    let x1: nat = 1nat;
    let e1: nat = 2 * e0;
    lemma_pow_square(g, n, e0, x0, x1);
}

proof fn lemma_405928799_raise_7()
    ensures
        pow_mod(22nat, 405928798nat, 405928799nat) == 1nat,
{
    lemma_405928799_raise_3();
    lemma_405928799_power_8();
    lemma_pow_raise(22nat, 405928799nat, 202964399nat, 405928798nat, 2nat, 1nat, 405928798nat);
}

/// `405928799` is prime.
pub proof fn lemma_prime_405928799()
    ensures
        is_prime(405928799nat),
{
    let n: nat = 405928799nat;
    let g: nat = 22nat;
    lemma_two_is_prime();
    lemma_405928799_raise_3();
    lemma_prime_11();
    lemma_405928799_raise_6();
    lemma_prime_3691();
    lemma_405928799_raise_5();
    lemma_prime_4999();
    lemma_405928799_raise_2();
    lemma_405928799_raise_7();
    let s0: Seq<nat> = Seq::<nat>::empty();
    lemma_witnessed_none(n, g);
    let s1: Seq<nat> = s0.push(2nat);
    lemma_witnessed_more(n, g, s0, 2nat, 202964399nat, 405928798nat, 2nat);
    let s2: Seq<nat> = s1.push(11nat);
    lemma_witnessed_more(n, g, s1, 11nat, 36902618nat, 215859951nat, 22nat);
    let s3: Seq<nat> = s2.push(3691nat);
    lemma_witnessed_more(n, g, s2, 3691nat, 109978nat, 147917081nat, 81202nat);
    let s4: Seq<nat> = s3.push(4999nat);
    lemma_witnessed_more(n, g, s3, 4999nat, 81202nat, 61847818nat, 405928798nat);
    lemma_witnessed_prime(n, g, s4);
}

// The prime 639533339.
// One less is 2 * 229 * 853 * 1637; the primitive root is 2.

proof fn lemma_639533339_power_1()
    ensures
        pow_mod(2nat, 1nat, 639533339nat) == 2nat,
{
    let n: nat = 639533339nat;
    let g: nat = 2nat;
    let e0: nat = 1nat;
    let x0: nat = 2nat;
    lemma_pow_first(g, n, x0);
}

proof fn lemma_639533339_power_2()
    ensures
        pow_mod(2nat, 195337nat, 639533339nat) == 123586100nat,
{
    let n: nat = 639533339nat;
    let g: nat = 2nat;
    let e0: nat = 1nat;
    let x0: nat = 2nat;
    lemma_pow_first(g, n, x0);
    let x1: nat = 4nat;
    let e1: nat = 2 * e0;
    lemma_pow_square(g, n, e0, x0, x1);
    let x2: nat = 16nat;
    let e2: nat = 2 * e1;
    lemma_pow_square(g, n, e1, x1, x2);
    let x3: nat = 32nat;
    let e3: nat = e2 + 1;
    lemma_pow_times(g, n, e2, x2, x3);
    let x4: nat = 1024nat;
    let e4: nat = 2 * e3;
    lemma_pow_square(g, n, e3, x3, x4);
    let x5: nat = 2048nat;
    let e5: nat = e4 + 1;
    lemma_pow_times(g, n, e4, x4, x5);
    let x6: nat = 4194304nat;
    let e6: nat = 2 * e5;
    lemma_pow_square(g, n, e5, x5, x6);
    let x7: nat = 8388608nat;
    let e7: nat = e6 + 1;
    lemma_pow_times(g, n, e6, x6, x7);
    let x8: nat = 251354155nat;
    let e8: nat = 2 * e7;
    lemma_pow_square(g, n, e7, x7, x8);
    let x9: nat = 502708310nat;
    let e9: nat = e8 + 1;
    lemma_pow_times(g, n, e8, x8, x9);
    let x10: nat = 349303586nat;
    let e10: nat = 2 * e9;
    lemma_pow_square(g, n, e9, x9, x10);
    let x11: nat = 59073833nat;
    let e11: nat = e10 + 1;
    lemma_pow_times(g, n, e10, x10, x11);
    let x12: nat = 476657471nat;
    let e12: nat = 2 * e11;
    lemma_pow_square(g, n, e11, x11, x12);
    let x13: nat = 69760507nat;
    let e13: nat = 2 * e12;
    lemma_pow_square(g, n, e12, x12, x13);
    let x14: nat = 139521014nat;
    let e14: nat = e13 + 1;
    lemma_pow_times(g, n, e13, x13, x14);
    let x15: nat = 133239552nat;
    let e15: nat = 2 * e14;
    lemma_pow_square(g, n, e14, x14, x15);
    let x16: nat = 266479104nat;
    let e16: nat = e15 + 1;
    lemma_pow_times(g, n, e15, x15, x16);
    let x17: nat = 318239802nat;
    let e17: nat = 2 * e16;
    lemma_pow_square(g, n, e16, x16, x17);
    let x18: nat = 385225236nat;
    let e18: nat = 2 * e17;
    lemma_pow_square(g, n, e17, x17, x18);
    let x19: nat = 600418699nat;
    let e19: nat = 2 * e18;
    lemma_pow_square(g, n, e18, x18, x19);
    let x20: nat = 94973239nat;
    let e20: nat = 2 * e19;
    lemma_pow_square(g, n, e19, x19, x20);
    let x21: nat = 587162343nat;
    let e21: nat = 2 * e20;
    lemma_pow_square(g, n, e20, x20, x21);
    let x22: nat = 534791347nat;
    let e22: nat = e21 + 1;
    lemma_pow_times(g, n, e21, x21, x22);
    let x23: nat = 631252479nat;
    let e23: nat = 2 * e22;
    lemma_pow_square(g, n, e22, x22, x23);
    let x24: nat = 598665342nat;
    let e24: nat = 2 * e23;
    lemma_pow_square(g, n, e23, x23, x24);
    let x25: nat = 61793050nat;
    let e25: nat = 2 * e24;
    lemma_pow_square(g, n, e24, x24, x25);
    let x26: nat = 123586100nat;
    let e26: nat = e25 + 1;
    lemma_pow_times(g, n, e25, x25, x26);
}

proof fn lemma_639533339_raise_1()
    ensures
        pow_mod(2nat, 195337nat, 639533339nat) == 123586100nat,
{
    lemma_639533339_power_1();
    lemma_639533339_power_2();
    lemma_pow_raise(2nat, 639533339nat, 1nat, 2nat, 195337nat, 123586100nat, 195337nat);
}

proof fn lemma_639533339_power_3()
    ensures
        pow_mod(123586100nat, 2nat, 639533339nat) == 248876995nat,
{
    let n: nat = 639533339nat;
    let g: nat = 123586100nat;
    let e0: nat = 1nat;
    let x0: nat = 123586100nat;
    lemma_pow_first(g, n, x0);
    let x1: nat = 248876995nat;
    let e1: nat = 2 * e0;
    lemma_pow_square(g, n, e0, x0, x1);
}

proof fn lemma_639533339_raise_2()
    ensures
        pow_mod(2nat, 390674nat, 639533339nat) == 248876995nat,
{
    lemma_639533339_raise_1();
    lemma_639533339_power_3();
    lemma_pow_raise(2nat, 639533339nat, 195337nat, 123586100nat, 2nat, 248876995nat, 390674nat);
}

proof fn lemma_639533339_power_4()
    ensures
        pow_mod(123586100nat, 1637nat, 639533339nat) == 639533338nat,
{
    let n: nat = 639533339nat;
    let g: nat = 123586100nat;
    let e0: nat = 1nat;
    let x0: nat = 123586100nat;
    lemma_pow_first(g, n, x0);
    let x1: nat = 248876995nat;
    let e1: nat = 2 * e0;
    lemma_pow_square(g, n, e0, x0, x1);
    let x2: nat = 320836652nat;
    let e2: nat = e1 + 1;
    lemma_pow_times(g, n, e1, x1, x2);
    let x3: nat = 257756831nat;
    let e3: nat = 2 * e2;
    lemma_pow_square(g, n, e2, x2, x3);
    let x4: nat = 448608357nat;
    let e4: nat = 2 * e3;
    lemma_pow_square(g, n, e3, x3, x4);
    let x5: nat = 461042979nat;
    let e5: nat = 2 * e4;
    lemma_pow_square(g, n, e4, x4, x5);
    let x6: nat = 343793275nat;
    let e6: nat = e5 + 1;
    lemma_pow_times(g, n, e5, x5, x6);
    let x7: nat = 605154259nat;
    let e7: nat = 2 * e6;
    lemma_pow_square(g, n, e6, x6, x7);
    let x8: nat = 411792162nat;
    let e8: nat = e7 + 1;
    lemma_pow_times(g, n, e7, x7, x8);
    let x9: nat = 547712976nat;
    let e9: nat = 2 * e8;
    lemma_pow_square(g, n, e8, x8, x9);
    let x10: nat = 181348006nat;
    let e10: nat = 2 * e9;
    lemma_pow_square(g, n, e9, x9, x10);
    let x11: nat = 343175704nat;
    let e11: nat = 2 * e10;
    lemma_pow_square(g, n, e10, x10, x11);
    let x12: nat = 533853049nat;
    let e12: nat = e11 + 1;
    lemma_pow_times(g, n, e11, x11, x12);
    let x13: nat = 147059079nat;
    let e13: nat = 2 * e12;
    lemma_pow_square(g, n, e12, x12, x13);
    let x14: nat = 301238345nat;
    let e14: nat = 2 * e13;
    lemma_pow_square(g, n, e13, x13, x14);
    let x15: nat = 639533338nat;
    let e15: nat = e14 + 1;
    lemma_pow_times(g, n, e14, x14, x15);
}

proof fn lemma_639533339_raise_3()
    ensures
        pow_mod(2nat, 319766669nat, 639533339nat) == 639533338nat,
{
    lemma_639533339_raise_1();
    lemma_639533339_power_4();
    lemma_pow_raise(2nat, 639533339nat, 195337nat, 123586100nat, 1637nat, 639533338nat, 319766669nat);
}

proof fn lemma_639533339_power_5()
    ensures
        pow_mod(2nat, 3274nat, 639533339nat) == 305353071nat,
{
    let n: nat = 639533339nat;
    let g: nat = 2nat;
    let e0: nat = 1nat;
    let x0: nat = 2nat;
    lemma_pow_first(g, n, x0);
    let x1: nat = 4nat;
    let e1: nat = 2 * e0;
    lemma_pow_square(g, n, e0, x0, x1);
    let x2: nat = 8nat;
    let e2: nat = e1 + 1;
    lemma_pow_times(g, n, e1, x1, x2);
    let x3: nat = 64nat;
    let e3: nat = 2 * e2;
    lemma_pow_square(g, n, e2, x2, x3);
    let x4: nat = 4096nat;
    let e4: nat = 2 * e3;
    lemma_pow_square(g, n, e3, x3, x4);
    let x5: nat = 16777216nat;
    let e5: nat = 2 * e4;
    lemma_pow_square(g, n, e4, x4, x5);
    let x6: nat = 33554432nat;
    let e6: nat = e5 + 1;
    lemma_pow_times(g, n, e5, x5, x6);
    let x7: nat = 184466446nat;
    let e7: nat = 2 * e6;
    lemma_pow_square(g, n, e6, x6, x7);
    let x8: nat = 368932892nat;
    let e8: nat = e7 + 1;
    lemma_pow_times(g, n, e7, x7, x8);
    let x9: nat = 526583895nat;
    let e9: nat = 2 * e8;
    lemma_pow_square(g, n, e8, x8, x9);
    let x10: nat = 214402335nat;
    let e10: nat = 2 * e9;
    lemma_pow_square(g, n, e9, x9, x10);
    let x11: nat = 540677039nat;
    let e11: nat = 2 * e10;
    lemma_pow_square(g, n, e10, x10, x11);
    let x12: nat = 441820739nat;
    let e12: nat = e11 + 1;
    lemma_pow_times(g, n, e11, x11, x12);
    let x13: nat = 454128998nat;
    let e13: nat = 2 * e12;
    lemma_pow_square(g, n, e12, x12, x13);
    let x14: nat = 422595590nat;
    let e14: nat = 2 * e13;
    lemma_pow_square(g, n, e13, x13, x14);
    let x15: nat = 205657841nat;
    let e15: nat = e14 + 1;
    lemma_pow_times(g, n, e14, x14, x15);
    let x16: nat = 305353071nat;
    let e16: nat = 2 * e15;
    lemma_pow_square(g, n, e15, x15, x16);
}

proof fn lemma_639533339_raise_4()
    ensures
        pow_mod(2nat, 3274nat, 639533339nat) == 305353071nat,
{
    lemma_639533339_power_1();
    lemma_639533339_power_5();
    lemma_pow_raise(2nat, 639533339nat, 1nat, 2nat, 3274nat, 305353071nat, 3274nat);
}

proof fn lemma_639533339_power_6()
    ensures
        pow_mod(305353071nat, 229nat, 639533339nat) == 256057581nat,
{
    let n: nat = 639533339nat;
    let g: nat = 305353071nat;
    let e0: nat = 1nat;
    let x0: nat = 305353071nat;
    lemma_pow_first(g, n, x0);
    let x1: nat = 215961726nat;
    let e1: nat = 2 * e0;
    lemma_pow_square(g, n, e0, x0, x1);
    let x2: nat = 301716892nat;
    let e2: nat = e1 + 1;
    lemma_pow_times(g, n, e1, x1, x2);
    let x3: nat = 356462766nat;
    let e3: nat = 2 * e2;
    lemma_pow_square(g, n, e2, x2, x3);
    let x4: nat = 528535004nat;
    let e4: nat = e3 + 1;
    lemma_pow_times(g, n, e3, x3, x4);
    let x5: nat = 131870377nat;
    let e5: nat = 2 * e4;
    lemma_pow_square(g, n, e4, x4, x5);
    let x6: nat = 368104292nat;
    let e6: nat = 2 * e5;
    lemma_pow_square(g, n, e5, x5, x6);
    let x7: nat = 447799426nat;
    let e7: nat = 2 * e6;
    lemma_pow_square(g, n, e6, x6, x7);
    let x8: nat = 193828918nat;
    let e8: nat = e7 + 1;
    lemma_pow_times(g, n, e7, x7, x8);
    let x9: nat = 605293395nat;
    let e9: nat = 2 * e8;
    lemma_pow_square(g, n, e8, x8, x9);
    let x10: nat = 434068506nat;
    let e10: nat = 2 * e9;
    lemma_pow_square(g, n, e9, x9, x10);
    let x11: nat = 256057581nat;
    let e11: nat = e10 + 1;
    lemma_pow_times(g, n, e10, x10, x11);
}

proof fn lemma_639533339_raise_5()
    ensures
        pow_mod(2nat, 749746nat, 639533339nat) == 256057581nat,
{
    lemma_639533339_raise_4();
    lemma_639533339_power_6();
    lemma_pow_raise(2nat, 639533339nat, 3274nat, 305353071nat, 229nat, 256057581nat, 749746nat);
}

proof fn lemma_639533339_power_7()
    ensures
        pow_mod(305353071nat, 853nat, 639533339nat) == 271298491nat,
{
    let n: nat = 639533339nat;
    let g: nat = 305353071nat;
    let e0: nat = 1nat;
    let x0: nat = 305353071nat;
    lemma_pow_first(g, n, x0);
    let x1: nat = 215961726nat;
    let e1: nat = 2 * e0;
    lemma_pow_square(g, n, e0, x0, x1);
    let x2: nat = 301716892nat;
    let e2: nat = e1 + 1;
    lemma_pow_times(g, n, e1, x1, x2);
    let x3: nat = 356462766nat;
    let e3: nat = 2 * e2;
    lemma_pow_square(g, n, e2, x2, x3);
    let x4: nat = 341022230nat;
    let e4: nat = 2 * e3;
    lemma_pow_square(g, n, e3, x3, x4);
    let x5: nat = 450291834nat;
    let e5: nat = e4 + 1;
    lemma_pow_times(g, n, e4, x4, x5);
    let x6: nat = 401411828nat;
    let e6: nat = 2 * e5;
    lemma_pow_square(g, n, e5, x5, x6);
    let x7: nat = 609042455nat;
    let e7: nat = 2 * e6;
    lemma_pow_square(g, n, e6, x6, x7);
    let x8: nat = 526058647nat;
    let e8: nat = e7 + 1;
    lemma_pow_times(g, n, e7, x7, x8);
    let x9: nat = 140200945nat;
    let e9: nat = 2 * e8;
    lemma_pow_square(g, n, e8, x8, x9);
    let x10: nat = 305325832nat;
    let e10: nat = 2 * e9;
    lemma_pow_square(g, n, e9, x9, x10);
    let x11: nat = 474267791nat;
    let e11: nat = e10 + 1;
    lemma_pow_times(g, n, e10, x10, x11);
    let x12: nat = 117199300nat;
    let e12: nat = 2 * e11;
    lemma_pow_square(g, n, e11, x11, x12);
    let x13: nat = 143983294nat;
    let e13: nat = 2 * e12;
    lemma_pow_square(g, n, e12, x12, x13);
    let x14: nat = 271298491nat;
    let e14: nat = e13 + 1;
    lemma_pow_times(g, n, e13, x13, x14);
}

proof fn lemma_639533339_raise_6()
    ensures
        pow_mod(2nat, 2792722nat, 639533339nat) == 271298491nat,
{
    lemma_639533339_raise_4();
    lemma_639533339_power_7();
    lemma_pow_raise(2nat, 639533339nat, 3274nat, 305353071nat, 853nat, 271298491nat, 2792722nat);
}

proof fn lemma_639533339_power_8()
    ensures
        pow_mod(639533338nat, 2nat, 639533339nat) == 1nat,
{
    let n: nat = 639533339nat;
    let g: nat = 639533338nat;
    let e0: nat = 1nat;
    let x0: nat = 639533338nat;
    lemma_pow_first(g, n, x0);
    let x1: nat = 1nat;
    let e1: nat = 2 * e0;
    lemma_pow_square(g, n, e0, x0, x1);
}

proof fn lemma_639533339_raise_7()
    ensures
        pow_mod(2nat, 639533338nat, 639533339nat) == 1nat,
{
    lemma_639533339_raise_3();
    lemma_639533339_power_8();
    lemma_pow_raise(2nat, 639533339nat, 319766669nat, 639533338nat, 2nat, 1nat, 639533338nat);
}

/// `639533339` is prime.
pub proof fn lemma_prime_639533339()
    ensures
        is_prime(639533339nat),
{
    let n: nat = 639533339nat;
    let g: nat = 2nat;
    lemma_two_is_prime();
    lemma_639533339_raise_3();
    lemma_prime_229();
    lemma_639533339_raise_6();
    lemma_prime_853();
    lemma_639533339_raise_5();
    lemma_prime_1637();
    lemma_639533339_raise_2();
    lemma_639533339_raise_7();
    let s0: Seq<nat> = Seq::<nat>::empty();
    lemma_witnessed_none(n, g);
    let s1: Seq<nat> = s0.push(2nat);
    lemma_witnessed_more(n, g, s0, 2nat, 319766669nat, 639533338nat, 2nat);
    let s2: Seq<nat> = s1.push(229nat);
    lemma_witnessed_more(n, g, s1, 229nat, 2792722nat, 271298491nat, 458nat);
    let s3: Seq<nat> = s2.push(853nat);
    lemma_witnessed_more(n, g, s2, 853nat, 749746nat, 256057581nat, 390674nat);
    let s4: Seq<nat> = s3.push(1637nat);
    lemma_witnessed_more(n, g, s3, 1637nat, 390674nat, 248876995nat, 639533338nat);
    lemma_witnessed_prime(n, g, s4);
}

// The prime 12048837557.
// One less is 2^2 * 7^2 * 661 * 93001; the primitive root is 2.

proof fn lemma_12048837557_power_1()
    ensures
        pow_mod(2nat, 14nat, 0x2ce2aabb5nat) == 16384nat,
{
    let n: nat = 0x2ce2aabb5nat;
    let g: nat = 2nat;
    let e0: nat = 1nat;
    let x0: nat = 2nat;
    lemma_pow_first(g, n, x0);
    let x1: nat = 4nat;
    let e1: nat = 2 * e0;
    lemma_pow_square(g, n, e0, x0, x1);
    let x2: nat = 8nat;
    let e2: nat = e1 + 1;
    lemma_pow_times(g, n, e1, x1, x2);
    let x3: nat = 64nat;
    let e3: nat = 2 * e2;
    lemma_pow_square(g, n, e2, x2, x3);
    let x4: nat = 128nat;
    let e4: nat = e3 + 1;
    lemma_pow_times(g, n, e3, x3, x4);
    let x5: nat = 16384nat;
    let e5: nat = 2 * e4;
    lemma_pow_square(g, n, e4, x4, x5);
}

proof fn lemma_12048837557_power_2()
    ensures
        pow_mod(16384nat, 9254nat, 0x2ce2aabb5nat) == 0x11af1660anat,
{
    let n: nat = 0x2ce2aabb5nat;
    let g: nat = 16384nat;
    let e0: nat = 1nat;
    let x0: nat = 16384nat;
    lemma_pow_first(g, n, x0);
    let x1: nat = 268435456nat;
    let e1: nat = 2 * e0;
    lemma_pow_square(g, n, e0, x0, x1);
    let x2: nat = 2981791716nat;
    let e2: nat = 2 * e1;
    lemma_pow_square(g, n, e1, x1, x2);
    let x3: nat = 844679999nat;
    let e3: nat = 2 * e2;
    lemma_pow_square(g, n, e2, x2, x3);
    let x4: nat = 0x1ab75c054nat;
    let e4: nat = e3 + 1;
    lemma_pow_times(g, n, e3, x3, x4);
    let x5: nat = 3126182207nat;
    let e5: nat = 2 * e4;
    lemma_pow_square(g, n, e4, x4, x5);
    let x6: nat = 1870180285nat;
    let e6: nat = 2 * e5;
    lemma_pow_square(g, n, e5, x5, x6);
    let x7: nat = 0x1bbd5fb92nat;
    let e7: nat = 2 * e6;
    lemma_pow_square(g, n, e6, x6, x7);
    let x8: nat = 0x1b07daae3nat;
    let e8: nat = 2 * e7;
    lemma_pow_square(g, n, e7, x7, x8);
    let x9: nat = 0x2cc366e67nat;
    let e9: nat = 2 * e8;
    lemma_pow_square(g, n, e8, x8, x9);
    let x10: nat = 0x12e2caed1nat;
    let e10: nat = e9 + 1;
    lemma_pow_times(g, n, e9, x9, x10);
    let x11: nat = 0x2a51f5582nat;
    let e11: nat = 2 * e10;
    lemma_pow_square(g, n, e10, x10, x11);
    let x12: nat = 0x1aaa889a9nat;
    let e12: nat = 2 * e11;
    lemma_pow_square(g, n, e11, x11, x12);
    let x13: nat = 206543761nat;
    let e13: nat = 2 * e12;
    lemma_pow_square(g, n, e12, x12, x13);
    let x14: nat = 0x268387208nat;
    let e14: nat = e13 + 1;
    lemma_pow_times(g, n, e13, x13, x14);
    let x15: nat = 0x281225aa9nat;
    let e15: nat = 2 * e14;
    lemma_pow_square(g, n, e14, x14, x15);
    let x16: nat = 0x1b4c424f6nat;
    let e16: nat = e15 + 1;
    lemma_pow_times(g, n, e15, x15, x16);
    let x17: nat = 0x11af1660anat;
    let e17: nat = 2 * e16;
    lemma_pow_square(g, n, e16, x16, x17);
}

proof fn lemma_12048837557_raise_1()
    ensures
        pow_mod(2nat, 129556nat, 0x2ce2aabb5nat) == 0x11af1660anat,
{
    lemma_12048837557_power_1();
    lemma_12048837557_power_2();
    lemma_pow_raise(2nat, 0x2ce2aabb5nat, 14nat, 16384nat, 9254nat, 0x11af1660anat, 129556nat);
}

proof fn lemma_12048837557_power_3()
    ensures
        pow_mod(16384nat, 93001nat, 0x2ce2aabb5nat) == 1248843820nat,
{
    let n: nat = 0x2ce2aabb5nat;
    let g: nat = 16384nat;
    let e0: nat = 1nat;
    let x0: nat = 16384nat;
    lemma_pow_first(g, n, x0);
    let x1: nat = 268435456nat;
    let e1: nat = 2 * e0;
    lemma_pow_square(g, n, e0, x0, x1);
    let x2: nat = 2981791716nat;
    let e2: nat = 2 * e1;
    lemma_pow_square(g, n, e1, x1, x2);
    let x3: nat = 0x1ca3ddbb2nat;
    let e3: nat = e2 + 1;
    lemma_pow_times(g, n, e2, x2, x3);
    let x4: nat = 0x294c2b4bdnat;
    let e4: nat = 2 * e3;
    lemma_pow_square(g, n, e3, x3, x4);
    let x5: nat = 0x1009ca836nat;
    let e5: nat = e4 + 1;
    lemma_pow_times(g, n, e4, x4, x5);
    let x6: nat = 0x13a5ee81bnat;
    let e6: nat = 2 * e5;
    lemma_pow_square(g, n, e5, x5, x6);
    let x7: nat = 0x1a4e22c0anat;
    let e7: nat = 2 * e6;
    lemma_pow_square(g, n, e6, x6, x7);
    let x8: nat = 0x27cb0d0cbnat;
    let e8: nat = e7 + 1;
    lemma_pow_times(g, n, e7, x7, x8);
    let x9: nat = 0x2b465f06fnat;
    let e9: nat = 2 * e8;
    lemma_pow_square(g, n, e8, x8, x9);
    let x10: nat = 362398170nat;
    let e10: nat = 2 * e9;
    lemma_pow_square(g, n, e9, x9, x10);
    let x11: nat = 0x236748024nat;
    let e11: nat = e10 + 1;
    lemma_pow_times(g, n, e10, x10, x11);
    let x12: nat = 0x10393f257nat;
    let e12: nat = 2 * e11;
    lemma_pow_square(g, n, e11, x11, x12);
    let x13: nat = 0x293a85aabnat;
    let e13: nat = e12 + 1;
    lemma_pow_times(g, n, e12, x12, x13);
    let x14: nat = 885333603nat;
    let e14: nat = 2 * e13;
    lemma_pow_square(g, n, e13, x13, x14);
    let x15: nat = 0x11546087dnat;
    let e15: nat = 2 * e14;
    lemma_pow_square(g, n, e14, x14, x15);
    let x16: nat = 0x1bddae107nat;
    let e16: nat = e15 + 1;
    lemma_pow_times(g, n, e15, x15, x16);
    let x17: nat = 0x215d8d700nat;
    let e17: nat = 2 * e16;
    lemma_pow_square(g, n, e16, x16, x17);
    let x18: nat = 0x265e413e4nat;
    let e18: nat = 2 * e17;
    lemma_pow_square(g, n, e17, x17, x18);
    let x19: nat = 0x277e5e0d1nat;
    let e19: nat = 2 * e18;
    lemma_pow_square(g, n, e18, x18, x19);
    let x20: nat = 0x28379ab25nat;
    let e20: nat = e19 + 1;
    lemma_pow_times(g, n, e19, x19, x20);
    let x21: nat = 1018645855nat;
    let e21: nat = 2 * e20;
    lemma_pow_square(g, n, e20, x20, x21);
    let x22: nat = 0x160eaab82nat;
    let e22: nat = 2 * e21;
    lemma_pow_square(g, n, e21, x21, x22);
    let x23: nat = 0x252e9629cnat;
    let e23: nat = 2 * e22;
    lemma_pow_square(g, n, e22, x22, x23);
    let x24: nat = 1248843820nat;
    let e24: nat = e23 + 1;
    lemma_pow_times(g, n, e23, x23, x24);
}

proof fn lemma_12048837557_raise_2()
    ensures
        pow_mod(2nat, 1302014nat, 0x2ce2aabb5nat) == 1248843820nat,
{
    lemma_12048837557_power_1();
    lemma_12048837557_power_3();
    lemma_pow_raise(2nat, 0x2ce2aabb5nat, 14nat, 16384nat, 93001nat, 1248843820nat, 1302014nat);
}

proof fn lemma_12048837557_power_4()
    ensures
        pow_mod(1248843820nat, 14nat, 0x2ce2aabb5nat) == 0x211207178nat,
{
    let n: nat = 0x2ce2aabb5nat;
    let g: nat = 1248843820nat;
    let e0: nat = 1nat;
    let x0: nat = 1248843820nat;
    lemma_pow_first(g, n, x0);
    let x1: nat = 3476168168nat;
    let e1: nat = 2 * e0;
    lemma_pow_square(g, n, e0, x0, x1);
    let x2: nat = 0x275a00dbfnat;
    let e2: nat = e1 + 1;
    lemma_pow_times(g, n, e1, x1, x2);
    let x3: nat = 1988547735nat;
    let e3: nat = 2 * e2;
    lemma_pow_square(g, n, e2, x2, x3);
    let x4: nat = 2221604410nat;
    let e4: nat = e3 + 1;
    lemma_pow_times(g, n, e3, x3, x4);
    let x5: nat = 0x211207178nat;
    let e5: nat = 2 * e4;
    lemma_pow_square(g, n, e4, x4, x5);
}

proof fn lemma_12048837557_raise_3()
    ensures
        pow_mod(2nat, 18228196nat, 0x2ce2aabb5nat) == 0x211207178nat,
{
    lemma_12048837557_raise_2();
    lemma_12048837557_power_4();
    lemma_pow_raise(2nat, 0x2ce2aabb5nat, 1302014nat, 1248843820nat, 14nat, 0x211207178nat, 18228196nat);
}

proof fn lemma_12048837557_power_5()
    ensures
        pow_mod(1248843820nat, 661nat, 0x2ce2aabb5nat) == 0x2521faa2cnat,
{
    let n: nat = 0x2ce2aabb5nat;
    let g: nat = 1248843820nat;
    let e0: nat = 1nat;
    let x0: nat = 1248843820nat;
    lemma_pow_first(g, n, x0);
    let x1: nat = 3476168168nat;
    let e1: nat = 2 * e0;
    lemma_pow_square(g, n, e0, x0, x1);
    let x2: nat = 0x1f2970167nat;
    let e2: nat = 2 * e1;
    lemma_pow_square(g, n, e1, x1, x2);
    let x3: nat = 0x28188a126nat;
    let e3: nat = e2 + 1;
    lemma_pow_times(g, n, e2, x2, x3);
    let x4: nat = 252522118nat;
    let e4: nat = 2 * e3;
    lemma_pow_square(g, n, e3, x3, x4);
    let x5: nat = 0x1c561cd78nat;
    let e5: nat = 2 * e4;
    lemma_pow_square(g, n, e4, x4, x5);
    let x6: nat = 0x236d38ed5nat;
    let e6: nat = 2 * e5;
    lemma_pow_square(g, n, e5, x5, x6);
    let x7: nat = 3072383667nat;
    let e7: nat = e6 + 1;
    lemma_pow_times(g, n, e6, x6, x7);
    let x8: nat = 0x13609e901nat;
    let e8: nat = 2 * e7;
    lemma_pow_square(g, n, e7, x7, x8);
    let x9: nat = 2397367852nat;
    let e9: nat = 2 * e8;
    lemma_pow_square(g, n, e8, x8, x9);
    let x10: nat = 309486834nat;
    let e10: nat = e9 + 1;
    lemma_pow_times(g, n, e9, x9, x10);
    let x11: nat = 0x286792c54nat;
    let e11: nat = 2 * e10;
    lemma_pow_square(g, n, e10, x10, x11);
    let x12: nat = 1121709238nat;
    let e12: nat = 2 * e11;
    lemma_pow_square(g, n, e11, x11, x12);
    let x13: nat = 0x2521faa2cnat;
    let e13: nat = e12 + 1;
    lemma_pow_times(g, n, e12, x12, x13);
}

proof fn lemma_12048837557_raise_4()
    ensures
        pow_mod(2nat, 860631254nat, 0x2ce2aabb5nat) == 0x2521faa2cnat,
{
    lemma_12048837557_raise_2();
    lemma_12048837557_power_5();
    lemma_pow_raise(2nat, 0x2ce2aabb5nat, 1302014nat, 1248843820nat, 661nat, 0x2521faa2cnat, 860631254nat);
}

proof fn lemma_12048837557_power_6()
    ensures
        pow_mod(0x2521faa2cnat, 2nat, 0x2ce2aabb5nat) == 41029474nat,
{
    let n: nat = 0x2ce2aabb5nat;
    let g: nat = 0x2521faa2cnat;
    let e0: nat = 1nat;
    let x0: nat = 0x2521faa2cnat;
    lemma_pow_first(g, n, x0);
    let x1: nat = 41029474nat;
    let e1: nat = 2 * e0;
    lemma_pow_square(g, n, e0, x0, x1);
}

proof fn lemma_12048837557_raise_5()
    ensures
        pow_mod(2nat, 1721262508nat, 0x2ce2aabb5nat) == 41029474nat,
{
    lemma_12048837557_raise_4();
    lemma_12048837557_power_6();
    lemma_pow_raise(2nat, 0x2ce2aabb5nat, 860631254nat, 0x2521faa2cnat, 2nat, 41029474nat, 1721262508nat);
}

proof fn lemma_12048837557_power_7()
    ensures
        pow_mod(0x2521faa2cnat, 7nat, 0x2ce2aabb5nat) == 0x2ce2aabb4nat,
{
    let n: nat = 0x2ce2aabb5nat;
    let g: nat = 0x2521faa2cnat;
    let e0: nat = 1nat;
    let x0: nat = 0x2521faa2cnat;
    lemma_pow_first(g, n, x0);
    let x1: nat = 41029474nat;
    let e1: nat = 2 * e0;
    lemma_pow_square(g, n, e0, x0, x1);
    let x2: nat = 3017460272nat;
    let e2: nat = e1 + 1;
    lemma_pow_times(g, n, e1, x1, x2);
    let x3: nat = 264062095nat;
    let e3: nat = 2 * e2;
    lemma_pow_square(g, n, e2, x2, x3);
    let x4: nat = 0x2ce2aabb4nat;
    let e4: nat = e3 + 1;
    lemma_pow_times(g, n, e3, x3, x4);
}

proof fn lemma_12048837557_raise_6()
    ensures
        pow_mod(2nat, 0x1671555danat, 0x2ce2aabb5nat) == 0x2ce2aabb4nat,
{
    lemma_12048837557_raise_4();
    lemma_12048837557_power_7();
    lemma_pow_raise(2nat, 0x2ce2aabb5nat, 860631254nat, 0x2521faa2cnat, 7nat, 0x2ce2aabb4nat, 0x1671555danat);
}

proof fn lemma_12048837557_power_8()
    ensures
        pow_mod(0x2ce2aabb4nat, 2nat, 0x2ce2aabb5nat) == 1nat,
{
    let n: nat = 0x2ce2aabb5nat;
    let g: nat = 0x2ce2aabb4nat;
    let e0: nat = 1nat;
    let x0: nat = 0x2ce2aabb4nat;
    lemma_pow_first(g, n, x0);
    let x1: nat = 1nat;
    let e1: nat = 2 * e0;
    lemma_pow_square(g, n, e0, x0, x1);
}

proof fn lemma_12048837557_raise_7()
    ensures
        pow_mod(2nat, 0x2ce2aabb4nat, 0x2ce2aabb5nat) == 1nat,
{
    lemma_12048837557_raise_6();
    lemma_12048837557_power_8();
    lemma_pow_raise(2nat, 0x2ce2aabb5nat, 0x1671555danat, 0x2ce2aabb4nat, 2nat, 1nat, 0x2ce2aabb4nat);
}

/// `12048837557` is prime.
pub proof fn lemma_prime_12048837557()
    ensures
        is_prime(0x2ce2aabb5nat),
{
    let n: nat = 0x2ce2aabb5nat;
    let g: nat = 2nat;
    lemma_two_is_prime();
    lemma_12048837557_raise_6();
    lemma_prime_7();
    lemma_12048837557_raise_5();
    lemma_prime_661();
    lemma_12048837557_raise_3();
    lemma_prime_93001();
    lemma_12048837557_raise_1();
    lemma_12048837557_raise_7();
    let s0: Seq<nat> = Seq::<nat>::empty();
    lemma_witnessed_none(n, g);
    let s1: Seq<nat> = s0.push(2nat);
    lemma_witnessed_more(n, g, s0, 2nat, 0x1671555danat, 0x2ce2aabb4nat, 2nat);
    let s2: Seq<nat> = s1.push(2nat);
    lemma_witnessed_more(n, g, s1, 2nat, 0x1671555danat, 0x2ce2aabb4nat, 4nat);
    let s3: Seq<nat> = s2.push(7nat);
    lemma_witnessed_more(n, g, s2, 7nat, 1721262508nat, 41029474nat, 28nat);
    let s4: Seq<nat> = s3.push(7nat);
    lemma_witnessed_more(n, g, s3, 7nat, 1721262508nat, 41029474nat, 196nat);
    let s5: Seq<nat> = s4.push(661nat);
    lemma_witnessed_more(n, g, s4, 661nat, 18228196nat, 0x211207178nat, 129556nat);
    let s6: Seq<nat> = s5.push(93001nat);
    lemma_witnessed_more(n, g, s5, 93001nat, 129556nat, 0x11af1660anat, 0x2ce2aabb4nat);
    lemma_witnessed_prime(n, g, s6);
}

// The prime 5156902474397.
// One less is 2^2 * 107 * 12048837557; the primitive root is 2.

proof fn lemma_5156902474397_power_1()
    ensures
        pow_mod(2nat, 2nat, 0x4b0af57129dnat) == 4nat,
{
    let n: nat = 0x4b0af57129dnat;
    let g: nat = 2nat;
    let e0: nat = 1nat;
    let x0: nat = 2nat;
    lemma_pow_first(g, n, x0);
    let x1: nat = 4nat;
    let e1: nat = 2 * e0;
    lemma_pow_square(g, n, e0, x0, x1);
}

proof fn lemma_5156902474397_power_2()
    ensures
        pow_mod(4nat, 214nat, 0x4b0af57129dnat) == 0x4512e21e802nat,
{
    let n: nat = 0x4b0af57129dnat;
    let g: nat = 4nat;
    let e0: nat = 1nat;
    let x0: nat = 4nat;
    lemma_pow_first(g, n, x0);
    let x1: nat = 16nat;
    let e1: nat = 2 * e0;
    lemma_pow_square(g, n, e0, x0, x1);
    let x2: nat = 64nat;
    let e2: nat = e1 + 1;
    lemma_pow_times(g, n, e1, x1, x2);
    let x3: nat = 4096nat;
    let e3: nat = 2 * e2;
    lemma_pow_square(g, n, e2, x2, x3);
    let x4: nat = 16777216nat;
    let e4: nat = 2 * e3;
    lemma_pow_square(g, n, e3, x3, x4);
    let x5: nat = 67108864nat;
    let e5: nat = e4 + 1;
    lemma_pow_times(g, n, e4, x4, x5);
    let x6: nat = 0x17a1011869bnat;
    let e6: nat = 2 * e5;
    lemma_pow_square(g, n, e5, x5, x6);
    let x7: nat = 0x10615efe573nat;
    let e7: nat = 2 * e6;
    lemma_pow_square(g, n, e6, x6, x7);
    let x8: nat = 0x41857bf95ccnat;
    let e8: nat = e7 + 1;
    lemma_pow_times(g, n, e7, x7, x8);
    let x9: nat = 0x2524c6c6638nat;
    let e9: nat = 2 * e8;
    lemma_pow_square(g, n, e8, x8, x9);
    let x10: nat = 0x498825a8643nat;
    let e10: nat = e9 + 1;
    lemma_pow_times(g, n, e9, x9, x10);
    let x11: nat = 0x4512e21e802nat;
    let e11: nat = 2 * e10;
    lemma_pow_square(g, n, e10, x10, x11);
}

proof fn lemma_5156902474397_raise_1()
    ensures
        pow_mod(2nat, 428nat, 0x4b0af57129dnat) == 0x4512e21e802nat,
{
    lemma_5156902474397_power_1();
    lemma_5156902474397_power_2();
    lemma_pow_raise(2nat, 0x4b0af57129dnat, 2nat, 4nat, 214nat, 0x4512e21e802nat, 428nat);
}

proof fn lemma_5156902474397_power_3()
    ensures
        pow_mod(4nat, 3012209389nat, 0x4b0af57129dnat) == 0x37ba5b14bd3nat,
{
    let n: nat = 0x4b0af57129dnat;
    let g: nat = 4nat;
    let e0: nat = 1nat;
    let x0: nat = 4nat;
    lemma_pow_first(g, n, x0);
    let x1: nat = 16nat;
    let e1: nat = 2 * e0;
    lemma_pow_square(g, n, e0, x0, x1);
    let x2: nat = 256nat;
    let e2: nat = 2 * e1;
    lemma_pow_square(g, n, e1, x1, x2);
    let x3: nat = 1024nat;
    let e3: nat = e2 + 1;
    lemma_pow_times(g, n, e2, x2, x3);
    let x4: nat = 1048576nat;
    let e4: nat = 2 * e3;
    lemma_pow_square(g, n, e3, x3, x4);
    let x5: nat = 4194304nat;
    let e5: nat = e4 + 1;
    lemma_pow_times(g, n, e4, x4, x5);
    let x6: nat = 0x1edf1fac829nat;
    let e6: nat = 2 * e5;
    lemma_pow_square(g, n, e5, x5, x6);
    let x7: nat = 0x1fdc9280cfenat;
    let e7: nat = 2 * e6;
    lemma_pow_square(g, n, e6, x6, x7);
    let x8: nat = 0x3619ab09fb5nat;
    let e8: nat = 2 * e7;
    lemma_pow_square(g, n, e7, x7, x8);
    let x9: nat = 0x4250c14599anat;
    let e9: nat = e8 + 1;
    lemma_pow_times(g, n, e8, x8, x9);
    let x10: nat = 0x1098ad08accnat;
    let e10: nat = 2 * e9;
    lemma_pow_square(g, n, e9, x9, x10);
    let x11: nat = 0x4262b422b30nat;
    let e11: nat = e10 + 1;
    lemma_pow_times(g, n, e10, x10, x11);
    let x12: nat = 0x44568c5d6e6nat;
    let e12: nat = 2 * e11;
    lemma_pow_square(g, n, e11, x11, x12);
    let x13: nat = 0x303951223c1nat;
    let e13: nat = e12 + 1;
    lemma_pow_times(g, n, e12, x12, x13);
    let x14: nat = 0x41147e639c2nat;
    let e14: nat = 2 * e13;
    lemma_pow_square(g, n, e13, x13, x14);
    let x15: nat = 0x200ef5828b5nat;
    let e15: nat = 2 * e14;
    lemma_pow_square(g, n, e14, x14, x15);
    let x16: nat = 0x472483bfd45nat;
    let e16: nat = 2 * e15;
    lemma_pow_square(g, n, e15, x15, x16);
    let x17: nat = 0xf70a377de1nat;
    let e17: nat = 2 * e16;
    lemma_pow_square(g, n, e16, x16, x17);
    let x18: nat = 0x3dc28ddf784nat;
    let e18: nat = e17 + 1;
    lemma_pow_times(g, n, e17, x17, x18);
    let x19: nat = 0x26c3d800ddenat;
    let e19: nat = 2 * e18;
    lemma_pow_square(g, n, e18, x18, x19);
    let x20: nat = 0x2f8db968ebbnat;
    let e20: nat = 2 * e19;
    lemma_pow_square(g, n, e19, x19, x20);
    let x21: nat = 0x2820fac15b2nat;
    let e21: nat = e20 + 1;
    lemma_pow_times(g, n, e20, x20, x21);
    let x22: nat = 0x200c2705379nat;
    let e22: nat = 2 * e21;
    lemma_pow_square(g, n, e21, x21, x22);
    let x23: nat = 0x920c826e33nat;
    let e23: nat = 2 * e22;
    lemma_pow_square(g, n, e22, x22, x23);
    let x24: nat = 0x2483209b8ccnat;
    let e24: nat = e23 + 1;
    lemma_pow_times(g, n, e23, x23, x24);
    let x25: nat = 0x1e3e4672353nat;
    let e25: nat = 2 * e24;
    lemma_pow_square(g, n, e24, x24, x25);
    let x26: nat = 0x46c4869ada2nat;
    let e26: nat = 2 * e25;
    lemma_pow_square(g, n, e25, x25, x26);
    let x27: nat = 0x39f13a17eb1nat;
    let e27: nat = e26 + 1;
    lemma_pow_times(g, n, e26, x26, x27);
    let x28: nat = 0x25fcc7ed158nat;
    let e28: nat = 2 * e27;
    lemma_pow_square(g, n, e27, x27, x28);
    let x29: nat = 0x1f2991b99bdnat;
    let e29: nat = 2 * e28;
    lemma_pow_square(g, n, e28, x28, x29);
    let x30: nat = 0x319b5175457nat;
    let e30: nat = e29 + 1;
    lemma_pow_times(g, n, e29, x29, x30);
    let x31: nat = 0x46cc8493fenat;
    let e31: nat = 2 * e30;
    lemma_pow_square(g, n, e30, x30, x31);
    let x32: nat = 0x39cd01a2c06nat;
    let e32: nat = 2 * e31;
    lemma_pow_square(g, n, e31, x31, x32);
    let x33: nat = 0x6132637841nat;
    let e33: nat = e32 + 1;
    lemma_pow_times(g, n, e32, x32, x33);
    let x34: nat = 0x424b9fcebfcnat;
    let e34: nat = 2 * e33;
    lemma_pow_square(g, n, e33, x33, x34);
    let x35: nat = 0x27b839eb382nat;
    let e35: nat = 2 * e34;
    lemma_pow_square(g, n, e34, x34, x35);
    let x36: nat = 0x8cafcca8cenat;
    let e36: nat = e35 + 1;
    lemma_pow_times(g, n, e35, x35, x36);
    let x37: nat = 0x206717135e7nat;
    let e37: nat = 2 * e36;
    lemma_pow_square(g, n, e36, x36, x37);
    let x38: nat = 0x369166dc4ffnat;
    let e38: nat = e37 + 1;
    lemma_pow_times(g, n, e37, x37, x38);
    let x39: nat = 0x29d4367907cnat;
    let e39: nat = 2 * e38;
    lemma_pow_square(g, n, e38, x38, x39);
    let x40: nat = 0x113aef01cb6nat;
    let e40: nat = e39 + 1;
    lemma_pow_times(g, n, e39, x39, x40);
    let x41: nat = 0x38d665efd2fnat;
    let e41: nat = 2 * e40;
    lemma_pow_square(g, n, e40, x40, x41);
    let x42: nat = 0xe3f803bda7nat;
    let e42: nat = 2 * e41;
    lemma_pow_square(g, n, e41, x41, x42);
    let x43: nat = 0x38fe00ef69cnat;
    let e43: nat = e42 + 1;
    lemma_pow_times(g, n, e42, x42, x43);
    let x44: nat = 0x76d19989a7nat;
    let e44: nat = 2 * e43;
    lemma_pow_square(g, n, e43, x43, x44);
    let x45: nat = 0x1db4666269cnat;
    let e45: nat = e44 + 1;
    lemma_pow_times(g, n, e44, x44, x45);
    let x46: nat = 0x19541ef520enat;
    let e46: nat = 2 * e45;
    lemma_pow_square(g, n, e45, x45, x46);
    let x47: nat = 0x20b1542179cnat;
    let e47: nat = 2 * e46;
    lemma_pow_square(g, n, e46, x46, x47);
    let x48: nat = 0x37ba5b14bd3nat;
    let e48: nat = e47 + 1;
    lemma_pow_times(g, n, e47, x47, x48);
}

proof fn lemma_5156902474397_power_4()
    ensures
        pow_mod(4nat, 0x2ce2aabb5nat, 0x4b0af57129dnat) == 0x97c0b818cenat,
{
    let n: nat = 0x4b0af57129dnat;
    let g: nat = 4nat;
    let e0: nat = 3012209389nat;
    let x0: nat = 0x37ba5b14bd3nat;
    lemma_5156902474397_power_3();
    let x1: nat = 0x2aaf575219nat;
    let e1: nat = 2 * e0;
    lemma_pow_square(g, n, e0, x0, x1);
    let x2: nat = 0x27e47d98f82nat;
    let e2: nat = 2 * e1;
    lemma_pow_square(g, n, e1, x1, x2);
    let x3: nat = 0x97c0b818cenat;
    let e3: nat = e2 + 1;
    lemma_pow_times(g, n, e2, x2, x3);
}

proof fn lemma_5156902474397_raise_2()
    ensures
        pow_mod(2nat, 0x59c55576anat, 0x4b0af57129dnat) == 0x97c0b818cenat,
{
    lemma_5156902474397_power_1();
    lemma_5156902474397_power_4();
    lemma_pow_raise(2nat, 0x4b0af57129dnat, 2nat, 4nat, 0x2ce2aabb5nat, 0x97c0b818cenat, 0x59c55576anat);
}

proof fn lemma_5156902474397_power_5()
    ensures
        pow_mod(0x97c0b818cenat, 2nat, 0x4b0af57129dnat) == 0x46415d8e403nat,
{
    let n: nat = 0x4b0af57129dnat;
    let g: nat = 0x97c0b818cenat;
    let e0: nat = 1nat;
    let x0: nat = 0x97c0b818cenat;
    lemma_pow_first(g, n, x0);
    let x1: nat = 0x46415d8e403nat;
    let e1: nat = 2 * e0;
    lemma_pow_square(g, n, e0, x0, x1);
}

proof fn lemma_5156902474397_raise_3()
    ensures
        pow_mod(2nat, 0xb38aaaed4nat, 0x4b0af57129dnat) == 0x46415d8e403nat,
{
    lemma_5156902474397_raise_2();
    lemma_5156902474397_power_5();
    lemma_pow_raise(2nat, 0x4b0af57129dnat, 0x59c55576anat, 0x97c0b818cenat, 2nat, 0x46415d8e403nat, 0xb38aaaed4nat);
}

proof fn lemma_5156902474397_power_6()
    ensures
        pow_mod(0x97c0b818cenat, 107nat, 0x4b0af57129dnat) == 0x4b0af57129cnat,
{
    let n: nat = 0x4b0af57129dnat;
    let g: nat = 0x97c0b818cenat;
    let e0: nat = 1nat;
    let x0: nat = 0x97c0b818cenat;
    lemma_pow_first(g, n, x0);
    let x1: nat = 0x46415d8e403nat;
    let e1: nat = 2 * e0;
    lemma_pow_square(g, n, e0, x0, x1);
    let x2: nat = 0x26d0f19e0acnat;
    let e2: nat = e1 + 1;
    lemma_pow_times(g, n, e1, x1, x2);
    let x3: nat = 0x3ed72836e55nat;
    let e3: nat = 2 * e2;
    lemma_pow_square(g, n, e2, x2, x3);
    let x4: nat = 0x3352047a109nat;
    let e4: nat = 2 * e3;
    lemma_pow_square(g, n, e3, x3, x4);
    let x5: nat = 0x22f4b0b7ad2nat;
    let e5: nat = e4 + 1;
    lemma_pow_times(g, n, e4, x4, x5);
    let x6: nat = 0x448f333a659nat;
    let e6: nat = 2 * e5;
    lemma_pow_square(g, n, e5, x5, x6);
    let x7: nat = 0x374f47d35ddnat;
    let e7: nat = 2 * e6;
    lemma_pow_square(g, n, e6, x6, x7);
    let x8: nat = 0x3eea04b4735nat;
    let e8: nat = e7 + 1;
    lemma_pow_times(g, n, e7, x7, x8);
    let x9: nat = 0x112d303abb4nat;
    let e9: nat = 2 * e8;
    lemma_pow_square(g, n, e8, x8, x9);
    let x10: nat = 0x4b0af57129cnat;
    let e10: nat = e9 + 1;
    lemma_pow_times(g, n, e9, x9, x10);
}

proof fn lemma_5156902474397_raise_4()
    ensures
        pow_mod(2nat, 0x25857ab894enat, 0x4b0af57129dnat) == 0x4b0af57129cnat,
{
    lemma_5156902474397_raise_2();
    lemma_5156902474397_power_6();
    lemma_pow_raise(2nat, 0x4b0af57129dnat, 0x59c55576anat, 0x97c0b818cenat, 107nat, 0x4b0af57129cnat, 0x25857ab894enat);
}

proof fn lemma_5156902474397_power_7()
    ensures
        pow_mod(0x4b0af57129cnat, 2nat, 0x4b0af57129dnat) == 1nat,
{
    let n: nat = 0x4b0af57129dnat;
    let g: nat = 0x4b0af57129cnat;
    let e0: nat = 1nat;
    let x0: nat = 0x4b0af57129cnat;
    lemma_pow_first(g, n, x0);
    let x1: nat = 1nat;
    let e1: nat = 2 * e0;
    lemma_pow_square(g, n, e0, x0, x1);
}

proof fn lemma_5156902474397_raise_5()
    ensures
        pow_mod(2nat, 0x4b0af57129cnat, 0x4b0af57129dnat) == 1nat,
{
    lemma_5156902474397_raise_4();
    lemma_5156902474397_power_7();
    lemma_pow_raise(2nat, 0x4b0af57129dnat, 0x25857ab894enat, 0x4b0af57129cnat, 2nat, 1nat, 0x4b0af57129cnat);
}

/// `5156902474397` is prime.
pub proof fn lemma_prime_5156902474397()
    ensures
        is_prime(0x4b0af57129dnat),
{
    let n: nat = 0x4b0af57129dnat;
    let g: nat = 2nat;
    lemma_two_is_prime();
    lemma_5156902474397_raise_4();
    lemma_prime_107();
    lemma_5156902474397_raise_3();
    lemma_prime_12048837557();
    lemma_5156902474397_raise_1();
    lemma_5156902474397_raise_5();
    let s0: Seq<nat> = Seq::<nat>::empty();
    lemma_witnessed_none(n, g);
    let s1: Seq<nat> = s0.push(2nat);
    lemma_witnessed_more(n, g, s0, 2nat, 0x25857ab894enat, 0x4b0af57129cnat, 2nat);
    let s2: Seq<nat> = s1.push(2nat);
    lemma_witnessed_more(n, g, s1, 2nat, 0x25857ab894enat, 0x4b0af57129cnat, 4nat);
    let s3: Seq<nat> = s2.push(107nat);
    lemma_witnessed_more(n, g, s2, 107nat, 0xb38aaaed4nat, 0x46415d8e403nat, 428nat);
    let s4: Seq<nat> = s3.push(0x2ce2aabb5nat);
    lemma_witnessed_more(n, g, s3, 0x2ce2aabb5nat, 428nat, 0x4512e21e802nat, 0x4b0af57129cnat);
    lemma_witnessed_prime(n, g, s4);
}

// The prime 1670836401704629.
// One less is 2^2 * 3^4 * 5156902474397; the primitive root is 2.

proof fn lemma_1670836401704629_power_1()
    ensures
        pow_mod(2nat, 54nat, 0x5ef9dea338eb5nat) == 0x4a3d4d9fc6ceenat,
{
    let n: nat = 0x5ef9dea338eb5nat;
    let g: nat = 2nat;
    let e0: nat = 1nat;
    let x0: nat = 2nat;
    lemma_pow_first(g, n, x0);
    let x1: nat = 4nat;
    let e1: nat = 2 * e0;
    lemma_pow_square(g, n, e0, x0, x1);
    let x2: nat = 8nat;
    let e2: nat = e1 + 1;
    lemma_pow_times(g, n, e1, x1, x2);
    let x3: nat = 64nat;
    let e3: nat = 2 * e2;
    lemma_pow_square(g, n, e2, x2, x3);
    let x4: nat = 4096nat;
    let e4: nat = 2 * e3;
    lemma_pow_square(g, n, e3, x3, x4);
    let x5: nat = 8192nat;
    let e5: nat = e4 + 1;
    lemma_pow_times(g, n, e4, x4, x5);
    let x6: nat = 67108864nat;
    let e6: nat = 2 * e5;
    lemma_pow_square(g, n, e5, x5, x6);
    let x7: nat = 134217728nat;
    let e7: nat = e6 + 1;
    lemma_pow_times(g, n, e6, x6, x7);
    let x8: nat = 0x4a3d4d9fc6ceenat;
    let e8: nat = 2 * e7;
    lemma_pow_square(g, n, e7, x7, x8);
}

proof fn lemma_1670836401704629_power_2()
    ensures
        pow_mod(0x4a3d4d9fc6ceenat, 6nat, 0x5ef9dea338eb5nat) == 0xa0be5150fc4nat,
{
    let n: nat = 0x5ef9dea338eb5nat;
    let g: nat = 0x4a3d4d9fc6ceenat;
    let e0: nat = 1nat;
    let x0: nat = 0x4a3d4d9fc6ceenat;
    lemma_pow_first(g, n, x0);
    let x1: nat = 0x34dd1ce0010f0nat;
    let e1: nat = 2 * e0;
    lemma_pow_square(g, n, e0, x0, x1);
    let x2: nat = 0xe67205af98d2nat;
    let e2: nat = e1 + 1;
    lemma_pow_times(g, n, e1, x1, x2);
    let x3: nat = 0xa0be5150fc4nat;
    let e3: nat = 2 * e2;
    lemma_pow_square(g, n, e2, x2, x3);
}

proof fn lemma_1670836401704629_raise_1()
    ensures
        pow_mod(2nat, 324nat, 0x5ef9dea338eb5nat) == 0xa0be5150fc4nat,
{
    lemma_1670836401704629_power_1();
    lemma_1670836401704629_power_2();
    lemma_pow_raise(2nat, 0x5ef9dea338eb5nat, 54nat, 0x4a3d4d9fc6ceenat, 6nat, 0xa0be5150fc4nat, 324nat);
}

proof fn lemma_1670836401704629_power_3()
    ensures
        pow_mod(0x4a3d4d9fc6ceenat, 0x25857ab88nat, 0x5ef9dea338eb5nat) == 0x57424170399eenat,
{
    let n: nat = 0x5ef9dea338eb5nat;
    let g: nat = 0x4a3d4d9fc6ceenat;
    let e0: nat = 1nat;
    let x0: nat = 0x4a3d4d9fc6ceenat;
    lemma_pow_first(g, n, x0);
    let x1: nat = 0x34dd1ce0010f0nat;
    let e1: nat = 2 * e0;
    lemma_pow_square(g, n, e0, x0, x1);
    let x2: nat = 0x4234f6597a3a6nat;
    let e2: nat = 2 * e1;
    lemma_pow_square(g, n, e1, x1, x2);
    let x3: nat = 0x1590dd87bbb02nat;
    let e3: nat = 2 * e2;
    lemma_pow_square(g, n, e2, x2, x3);
    let x4: nat = 0x5328216abe613nat;
    let e4: nat = e3 + 1;
    lemma_pow_times(g, n, e3, x3, x4);
    let x5: nat = 0x42c92ed02d222nat;
    let e5: nat = 2 * e4;
    lemma_pow_square(g, n, e4, x4, x5);
    let x6: nat = 0x5d37cd609f427nat;
    let e6: nat = 2 * e5;
    lemma_pow_square(g, n, e5, x5, x6);
    let x7: nat = 0x535e9657e68fcnat;
    let e7: nat = e6 + 1;
    lemma_pow_times(g, n, e6, x6, x7);
    let x8: nat = 0xf86f2c87702cnat;
    let e8: nat = 2 * e7;
    lemma_pow_square(g, n, e7, x7, x8);
    let x9: nat = 0x3382b974e07bdnat;
    let e9: nat = e8 + 1;
    lemma_pow_times(g, n, e8, x8, x9);
    let x10: nat = 0xd614785aa19cnat;
    let e10: nat = 2 * e9;
    lemma_pow_square(g, n, e9, x9, x10);
    let x11: nat = 0x1b9ab4cf0727anat;
    let e11: nat = 2 * e10;
    lemma_pow_square(g, n, e10, x10, x11);
    let x12: nat = 0x208f4e559e790nat;
    let e12: nat = 2 * e11;
    lemma_pow_square(g, n, e11, x11, x12);
    let x13: nat = 0x41457960d048enat;
    let e13: nat = 2 * e12;
    lemma_pow_square(g, n, e12, x12, x13);
    let x14: nat = 0x1d5ef9b8282ecnat;
    let e14: nat = 2 * e13;
    lemma_pow_square(g, n, e13, x13, x14);
    let x15: nat = 0x4747e7ee05747nat;
    let e15: nat = e14 + 1;
    lemma_pow_times(g, n, e14, x14, x15);
    let x16: nat = 0x174f532563395nat;
    let e16: nat = 2 * e15;
    lemma_pow_square(g, n, e15, x15, x16);
    let x17: nat = 0x22c73355fe163nat;
    let e17: nat = 2 * e16;
    lemma_pow_square(g, n, e16, x16, x17);
    let x18: nat = 0x5b3dd90f5fd1fnat;
    let e18: nat = e17 + 1;
    lemma_pow_times(g, n, e17, x17, x18);
    let x19: nat = 0x1f14e53582dd5nat;
    let e19: nat = 2 * e18;
    lemma_pow_square(g, n, e18, x18, x19);
    let x20: nat = 0x42de293ccda82nat;
    let e20: nat = 2 * e19;
    lemma_pow_square(g, n, e19, x19, x20);
    let x21: nat = 0x195626fd0066enat;
    let e21: nat = e20 + 1;
    lemma_pow_times(g, n, e20, x20, x21);
    let x22: nat = 0x44b8b40375d2enat;
    let e22: nat = 2 * e21;
    lemma_pow_square(g, n, e21, x21, x22);
    let x23: nat = 0x2a4136916ae3bnat;
    let e23: nat = e22 + 1;
    lemma_pow_times(g, n, e22, x22, x23);
    let x24: nat = 0x101fb40a13950nat;
    let e24: nat = 2 * e23;
    lemma_pow_square(g, n, e23, x23, x24);
    let x25: nat = 0x54fd76b14a09enat;
    let e25: nat = e24 + 1;
    lemma_pow_times(g, n, e24, x24, x25);
    let x26: nat = 0x841290f1c86bnat;
    let e26: nat = 2 * e25;
    lemma_pow_square(g, n, e25, x25, x26);
    let x27: nat = 0x562e99e6a30c4nat;
    let e27: nat = e26 + 1;
    lemma_pow_times(g, n, e26, x26, x27);
    let x28: nat = 0x58a5b615ad328nat;
    let e28: nat = 2 * e27;
    lemma_pow_square(g, n, e27, x27, x28);
    let x29: nat = 0x4757223783908nat;
    let e29: nat = 2 * e28;
    lemma_pow_square(g, n, e28, x28, x29);
    let x30: nat = 0x25f3300729146nat;
    let e30: nat = e29 + 1;
    lemma_pow_times(g, n, e29, x29, x30);
    let x31: nat = 0x1f6d8924075fanat;
    let e31: nat = 2 * e30;
    lemma_pow_square(g, n, e30, x30, x31);
    let x32: nat = 0x6e929098c33bnat;
    let e32: nat = 2 * e31;
    lemma_pow_square(g, n, e31, x31, x32);
    let x33: nat = 0x291a0f557dab4nat;
    let e33: nat = e32 + 1;
    lemma_pow_times(g, n, e32, x32, x33);
    let x34: nat = 0x3cc68dd153c54nat;
    let e34: nat = 2 * e33;
    lemma_pow_square(g, n, e33, x33, x34);
    let x35: nat = 0x2b87a3466e2e6nat;
    let e35: nat = 2 * e34;
    lemma_pow_square(g, n, e34, x34, x35);
    let x36: nat = 0x4adc16c32cc18nat;
    let e36: nat = e35 + 1;
    lemma_pow_times(g, n, e35, x35, x36);
    let x37: nat = 0x2cc0df5b3c2benat;
    let e37: nat = 2 * e36;
    lemma_pow_square(g, n, e36, x36, x37);
    let x38: nat = 0x3b3bef529f60cnat;
    let e38: nat = e37 + 1;
    lemma_pow_times(g, n, e37, x37, x38);
    let x39: nat = 0x23016faac13abnat;
    let e39: nat = 2 * e38;
    lemma_pow_square(g, n, e38, x38, x39);
    let x40: nat = 0x2f9095e2cf07dnat;
    let e40: nat = e39 + 1;
    lemma_pow_times(g, n, e39, x39, x40);
    let x41: nat = 0x3a38a707fab4enat;
    let e41: nat = 2 * e40;
    lemma_pow_square(g, n, e40, x40, x41);
    let x42: nat = 0x27fef4598aba6nat;
    let e42: nat = 2 * e41;
    lemma_pow_square(g, n, e41, x41, x42);
    let x43: nat = 0x51abc07dbf057nat;
    let e43: nat = 2 * e42;
    lemma_pow_square(g, n, e42, x42, x43);
    let x44: nat = 0x53e841c032ea3nat;
    let e44: nat = 2 * e43;
    lemma_pow_square(g, n, e43, x43, x44);
    let x45: nat = 0x4d60888de9163nat;
    let e45: nat = e44 + 1;
    lemma_pow_times(g, n, e44, x44, x45);
    let x46: nat = 0xe0ade975342dnat;
    let e46: nat = 2 * e45;
    lemma_pow_square(g, n, e45, x45, x46);
    let x47: nat = 0x1de03ffeb4e91nat;
    let e47: nat = 2 * e46;
    lemma_pow_square(g, n, e46, x46, x47);
    let x48: nat = 0x57424170399eenat;
    let e48: nat = 2 * e47;
    lemma_pow_square(g, n, e47, x47, x48);
}

proof fn lemma_1670836401704629_power_4()
    ensures
        pow_mod(0x4a3d4d9fc6ceenat, 0x4b0af57129dnat, 0x5ef9dea338eb5nat) == 0x4b2b955cb34f9nat,
{
    let n: nat = 0x5ef9dea338eb5nat;
    let g: nat = 0x4a3d4d9fc6ceenat;
    let e0: nat = 0x25857ab88nat;
    let x0: nat = 0x57424170399eenat;
    lemma_1670836401704629_power_3();
    let x1: nat = 0x44149872bdaa9nat;
    let e1: nat = e0 + 1;
    lemma_pow_times(g, n, e0, x0, x1);
    let x2: nat = 0x3ed2e71d7a553nat;
    let e2: nat = 2 * e1;
    lemma_pow_square(g, n, e1, x1, x2);
    let x3: nat = 0x46841e8be1eb3nat;
    let e3: nat = 2 * e2;
    lemma_pow_square(g, n, e2, x2, x3);
    let x4: nat = 0x4f11b2673e2b7nat;
    let e4: nat = e3 + 1;
    lemma_pow_times(g, n, e3, x3, x4);
    let x5: nat = 0x45c8254ddeadanat;
    let e5: nat = 2 * e4;
    lemma_pow_square(g, n, e4, x4, x5);
    let x6: nat = 0x25b5c3b9dc651nat;
    let e6: nat = 2 * e5;
    lemma_pow_square(g, n, e5, x5, x6);
    let x7: nat = 0x317c9ee92449enat;
    let e7: nat = 2 * e6;
    lemma_pow_square(g, n, e6, x6, x7);
    let x8: nat = 0x308ae9e6b0446nat;
    let e8: nat = e7 + 1;
    lemma_pow_times(g, n, e7, x7, x8);
    let x9: nat = 0x4e2833389a337nat;
    let e9: nat = 2 * e8;
    lemma_pow_square(g, n, e8, x8, x9);
    let x10: nat = 0x3d269f57a3bf7nat;
    let e10: nat = e9 + 1;
    lemma_pow_times(g, n, e9, x9, x10);
    let x11: nat = 0x450d17d8442fanat;
    let e11: nat = 2 * e10;
    lemma_pow_square(g, n, e10, x10, x11);
    let x12: nat = 0x3a263703c73f2nat;
    let e12: nat = e11 + 1;
    lemma_pow_times(g, n, e11, x11, x12);
    let x13: nat = 0x37ea84bdb1d84nat;
    let e13: nat = 2 * e12;
    lemma_pow_square(g, n, e12, x12, x13);
    let x14: nat = 0x26b95fbc1a264nat;
    let e14: nat = 2 * e13;
    lemma_pow_square(g, n, e13, x13, x14);
    let x15: nat = 0x4b2b955cb34f9nat;
    let e15: nat = e14 + 1;
    lemma_pow_times(g, n, e14, x14, x15);
}

proof fn lemma_1670836401704629_raise_2()
    ensures
        pow_mod(2nat, 0xfd44fc5ded1enat, 0x5ef9dea338eb5nat) == 0x4b2b955cb34f9nat,
{
    lemma_1670836401704629_power_1();
    lemma_1670836401704629_power_4();
    lemma_pow_raise(2nat, 0x5ef9dea338eb5nat, 54nat, 0x4a3d4d9fc6ceenat, 0x4b0af57129dnat, 0x4b2b955cb34f9nat, 0xfd44fc5ded1enat);
}

proof fn lemma_1670836401704629_power_5()
    ensures
        pow_mod(0x4b2b955cb34f9nat, 2nat, 0x5ef9dea338eb5nat) == 0x4b2b955cb34f8nat,
{
    let n: nat = 0x5ef9dea338eb5nat;
    let g: nat = 0x4b2b955cb34f9nat;
    let e0: nat = 1nat;
    let x0: nat = 0x4b2b955cb34f9nat;
    lemma_pow_first(g, n, x0);
    let x1: nat = 0x4b2b955cb34f8nat;
    let e1: nat = 2 * e0;
    lemma_pow_square(g, n, e0, x0, x1);
}

proof fn lemma_1670836401704629_raise_3()
    ensures
        pow_mod(2nat, 0x1fa89f8bbda3cnat, 0x5ef9dea338eb5nat) == 0x4b2b955cb34f8nat,
{
    lemma_1670836401704629_raise_2();
    lemma_1670836401704629_power_5();
    lemma_pow_raise(2nat, 0x5ef9dea338eb5nat, 0xfd44fc5ded1enat, 0x4b2b955cb34f9nat, 2nat, 0x4b2b955cb34f8nat, 0x1fa89f8bbda3cnat);
}

proof fn lemma_1670836401704629_power_6()
    ensures
        pow_mod(0x4b2b955cb34f9nat, 3nat, 0x5ef9dea338eb5nat) == 0x5ef9dea338eb4nat,
{
    let n: nat = 0x5ef9dea338eb5nat;
    let g: nat = 0x4b2b955cb34f9nat;
    let e0: nat = 1nat;
    let x0: nat = 0x4b2b955cb34f9nat;
    lemma_pow_first(g, n, x0);
    let x1: nat = 0x4b2b955cb34f8nat;
    let e1: nat = 2 * e0;
    lemma_pow_square(g, n, e0, x0, x1);
    let x2: nat = 0x5ef9dea338eb4nat;
    let e2: nat = e1 + 1;
    lemma_pow_times(g, n, e1, x1, x2);
}

proof fn lemma_1670836401704629_raise_4()
    ensures
        pow_mod(2nat, 0x2f7cef519c75anat, 0x5ef9dea338eb5nat) == 0x5ef9dea338eb4nat,
{
    lemma_1670836401704629_raise_2();
    lemma_1670836401704629_power_6();
    lemma_pow_raise(2nat, 0x5ef9dea338eb5nat, 0xfd44fc5ded1enat, 0x4b2b955cb34f9nat, 3nat, 0x5ef9dea338eb4nat, 0x2f7cef519c75anat);
}

proof fn lemma_1670836401704629_power_7()
    ensures
        pow_mod(0x5ef9dea338eb4nat, 2nat, 0x5ef9dea338eb5nat) == 1nat,
{
    let n: nat = 0x5ef9dea338eb5nat;
    let g: nat = 0x5ef9dea338eb4nat;
    let e0: nat = 1nat;
    let x0: nat = 0x5ef9dea338eb4nat;
    lemma_pow_first(g, n, x0);
    let x1: nat = 1nat;
    let e1: nat = 2 * e0;
    lemma_pow_square(g, n, e0, x0, x1);
}

proof fn lemma_1670836401704629_raise_5()
    ensures
        pow_mod(2nat, 0x5ef9dea338eb4nat, 0x5ef9dea338eb5nat) == 1nat,
{
    lemma_1670836401704629_raise_4();
    lemma_1670836401704629_power_7();
    lemma_pow_raise(2nat, 0x5ef9dea338eb5nat, 0x2f7cef519c75anat, 0x5ef9dea338eb4nat, 2nat, 1nat, 0x5ef9dea338eb4nat);
}

/// `1670836401704629` is prime.
pub proof fn lemma_prime_1670836401704629()
    ensures
        is_prime(0x5ef9dea338eb5nat),
{
    let n: nat = 0x5ef9dea338eb5nat;
    let g: nat = 2nat;
    lemma_two_is_prime();
    lemma_1670836401704629_raise_4();
    lemma_prime_3();
    lemma_1670836401704629_raise_3();
    lemma_prime_5156902474397();
    lemma_1670836401704629_raise_1();
    lemma_1670836401704629_raise_5();
    let s0: Seq<nat> = Seq::<nat>::empty();
    lemma_witnessed_none(n, g);
    let s1: Seq<nat> = s0.push(2nat);
    lemma_witnessed_more(n, g, s0, 2nat, 0x2f7cef519c75anat, 0x5ef9dea338eb4nat, 2nat);
    let s2: Seq<nat> = s1.push(2nat);
    lemma_witnessed_more(n, g, s1, 2nat, 0x2f7cef519c75anat, 0x5ef9dea338eb4nat, 4nat);
    let s3: Seq<nat> = s2.push(3nat);
    lemma_witnessed_more(n, g, s2, 3nat, 0x1fa89f8bbda3cnat, 0x4b2b955cb34f8nat, 12nat);
    let s4: Seq<nat> = s3.push(3nat);
    lemma_witnessed_more(n, g, s3, 3nat, 0x1fa89f8bbda3cnat, 0x4b2b955cb34f8nat, 36nat);
    let s5: Seq<nat> = s4.push(3nat);
    lemma_witnessed_more(n, g, s4, 3nat, 0x1fa89f8bbda3cnat, 0x4b2b955cb34f8nat, 108nat);
    let s6: Seq<nat> = s5.push(3nat);
    lemma_witnessed_more(n, g, s5, 3nat, 0x1fa89f8bbda3cnat, 0x4b2b955cb34f8nat, 324nat);
    let s7: Seq<nat> = s6.push(0x4b0af57129dnat);
    lemma_witnessed_more(n, g, s6, 0x4b0af57129dnat, 324nat, 0xa0be5150fc4nat, 0x5ef9dea338eb4nat);
    lemma_witnessed_prime(n, g, s7);
}

// The prime 65865678001877903.
// One less is 2 * 83 * 379 * 1637 * 639533339; the primitive root is 5.

proof fn lemma_65865678001877903_power_1()
    ensures
        pow_mod(5nat, 1nat, 0xea007c3431338fnat) == 5nat,
{
    let n: nat = 0xea007c3431338fnat;
    let g: nat = 5nat;
    let e0: nat = 1nat;
    let x0: nat = 5nat;
    lemma_pow_first(g, n, x0);
}

proof fn lemma_65865678001877903_power_2()
    ensures
        pow_mod(5nat, 102990218nat, 0xea007c3431338fnat) == 0x436360403b9479nat,
{
    let n: nat = 0xea007c3431338fnat;
    let g: nat = 5nat;
    let e0: nat = 1nat;
    let x0: nat = 5nat;
    lemma_pow_first(g, n, x0);
    let x1: nat = 25nat;
    let e1: nat = 2 * e0;
    lemma_pow_square(g, n, e0, x0, x1);
    let x2: nat = 125nat;
    let e2: nat = e1 + 1;
    lemma_pow_times(g, n, e1, x1, x2);
    let x3: nat = 15625nat;
    let e3: nat = 2 * e2;
    lemma_pow_square(g, n, e2, x2, x3);
    let x4: nat = 244140625nat;
    let e4: nat = 2 * e3;
    lemma_pow_square(g, n, e3, x3, x4);
    let x5: nat = 0xd3c21bcecceda1nat;
    let e5: nat = 2 * e4;
    lemma_pow_square(g, n, e4, x4, x5);
    let x6: nat = 0xa7046dfd1487fdnat;
    let e6: nat = 2 * e5;
    lemma_pow_square(g, n, e5, x5, x6);
    let x7: nat = 0x8514b154d30d44nat;
    let e7: nat = e6 + 1;
    lemma_pow_times(g, n, e6, x6, x7);
    let x8: nat = 0xa0557a4306158nat;
    let e8: nat = 2 * e7;
    lemma_pow_square(g, n, e7, x7, x8);
    let x9: nat = 0x834d591eff20f1nat;
    let e9: nat = 2 * e8;
    lemma_pow_square(g, n, e8, x8, x9);
    let x10: nat = 0x451428747bc228nat;
    let e10: nat = 2 * e9;
    lemma_pow_square(g, n, e9, x9, x10);
    let x11: nat = 0xe4e86d0b427a5dnat;
    let e11: nat = 2 * e10;
    lemma_pow_square(g, n, e10, x10, x11);
    let x12: nat = 0xd0883067879595nat;
    let e12: nat = e11 + 1;
    lemma_pow_times(g, n, e11, x11, x12);
    let x13: nat = 0x518680ef6d74aenat;
    let e13: nat = 2 * e12;
    lemma_pow_square(g, n, e12, x12, x13);
    let x14: nat = 0xada00878f213d7nat;
    let e14: nat = e13 + 1;
    lemma_pow_times(g, n, e13, x13, x14);
    let x15: nat = 0xc6478b2c6f240dnat;
    let e15: nat = 2 * e14;
    lemma_pow_square(g, n, e14, x14, x15);
    let x16: nat = 0x3763c70d66e605nat;
    let e16: nat = e15 + 1;
    lemma_pow_times(g, n, e15, x15, x16);
    let x17: nat = 0xe1a5e8b0116a5fnat;
    let e17: nat = 2 * e16;
    lemma_pow_square(g, n, e16, x16, x17);
    let x18: nat = 0x61ad07e59bf38enat;
    let e18: nat = 2 * e17;
    lemma_pow_square(g, n, e17, x17, x18);
    let x19: nat = 0x39288333bbb183nat;
    let e19: nat = 2 * e18;
    lemma_pow_square(g, n, e18, x18, x19);
    let x20: nat = 0xa83b369c40d6anat;
    let e20: nat = 2 * e19;
    lemma_pow_square(g, n, e19, x19, x20);
    let x21: nat = 0x7621942c9c3694nat;
    let e21: nat = 2 * e20;
    lemma_pow_square(g, n, e20, x20, x21);
    let x22: nat = 0x4058d9558581f1nat;
    let e22: nat = 2 * e21;
    lemma_pow_square(g, n, e21, x21, x22);
    let x23: nat = 0xda7b4c6cd31000nat;
    let e23: nat = 2 * e22;
    lemma_pow_square(g, n, e22, x22, x23);
    let x24: nat = 0x9c668d4f5a81c4nat;
    let e24: nat = e23 + 1;
    lemma_pow_times(g, n, e23, x23, x24);
    let x25: nat = 0x7cccb4f9412f64nat;
    let e25: nat = 2 * e24;
    lemma_pow_square(g, n, e24, x24, x25);
    let x26: nat = 0x9bfe9075e385d6nat;
    let e26: nat = e25 + 1;
    lemma_pow_times(g, n, e25, x25, x26);
    let x27: nat = 0xb4932d3ba1cbc8nat;
    let e27: nat = 2 * e26;
    lemma_pow_square(g, n, e26, x26, x27);
    let x28: nat = 0x3d4b4807d48f14nat;
    let e28: nat = 2 * e27;
    lemma_pow_square(g, n, e27, x27, x28);
    let x29: nat = 0x77104e26190265nat;
    let e29: nat = 2 * e28;
    lemma_pow_square(g, n, e28, x28, x29);
    let x30: nat = 0x956ec1ab19538anat;
    let e30: nat = 2 * e29;
    lemma_pow_square(g, n, e29, x29, x30);
    let x31: nat = 0x2d2853baeb0705nat;
    let e31: nat = e30 + 1;
    lemma_pow_times(g, n, e30, x30, x31);
    let x32: nat = 0x7ffc655605909enat;
    let e32: nat = 2 * e31;
    lemma_pow_square(g, n, e31, x31, x32);
    let x33: nat = 0xc8d2b3510e2528nat;
    let e33: nat = 2 * e32;
    lemma_pow_square(g, n, e32, x32, x33);
    let x34: nat = 0x441b8fc481eb8cnat;
    let e34: nat = e33 + 1;
    lemma_pow_times(g, n, e33, x33, x34);
    let x35: nat = 0x436360403b9479nat;
    let e35: nat = 2 * e34;
    lemma_pow_square(g, n, e34, x34, x35);
}

proof fn lemma_65865678001877903_raise_1()
    ensures
        pow_mod(5nat, 102990218nat, 0xea007c3431338fnat) == 0x436360403b9479nat,
{
    lemma_65865678001877903_power_1();
    lemma_65865678001877903_power_2();
    lemma_pow_raise(5nat, 0xea007c3431338fnat, 1nat, 5nat, 102990218nat, 0x436360403b9479nat, 102990218nat);
}

proof fn lemma_65865678001877903_power_3()
    ensures
        pow_mod(5nat, 639533339nat, 0xea007c3431338fnat) == 0x32c5e479c994b7nat,
{
    let n: nat = 0xea007c3431338fnat;
    let g: nat = 5nat;
    let e0: nat = 1nat;
    let x0: nat = 5nat;
    lemma_pow_first(g, n, x0);
    let x1: nat = 25nat;
    let e1: nat = 2 * e0;
    lemma_pow_square(g, n, e0, x0, x1);
    let x2: nat = 625nat;
    let e2: nat = 2 * e1;
    lemma_pow_square(g, n, e1, x1, x2);
    let x3: nat = 390625nat;
    let e3: nat = 2 * e2;
    lemma_pow_square(g, n, e2, x2, x3);
    let x4: nat = 1953125nat;
    let e4: nat = e3 + 1;
    lemma_pow_times(g, n, e3, x3, x4);
    let x5: nat = 0x3782dace9d9nat;
    let e5: nat = 2 * e4;
    lemma_pow_square(g, n, e4, x4, x5);
    let x6: nat = 0x1158e460913dnat;
    let e6: nat = e5 + 1;
    lemma_pow_times(g, n, e5, x5, x6);
    let x7: nat = 0x6ad79df9f9638bnat;
    let e7: nat = 2 * e6;
    lemma_pow_square(g, n, e6, x6, x7);
    let x8: nat = 0x62292f66360223nat;
    let e8: nat = 2 * e7;
    lemma_pow_square(g, n, e7, x7, x8);
    let x9: nat = 0xabae78e0d289f2nat;
    let e9: nat = 2 * e8;
    lemma_pow_square(g, n, e8, x8, x9);
    let x10: nat = 0x2f1729c97d3ebbnat;
    let e10: nat = 2 * e9;
    lemma_pow_square(g, n, e9, x9, x10);
    let x11: nat = 0x15b164539a5157nat;
    let e11: nat = 2 * e10;
    lemma_pow_square(g, n, e10, x10, x11);
    let x12: nat = 0x6c76f5a20396b3nat;
    let e12: nat = e11 + 1;
    lemma_pow_times(g, n, e11, x11, x12);
    let x13: nat = 0x8707838644faf0nat;
    let e13: nat = 2 * e12;
    lemma_pow_square(g, n, e12, x12, x13);
    let x14: nat = 0xcf249936f67f92nat;
    let e14: nat = e13 + 1;
    lemma_pow_times(g, n, e13, x13, x14);
    let x15: nat = 0xb45b6c6b32b520nat;
    let e15: nat = 2 * e14;
    lemma_pow_square(g, n, e14, x14, x15);
    let x16: nat = 0xc7c7a97b69eef3nat;
    let e16: nat = e15 + 1;
    lemma_pow_times(g, n, e15, x15, x16);
    let x17: nat = 0xbd08c19a647595nat;
    let e17: nat = 2 * e16;
    lemma_pow_square(g, n, e16, x16, x17);
    let x18: nat = 0x929d733317dadnat;
    let e18: nat = e17 + 1;
    lemma_pow_times(g, n, e17, x17, x18);
    let x19: nat = 0xe518d24ca7cca2nat;
    let e19: nat = 2 * e18;
    lemma_pow_square(g, n, e18, x18, x19);
    let x20: nat = 0x2c2bb0a336a9aanat;
    let e20: nat = 2 * e19;
    lemma_pow_square(g, n, e19, x19, x20);
    let x21: nat = 0xdcda7330115052nat;
    let e21: nat = e20 + 1;
    lemma_pow_times(g, n, e20, x20, x21);
    let x22: nat = 0x5318823d6bb041nat;
    let e22: nat = 2 * e21;
    lemma_pow_square(g, n, e21, x21, x22);
    let x23: nat = 0x53c01ee16cdde2nat;
    let e23: nat = 2 * e22;
    lemma_pow_square(g, n, e22, x22, x23);
    let x24: nat = 0x2d95c2607be65cnat;
    let e24: nat = 2 * e23;
    lemma_pow_square(g, n, e23, x23, x24);
    let x25: nat = 0xd25e75562308cenat;
    let e25: nat = 2 * e24;
    lemma_pow_square(g, n, e24, x24, x25);
    let x26: nat = 0x4f714f86f540d8nat;
    let e26: nat = 2 * e25;
    lemma_pow_square(g, n, e25, x25, x26);
    let x27: nat = 0x443c3b59714dc7nat;
    let e27: nat = 2 * e26;
    lemma_pow_square(g, n, e26, x26, x27);
    let x28: nat = 0xd87f5a2bd435dfnat;
    let e28: nat = 2 * e27;
    lemma_pow_square(g, n, e27, x27, x28);
    let x29: nat = 0x927ad20a603f1fnat;
    let e29: nat = e28 + 1;
    lemma_pow_times(g, n, e28, x28, x29);
    let x30: nat = 0xe867e95c88b656nat;
    let e30: nat = 2 * e29;
    lemma_pow_square(g, n, e29, x29, x30);
    let x31: nat = 0xb5492f18a52dc5nat;
    let e31: nat = 2 * e30;
    lemma_pow_square(g, n, e30, x30, x31);
    let x32: nat = 0xab7b4f69ef5256nat;
    let e32: nat = 2 * e31;
    lemma_pow_square(g, n, e31, x31, x32);
    let x33: nat = 0x88d2c8828909bdnat;
    let e33: nat = 2 * e32;
    lemma_pow_square(g, n, e32, x32, x33);
    let x34: nat = 0xd81cf2244ac993nat;
    let e34: nat = e33 + 1;
    lemma_pow_times(g, n, e33, x33, x34);
    let x35: nat = 0x3e8bdf2eff891enat;
    let e35: nat = 2 * e34;
    lemma_pow_square(g, n, e34, x34, x35);
    let x36: nat = 0x4ebadfb6cc7a07nat;
    let e36: nat = e35 + 1;
    lemma_pow_times(g, n, e35, x35, x36);
    let x37: nat = 0xc14bd2f55734c5nat;
    let e37: nat = 2 * e36;
    lemma_pow_square(g, n, e36, x36, x37);
    let x38: nat = 0x9cafaa7d8a5d49nat;
    let e38: nat = 2 * e37;
    lemma_pow_square(g, n, e37, x37, x38);
    let x39: nat = 0x516cdfd72037c0nat;
    let e39: nat = e38 + 1;
    lemma_pow_times(g, n, e38, x38, x39);
    let x40: nat = 0xc55b2aa882e097nat;
    let e40: nat = 2 * e39;
    lemma_pow_square(g, n, e39, x39, x40);
    let x41: nat = 0x32c5e479c994b7nat;
    let e41: nat = e40 + 1;
    lemma_pow_times(g, n, e40, x40, x41);
}

proof fn lemma_65865678001877903_raise_2()
    ensures
        pow_mod(5nat, 639533339nat, 0xea007c3431338fnat) == 0x32c5e479c994b7nat,
{
    lemma_65865678001877903_power_1();
    lemma_65865678001877903_power_3();
    lemma_pow_raise(5nat, 0xea007c3431338fnat, 1nat, 5nat, 639533339nat, 0x32c5e479c994b7nat, 639533339nat);
}

proof fn lemma_65865678001877903_power_4()
    ensures
        pow_mod(0x32c5e479c994b7nat, 31457nat, 0xea007c3431338fnat) == 0xac7e1dbc585920nat,
{
    let n: nat = 0xea007c3431338fnat;
    let g: nat = 0x32c5e479c994b7nat;
    let e0: nat = 1nat;
    let x0: nat = 0x32c5e479c994b7nat;
    lemma_pow_first(g, n, x0);
    let x1: nat = 0xc23d2e710285f4nat;
    let e1: nat = 2 * e0;
    lemma_pow_square(g, n, e0, x0, x1);
    let x2: nat = 0xb1864809c59849nat;
    let e2: nat = e1 + 1;
    lemma_pow_times(g, n, e1, x1, x2);
    let x3: nat = 0x5a2579401ea012nat;
    let e3: nat = 2 * e2;
    lemma_pow_square(g, n, e2, x2, x3);
    let x4: nat = 0xfb921f0849edcnat;
    let e4: nat = e3 + 1;
    lemma_pow_times(g, n, e3, x3, x4);
    let x5: nat = 0x301d6390807613nat;
    let e5: nat = 2 * e4;
    lemma_pow_square(g, n, e4, x4, x5);
    let x6: nat = 0x88fcf46b46f368nat;
    let e6: nat = e5 + 1;
    lemma_pow_times(g, n, e5, x5, x6);
    let x7: nat = 0xaaf95ed2d78e4cnat;
    let e7: nat = 2 * e6;
    lemma_pow_square(g, n, e6, x6, x7);
    let x8: nat = 0xc21c3db179e14bnat;
    let e8: nat = 2 * e7;
    lemma_pow_square(g, n, e7, x7, x8);
    let x9: nat = 0xf3cc8e3e9f168nat;
    let e9: nat = e8 + 1;
    lemma_pow_times(g, n, e8, x8, x9);
    let x10: nat = 0x18b910b414f57anat;
    let e10: nat = 2 * e9;
    lemma_pow_square(g, n, e9, x9, x10);
    let x11: nat = 0xc874f0051803d7nat;
    let e11: nat = 2 * e10;
    lemma_pow_square(g, n, e10, x10, x11);
    let x12: nat = 0xde88826d4ac16bnat;
    let e12: nat = e11 + 1;
    lemma_pow_times(g, n, e11, x11, x12);
    let x13: nat = 0xd8d60aeae5045nat;
    let e13: nat = 2 * e12;
    lemma_pow_square(g, n, e12, x12, x13);
    let x14: nat = 0xcef4da16177bfcnat;
    let e14: nat = e13 + 1;
    lemma_pow_times(g, n, e13, x13, x14);
    let x15: nat = 0x5cac7509d0a591nat;
    let e15: nat = 2 * e14;
    lemma_pow_square(g, n, e14, x14, x15);
    let x16: nat = 0x3c81bbb1c8a3danat;
    let e16: nat = e15 + 1;
    lemma_pow_times(g, n, e15, x15, x16);
    let x17: nat = 0x75480aa8ce5d08nat;
    let e17: nat = 2 * e16;
    lemma_pow_square(g, n, e16, x16, x17);
    let x18: nat = 0x8077e0cbbf1b62nat;
    let e18: nat = 2 * e17;
    lemma_pow_square(g, n, e17, x17, x18);
    let x19: nat = 0xcbb1f7ad785b34nat;
    let e19: nat = 2 * e18;
    lemma_pow_square(g, n, e18, x18, x19);
    let x20: nat = 0x81c14ea725d43enat;
    let e20: nat = 2 * e19;
    lemma_pow_square(g, n, e19, x19, x20);
    let x21: nat = 0x250a7100d1cdd6nat;
    let e21: nat = 2 * e20;
    lemma_pow_square(g, n, e20, x20, x21);
    let x22: nat = 0xac7e1dbc585920nat;
    let e22: nat = e21 + 1;
    lemma_pow_times(g, n, e21, x21, x22);
}

proof fn lemma_65865678001877903_raise_3()
    ensures
        pow_mod(5nat, 0x124c0a5656bbnat, 0xea007c3431338fnat) == 0xac7e1dbc585920nat,
{
    lemma_65865678001877903_raise_2();
    lemma_65865678001877903_power_4();
    lemma_pow_raise(5nat, 0xea007c3431338fnat, 639533339nat, 0x32c5e479c994b7nat, 31457nat, 0xac7e1dbc585920nat, 0x124c0a5656bbnat);
}

proof fn lemma_65865678001877903_power_5()
    ensures
        pow_mod(0xac7e1dbc585920nat, 2nat, 0xea007c3431338fnat) == 0xc93ac31951da72nat,
{
    let n: nat = 0xea007c3431338fnat;
    let g: nat = 0xac7e1dbc585920nat;
    let e0: nat = 1nat;
    let x0: nat = 0xac7e1dbc585920nat;
    lemma_pow_first(g, n, x0);
    let x1: nat = 0xc93ac31951da72nat;
    let e1: nat = 2 * e0;
    lemma_pow_square(g, n, e0, x0, x1);
}

proof fn lemma_65865678001877903_raise_4()
    ensures
        pow_mod(5nat, 0x249814acad76nat, 0xea007c3431338fnat) == 0xc93ac31951da72nat,
{
    lemma_65865678001877903_raise_3();
    lemma_65865678001877903_power_5();
    lemma_pow_raise(5nat, 0xea007c3431338fnat, 0x124c0a5656bbnat, 0xac7e1dbc585920nat, 2nat, 0xc93ac31951da72nat, 0x249814acad76nat);
}

proof fn lemma_65865678001877903_power_6()
    ensures
        pow_mod(0xac7e1dbc585920nat, 1637nat, 0xea007c3431338fnat) == 0xea007c3431338enat,
{
    let n: nat = 0xea007c3431338fnat;
    let g: nat = 0xac7e1dbc585920nat;
    let e0: nat = 1nat;
    let x0: nat = 0xac7e1dbc585920nat;
    lemma_pow_first(g, n, x0);
    let x1: nat = 0xc93ac31951da72nat;
    let e1: nat = 2 * e0;
    lemma_pow_square(g, n, e0, x0, x1);
    let x2: nat = 0x217dbd9bc433e0nat;
    let e2: nat = e1 + 1;
    lemma_pow_times(g, n, e1, x1, x2);
    let x3: nat = 0x247f971f719a61nat;
    let e3: nat = 2 * e2;
    lemma_pow_square(g, n, e2, x2, x3);
    let x4: nat = 0x9cac2ec24b57bbnat;
    let e4: nat = 2 * e3;
    lemma_pow_square(g, n, e3, x3, x4);
    let x5: nat = 0xc697fc5779d54bnat;
    let e5: nat = 2 * e4;
    lemma_pow_square(g, n, e4, x4, x5);
    let x6: nat = 0x9d79344b86d34anat;
    let e6: nat = e5 + 1;
    lemma_pow_times(g, n, e5, x5, x6);
    let x7: nat = 0x23bb0aa336af7nat;
    let e7: nat = 2 * e6;
    lemma_pow_square(g, n, e6, x6, x7);
    let x8: nat = 0x1f56a18f8022a9nat;
    let e8: nat = e7 + 1;
    lemma_pow_times(g, n, e7, x7, x8);
    let x9: nat = 0xce34d9815aef2bnat;
    let e9: nat = 2 * e8;
    lemma_pow_square(g, n, e8, x8, x9);
    let x10: nat = 0x702cc25d8de64anat;
    let e10: nat = 2 * e9;
    lemma_pow_square(g, n, e9, x9, x10);
    let x11: nat = 0x91b4b3701f42f5nat;
    let e11: nat = 2 * e10;
    lemma_pow_square(g, n, e10, x10, x11);
    let x12: nat = 0x9a1a83da546afdnat;
    let e12: nat = e11 + 1;
    lemma_pow_times(g, n, e11, x11, x12);
    let x13: nat = 0xabf2f4cbb9771enat;
    let e13: nat = 2 * e12;
    lemma_pow_square(g, n, e12, x12, x13);
    let x14: nat = 0x754d0ce2fc13bnat;
    let e14: nat = 2 * e13;
    lemma_pow_square(g, n, e13, x13, x14);
    let x15: nat = 0xea007c3431338enat;
    let e15: nat = e14 + 1;
    lemma_pow_times(g, n, e14, x14, x15);
}

proof fn lemma_65865678001877903_raise_5()
    ensures
        pow_mod(5nat, 0x75003e1a1899c7nat, 0xea007c3431338fnat) == 0xea007c3431338enat,
{
    lemma_65865678001877903_raise_3();
    lemma_65865678001877903_power_6();
    lemma_pow_raise(5nat, 0xea007c3431338fnat, 0x124c0a5656bbnat, 0xac7e1dbc585920nat, 1637nat, 0xea007c3431338enat, 0x75003e1a1899c7nat);
}

proof fn lemma_65865678001877903_power_7()
    ensures
        pow_mod(0x32c5e479c994b7nat, 3274nat, 0xea007c3431338fnat) == 0xc52b71af32e8d8nat,
{
    let n: nat = 0xea007c3431338fnat;
    let g: nat = 0x32c5e479c994b7nat;
    let e0: nat = 1nat;
    let x0: nat = 0x32c5e479c994b7nat;
    lemma_pow_first(g, n, x0);
    let x1: nat = 0xc23d2e710285f4nat;
    let e1: nat = 2 * e0;
    lemma_pow_square(g, n, e0, x0, x1);
    let x2: nat = 0xb1864809c59849nat;
    let e2: nat = e1 + 1;
    lemma_pow_times(g, n, e1, x1, x2);
    let x3: nat = 0x5a2579401ea012nat;
    let e3: nat = 2 * e2;
    lemma_pow_square(g, n, e2, x2, x3);
    let x4: nat = 0x75e4b7ba30c7e5nat;
    let e4: nat = 2 * e3;
    lemma_pow_square(g, n, e3, x3, x4);
    let x5: nat = 0x94281413a86ccenat;
    let e5: nat = 2 * e4;
    lemma_pow_square(g, n, e4, x4, x5);
    let x6: nat = 0xa96e400079736anat;
    let e6: nat = e5 + 1;
    lemma_pow_times(g, n, e5, x5, x6);
    let x7: nat = 0x784473fccdc48cnat;
    let e7: nat = 2 * e6;
    lemma_pow_square(g, n, e6, x6, x7);
    let x8: nat = 0x199b1d921805d5nat;
    let e8: nat = e7 + 1;
    lemma_pow_times(g, n, e7, x7, x8);
    let x9: nat = 0x973aaaeccbf342nat;
    let e9: nat = 2 * e8;
    lemma_pow_square(g, n, e8, x8, x9);
    let x10: nat = 0x311f1867c3427bnat;
    let e10: nat = 2 * e9;
    lemma_pow_square(g, n, e9, x9, x10);
    let x11: nat = 0x586edacd8120c6nat;
    let e11: nat = 2 * e10;
    lemma_pow_square(g, n, e10, x10, x11);
    let x12: nat = 0x64a7bd318d2de6nat;
    let e12: nat = e11 + 1;
    lemma_pow_times(g, n, e11, x11, x12);
    let x13: nat = 0x6fed558da3a8a1nat;
    let e13: nat = 2 * e12;
    lemma_pow_square(g, n, e12, x12, x13);
    let x14: nat = 0x65d8395b34c098nat;
    let e14: nat = 2 * e13;
    lemma_pow_square(g, n, e13, x13, x14);
    let x15: nat = 0x10000d3250b9e9nat;
    let e15: nat = e14 + 1;
    lemma_pow_times(g, n, e14, x14, x15);
    let x16: nat = 0xc52b71af32e8d8nat;
    let e16: nat = 2 * e15;
    lemma_pow_square(g, n, e15, x15, x16);
}

proof fn lemma_65865678001877903_raise_6()
    ensures
        pow_mod(5nat, 0x1e7821f234enat, 0xea007c3431338fnat) == 0xc52b71af32e8d8nat,
{
    lemma_65865678001877903_raise_2();
    lemma_65865678001877903_power_7();
    lemma_pow_raise(5nat, 0xea007c3431338fnat, 639533339nat, 0x32c5e479c994b7nat, 3274nat, 0xc52b71af32e8d8nat, 0x1e7821f234enat);
}

proof fn lemma_65865678001877903_power_8()
    ensures
        pow_mod(0xc52b71af32e8d8nat, 83nat, 0xea007c3431338fnat) == 0x9b8d42108840a3nat,
{
    let n: nat = 0xea007c3431338fnat;
    let g: nat = 0xc52b71af32e8d8nat;
    let e0: nat = 1nat;
    let x0: nat = 0xc52b71af32e8d8nat;
    lemma_pow_first(g, n, x0);
    let x1: nat = 0x5d62fb3165b3eanat;
    let e1: nat = 2 * e0;
    lemma_pow_square(g, n, e0, x0, x1);
    let x2: nat = 0xcbcd77dc7b18efnat;
    let e2: nat = 2 * e1;
    lemma_pow_square(g, n, e1, x1, x2);
    let x3: nat = 0x6f654be069be1dnat;
    let e3: nat = e2 + 1;
    lemma_pow_times(g, n, e2, x2, x3);
    let x4: nat = 0xd8c075eff550a4nat;
    let e4: nat = 2 * e3;
    lemma_pow_square(g, n, e3, x3, x4);
    let x5: nat = 0x917e2538f26d59nat;
    let e5: nat = 2 * e4;
    lemma_pow_square(g, n, e4, x4, x5);
    let x6: nat = 0x71603ad97ab007nat;
    let e6: nat = 2 * e5;
    lemma_pow_square(g, n, e5, x5, x6);
    let x7: nat = 0x29ef5d12bb158cnat;
    let e7: nat = e6 + 1;
    lemma_pow_times(g, n, e6, x6, x7);
    let x8: nat = 0x19dc37e68bcb47nat;
    let e8: nat = 2 * e7;
    lemma_pow_square(g, n, e7, x7, x8);
    let x9: nat = 0x9b8d42108840a3nat;
    let e9: nat = e8 + 1;
    lemma_pow_times(g, n, e8, x8, x9);
}

proof fn lemma_65865678001877903_raise_7()
    ensures
        pow_mod(5nat, 0x9e0f3018724anat, 0xea007c3431338fnat) == 0x9b8d42108840a3nat,
{
    lemma_65865678001877903_raise_6();
    lemma_65865678001877903_power_8();
    lemma_pow_raise(5nat, 0xea007c3431338fnat, 0x1e7821f234enat, 0xc52b71af32e8d8nat, 83nat, 0x9b8d42108840a3nat, 0x9e0f3018724anat);
}

proof fn lemma_65865678001877903_power_9()
    ensures
        pow_mod(0xc52b71af32e8d8nat, 379nat, 0xea007c3431338fnat) == 0xa48c28b64ee23enat,
{
    let n: nat = 0xea007c3431338fnat;
    let g: nat = 0xc52b71af32e8d8nat;
    let e0: nat = 1nat;
    let x0: nat = 0xc52b71af32e8d8nat;
    lemma_pow_first(g, n, x0);
    let x1: nat = 0x5d62fb3165b3eanat;
    let e1: nat = 2 * e0;
    lemma_pow_square(g, n, e0, x0, x1);
    let x2: nat = 0xcbcd77dc7b18efnat;
    let e2: nat = 2 * e1;
    lemma_pow_square(g, n, e1, x1, x2);
    let x3: nat = 0x6f654be069be1dnat;
    let e3: nat = e2 + 1;
    lemma_pow_times(g, n, e2, x2, x3);
    let x4: nat = 0xd8c075eff550a4nat;
    let e4: nat = 2 * e3;
    lemma_pow_square(g, n, e3, x3, x4);
    let x5: nat = 0x2951dc5e78d323nat;
    let e5: nat = e4 + 1;
    lemma_pow_times(g, n, e4, x4, x5);
    let x6: nat = 0x2c38fc921be0a4nat;
    let e6: nat = 2 * e5;
    lemma_pow_square(g, n, e5, x5, x6);
    let x7: nat = 0x345509f1848c83nat;
    let e7: nat = e6 + 1;
    lemma_pow_times(g, n, e6, x6, x7);
    let x8: nat = 0xd2757d81b00454nat;
    let e8: nat = 2 * e7;
    lemma_pow_square(g, n, e7, x7, x8);
    let x9: nat = 0x86191a0865b1a2nat;
    let e9: nat = e8 + 1;
    lemma_pow_times(g, n, e8, x8, x9);
    let x10: nat = 0x6cf875f87aa311nat;
    let e10: nat = 2 * e9;
    lemma_pow_square(g, n, e9, x9, x10);
    let x11: nat = 0x157b3951bb0b5nat;
    let e11: nat = 2 * e10;
    lemma_pow_square(g, n, e10, x10, x11);
    let x12: nat = 0x91660db8b0104nat;
    let e12: nat = e11 + 1;
    lemma_pow_times(g, n, e11, x11, x12);
    let x13: nat = 0x69ec430a0aa0e1nat;
    let e13: nat = 2 * e12;
    lemma_pow_square(g, n, e12, x12, x13);
    let x14: nat = 0xa48c28b64ee23enat;
    let e14: nat = e13 + 1;
    lemma_pow_times(g, n, e13, x13, x14);
}

proof fn lemma_65865678001877903_raise_8()
    ensures
        pow_mod(5nat, 0x2d1bda419447anat, 0xea007c3431338fnat) == 0xa48c28b64ee23enat,
{
    lemma_65865678001877903_raise_6();
    lemma_65865678001877903_power_9();
    lemma_pow_raise(5nat, 0xea007c3431338fnat, 0x1e7821f234enat, 0xc52b71af32e8d8nat, 379nat, 0xa48c28b64ee23enat, 0x2d1bda419447anat);
}

proof fn lemma_65865678001877903_power_10()
    ensures
        pow_mod(0xea007c3431338enat, 2nat, 0xea007c3431338fnat) == 1nat,
{
    let n: nat = 0xea007c3431338fnat;
    let g: nat = 0xea007c3431338enat;
    let e0: nat = 1nat;
    let x0: nat = 0xea007c3431338enat;
    lemma_pow_first(g, n, x0);
    let x1: nat = 1nat;
    let e1: nat = 2 * e0;
    lemma_pow_square(g, n, e0, x0, x1);
}

proof fn lemma_65865678001877903_raise_9()
    ensures
        pow_mod(5nat, 0xea007c3431338enat, 0xea007c3431338fnat) == 1nat,
{
    lemma_65865678001877903_raise_5();
    lemma_65865678001877903_power_10();
    lemma_pow_raise(5nat, 0xea007c3431338fnat, 0x75003e1a1899c7nat, 0xea007c3431338enat, 2nat, 1nat, 0xea007c3431338enat);
}

/// `65865678001877903` is prime.
pub proof fn lemma_prime_65865678001877903()
    ensures
        is_prime(0xea007c3431338fnat),
{
    let n: nat = 0xea007c3431338fnat;
    let g: nat = 5nat;
    lemma_two_is_prime();
    lemma_65865678001877903_raise_5();
    lemma_prime_83();
    lemma_65865678001877903_raise_8();
    lemma_prime_379();
    lemma_65865678001877903_raise_7();
    lemma_prime_1637();
    lemma_65865678001877903_raise_4();
    lemma_prime_639533339();
    lemma_65865678001877903_raise_1();
    lemma_65865678001877903_raise_9();
    let s0: Seq<nat> = Seq::<nat>::empty();
    lemma_witnessed_none(n, g);
    let s1: Seq<nat> = s0.push(2nat);
    lemma_witnessed_more(n, g, s0, 2nat, 0x75003e1a1899c7nat, 0xea007c3431338enat, 2nat);
    let s2: Seq<nat> = s1.push(83nat);
    lemma_witnessed_more(n, g, s1, 83nat, 0x2d1bda419447anat, 0xa48c28b64ee23enat, 166nat);
    let s3: Seq<nat> = s2.push(379nat);
    lemma_witnessed_more(n, g, s2, 379nat, 0x9e0f3018724anat, 0x9b8d42108840a3nat, 62914nat);
    let s4: Seq<nat> = s3.push(1637nat);
    lemma_witnessed_more(n, g, s3, 1637nat, 0x249814acad76nat, 0xc93ac31951da72nat, 102990218nat);
    let s5: Seq<nat> = s4.push(639533339nat);
    lemma_witnessed_more(n, g, s4, 639533339nat, 102990218nat, 0x436360403b9479nat, 0xea007c3431338enat);
    lemma_witnessed_prime(n, g, s5);
}

// The largest prime factor of the modulus less one.
// One less is 2^5 * 5 * 823 * 1593227 * 65865678001877903; the primitive
// root is 3.

proof fn lemma_cofactor_power_1()
    ensures
        pow_mod(3nat, 16nat, 0x2ca6487cfcd795e8729527e1nat) == 43046721nat,
{
    let n: nat = 0x2ca6487cfcd795e8729527e1nat;
    let g: nat = 3nat;
    let e0: nat = 1nat;
    let x0: nat = 3nat;
    lemma_pow_first(g, n, x0);
    let x1: nat = 9nat;
    let e1: nat = 2 * e0;
    lemma_pow_square(g, n, e0, x0, x1);
    let x2: nat = 81nat;
    let e2: nat = 2 * e1;
    lemma_pow_square(g, n, e1, x1, x2);
    let x3: nat = 6561nat;
    let e3: nat = 2 * e2;
    lemma_pow_square(g, n, e2, x2, x3);
    let x4: nat = 43046721nat;
    let e4: nat = 2 * e3;
    lemma_pow_square(g, n, e3, x3, x4);
}

proof fn lemma_cofactor_power_2()
    ensures
        pow_mod(43046721nat, 0x30d8d2ea2nat, 0x2ca6487cfcd795e8729527e1nat) == 0x25c2101b4d300dbbd9955009nat,
{
    let n: nat = 0x2ca6487cfcd795e8729527e1nat;
    let g: nat = 43046721nat;
    let e0: nat = 1nat;
    let x0: nat = 43046721nat;
    lemma_pow_first(g, n, x0);
    let x1: nat = 0x6954fe21e3e81nat;
    let e1: nat = 2 * e0;
    lemma_pow_square(g, n, e0, x0, x1);
    let x2: nat = 0x10e425c56daffabc35c1nat;
    let e2: nat = e1 + 1;
    lemma_pow_times(g, n, e1, x1, x2);
    let x3: nat = 0x279fe56cdd23ca462f52b141nat;
    let e3: nat = 2 * e2;
    lemma_pow_square(g, n, e2, x2, x3);
    let x4: nat = 0x2416eddb69c7a9c6dcddff1cnat;
    let e4: nat = 2 * e3;
    lemma_pow_square(g, n, e3, x3, x4);
    let x5: nat = 0x16d68e940f5dce0bfa847fc6nat;
    let e5: nat = 2 * e4;
    lemma_pow_square(g, n, e4, x4, x5);
    let x6: nat = 0x13f28e5ad6e5590718e586fenat;
    let e6: nat = 2 * e5;
    lemma_pow_square(g, n, e5, x5, x6);
    let x7: nat = 0x1e0c0d0ef44d78aa6c572d38nat;
    let e7: nat = 2 * e6;
    lemma_pow_square(g, n, e6, x6, x7);
    let x8: nat = 0x28d96c586bdf1b703f333d38nat;
    let e8: nat = e7 + 1;
    lemma_pow_times(g, n, e7, x7, x8);
    let x9: nat = 0x1d1f079d80a8118a489a3c79nat;
    let e9: nat = 2 * e8;
    lemma_pow_square(g, n, e8, x8, x9);
    let x10: nat = 0x6842495f3ec30fc1a93702cnat;
    let e10: nat = e9 + 1;
    lemma_pow_times(g, n, e9, x9, x10);
    let x11: nat = 0x20e46d97b90a28c462b3ae02nat;
    let e11: nat = 2 * e10;
    lemma_pow_square(g, n, e10, x10, x11);
    let x12: nat = 0x16c2e27897800474c0d169eanat;
    let e12: nat = 2 * e11;
    lemma_pow_square(g, n, e11, x11, x12);
    let x13: nat = 0x1adb523a46ac8aafe3094a4fnat;
    let e13: nat = e12 + 1;
    lemma_pow_times(g, n, e12, x12, x13);
    let x14: nat = 0x11e5ed929447b24132389badnat;
    let e14: nat = 2 * e13;
    lemma_pow_square(g, n, e13, x13, x14);
    let x15: nat = 0x2441196e810e6c5c2da96anat;
    let e15: nat = e14 + 1;
    lemma_pow_times(g, n, e14, x14, x15);
    let x16: nat = 0x13c125cdd191260e4f8f3152nat;
    let e16: nat = 2 * e15;
    lemma_pow_square(g, n, e15, x15, x16);
    let x17: nat = 0x1c1c4600ed88bc3ac194a6cfnat;
    let e17: nat = 2 * e16;
    lemma_pow_square(g, n, e16, x16, x17);
    let x18: nat = 0x125185ef6124647d4d017456nat;
    let e18: nat = 2 * e17;
    lemma_pow_square(g, n, e17, x17, x18);
    let x19: nat = 0x24fad68caff64e765edd5c97nat;
    let e19: nat = 2 * e18;
    lemma_pow_square(g, n, e18, x18, x19);
    let x20: nat = 0x1e6275ed5affd37895e2b6c4nat;
    let e20: nat = e19 + 1;
    lemma_pow_times(g, n, e19, x19, x20);
    let x21: nat = 0x9f80c43860c9d370308ea96nat;
    let e21: nat = 2 * e20;
    lemma_pow_square(g, n, e20, x20, x21);
    let x22: nat = 0x20852f6c2a1bd9883f72a2f5nat;
    let e22: nat = e21 + 1;
    lemma_pow_times(g, n, e21, x21, x22);
    let x23: nat = 0x29c4ff0dbf94d9cba63e3115nat;
    let e23: nat = 2 * e22;
    lemma_pow_square(g, n, e22, x22, x23);
    let x24: nat = 0x2c184e8a86227a341363c198nat;
    let e24: nat = 2 * e23;
    lemma_pow_square(g, n, e23, x23, x24);
    let x25: nat = 0x1c3b2b862c218e9af464a536nat;
    let e25: nat = e24 + 1;
    lemma_pow_times(g, n, e24, x24, x25);
    let x26: nat = 0x6c36bdb8964a25b4a949f97nat;
    let e26: nat = 2 * e25;
    lemma_pow_square(g, n, e25, x25, x26);
    let x27: nat = 0xd836dcd9f5b58a1e23a6e7nat;
    let e27: nat = 2 * e26;
    lemma_pow_square(g, n, e26, x26, x27);
    let x28: nat = 0x158d425ae7aeddf426e26327nat;
    let e28: nat = 2 * e27;
    lemma_pow_square(g, n, e27, x27, x28);
    let x29: nat = 0x1f8997aa82a1c5215c24a395nat;
    let e29: nat = e28 + 1;
    lemma_pow_times(g, n, e28, x28, x29);
    let x30: nat = 0xee7192d6d9215bdb86b393anat;
    let e30: nat = 2 * e29;
    lemma_pow_square(g, n, e29, x29, x30);
    let x31: nat = 0xc9d105c11bfcc1dd47d5048nat;
    let e31: nat = 2 * e30;
    lemma_pow_square(g, n, e30, x30, x31);
    let x32: nat = 0xb1d9e4f6f29d10ae4d7c6ecnat;
    let e32: nat = e31 + 1;
    lemma_pow_times(g, n, e31, x31, x32);
    let x33: nat = 0x494ab509ee7a60774213857nat;
    let e33: nat = 2 * e32;
    lemma_pow_square(g, n, e32, x32, x33);
    let x34: nat = 0x10e46ed7487e5a3ff1be816bnat;
    let e34: nat = e33 + 1;
    lemma_pow_times(g, n, e33, x33, x34);
    let x35: nat = 0xeb9fd04cdb8eaf11fd4cebcnat;
    let e35: nat = 2 * e34;
    lemma_pow_square(g, n, e34, x34, x35);
    let x36: nat = 0x2048053749b810c5eb41ba92nat;
    let e36: nat = e35 + 1;
    lemma_pow_times(g, n, e35, x35, x36);
    let x37: nat = 0x14dd6057ee7ba1dd25b5b4c7nat;
    let e37: nat = 2 * e36;
    lemma_pow_square(g, n, e36, x36, x37);
    let x38: nat = 0x45f068f599f032880246ed1nat;
    let e38: nat = 2 * e37;
    lemma_pow_square(g, n, e37, x37, x38);
    let x39: nat = 0x116400c24acfc885729154acnat;
    let e39: nat = e38 + 1;
    lemma_pow_times(g, n, e38, x38, x39);
    let x40: nat = 0x199af8790ee96e49f75f21d0nat;
    let e40: nat = 2 * e39;
    lemma_pow_square(g, n, e39, x39, x40);
    let x41: nat = 0x25bf539869cad2e459e92a3fnat;
    let e41: nat = 2 * e40;
    lemma_pow_square(g, n, e40, x40, x41);
    let x42: nat = 0x2a149cd856c906d4be562d60nat;
    let e42: nat = e41 + 1;
    lemma_pow_times(g, n, e41, x41, x42);
    let x43: nat = 0x245c3461c614835c40bf5440nat;
    let e43: nat = 2 * e42;
    lemma_pow_square(g, n, e42, x42, x43);
    let x44: nat = 0x1898ad40535f7eb62aed5764nat;
    let e44: nat = 2 * e43;
    lemma_pow_square(g, n, e43, x43, x44);
    let x45: nat = 0x10e15465499fdcf3686d3ac1nat;
    let e45: nat = 2 * e44;
    lemma_pow_square(g, n, e44, x44, x45);
    let x46: nat = 0x2b3d27feb531edac4376301cnat;
    let e46: nat = 2 * e45;
    lemma_pow_square(g, n, e45, x45, x46);
    let x47: nat = 0xe2484953dc1d86835e05ae8nat;
    let e47: nat = e46 + 1;
    lemma_pow_times(g, n, e46, x46, x47);
    let x48: nat = 0x25c2101b4d300dbbd9955009nat;
    let e48: nat = 2 * e47;
    lemma_pow_square(g, n, e47, x47, x48);
}

proof fn lemma_cofactor_raise_1()
    ensures
        pow_mod(3nat, 0x30d8d2ea20nat, 0x2ca6487cfcd795e8729527e1nat) == 0x25c2101b4d300dbbd9955009nat,
{
    lemma_cofactor_power_1();
    lemma_cofactor_power_2();
    lemma_pow_raise(3nat, 0x2ca6487cfcd795e8729527e1nat, 16nat, 43046721nat, 0x30d8d2ea2nat, 0x25c2101b4d300dbbd9955009nat, 0x30d8d2ea20nat);
}

proof fn lemma_cofactor_power_3()
    ensures
        pow_mod(43046721nat, 0xea007c342nat, 0x2ca6487cfcd795e8729527e1nat) == 0xe92a000d8ed363f0868e3c4nat,
{
    let n: nat = 0x2ca6487cfcd795e8729527e1nat;
    let g: nat = 43046721nat;
    let e0: nat = 1nat;
    let x0: nat = 43046721nat;
    lemma_pow_first(g, n, x0);
    let x1: nat = 0x6954fe21e3e81nat;
    let e1: nat = 2 * e0;
    lemma_pow_square(g, n, e0, x0, x1);
    let x2: nat = 0x10e425c56daffabc35c1nat;
    let e2: nat = e1 + 1;
    lemma_pow_times(g, n, e1, x1, x2);
    let x3: nat = 0x279fe56cdd23ca462f52b141nat;
    let e3: nat = 2 * e2;
    lemma_pow_square(g, n, e2, x2, x3);
    let x4: nat = 0x22f8565f5eb1ed3b66a832d5nat;
    let e4: nat = e3 + 1;
    lemma_pow_times(g, n, e3, x3, x4);
    let x5: nat = 0x667ce83f9be6cc261b986d0nat;
    let e5: nat = 2 * e4;
    lemma_pow_square(g, n, e4, x4, x5);
    let x6: nat = 0x23a8b2a35d1179e2683f4bednat;
    let e6: nat = 2 * e5;
    lemma_pow_square(g, n, e5, x5, x6);
    let x7: nat = 0xbdac227ec1691d8533af77enat;
    let e7: nat = e6 + 1;
    lemma_pow_times(g, n, e6, x6, x7);
    let x8: nat = 0x1ca0ebb2c3162637404933bbnat;
    let e8: nat = 2 * e7;
    lemma_pow_square(g, n, e7, x7, x8);
    let x9: nat = 0x23fa99af300d2042e0540b8fnat;
    let e9: nat = 2 * e8;
    lemma_pow_square(g, n, e8, x8, x9);
    let x10: nat = 0x639052e0115b9f9fd14bca1nat;
    let e10: nat = e9 + 1;
    lemma_pow_times(g, n, e9, x9, x10);
    let x11: nat = 0x11522e46ad998fbad8fb15a6nat;
    let e11: nat = 2 * e10;
    lemma_pow_square(g, n, e10, x10, x11);
    let x12: nat = 0x7c49826cc53036067b3ae40nat;
    let e12: nat = 2 * e11;
    lemma_pow_square(g, n, e11, x11, x12);
    let x13: nat = 0x6b3019fa5a28f27d129485dnat;
    let e13: nat = 2 * e12;
    lemma_pow_square(g, n, e12, x12, x13);
    let x14: nat = 0x2b44f9fd69298ad02bc96877nat;
    let e14: nat = 2 * e13;
    lemma_pow_square(g, n, e13, x13, x14);
    let x15: nat = 0x2481bcfb2183a1af0207b97nat;
    let e15: nat = 2 * e14;
    lemma_pow_square(g, n, e14, x14, x15);
    let x16: nat = 0x1468320ca37f90dcd71ed681nat;
    let e16: nat = 2 * e15;
    lemma_pow_square(g, n, e15, x15, x16);
    let x17: nat = 0x18146758ccd1d87483bb06aanat;
    let e17: nat = 2 * e16;
    lemma_pow_square(g, n, e16, x16, x17);
    let x18: nat = 0x2621af098480cc5343a96e90nat;
    let e18: nat = 2 * e17;
    lemma_pow_square(g, n, e17, x17, x18);
    let x19: nat = 0x21ced2d222eb89fdd1702c84nat;
    let e19: nat = 2 * e18;
    lemma_pow_square(g, n, e18, x18, x19);
    let x20: nat = 0x1c162448c976fbab6339ea0enat;
    let e20: nat = 2 * e19;
    lemma_pow_square(g, n, e19, x19, x20);
    let x21: nat = 0xcac3f5de8ba5934cb0c80e2nat;
    let e21: nat = 2 * e20;
    lemma_pow_square(g, n, e20, x20, x21);
    let x22: nat = 0x5f67d38595f34b44b22d068nat;
    let e22: nat = e21 + 1;
    lemma_pow_times(g, n, e21, x21, x22);
    let x23: nat = 0x768d66313ce4d7ec64618b8nat;
    let e23: nat = 2 * e22;
    lemma_pow_square(g, n, e22, x22, x23);
    let x24: nat = 0x123d4f7469e07008e4958429nat;
    let e24: nat = e23 + 1;
    lemma_pow_times(g, n, e23, x23, x24);
    let x25: nat = 0x409fbea4315eef0971cb302nat;
    let e25: nat = 2 * e24;
    lemma_pow_square(g, n, e24, x24, x25);
    let x26: nat = 0x217e5d90fb43128939e3558anat;
    let e26: nat = e25 + 1;
    lemma_pow_times(g, n, e25, x25, x26);
    let x27: nat = 0x2a8f0c7f073c84342a18a715nat;
    let e27: nat = 2 * e26;
    lemma_pow_square(g, n, e26, x26, x27);
    let x28: nat = 0x1ad7b433729fad1dafea8ecenat;
    let e28: nat = e27 + 1;
    lemma_pow_times(g, n, e27, x27, x28);
    let x29: nat = 0x4e11893da0e89b9d0856ea8nat;
    let e29: nat = 2 * e28;
    lemma_pow_square(g, n, e28, x28, x29);
    let x30: nat = 0x1975818fe13eb1499c14d0cbnat;
    let e30: nat = e29 + 1;
    lemma_pow_times(g, n, e29, x29, x30);
    let x31: nat = 0x11917225e780f7d8dfff2700nat;
    let e31: nat = 2 * e30;
    lemma_pow_square(g, n, e30, x30, x31);
    let x32: nat = 0xe1958a124979d5836d19012nat;
    let e32: nat = 2 * e31;
    lemma_pow_square(g, n, e31, x31, x32);
    let x33: nat = 0x7529b0395dbbfe7e950a368nat;
    let e33: nat = 2 * e32;
    lemma_pow_square(g, n, e32, x32, x33);
    let x34: nat = 0xdfa6d4ef4b242d9ed16e657nat;
    let e34: nat = 2 * e33;
    lemma_pow_square(g, n, e33, x33, x34);
    let x35: nat = 0xddf6f5cbe22ec58d89c3438nat;
    let e35: nat = 2 * e34;
    lemma_pow_square(g, n, e34, x34, x35);
    let x36: nat = 0x198c1d7ff464e8d7193f1593nat;
    let e36: nat = e35 + 1;
    lemma_pow_times(g, n, e35, x35, x36);
    let x37: nat = 0x174aba2bd32d5776e7ff28dnat;
    let e37: nat = 2 * e36;
    lemma_pow_square(g, n, e36, x36, x37);
    let x38: nat = 0x271d3fb252c58dde64595a10nat;
    let e38: nat = e37 + 1;
    lemma_pow_times(g, n, e37, x37, x38);
    let x39: nat = 0x501d21102cfc220771255cbnat;
    let e39: nat = 2 * e38;
    lemma_pow_square(g, n, e38, x38, x39);
    let x40: nat = 0x2b4a2c9ac5764f550631d9e9nat;
    let e40: nat = 2 * e39;
    lemma_pow_square(g, n, e39, x39, x40);
    let x41: nat = 0x13b560fbcf43d328e7f283b3nat;
    let e41: nat = e40 + 1;
    lemma_pow_times(g, n, e40, x40, x41);
    let x42: nat = 0x13afe6c94f1f0aaf9bd86346nat;
    let e42: nat = 2 * e41;
    lemma_pow_square(g, n, e41, x41, x42);
    let x43: nat = 0x28d0a259a0eac77c6e94c306nat;
    let e43: nat = 2 * e42;
    lemma_pow_square(g, n, e42, x42, x43);
    let x44: nat = 0x25fe1b96b65c0f812ca8ba28nat;
    let e44: nat = 2 * e43;
    lemma_pow_square(g, n, e43, x43, x44);
    let x45: nat = 0x199f40290317b3d6ac2d91cnat;
    let e45: nat = 2 * e44;
    lemma_pow_square(g, n, e44, x44, x45);
    let x46: nat = 0x17f4ca0a716a8194304e51b2nat;
    let e46: nat = 2 * e45;
    lemma_pow_square(g, n, e45, x45, x46);
    let x47: nat = 0x18f7832e1eb1a44576472d6bnat;
    let e47: nat = e46 + 1;
    lemma_pow_times(g, n, e46, x46, x47);
    let x48: nat = 0xe92a000d8ed363f0868e3c4nat;
    let e48: nat = 2 * e47;
    lemma_pow_square(g, n, e47, x47, x48);
}

proof fn lemma_cofactor_power_4()
    ensures
        pow_mod(43046721nat, 0xea007c3431338fnat, 0x2ca6487cfcd795e8729527e1nat) == 0x165aa44249f3bfc444765cfcnat,
{
    let n: nat = 0x2ca6487cfcd795e8729527e1nat;
    let g: nat = 43046721nat;
    let e0: nat = 0xea007c342nat;
    let x0: nat = 0xe92a000d8ed363f0868e3c4nat;
    lemma_cofactor_power_3();
    let x1: nat = 0x1351dbc260ee74c01548a24dnat;
    let e1: nat = e0 + 1;
    lemma_pow_times(g, n, e0, x0, x1);
    let x2: nat = 0x17e41341d2bafef14b55528cnat;
    let e2: nat = 2 * e1;
    lemma_pow_square(g, n, e1, x1, x2);
    let x3: nat = 0xe8101d9f4b16a1d435f9645nat;
    let e3: nat = 2 * e2;
    lemma_pow_square(g, n, e2, x2, x3);
    let x4: nat = 0x1830ca967e0efe59f03a1695nat;
    let e4: nat = 2 * e3;
    lemma_pow_square(g, n, e3, x3, x4);
    let x5: nat = 0x1dee25cd830e666694151359nat;
    let e5: nat = 2 * e4;
    lemma_pow_square(g, n, e4, x4, x5);
    let x6: nat = 0x95793daba1bcb5a25cf5d81nat;
    let e6: nat = e5 + 1;
    lemma_pow_times(g, n, e5, x5, x6);
    let x7: nat = 0x1e6df371cdc3f5f4e8e2c241nat;
    let e7: nat = 2 * e6;
    lemma_pow_square(g, n, e6, x6, x7);
    let x8: nat = 0x19d5c313a156420dd43f5822nat;
    let e8: nat = 2 * e7;
    lemma_pow_square(g, n, e7, x7, x8);
    let x9: nat = 0xf58587bae8a9d64c5aaf1e6nat;
    let e9: nat = 2 * e8;
    lemma_pow_square(g, n, e8, x8, x9);
    let x10: nat = 0x26d7b1a57ae8ce01440f7e2nat;
    let e10: nat = e9 + 1;
    lemma_pow_times(g, n, e9, x9, x10);
    let x11: nat = 0x809b0c3763dfa15d24c025anat;
    let e11: nat = 2 * e10;
    lemma_pow_square(g, n, e10, x10, x11);
    let x12: nat = 0x238e22e3f663c100433eeffbnat;
    let e12: nat = e11 + 1;
    lemma_pow_times(g, n, e11, x11, x12);
    let x13: nat = 0xdce0fb27530cdcb8b6bf523nat;
    let e13: nat = 2 * e12;
    lemma_pow_square(g, n, e12, x12, x13);
    let x14: nat = 0x2166ea88147e3116a0b9b487nat;
    let e14: nat = 2 * e13;
    lemma_pow_square(g, n, e13, x13, x14);
    let x15: nat = 0x1aa2575527e6353d1a00d3c1nat;
    let e15: nat = 2 * e14;
    lemma_pow_square(g, n, e14, x14, x15);
    let x16: nat = 0x19472cd362607410ee0a04adnat;
    let e16: nat = e15 + 1;
    lemma_pow_times(g, n, e15, x15, x16);
    let x17: nat = 0xbc91f4085a8b0c76ac61b59nat;
    let e17: nat = 2 * e16;
    lemma_pow_square(g, n, e16, x16, x17);
    let x18: nat = 0xa9e19578a78fa30c9aa5edfnat;
    let e18: nat = e17 + 1;
    lemma_pow_times(g, n, e17, x17, x18);
    let x19: nat = 0x34d58a69c0a6e169a7beeb6nat;
    let e19: nat = 2 * e18;
    lemma_pow_square(g, n, e18, x18, x19);
    let x20: nat = 0x13f9da39774dd0d324e5cf8cnat;
    let e20: nat = e19 + 1;
    lemma_pow_times(g, n, e19, x19, x20);
    let x21: nat = 0xb4d98b5f6ad7f79fbc79a1nat;
    let e21: nat = 2 * e20;
    lemma_pow_square(g, n, e20, x20, x21);
    let x22: nat = 0x250acb9aff990dc54d6c04bbnat;
    let e22: nat = 2 * e21;
    lemma_pow_square(g, n, e21, x21, x22);
    let x23: nat = 0x5fe4cfaf36c97b5b14e9c4dnat;
    let e23: nat = 2 * e22;
    lemma_pow_square(g, n, e22, x22, x23);
    let x24: nat = 0x22fd795d6ee348ff61d2dfafnat;
    let e24: nat = 2 * e23;
    lemma_pow_square(g, n, e23, x23, x24);
    let x25: nat = 0x1b383acb1784204d0f428c81nat;
    let e25: nat = e24 + 1;
    lemma_pow_times(g, n, e24, x24, x25);
    let x26: nat = 0x11359457742598e2bc5897cbnat;
    let e26: nat = 2 * e25;
    lemma_pow_square(g, n, e25, x25, x26);
    let x27: nat = 0x43e9d694394fb19983380adnat;
    let e27: nat = e26 + 1;
    lemma_pow_times(g, n, e26, x26, x27);
    let x28: nat = 0x130dc13966f72a6737ef8b1anat;
    let e28: nat = 2 * e27;
    lemma_pow_square(g, n, e27, x27, x28);
    let x29: nat = 0x1f7b6b76f27c69b82ce56c6dnat;
    let e29: nat = e28 + 1;
    lemma_pow_times(g, n, e28, x28, x29);
    let x30: nat = 0x26bd873862edd61909f915adnat;
    let e30: nat = 2 * e29;
    lemma_pow_square(g, n, e29, x29, x30);
    let x31: nat = 0x165aa44249f3bfc444765cfcnat;
    let e31: nat = e30 + 1;
    lemma_pow_times(g, n, e30, x30, x31);
}

proof fn lemma_cofactor_raise_2()
    ensures
        pow_mod(3nat, 0xea007c3431338f0nat, 0x2ca6487cfcd795e8729527e1nat) == 0x165aa44249f3bfc444765cfcnat,
{
    lemma_cofactor_power_1();
    lemma_cofactor_power_4();
    lemma_pow_raise(3nat, 0x2ca6487cfcd795e8729527e1nat, 16nat, 43046721nat, 0xea007c3431338fnat, 0x165aa44249f3bfc444765cfcnat, 0xea007c3431338f0nat);
}

proof fn lemma_cofactor_power_5()
    ensures
        pow_mod(0x165aa44249f3bfc444765cfcnat, 8230nat, 0x2ca6487cfcd795e8729527e1nat) == 0x1dd5908a1b1ad9e7882cace9nat,
{
    let n: nat = 0x2ca6487cfcd795e8729527e1nat;
    let g: nat = 0x165aa44249f3bfc444765cfcnat;
    let e0: nat = 1nat;
    let x0: nat = 0x165aa44249f3bfc444765cfcnat;
    lemma_pow_first(g, n, x0);
    let x1: nat = 0x1176baa7a9b850aa86fe6ae7nat;
    let e1: nat = 2 * e0;
    lemma_pow_square(g, n, e0, x0, x1);
    let x2: nat = 0x271620e004895328af76e5canat;
    let e2: nat = 2 * e1;
    lemma_pow_square(g, n, e1, x1, x2);
    let x3: nat = 0x5e2cb554699da7d3e58310fnat;
    let e3: nat = 2 * e2;
    lemma_pow_square(g, n, e2, x2, x3);
    let x4: nat = 0x20cc1752a107b547c3afb3cenat;
    let e4: nat = 2 * e3;
    lemma_pow_square(g, n, e3, x3, x4);
    let x5: nat = 0x1dacde78873646d86cc342a6nat;
    let e5: nat = 2 * e4;
    lemma_pow_square(g, n, e4, x4, x5);
    let x6: nat = 0x2b08bec6643200857820cccenat;
    let e6: nat = 2 * e5;
    lemma_pow_square(g, n, e5, x5, x6);
    let x7: nat = 0x269453bc092ef345281cb2bdnat;
    let e7: nat = 2 * e6;
    lemma_pow_square(g, n, e6, x6, x7);
    let x8: nat = 0x11dff673253ca14022762a94nat;
    let e8: nat = 2 * e7;
    lemma_pow_square(g, n, e7, x7, x8);
    let x9: nat = 0x288148240eb76d577e83a5d3nat;
    let e9: nat = e8 + 1;
    lemma_pow_times(g, n, e8, x8, x9);
    let x10: nat = 0xcbebc38ec7cdfc245f7da77nat;
    let e10: nat = 2 * e9;
    lemma_pow_square(g, n, e9, x9, x10);
    let x11: nat = 0x1019eada9c2ae0dcd1a56f48nat;
    let e11: nat = 2 * e10;
    lemma_pow_square(g, n, e10, x10, x11);
    let x12: nat = 0x11e085fabd73740a4712cea3nat;
    let e12: nat = 2 * e11;
    lemma_pow_square(g, n, e11, x11, x12);
    let x13: nat = 0x76fb7296e8e51860ea07dd2nat;
    let e13: nat = e12 + 1;
    lemma_pow_times(g, n, e12, x12, x13);
    let x14: nat = 0x2965f56e9cc0cee77f61af72nat;
    let e14: nat = 2 * e13;
    lemma_pow_square(g, n, e13, x13, x14);
    let x15: nat = 0x2b9f791d2b60c75768fd275enat;
    let e15: nat = e14 + 1;
    lemma_pow_times(g, n, e14, x14, x15);
    let x16: nat = 0x1dd5908a1b1ad9e7882cace9nat;
    let e16: nat = 2 * e15;
    lemma_pow_square(g, n, e15, x15, x16);
}

proof fn lemma_cofactor_raise_3()
    ensures
        pow_mod(3nat, 0x1d62cb98f5e5bf873a0nat, 0x2ca6487cfcd795e8729527e1nat) == 0x1dd5908a1b1ad9e7882cace9nat,
{
    lemma_cofactor_raise_2();
    lemma_cofactor_power_5();
    lemma_pow_raise(3nat, 0x2ca6487cfcd795e8729527e1nat, 0xea007c3431338f0nat, 0x165aa44249f3bfc444765cfcnat, 8230nat, 0x1dd5908a1b1ad9e7882cace9nat, 0x1d62cb98f5e5bf873a0nat);
}

proof fn lemma_cofactor_power_6()
    ensures
        pow_mod(0x165aa44249f3bfc444765cfcnat, 1593227nat, 0x2ca6487cfcd795e8729527e1nat) == 0x1e1d11c908918c55596b78bfnat,
{
    let n: nat = 0x2ca6487cfcd795e8729527e1nat;
    let g: nat = 0x165aa44249f3bfc444765cfcnat;
    let e0: nat = 1nat;
    let x0: nat = 0x165aa44249f3bfc444765cfcnat;
    lemma_pow_first(g, n, x0);
    let x1: nat = 0x1176baa7a9b850aa86fe6ae7nat;
    let e1: nat = 2 * e0;
    lemma_pow_square(g, n, e0, x0, x1);
    let x2: nat = 0x1638cab7178aa0cac1321275nat;
    let e2: nat = e1 + 1;
    lemma_pow_times(g, n, e1, x1, x2);
    let x3: nat = 0x207842b4ab2834275e04ebf9nat;
    let e3: nat = 2 * e2;
    lemma_pow_square(g, n, e2, x2, x3);
    let x4: nat = 0xf358739197a92d883d1859anat;
    let e4: nat = 2 * e3;
    lemma_pow_square(g, n, e3, x3, x4);
    let x5: nat = 0x298f0e1e0da310fb0ade4707nat;
    let e5: nat = 2 * e4;
    lemma_pow_square(g, n, e4, x4, x5);
    let x6: nat = 0x1bdeed47546f4cda63dab028nat;
    let e6: nat = 2 * e5;
    lemma_pow_square(g, n, e5, x5, x6);
    let x7: nat = 0xea57037df10dc9acc371ee3nat;
    let e7: nat = 2 * e6;
    lemma_pow_square(g, n, e6, x6, x7);
    let x8: nat = 0x1fed085107a162fe6bab09d6nat;
    let e8: nat = e7 + 1;
    lemma_pow_times(g, n, e7, x7, x8);
    let x9: nat = 0x12c7d2495b7a4660acc46134nat;
    let e9: nat = 2 * e8;
    lemma_pow_square(g, n, e8, x8, x9);
    let x10: nat = 0x208e273df1483ddf25dc6563nat;
    let e10: nat = 2 * e9;
    lemma_pow_square(g, n, e9, x9, x10);
    let x11: nat = 0x1498993ae716e2b70144abb8nat;
    let e11: nat = 2 * e10;
    lemma_pow_square(g, n, e10, x10, x11);
    let x12: nat = 0x3ac16115a2b9bdf34996e74nat;
    let e12: nat = e11 + 1;
    lemma_pow_times(g, n, e11, x11, x12);
    let x13: nat = 0x22ec5c04d996a7e6a86f4991nat;
    let e13: nat = 2 * e12;
    lemma_pow_square(g, n, e12, x12, x13);
    let x14: nat = 0x215b2382512af31b65d7e03fnat;
    let e14: nat = e13 + 1;
    lemma_pow_times(g, n, e13, x13, x14);
    let x15: nat = 0x2b3c1a678e9bb48f414e3f95nat;
    let e15: nat = 2 * e14;
    lemma_pow_square(g, n, e14, x14, x15);
    let x16: nat = 0x112b90fbe16d965b85fcc95cnat;
    let e16: nat = e15 + 1;
    lemma_pow_times(g, n, e15, x15, x16);
    let x17: nat = 0x1107235651b851d54a08f173nat;
    let e17: nat = 2 * e16;
    lemma_pow_square(g, n, e16, x16, x17);
    let x18: nat = 0x2a0c7e077d34842a6f57282enat;
    let e18: nat = e17 + 1;
    lemma_pow_times(g, n, e17, x17, x18);
    let x19: nat = 0xa5d1c725374a421aec7156fnat;
    let e19: nat = 2 * e18;
    lemma_pow_square(g, n, e18, x18, x19);
    let x20: nat = 0x2a4a8482b40524593023570enat;
    let e20: nat = e19 + 1;
    lemma_pow_times(g, n, e19, x19, x20);
    let x21: nat = 0x29f1b3ea2683bdf2ec600453nat;
    let e21: nat = 2 * e20;
    lemma_pow_square(g, n, e20, x20, x21);
    let x22: nat = 0x633e3f090c202d069d704canat;
    let e22: nat = 2 * e21;
    lemma_pow_square(g, n, e21, x21, x22);
    let x23: nat = 0x6b9ba9dfc52fe0a3a4c7e2dnat;
    let e23: nat = 2 * e22;
    lemma_pow_square(g, n, e22, x22, x23);
    let x24: nat = 0x287b977088ed532d7933b76dnat;
    let e24: nat = 2 * e23;
    lemma_pow_square(g, n, e23, x23, x24);
    let x25: nat = 0x27d5307c3e17e165cce97207nat;
    let e25: nat = e24 + 1;
    lemma_pow_times(g, n, e24, x24, x25);
    let x26: nat = 0x8ad4422a565f03184c02a7nat;
    let e26: nat = 2 * e25;
    lemma_pow_square(g, n, e25, x25, x26);
    let x27: nat = 0xbdafa578a1ba4e93c09178anat;
    let e27: nat = 2 * e26;
    lemma_pow_square(g, n, e26, x26, x27);
    let x28: nat = 0xf9f65bd4e9a090846bab30fnat;
    let e28: nat = e27 + 1;
    lemma_pow_times(g, n, e27, x27, x28);
    let x29: nat = 0x248ada473e561c3501923ac2nat;
    let e29: nat = 2 * e28;
    lemma_pow_square(g, n, e28, x28, x29);
    let x30: nat = 0x1e1d11c908918c55596b78bfnat;
    let e30: nat = e29 + 1;
    lemma_pow_times(g, n, e29, x29, x30);
}

proof fn lemma_cofactor_raise_4()
    ensures
        pow_mod(3nat, 0x1638c0d97c285b081fa50nat, 0x2ca6487cfcd795e8729527e1nat) == 0x1e1d11c908918c55596b78bfnat,
{
    lemma_cofactor_raise_2();
    lemma_cofactor_power_6();
    lemma_pow_raise(3nat, 0x2ca6487cfcd795e8729527e1nat, 0xea007c3431338f0nat, 0x165aa44249f3bfc444765cfcnat, 1593227nat, 0x1e1d11c908918c55596b78bfnat, 0x1638c0d97c285b081fa50nat);
}

proof fn lemma_cofactor_power_7()
    ensures
        pow_mod(0x1e1d11c908918c55596b78bfnat, 10nat, 0x2ca6487cfcd795e8729527e1nat) == 0x1d7cb1977076bb87fe23538nat,
{
    let n: nat = 0x2ca6487cfcd795e8729527e1nat;
    let g: nat = 0x1e1d11c908918c55596b78bfnat;
    let e0: nat = 1nat;
    let x0: nat = 0x1e1d11c908918c55596b78bfnat;
    lemma_pow_first(g, n, x0);
    let x1: nat = 0x27fe6904c9149d63373b58d4nat;
    let e1: nat = 2 * e0;
    lemma_pow_square(g, n, e0, x0, x1);
    let x2: nat = 0x1153a66582152da6b53e7321nat;
    let e2: nat = 2 * e1;
    lemma_pow_square(g, n, e1, x1, x2);
    let x3: nat = 0x52270981f1b857cfd8f2a71nat;
    let e3: nat = e2 + 1;
    lemma_pow_times(g, n, e2, x2, x3);
    let x4: nat = 0x1d7cb1977076bb87fe23538nat;
    let e4: nat = 2 * e3;
    lemma_pow_square(g, n, e3, x3, x4);
}

proof fn lemma_cofactor_raise_5()
    ensures
        pow_mod(3nat, 0xde37887ed9938e513c720nat, 0x2ca6487cfcd795e8729527e1nat) == 0x1d7cb1977076bb87fe23538nat,
{
    lemma_cofactor_raise_4();
    lemma_cofactor_power_7();
    lemma_pow_raise(3nat, 0x2ca6487cfcd795e8729527e1nat, 0x1638c0d97c285b081fa50nat, 0x1e1d11c908918c55596b78bfnat, 10nat, 0x1d7cb1977076bb87fe23538nat, 0xde37887ed9938e513c720nat);
}

proof fn lemma_cofactor_power_8()
    ensures
        pow_mod(0x1e1d11c908918c55596b78bfnat, 823nat, 0x2ca6487cfcd795e8729527e1nat) == 0x1a55a561299dcc70b5d14058nat,
{
    let n: nat = 0x2ca6487cfcd795e8729527e1nat;
    let g: nat = 0x1e1d11c908918c55596b78bfnat;
    let e0: nat = 1nat;
    let x0: nat = 0x1e1d11c908918c55596b78bfnat;
    lemma_pow_first(g, n, x0);
    let x1: nat = 0x27fe6904c9149d63373b58d4nat;
    let e1: nat = 2 * e0;
    lemma_pow_square(g, n, e0, x0, x1);
    let x2: nat = 0x7e2764d5104bd2847a2bcb4nat;
    let e2: nat = e1 + 1;
    lemma_pow_times(g, n, e1, x1, x2);
    let x3: nat = 0x134af849ab3f6fe55fb58f62nat;
    let e3: nat = 2 * e2;
    lemma_pow_square(g, n, e2, x2, x3);
    let x4: nat = 0x1c1d34401532e2270cac4018nat;
    let e4: nat = 2 * e3;
    lemma_pow_square(g, n, e3, x3, x4);
    let x5: nat = 0x65660fcce1b0b0d6aa139ebnat;
    let e5: nat = 2 * e4;
    lemma_pow_square(g, n, e4, x4, x5);
    let x6: nat = 0xff8152dc2751d36c83ed90anat;
    let e6: nat = e5 + 1;
    lemma_pow_times(g, n, e5, x5, x6);
    let x7: nat = 0x1902c01c9b8b911a4c24db72nat;
    let e7: nat = 2 * e6;
    lemma_pow_square(g, n, e6, x6, x7);
    let x8: nat = 0x91f6eae964b05e5e44516d0nat;
    let e8: nat = e7 + 1;
    lemma_pow_times(g, n, e7, x7, x8);
    let x9: nat = 0x2b855aa177f0ab8f61004a7fnat;
    let e9: nat = 2 * e8;
    lemma_pow_square(g, n, e8, x8, x9);
    let x10: nat = 0x2286bf95f38a0267cc761520nat;
    let e10: nat = 2 * e9;
    lemma_pow_square(g, n, e9, x9, x10);
    let x11: nat = 0x23061b4ac28dcf3e754f3c69nat;
    let e11: nat = e10 + 1;
    lemma_pow_times(g, n, e10, x10, x11);
    let x12: nat = 0xffbbc34a6c10d7e5682b490nat;
    let e12: nat = 2 * e11;
    lemma_pow_square(g, n, e11, x11, x12);
    let x13: nat = 0xeaf6ae6234a58663872c65bnat;
    let e13: nat = e12 + 1;
    lemma_pow_times(g, n, e12, x12, x13);
    let x14: nat = 0x1ec3750576ade2b084f9f872nat;
    let e14: nat = 2 * e13;
    lemma_pow_square(g, n, e13, x13, x14);
    let x15: nat = 0x1a55a561299dcc70b5d14058nat;
    let e15: nat = e14 + 1;
    lemma_pow_times(g, n, e14, x14, x15);
}

proof fn lemma_cofactor_raise_6()
    ensures
        pow_mod(3nat, 0x477073fb2e25bca71dbb730nat, 0x2ca6487cfcd795e8729527e1nat) == 0x1a55a561299dcc70b5d14058nat,
{
    lemma_cofactor_raise_4();
    lemma_cofactor_power_8();
    lemma_pow_raise(3nat, 0x2ca6487cfcd795e8729527e1nat, 0x1638c0d97c285b081fa50nat, 0x1e1d11c908918c55596b78bfnat, 823nat, 0x1a55a561299dcc70b5d14058nat, 0x477073fb2e25bca71dbb730nat);
}

proof fn lemma_cofactor_power_9()
    ensures
        pow_mod(0x1a55a561299dcc70b5d14058nat, 2nat, 0x2ca6487cfcd795e8729527e1nat) == 0x3fea8cdf53cd0efe0e0ca20nat,
{
    let n: nat = 0x2ca6487cfcd795e8729527e1nat;
    let g: nat = 0x1a55a561299dcc70b5d14058nat;
    let e0: nat = 1nat;
    let x0: nat = 0x1a55a561299dcc70b5d14058nat;
    lemma_pow_first(g, n, x0);
    let x1: nat = 0x3fea8cdf53cd0efe0e0ca20nat;
    let e1: nat = 2 * e0;
    lemma_pow_square(g, n, e0, x0, x1);
}

proof fn lemma_cofactor_raise_7()
    ensures
        pow_mod(3nat, 0x8ee0e7f65c4b794e3b76e60nat, 0x2ca6487cfcd795e8729527e1nat) == 0x3fea8cdf53cd0efe0e0ca20nat,
{
    lemma_cofactor_raise_6();
    lemma_cofactor_power_9();
    lemma_pow_raise(3nat, 0x2ca6487cfcd795e8729527e1nat, 0x477073fb2e25bca71dbb730nat, 0x1a55a561299dcc70b5d14058nat, 2nat, 0x3fea8cdf53cd0efe0e0ca20nat, 0x8ee0e7f65c4b794e3b76e60nat);
}

proof fn lemma_cofactor_power_10()
    ensures
        pow_mod(0x1a55a561299dcc70b5d14058nat, 5nat, 0x2ca6487cfcd795e8729527e1nat) == 0x2ca6487cfcd795e8729527e0nat,
{
    let n: nat = 0x2ca6487cfcd795e8729527e1nat;
    let g: nat = 0x1a55a561299dcc70b5d14058nat;
    let e0: nat = 1nat;
    let x0: nat = 0x1a55a561299dcc70b5d14058nat;
    lemma_pow_first(g, n, x0);
    let x1: nat = 0x3fea8cdf53cd0efe0e0ca20nat;
    let e1: nat = 2 * e0;
    lemma_pow_square(g, n, e0, x0, x1);
    let x2: nat = 0x219d66a449eb8aeb1ef82d93nat;
    let e2: nat = 2 * e1;
    lemma_pow_square(g, n, e1, x1, x2);
    let x3: nat = 0x2ca6487cfcd795e8729527e0nat;
    let e3: nat = e2 + 1;
    lemma_pow_times(g, n, e2, x2, x3);
}

proof fn lemma_cofactor_raise_8()
    ensures
        pow_mod(3nat, 0x1653243e7e6bcaf4394a93f0nat, 0x2ca6487cfcd795e8729527e1nat) == 0x2ca6487cfcd795e8729527e0nat,
{
    lemma_cofactor_raise_6();
    lemma_cofactor_power_10();
    lemma_pow_raise(3nat, 0x2ca6487cfcd795e8729527e1nat, 0x477073fb2e25bca71dbb730nat, 0x1a55a561299dcc70b5d14058nat, 5nat, 0x2ca6487cfcd795e8729527e0nat, 0x1653243e7e6bcaf4394a93f0nat);
}

proof fn lemma_cofactor_power_11()
    ensures
        pow_mod(0x2ca6487cfcd795e8729527e0nat, 2nat, 0x2ca6487cfcd795e8729527e1nat) == 1nat,
{
    let n: nat = 0x2ca6487cfcd795e8729527e1nat;
    let g: nat = 0x2ca6487cfcd795e8729527e0nat;
    let e0: nat = 1nat;
    let x0: nat = 0x2ca6487cfcd795e8729527e0nat;
    lemma_pow_first(g, n, x0);
    let x1: nat = 1nat;
    let e1: nat = 2 * e0;
    lemma_pow_square(g, n, e0, x0, x1);
}

proof fn lemma_cofactor_raise_9()
    ensures
        pow_mod(3nat, 0x2ca6487cfcd795e8729527e0nat, 0x2ca6487cfcd795e8729527e1nat) == 1nat,
{
    lemma_cofactor_raise_8();
    lemma_cofactor_power_11();
    lemma_pow_raise(3nat, 0x2ca6487cfcd795e8729527e1nat, 0x1653243e7e6bcaf4394a93f0nat, 0x2ca6487cfcd795e8729527e0nat, 2nat, 1nat, 0x2ca6487cfcd795e8729527e0nat);
}

/// The largest prime factor of the modulus less one is prime.
pub proof fn lemma_prime_cofactor()
    ensures
        is_prime(0x2ca6487cfcd795e8729527e1nat),
{
    let n: nat = 0x2ca6487cfcd795e8729527e1nat;
    let g: nat = 3nat;
    lemma_two_is_prime();
    lemma_cofactor_raise_8();
    lemma_prime_5();
    lemma_cofactor_raise_7();
    lemma_prime_823();
    lemma_cofactor_raise_5();
    lemma_prime_1593227();
    lemma_cofactor_raise_3();
    lemma_prime_65865678001877903();
    lemma_cofactor_raise_1();
    lemma_cofactor_raise_9();
    let s0: Seq<nat> = Seq::<nat>::empty();
    lemma_witnessed_none(n, g);
    let s1: Seq<nat> = s0.push(2nat);
    lemma_witnessed_more(n, g, s0, 2nat, 0x1653243e7e6bcaf4394a93f0nat, 0x2ca6487cfcd795e8729527e0nat, 2nat);
    let s2: Seq<nat> = s1.push(2nat);
    lemma_witnessed_more(n, g, s1, 2nat, 0x1653243e7e6bcaf4394a93f0nat, 0x2ca6487cfcd795e8729527e0nat, 4nat);
    let s3: Seq<nat> = s2.push(2nat);
    lemma_witnessed_more(n, g, s2, 2nat, 0x1653243e7e6bcaf4394a93f0nat, 0x2ca6487cfcd795e8729527e0nat, 8nat);
    let s4: Seq<nat> = s3.push(2nat);
    lemma_witnessed_more(n, g, s3, 2nat, 0x1653243e7e6bcaf4394a93f0nat, 0x2ca6487cfcd795e8729527e0nat, 16nat);
    let s5: Seq<nat> = s4.push(2nat);
    lemma_witnessed_more(n, g, s4, 2nat, 0x1653243e7e6bcaf4394a93f0nat, 0x2ca6487cfcd795e8729527e0nat, 32nat);
    let s6: Seq<nat> = s5.push(5nat);
    lemma_witnessed_more(n, g, s5, 5nat, 0x8ee0e7f65c4b794e3b76e60nat, 0x3fea8cdf53cd0efe0e0ca20nat, 160nat);
    let s7: Seq<nat> = s6.push(823nat);
    lemma_witnessed_more(n, g, s6, 823nat, 0xde37887ed9938e513c720nat, 0x1d7cb1977076bb87fe23538nat, 131680nat);
    let s8: Seq<nat> = s7.push(1593227nat);
    lemma_witnessed_more(n, g, s7, 1593227nat, 0x1d62cb98f5e5bf873a0nat, 0x1dd5908a1b1ad9e7882cace9nat, 0x30d8d2ea20nat);
    let s9: Seq<nat> = s8.push(0xea007c3431338fnat);
    lemma_witnessed_more(n, g, s8, 0xea007c3431338fnat, 0x30d8d2ea20nat, 0x25c2101b4d300dbbd9955009nat, 0x2ca6487cfcd795e8729527e0nat);
    lemma_witnessed_prime(n, g, s9);
}

// The modulus.
// One less is 2^28 * 3^2 * 13 * 29 * 983 * 11003 * 237073 * 405928799 *
// 1670836401704629 * 13818364434197438864469338081; the primitive root is
// 5.

proof fn lemma_modulus_power_1()
    ensures
        pow_mod(5nat, 402653184nat, 0x30644e72e131a029b85045b68181585d2833e84879b9709143e1f593f0000001nat) == 0x2bf7dc2ee696398928961394c6799d23b938f13e213ea4b6005e0e4d700a925anat,
{
    let n: nat = 0x30644e72e131a029b85045b68181585d2833e84879b9709143e1f593f0000001nat;
    let g: nat = 5nat;
    let e0: nat = 1nat;
    let x0: nat = 5nat;
    lemma_pow_first(g, n, x0);
    let x1: nat = 25nat;
    let e1: nat = 2 * e0;
    lemma_pow_square(g, n, e0, x0, x1);
    let x2: nat = 125nat;
    let e2: nat = e1 + 1;
    lemma_pow_times(g, n, e1, x1, x2);
    let x3: nat = 15625nat;
    let e3: nat = 2 * e2;
    lemma_pow_square(g, n, e2, x2, x3);
    let x4: nat = 244140625nat;
    let e4: nat = 2 * e3;
    lemma_pow_square(g, n, e3, x3, x4);
    let x5: nat = 0xd3c21bcecceda1nat;
    let e5: nat = 2 * e4;
    lemma_pow_square(g, n, e4, x4, x5);
    let x6: nat = 0xaf298d050e4395d69670b12b7f41nat;
    let e6: nat = 2 * e5;
    lemma_pow_square(g, n, e5, x5, x6);
    let x7: nat = 0x77d9d58b62cd8a5162e7f4a779f5080f1c46d01ae478b23be1178e81nat;
    let e7: nat = 2 * e6;
    lemma_pow_square(g, n, e6, x6, x7);
    let x8: nat = 0x280951d220df5d8e5e97a8011b45fc21d3793baead055a1514aed1faf2fa66danat;
    let e8: nat = 2 * e7;
    lemma_pow_square(g, n, e7, x7, x8);
    let x9: nat = 0x248d26304c36a41691bad80c43d80e59ff87f0960a4bc63a22ebe0f79ccf7893nat;
    let e9: nat = 2 * e8;
    lemma_pow_square(g, n, e8, x8, x9);
    let x10: nat = 0x22c8cb32a529176022f37ce823e9e984452749aa5232b5c2d1f2d7e85a5ac537nat;
    let e10: nat = 2 * e9;
    lemma_pow_square(g, n, e9, x9, x10);
    let x11: nat = 0x1956f51f0b22d502de5a352261b6a53a6e54a275ae0a7d22581e556fb41fe95bnat;
    let e11: nat = 2 * e10;
    lemma_pow_square(g, n, e10, x10, x11);
    let x12: nat = 0x2ef8f93cf2bfa1ea434389c7f29c1b0aec9b4236671b09322c716012c9c7f013nat;
    let e12: nat = 2 * e11;
    lemma_pow_square(g, n, e11, x11, x12);
    let x13: nat = 0x28a88674d72682fea0de43d70375ea233b58fba48d7c85e058e691558a7202a2nat;
    let e13: nat = 2 * e12;
    lemma_pow_square(g, n, e12, x12, x13);
    let x14: nat = 0x2fa91d264c188486f7255e4748791865795be57daf19f531affa65e30d2474a0nat;
    let e14: nat = 2 * e13;
    lemma_pow_square(g, n, e13, x13, x14);
    let x15: nat = 0x24fd6c1633d7bba8e0689768d3cb9fb323e755699470d59e8986829c52ba49fenat;
    let e15: nat = 2 * e14;
    lemma_pow_square(g, n, e14, x14, x15);
    let x16: nat = 0x16c176db0589f1e9a7cd2f0d7a704bc61aa1e3e44794d0c657a5f1c81a2866d9nat;
    let e16: nat = 2 * e15;
    lemma_pow_square(g, n, e15, x15, x16);
    let x17: nat = 0x2d06de937dc3185b0fce7dde19117dc77af709139085ed6a831c982e8885b726nat;
    let e17: nat = 2 * e16;
    lemma_pow_square(g, n, e16, x16, x17);
    let x18: nat = 0x26b00385f8bcb7bde84166405ca224910baf079437a72f6475488952e74deec9nat;
    let e18: nat = 2 * e17;
    lemma_pow_square(g, n, e17, x17, x18);
    let x19: nat = 0x15894f6fd3c2ed8308e1ffba6f331ee4f90017d323e85b27d8387a262626eeanat;
    let e19: nat = 2 * e18;
    lemma_pow_square(g, n, e18, x18, x19);
    let x20: nat = 0x17f491e71fc2ec2c3af3cffa7528276fe5b0803f6ea3d499aba7ea75d3381eafnat;
    let e20: nat = 2 * e19;
    lemma_pow_square(g, n, e19, x19, x20);
    let x21: nat = 0x1b2cc5156b3501e011679b8740f6232033e43aa19624cd75b12204838db405a4nat;
    let e21: nat = 2 * e20;
    lemma_pow_square(g, n, e20, x20, x21);
    let x22: nat = 0x17d404cc881a08cfce0f9fee9d655cd72a1b9d7053c6fbde59f325ec46fa629bnat;
    let e22: nat = 2 * e21;
    lemma_pow_square(g, n, e21, x21, x22);
    let x23: nat = 0x281bfbd2a38f705f8cf47c5900de0a3421c7fffe04b4826dffd8073247cc9764nat;
    let e23: nat = 2 * e22;
    lemma_pow_square(g, n, e22, x22, x23);
    let x24: nat = 0xa4a232b944bd756ad350f354d790938aa484f540d600000e5fff37e0c944281nat;
    let e24: nat = 2 * e23;
    lemma_pow_square(g, n, e23, x23, x24);
    let x25: nat = 0x18c113c4962907f09db5292c789246d72008478e684487cd8285cd3f3fcee174nat;
    let e25: nat = 2 * e24;
    lemma_pow_square(g, n, e24, x24, x25);
    let x26: nat = 0x108fcb8384523f690c906c0674ce08cf39fed4975c4773d9f8ae4dea1de32359nat;
    let e26: nat = 2 * e25;
    lemma_pow_square(g, n, e25, x25, x26);
    let x27: nat = 0x2a50367aa11b5c57cf4fc2c75f60b56733002c0f5374f06c889a26e1e08a8001nat;
    let e27: nat = 2 * e26;
    lemma_pow_square(g, n, e26, x26, x27);
    let x28: nat = 0x25a2f122c00fffcda3be3e4a774c795fdc608ec5a06e04683bbde4e44d9f711nat;
    let e28: nat = 2 * e27;
    lemma_pow_square(g, n, e27, x27, x28);
    let x29: nat = 0x2bf7dc2ee696398928961394c6799d23b938f13e213ea4b6005e0e4d700a925anat;
    let e29: nat = 2 * e28;
    lemma_pow_square(g, n, e28, x28, x29);
}

proof fn lemma_modulus_power_2()
    ensures
        pow_mod(0x2bf7dc2ee696398928961394c6799d23b938f13e213ea4b6005e0e4d700a925anat, 2549496168nat, 0x30644e72e131a029b85045b68181585d2833e84879b9709143e1f593f0000001nat) == 0x77a41458566a8dd27ab42e3e3a9fc7ee11e1fcb1c4ead0c514d682e4a12a4a8nat,
{
    let n: nat = 0x30644e72e131a029b85045b68181585d2833e84879b9709143e1f593f0000001nat;
    let g: nat = 0x2bf7dc2ee696398928961394c6799d23b938f13e213ea4b6005e0e4d700a925anat;
    let e0: nat = 1nat;
    let x0: nat = 0x2bf7dc2ee696398928961394c6799d23b938f13e213ea4b6005e0e4d700a925anat;
    lemma_pow_first(g, n, x0);
    let x1: nat = 0x19222d61fb3c1ca79303bff4b7153f9d621cc15ca639abb8b3d875285a391a02nat;
    let e1: nat = 2 * e0;
    lemma_pow_square(g, n, e0, x0, x1);
    let x2: nat = 0x1832c8cdec0ce84cd34c2c98bb624eedf4aeb47f5b1f605640be8bb83c8caf92nat;
    let e2: nat = 2 * e1;
    lemma_pow_square(g, n, e1, x1, x2);
    let x3: nat = 0x16b1b00e59743f8b5a3a01b2e087ecb522da59de98cd55ade97e6b32fc1edb60nat;
    let e3: nat = 2 * e2;
    lemma_pow_square(g, n, e2, x2, x3);
    let x4: nat = 0x4c152a62a4cc61298e54c2f853df93575310ff49573b609e8afc36f497f772anat;
    let e4: nat = e3 + 1;
    lemma_pow_times(g, n, e3, x3, x4);
    let x5: nat = 0x8816830c0bf5491fef97688750935e88f8244f5544f9e4a3b21aa283d2c871dnat;
    let e5: nat = 2 * e4;
    lemma_pow_square(g, n, e4, x4, x5);
    let x6: nat = 0x2f7629819df46320603a7cfaae0d5dae6ba7da6b6df1c504a46fefd39efe97dbnat;
    let e6: nat = 2 * e5;
    lemma_pow_square(g, n, e5, x5, x6);
    let x7: nat = 0x14becc137caf7a0a74fa0ed89e2fe1c5c6f0043f563bd6e9feb61bba0edc85e5nat;
    let e7: nat = e6 + 1;
    lemma_pow_times(g, n, e6, x6, x7);
    let x8: nat = 0x2149e8fb7fab5b608baf2763a32cf043430c58de3b4955d90038fc7a179c89b9nat;
    let e8: nat = 2 * e7;
    lemma_pow_square(g, n, e7, x7, x8);
    let x9: nat = 0x2e000a83f248176a83cf050f117e35ea1eabe532bf592594da1b9c41eb959canat;
    let e9: nat = e8 + 1;
    lemma_pow_times(g, n, e8, x8, x9);
    let x10: nat = 0x1f79ec5e32e18097ee11b46addbf8a1bd35b8061ae524f23622cdc6d055bdff3nat;
    let e10: nat = 2 * e9;
    lemma_pow_square(g, n, e9, x9, x10);
    let x11: nat = 0x4cc00be63b99ee8c719fc8533d1f06052213974317bd77efd5adf36f34167e3nat;
    let e11: nat = e10 + 1;
    lemma_pow_times(g, n, e10, x10, x11);
    let x12: nat = 0x2f1f03c598b23acb32ef26aa8d08778d577cbac4166e5316adebc85ad10989c1nat;
    let e12: nat = 2 * e11;
    lemma_pow_square(g, n, e11, x11, x12);
    let x13: nat = 0x20c3940a3435d81d52f112e693d955830ebecc902436faa001afc5da20664897nat;
    let e13: nat = e12 + 1;
    lemma_pow_times(g, n, e12, x12, x13);
    let x14: nat = 0x1906b72373deb328a981d41822caf54abe38b44920129bfa411b2ca3a1595e3enat;
    let e14: nat = 2 * e13;
    lemma_pow_square(g, n, e13, x13, x14);
    let x15: nat = 0x32e14038bd9faf7e218cf3959a357f9892a260f13570d758403d32baee88b86nat;
    let e15: nat = e14 + 1;
    lemma_pow_times(g, n, e14, x14, x15);
    let x16: nat = 0x1a121cb144fd2ef42e59a0d15d17bba3073c8440da2aee272b02ebd131ba6a10nat;
    let e16: nat = 2 * e15;
    lemma_pow_square(g, n, e15, x15, x16);
    let x17: nat = 0x63edddd536f2bfab5a85daf0cf7ce98e9a6be179984f374612ba9c43b232836nat;
    let e17: nat = e16 + 1;
    lemma_pow_times(g, n, e16, x16, x17);
    let x18: nat = 0x2addba11ba14bc7a6ec095f263d77e640e33fcf8eb2260667036c0b9cc883986nat;
    let e18: nat = 2 * e17;
    lemma_pow_square(g, n, e17, x17, x18);
    let x19: nat = 0x2b7374a24fdcca0b317544b6433ac4e3d26b41a0e6d7c4e3b5c15266cc261d51nat;
    let e19: nat = e18 + 1;
    lemma_pow_times(g, n, e18, x18, x19);
    let x20: nat = 0x1361ca0635691bdc7902f7bdcdb3b73cfcae4ad3bad59f85a3eb332a70943e84nat;
    let e20: nat = 2 * e19;
    lemma_pow_square(g, n, e19, x19, x20);
    let x21: nat = 0x736038b57a67424e760f6151829024fa13830fe50416435579837c4edc9d472nat;
    let e21: nat = 2 * e20;
    lemma_pow_square(g, n, e20, x20, x21);
    let x22: nat = 0x1a836be08f168e2f0e2d0f79e9de68cf60cb597d4ae63b6cdbf60f6ea73616ednat;
    let e22: nat = e21 + 1;
    lemma_pow_times(g, n, e21, x21, x22);
    let x23: nat = 0x237852e4d4f6b9d3ac0f425a5bf62a4c67786b39d164a64416cf0361b101ce39nat;
    let e23: nat = 2 * e22;
    lemma_pow_square(g, n, e22, x22, x23);
    let x24: nat = 0x2a8c3541c5d0e40e782ca46f2f05c373b91e882cd46241e8d9e05d6e44b10cacnat;
    let e24: nat = e23 + 1;
    lemma_pow_times(g, n, e23, x23, x24);
    let x25: nat = 0x244f16f84d18ece88345db7de9711ae7d21754d1d27309b799a47b45acfea1d0nat;
    let e25: nat = 2 * e24;
    lemma_pow_square(g, n, e24, x24, x25);
    let x26: nat = 0x1fd410d5bbb3a6cb50955796bb06bea94dd8b5416c52a55ddc2763a554a4218cnat;
    let e26: nat = 2 * e25;
    lemma_pow_square(g, n, e25, x25, x26);
    let x27: nat = 0x228d6923a7194842b12ab52d1e8a24b32c74c7d722b1c71c3adbfb378782804dnat;
    let e27: nat = 2 * e26;
    lemma_pow_square(g, n, e26, x26, x27);
    let x28: nat = 0x14c5f5328c88cf7526ffe5fa9c6373fb1f5a45f398e520aa54ddcd407b6bd235nat;
    let e28: nat = 2 * e27;
    lemma_pow_square(g, n, e27, x27, x28);
    let x29: nat = 0x2df4ae4884a5ee258ce4667d12b7b180071bf4896d858438bbb5731550697b7nat;
    let e29: nat = e28 + 1;
    lemma_pow_times(g, n, e28, x28, x29);
    let x30: nat = 0x168bb531c169434b4101b26ebf210380a63488e0bdb1bf81a8f5a228e7209cc4nat;
    let e30: nat = 2 * e29;
    lemma_pow_square(g, n, e29, x29, x30);
    let x31: nat = 0x21b437847094eaa8c7b4830a8f0414f4756bddc06ccef73d858f043cf9322010nat;
    let e31: nat = e30 + 1;
    lemma_pow_times(g, n, e30, x30, x31);
    let x32: nat = 0x1422063c696bece34810a6015d0da031e1c3c9212f3dc687b9f9af1560ca9c2fnat;
    let e32: nat = 2 * e31;
    lemma_pow_square(g, n, e31, x31, x32);
    let x33: nat = 0xadee0821f310f7790179a121115111de423d931aac96e640bba6d9b150462e3nat;
    let e33: nat = e32 + 1;
    lemma_pow_times(g, n, e32, x32, x33);
    let x34: nat = 0x6f1b081868dcbe21253bbceb8a5fcc10de3d957090a6d0379d857a66a27c1e1nat;
    let e34: nat = 2 * e33;
    lemma_pow_square(g, n, e33, x33, x34);
    let x35: nat = 0x23e137cd474b9e6920c36b741420e4af1235033f0c5224cccec1dc431e322e5dnat;
    let e35: nat = 2 * e34;
    lemma_pow_square(g, n, e34, x34, x35);
    let x36: nat = 0x1cfddccc59f9489e718198780af4401ea844599833c08126696bcbbd1fcfa109nat;
    let e36: nat = 2 * e35;
    lemma_pow_square(g, n, e35, x35, x36);
    let x37: nat = 0x86310c9bea3d22c160c0aba24ccd40c70ddb3bee3ec7d56c0a4b5aff3064a85nat;
    let e37: nat = e36 + 1;
    lemma_pow_times(g, n, e36, x36, x37);
    let x38: nat = 0x2c9246e4fd64495dd927b19da394d134d6f5dfd17a965be2798346c82bbaaaccnat;
    let e38: nat = 2 * e37;
    lemma_pow_square(g, n, e37, x37, x38);
    let x39: nat = 0x110eb7467f77b744cd6c213f92fc57987f9e694d577f0ab1e9669fbce291f82nat;
    let e39: nat = 2 * e38;
    lemma_pow_square(g, n, e38, x38, x39);
    let x40: nat = 0x6a018372fcc5b8bef37b2dc9b77e96bd2c7620fb630bc9e8d00b6327e77b71fnat;
    let e40: nat = e39 + 1;
    lemma_pow_times(g, n, e39, x39, x40);
    let x41: nat = 0xd793f1887f03e788abf00655216b718a38bad79f306103020d5bdd850b2f7abnat;
    let e41: nat = 2 * e40;
    lemma_pow_square(g, n, e40, x40, x41);
    let x42: nat = 0x5c96786ab47958aa95397921cbd01deb38cfee140bc1c7e8c32514f51f32136nat;
    let e42: nat = e41 + 1;
    lemma_pow_times(g, n, e41, x41, x42);
    let x43: nat = 0x2716dd6d6785eb638e0a65e87122389570b46f89ccf6f0cc1e7716eb37aa5587nat;
    let e43: nat = 2 * e42;
    lemma_pow_square(g, n, e42, x42, x43);
    let x44: nat = 0xa02f741b078502846adbba92e5426012c1bbac868a7df7cae3747f09890566dnat;
    let e44: nat = 2 * e43;
    lemma_pow_square(g, n, e43, x43, x44);
    let x45: nat = 0x6f542b598cf050dc5e45633ee25692dd79a2212059e9b9b2a40dd69d4c18b23nat;
    let e45: nat = e44 + 1;
    lemma_pow_times(g, n, e44, x44, x45);
    let x46: nat = 0x223dcefa55ea4c03cc0636d63edbe293dd4965e0edf4b035e499163daa024996nat;
    let e46: nat = 2 * e45;
    lemma_pow_square(g, n, e45, x45, x46);
    let x47: nat = 0x1ba5aca6c353e2662ace8ac2ace771d158712ab3df759d521090304f92b8ee01nat;
    let e47: nat = 2 * e46;
    lemma_pow_square(g, n, e46, x46, x47);
    let x48: nat = 0x77a41458566a8dd27ab42e3e3a9fc7ee11e1fcb1c4ead0c514d682e4a12a4a8nat;
    let e48: nat = 2 * e47;
    lemma_pow_square(g, n, e47, x47, x48);
}

proof fn lemma_modulus_power_3()
    ensures
        pow_mod(0x2bf7dc2ee696398928961394c6799d23b938f13e213ea4b6005e0e4d700a925anat, 0x97f63969a239d874nat, 0x30644e72e131a029b85045b68181585d2833e84879b9709143e1f593f0000001nat) == 0x1e00aeeb3e00f7cdaa77b41ed253027e811aff73ffb6d891870a19dbcd11efd9nat,
{
    let n: nat = 0x30644e72e131a029b85045b68181585d2833e84879b9709143e1f593f0000001nat;
    let g: nat = 0x2bf7dc2ee696398928961394c6799d23b938f13e213ea4b6005e0e4d700a925anat;
    let e0: nat = 2549496168nat;
    let x0: nat = 0x77a41458566a8dd27ab42e3e3a9fc7ee11e1fcb1c4ead0c514d682e4a12a4a8nat;
    lemma_modulus_power_2();
    let x1: nat = 0x23ee760527b8b4d75889d7a6f59b2d345e1d1b658d21c8d410f6f58b4834d2ednat;
    let e1: nat = e0 + 1;
    lemma_pow_times(g, n, e0, x0, x1);
    let x2: nat = 0x17f4447ab219a1bbbbb646bc5fdd6463d746ab56dab79ea16cdc34a10e7e1cc8nat;
    let e2: nat = 2 * e1;
    lemma_pow_square(g, n, e1, x1, x2);
    let x3: nat = 0x473f358cacbee613b0f914b2f70dac0a387b98685fccba68f38d3009cb2bbf3nat;
    let e3: nat = e2 + 1;
    lemma_pow_times(g, n, e2, x2, x3);
    let x4: nat = 0x10f1c412ac0a0c4a8b9843c8b00f2e6625c0a7c5764bde74c0a3622451e0f4f9nat;
    let e4: nat = 2 * e3;
    lemma_pow_square(g, n, e3, x3, x4);
    let x5: nat = 0x153aa3976be2a3c2c2ebe1ac2b018bed64a52cb3c6558d92eb58d10484ed969cnat;
    let e5: nat = 2 * e4;
    lemma_pow_square(g, n, e4, x4, x5);
    let x6: nat = 0x311c2271d175c52d6dd993113817882dc80aa0c3e1c0bc4ae5ae0cb8e21704anat;
    let e6: nat = e5 + 1;
    lemma_pow_times(g, n, e5, x5, x6);
    let x7: nat = 0x26b00fa0c35c3f5a0d0dfd4ffab5be0b6b4e6fde3d198b78fd5538bfd905972fnat;
    let e7: nat = 2 * e6;
    lemma_pow_square(g, n, e6, x6, x7);
    let x8: nat = 0x16bef1af7d584563e43886341643a92fc2b5c59cd5b7c7b1fa4a5771dff9aae6nat;
    let e8: nat = 2 * e7;
    lemma_pow_square(g, n, e7, x7, x8);
    let x9: nat = 0xadd2c51d3e9ec792a3dc9e17fde2ffe87829f599ce8a440225b20c2b4a4100nat;
    let e9: nat = 2 * e8;
    lemma_pow_square(g, n, e8, x8, x9);
    let x10: nat = 0x29d8b7df7845f7d0d29c05fa80054e32e8b68ac6b5b7fd52e5ba601bd0511aa5nat;
    let e10: nat = 2 * e9;
    lemma_pow_square(g, n, e9, x9, x10);
    let x11: nat = 0x1bb10268e846926fc44126860f01a915d1234dcd3630cd340f17d0fdd163de20nat;
    let e11: nat = e10 + 1;
    lemma_pow_times(g, n, e10, x10, x11);
    let x12: nat = 0xa0853a1e96eb864bc00acfc4a3ca937ae99af003b6437f0d0a1792d936b9982nat;
    let e12: nat = 2 * e11;
    lemma_pow_square(g, n, e11, x11, x12);
    let x13: nat = 0x2288c5fd51c8b2ccdb77ae8725ac7236ee0a79add75d92439adc0a09ecfa519nat;
    let e13: nat = 2 * e12;
    lemma_pow_square(g, n, e12, x12, x13);
    let x14: nat = 0x2e319468439a0ee21068f571f468d01650f592939883c86849cee5ec3773d08dnat;
    let e14: nat = 2 * e13;
    lemma_pow_square(g, n, e13, x13, x14);
    let x15: nat = 0xb2c3af1495541a029d8220081d2f58dd6ebfc8bafb65221eee6933ed35f40d0nat;
    let e15: nat = 2 * e14;
    lemma_pow_square(g, n, e14, x14, x15);
    let x16: nat = 0x2a9b99b4a86fd4805b2f95f88be1eff7d23ced768d7fb7cb077cf6118e12a7eanat;
    let e16: nat = e15 + 1;
    lemma_pow_times(g, n, e15, x15, x16);
    let x17: nat = 0x126462666cd5a09c19661fb8236d3b6b68ed2bded95fd4d7658e8655442d0d35nat;
    let e17: nat = 2 * e16;
    lemma_pow_square(g, n, e16, x16, x17);
    let x18: nat = 0xb0cc585835836b8347c8cec7ea00092397ce76da0476998ab241310893de89anat;
    let e18: nat = e17 + 1;
    lemma_pow_times(g, n, e17, x17, x18);
    let x19: nat = 0x1616c999bbe1c982f4f208b48d7a29acc28ae938964de9efd9fedd3e8b0635cnat;
    let e19: nat = 2 * e18;
    lemma_pow_square(g, n, e18, x18, x19);
    let x20: nat = 0x27c9b4e2e331a09d1e666a8fc79bbdc0ec554c5d948d96a29d1335eaa7376dd2nat;
    let e20: nat = e19 + 1;
    lemma_pow_times(g, n, e19, x19, x20);
    let x21: nat = 0x195d775b71aaa8f8b3ac1aeae67ee208b8bd7681e4e4f234492609f1cff6cadenat;
    let e21: nat = 2 * e20;
    lemma_pow_square(g, n, e20, x20, x21);
    let x22: nat = 0x2869c819989f81909d2db25a57430e0fcb1a0ca4d5a1ce53ef7791c570cf7442nat;
    let e22: nat = 2 * e21;
    lemma_pow_square(g, n, e21, x21, x22);
    let x23: nat = 0xe085ceb83af21ca79ade3215a40073cde5a1665fdf5d512aa75081516e769c3nat;
    let e23: nat = 2 * e22;
    lemma_pow_square(g, n, e22, x22, x23);
    let x24: nat = 0x925752d44523dfe20d0ef94f79e51e3280ad92ae878e974fa0559afb69ad50anat;
    let e24: nat = e23 + 1;
    lemma_pow_times(g, n, e23, x23, x24);
    let x25: nat = 0x18f11ef4c5030a0a6d0ab79249489c499e27ebc9e2a07cb7dc4e5e3c7c5992dnat;
    let e25: nat = 2 * e24;
    lemma_pow_square(g, n, e24, x24, x25);
    let x26: nat = 0x5d6ab08aa252564f59d4cd05b1819a46941675fab3fb0b8156e296474db8ccanat;
    let e26: nat = e25 + 1;
    lemma_pow_times(g, n, e25, x25, x26);
    let x27: nat = 0x1ecad220c096aa36111b86f4cbb024b134363ec642986471ef0d61ce3e1da3e2nat;
    let e27: nat = 2 * e26;
    lemma_pow_square(g, n, e26, x26, x27);
    let x28: nat = 0x130a0b7227317c00f56fbf3f9cca5b8f4025ac1b315393046546692bde606711nat;
    let e28: nat = e27 + 1;
    lemma_pow_times(g, n, e27, x27, x28);
    let x29: nat = 0x5ef0ca01ae00f4bfef570d84cdc6bed15832da9e7b418da532ee2ff2d295fe3nat;
    let e29: nat = 2 * e28;
    lemma_pow_square(g, n, e28, x28, x29);
    let x30: nat = 0x12b56a28a6249776ee7109a7efe08c1c6d44763bf0df35c078694b9787de5063nat;
    let e30: nat = 2 * e29;
    lemma_pow_square(g, n, e29, x29, x30);
    let x31: nat = 0x2d2967cd1fffac56ec9829ad1da3f10d096c94dc89672377c056988b75f3bd5cnat;
    let e31: nat = e30 + 1;
    lemma_pow_times(g, n, e30, x30, x31);
    let x32: nat = 0x1c0883833fbbd21a8783da01bb0ea851d3535bfdc38efd3e9b20c65439c605f5nat;
    let e32: nat = 2 * e31;
    lemma_pow_square(g, n, e31, x31, x32);
    let x33: nat = 0xe196b06785e1015f8544d878031531be4284276dee92acb13b790b9c17a3f0cnat;
    let e33: nat = e32 + 1;
    lemma_pow_times(g, n, e32, x32, x33);
    let x34: nat = 0x1abebd8dd36de33bf6f4e06589cd8da89faa186d42cc708760508fa6d6fe800anat;
    let e34: nat = 2 * e33;
    lemma_pow_square(g, n, e33, x33, x34);
    let x35: nat = 0xf7e1aab12161f5ebab3ee4b847c7443e76c1f1dc4709199e786b4b581f2ec82nat;
    let e35: nat = 2 * e34;
    lemma_pow_square(g, n, e34, x34, x35);
    let x36: nat = 0x2d9e1aae5b816fa41e062d86154cbd74763627b201fa5ef632529a8d67b22d10nat;
    let e36: nat = 2 * e35;
    lemma_pow_square(g, n, e35, x35, x36);
    let x37: nat = 0x917f113b4c7fdcae9c5e9f2dcfd65653111ec0b9590118167c516e089b026b6nat;
    let e37: nat = 2 * e36;
    lemma_pow_square(g, n, e36, x36, x37);
    let x38: nat = 0x383dccb211890079e84bead077c6e7721cd612c69d77f56fa264f9f5d47ba32nat;
    let e38: nat = 2 * e37;
    lemma_pow_square(g, n, e37, x37, x38);
    let x39: nat = 0x2d5652ae93f19b0d60b1d8ca0a301a7bb2a417480d24f45253acd3c6ea74cfd8nat;
    let e39: nat = e38 + 1;
    lemma_pow_times(g, n, e38, x38, x39);
    let x40: nat = 0x2c093f646801eb486a98985ba631981f744343e9afd13f9a7d4271d4c2648c61nat;
    let e40: nat = 2 * e39;
    lemma_pow_square(g, n, e39, x39, x40);
    let x41: nat = 0x12657cafbacd027982b0737df43b880aede28bcd15ccb780ea0ce34b64775d0anat;
    let e41: nat = e40 + 1;
    lemma_pow_times(g, n, e40, x40, x41);
    let x42: nat = 0x6add92fd1c502761ce9c2e764dce14c1439a9a7db9962a3f0397f537e9356e8nat;
    let e42: nat = 2 * e41;
    lemma_pow_square(g, n, e41, x41, x42);
    let x43: nat = 0x239f9d6a3c89e51f9762c4782b5d6025e9f6e783cda83bf63c0f98e947abf989nat;
    let e43: nat = e42 + 1;
    lemma_pow_times(g, n, e42, x42, x43);
    let x44: nat = 0x10e932e329587ea36884041e89c298fa07398a9183f4472c6b9563cd1a289975nat;
    let e44: nat = 2 * e43;
    lemma_pow_square(g, n, e43, x43, x44);
    let x45: nat = 0x52a25192ec66c9ac8f6a7792f3d086cb84e0732f2691dc879ebaef5e1b82dadnat;
    let e45: nat = 2 * e44;
    lemma_pow_square(g, n, e44, x44, x45);
    let x46: nat = 0x207b0347f5e67e98045280ad26bbd2dc03586f23889f7d822ad10f2c6e493ecenat;
    let e46: nat = e45 + 1;
    lemma_pow_times(g, n, e45, x45, x46);
    let x47: nat = 0x1cbc0225981e9dbbf0900ec985c76b428e065fdfccd45bc2fa73d52757cf4021nat;
    let e47: nat = 2 * e46;
    lemma_pow_square(g, n, e46, x46, x47);
    let x48: nat = 0x1e00aeeb3e00f7cdaa77b41ed253027e811aff73ffb6d891870a19dbcd11efd9nat;
    let e48: nat = 2 * e47;
    lemma_pow_square(g, n, e47, x47, x48);
}

proof fn lemma_modulus_power_4()
    ensures
        pow_mod(0x2bf7dc2ee696398928961394c6799d23b938f13e213ea4b6005e0e4d700a925anat, 0x4bfb1cb4d11cec3a76b2a68enat, 0x30644e72e131a029b85045b68181585d2833e84879b9709143e1f593f0000001nat) == 0x1cb3adfbcc25e49ca582111c94fbdf9dbca956e1e26d7d1adacae8a1211b0891nat,
{
    let n: nat = 0x30644e72e131a029b85045b68181585d2833e84879b9709143e1f593f0000001nat;
    let g: nat = 0x2bf7dc2ee696398928961394c6799d23b938f13e213ea4b6005e0e4d700a925anat;
    let e0: nat = 0x97f63969a239d874nat;
    let x0: nat = 0x1e00aeeb3e00f7cdaa77b41ed253027e811aff73ffb6d891870a19dbcd11efd9nat;
    lemma_modulus_power_3();
    let x1: nat = 0x4aa6328a962100894a33ed985ceddf0ce915837ba88a0df72c106740c66f7c8nat;
    let e1: nat = 2 * e0;
    lemma_pow_square(g, n, e0, x0, x1);
    let x2: nat = 0xd39690f9d92c8969d8a10a6d0ae5ce05753d5c35052a56ed6bc7bdeb3e7a321nat;
    let e2: nat = e1 + 1;
    lemma_pow_times(g, n, e1, x1, x2);
    let x3: nat = 0xa740619b3fdfa234c721246f26751f816a38e02570d50662156060b8a216f6nat;
    let e3: nat = 2 * e2;
    lemma_pow_square(g, n, e2, x2, x3);
    let x4: nat = 0x9b2da4f73e5438bae693ecd4fa388db4e1fe49ca441376fa0953cb76c319bnat;
    let e4: nat = e3 + 1;
    lemma_pow_times(g, n, e3, x3, x4);
    let x5: nat = 0xf31e7353265b5e7e67992c60b8828fc74183bdec86c9e0ef2110a1b5c13a98anat;
    let e5: nat = 2 * e4;
    lemma_pow_square(g, n, e4, x4, x5);
    let x6: nat = 0xffff22b523910e1d770971f184b07cffb3bf73afc374e8dcecf10380ee6c09anat;
    let e6: nat = e5 + 1;
    lemma_pow_times(g, n, e5, x5, x6);
    let x7: nat = 0x11d20b4ffa8355b01809ec63963fd34e7388e53408b2c4267edf0993988a6625nat;
    let e7: nat = 2 * e6;
    lemma_pow_square(g, n, e6, x6, x7);
    let x8: nat = 0x129d7aa6209dcbedcc6885fb53c559a76d251026551ecf54cf4169ba44495824nat;
    let e8: nat = 2 * e7;
    lemma_pow_square(g, n, e7, x7, x8);
    let x9: nat = 0x17a525a22be405977945a897585d8aad0407c218b1b2c14afefdf5d2a05c546bnat;
    let e9: nat = e8 + 1;
    lemma_pow_times(g, n, e8, x8, x9);
    let x10: nat = 0x180daeb618bf6e765775436b17207bee823666bc2485f20e89bd447c21bbf76anat;
    let e10: nat = 2 * e9;
    lemma_pow_square(g, n, e9, x9, x10);
    let x11: nat = 0x2256737990c9c970261376bfe32f0c95c2feacff8768cc515f3e506a692e91nat;
    let e11: nat = e10 + 1;
    lemma_pow_times(g, n, e10, x10, x11);
    let x12: nat = 0x1fc926a0786ff27548f4d67004c94ab7078da11013dfef3dd06351be0e240226nat;
    let e12: nat = 2 * e11;
    lemma_pow_square(g, n, e11, x11, x12);
    let x13: nat = 0x2e692798323dd79d4ebbfd404890bb9171f724f2648e8ce2f0d6a8eaa3c62aanat;
    let e13: nat = 2 * e12;
    lemma_pow_square(g, n, e12, x12, x13);
    let x14: nat = 0x635202df0ebc4ea8a28eab38808956ef7dc98e1db6c1138a7891c9851ae712cnat;
    let e14: nat = e13 + 1;
    lemma_pow_times(g, n, e13, x13, x14);
    let x15: nat = 0x4377db2686815ca5f65d5af9c568f36fe541c9fea28bbc1bc5ebec6b2fe2f1cnat;
    let e15: nat = 2 * e14;
    lemma_pow_square(g, n, e14, x14, x15);
    let x16: nat = 0x5cb5e475a3c36435c469a5036fbda1793e99e7fb0e5c03c36e1cbb468c655canat;
    let e16: nat = 2 * e15;
    lemma_pow_square(g, n, e15, x15, x16);
    let x17: nat = 0x3a992b0a8816ecd458cdf4a0bb11a634aa18ad4b5b6d99c0160dddae73b92f6nat;
    let e17: nat = e16 + 1;
    lemma_pow_times(g, n, e16, x16, x17);
    let x18: nat = 0x1fe568cca66360ee4521bafa777d030f27a3c85299ac41658d95eee6fe5d597nat;
    let e18: nat = 2 * e17;
    lemma_pow_square(g, n, e17, x17, x18);
    let x19: nat = 0x2836a57c0653427d570f55241ec8898aea37ceae2d138d8373d6cd16cbe722f6nat;
    let e19: nat = e18 + 1;
    lemma_pow_times(g, n, e18, x18, x19);
    let x20: nat = 0x1537ee937d24e34a33c74b0fa2f2f07a4455a5e4be2b7fe829f1510066d4d20cnat;
    let e20: nat = 2 * e19;
    lemma_pow_square(g, n, e19, x19, x20);
    let x21: nat = 0x11f7f7cd9d2bc589b9ca85e051977c70d658312212bb6e0e8de2780f6829cd2nat;
    let e21: nat = 2 * e20;
    lemma_pow_square(g, n, e20, x20, x21);
    let x22: nat = 0x24d9ba8322a5cc30f19eed008abeeaed19de3509f26a1e220eaaf28c62c0048fnat;
    let e22: nat = 2 * e21;
    lemma_pow_square(g, n, e21, x21, x22);
    let x23: nat = 0x200210f7dff3dc14f5786146ee563efab3d8b9de3a4a532bbffd707057b0b601nat;
    let e23: nat = e22 + 1;
    lemma_pow_times(g, n, e22, x22, x23);
    let x24: nat = 0xb5c20824f71d65ecd9c0405d615acdb086fc08e7a69e668a4e255f3ef3ad890nat;
    let e24: nat = 2 * e23;
    lemma_pow_square(g, n, e23, x23, x24);
    let x25: nat = 0x1999cb73beb42faca3365cb8077ff5247b42f00ddceb917c05095f97e92b7fnat;
    let e25: nat = 2 * e24;
    lemma_pow_square(g, n, e24, x24, x25);
    let x26: nat = 0x1e78f908e5be5daead650fd80f87d65e602e1f5b9ba09ba31b556f0931bbdb5enat;
    let e26: nat = e25 + 1;
    lemma_pow_times(g, n, e25, x25, x26);
    let x27: nat = 0x197e9485c07a3c774b921a90e908ceb0f1502c950dff736736edaf2d01d979d7nat;
    let e27: nat = 2 * e26;
    lemma_pow_square(g, n, e26, x26, x27);
    let x28: nat = 0x26bedacfe6eba1fe04e84a86d68c5225ebe1ec90287c7767d60baa96a0dace8cnat;
    let e28: nat = 2 * e27;
    lemma_pow_square(g, n, e27, x27, x28);
    let x29: nat = 0x27347a4049a5d4e24a08dbf9764f6b075240524f9a989ebc1a05fcde4ea37941nat;
    let e29: nat = e28 + 1;
    lemma_pow_times(g, n, e28, x28, x29);
    let x30: nat = 0xd38436a1d7e4a7e7677f8dfecc699cf2d74bc398253f56d77e10fa6455d2d8nat;
    let e30: nat = 2 * e29;
    lemma_pow_square(g, n, e29, x29, x30);
    let x31: nat = 0x2ad965dbfc6d207ac953fa5ce1c2aebc6492b18923735129d6c3fbff95e5cfbdnat;
    let e31: nat = 2 * e30;
    lemma_pow_square(g, n, e30, x30, x31);
    let x32: nat = 0xa09e93c6d7d4dea1c3096aa47e51910bbec118f99188b56d5d3afed0953486fnat;
    let e32: nat = 2 * e31;
    lemma_pow_square(g, n, e31, x31, x32);
    let x33: nat = 0xabbf62f957fe0bcc66bec5f1137eaf2acc81bc02bd26614bdc76e2d2e666c53nat;
    let e33: nat = e32 + 1;
    lemma_pow_times(g, n, e32, x32, x33);
    let x34: nat = 0x16d868395134653dc0c683e5f2a184411d225b14863383f4926f1f3355c305f2nat;
    let e34: nat = 2 * e33;
    lemma_pow_square(g, n, e33, x33, x34);
    let x35: nat = 0x17d7eaa68aa36202f87c05b692076930c13c554d96319be6004ed69b31cc4f6anat;
    let e35: nat = e34 + 1;
    lemma_pow_times(g, n, e34, x34, x35);
    let x36: nat = 0x70a2c643348edae4ca21e1260a43cad83381e6997afed37806016ba0dae54e0nat;
    let e36: nat = 2 * e35;
    lemma_pow_square(g, n, e35, x35, x36);
    let x37: nat = 0x1b2433816efc07113d087cf297875711d924584b6293c2ea1538074c00c6b1d3nat;
    let e37: nat = 2 * e36;
    lemma_pow_square(g, n, e36, x36, x37);
    let x38: nat = 0x1b27a562a68f6837154f94646c0b424792674c93c97b003fb78ffb8d9fcd3171nat;
    let e38: nat = e37 + 1;
    lemma_pow_times(g, n, e37, x37, x38);
    let x39: nat = 0x87c752243a79f7770e3b0e6f473c18a9e2dea9c4b4a72c2a8664ec88bea500fnat;
    let e39: nat = 2 * e38;
    lemma_pow_square(g, n, e38, x38, x39);
    let x40: nat = 0xdbd071735f9b05cd465aa726b0a8da3a488aed1f0836acedb5c1180bb4d55fdnat;
    let e40: nat = 2 * e39;
    lemma_pow_square(g, n, e39, x39, x40);
    let x41: nat = 0x8d80f22e2e70190f6cf727b892be7ae17825572ca5b4e4e8d0063f0597c38efnat;
    let e41: nat = 2 * e40;
    lemma_pow_square(g, n, e40, x40, x41);
    let x42: nat = 0xe1132d39d23db42249b6d827a19ba6fb903cc90fa5052260a6297cf55c89086nat;
    let e42: nat = 2 * e41;
    lemma_pow_square(g, n, e41, x41, x42);
    let x43: nat = 0x1011f53cd0554e87562da5a6671a9577d79a531322d4172cec648d48d904d7bfnat;
    let e43: nat = e42 + 1;
    lemma_pow_times(g, n, e42, x42, x43);
    let x44: nat = 0x1b45b611973d388925fd414a13f751b9ba0e90c374858c0c929ffcebd186014fnat;
    let e44: nat = 2 * e43;
    lemma_pow_square(g, n, e43, x43, x44);
    let x45: nat = 0xb8bcafaa448b8c69f81c97253e1a4c30b1e1a6cf5e8c2ed35d3675a12efffb2nat;
    let e45: nat = e44 + 1;
    lemma_pow_times(g, n, e44, x44, x45);
    let x46: nat = 0xbf7898087c3eb50f73a6366e9be17c2f6aa4802b753cb26b47df69a240cbd27nat;
    let e46: nat = 2 * e45;
    lemma_pow_square(g, n, e45, x45, x46);
    let x47: nat = 0x3011fa3b87df0a61209b4e634d8463558d976c8d40d4373d4153247d3e340617nat;
    let e47: nat = e46 + 1;
    lemma_pow_times(g, n, e46, x46, x47);
    let x48: nat = 0x1cb3adfbcc25e49ca582111c94fbdf9dbca956e1e26d7d1adacae8a1211b0891nat;
    let e48: nat = 2 * e47;
    lemma_pow_square(g, n, e47, x47, x48);
}

proof fn lemma_modulus_power_5()
    ensures
        pow_mod(0x2bf7dc2ee696398928961394c6799d23b938f13e213ea4b6005e0e4d700a925anat, 0x12fec72d34473b0e9daca9a3ed41bnat, 0x30644e72e131a029b85045b68181585d2833e84879b9709143e1f593f0000001nat) == 0xd29c4192a3362896c9481f76803e818fa5d55ca5bc7b78a0a5c7164aa2998nat,
{
    let n: nat = 0x30644e72e131a029b85045b68181585d2833e84879b9709143e1f593f0000001nat;
    let g: nat = 0x2bf7dc2ee696398928961394c6799d23b938f13e213ea4b6005e0e4d700a925anat;
    let e0: nat = 0x4bfb1cb4d11cec3a76b2a68enat;
    let x0: nat = 0x1cb3adfbcc25e49ca582111c94fbdf9dbca956e1e26d7d1adacae8a1211b0891nat;
    lemma_modulus_power_4();
    let x1: nat = 0x2eec45c04bd50e94d2bf7336f65c4f1d481cea6f6cc9a58c91e60290102997a8nat;
    let e1: nat = e0 + 1;
    lemma_pow_times(g, n, e0, x0, x1);
    let x2: nat = 0xf47924825831392aa3664885d88811dba796a263f8cc077fe02250a11ef0038nat;
    let e2: nat = 2 * e1;
    lemma_pow_square(g, n, e1, x1, x2);
    let x3: nat = 0xb264175e85bcbda01f44d79205087acfd93b31781c2572ace27c7aa430c1a4fnat;
    let e3: nat = e2 + 1;
    lemma_pow_times(g, n, e2, x2, x3);
    let x4: nat = 0x26c5703712313e7af4eb355a18c20e819a59d104fc25e357bae075b0cbe61749nat;
    let e4: nat = 2 * e3;
    lemma_pow_square(g, n, e3, x3, x4);
    let x5: nat = 0x11b5add9a1b7761134ee5b77ad30c166bb79f6973aace85615d791e2caa10a2fnat;
    let e5: nat = 2 * e4;
    lemma_pow_square(g, n, e4, x4, x5);
    let x6: nat = 0xb46a89b6f87c0b8b759b098df0c258f6b6cfaacdf21277a006425cc4c7f8c86nat;
    let e6: nat = e5 + 1;
    lemma_pow_times(g, n, e5, x5, x6);
    let x7: nat = 0x1b86b7fb2257bd8fc2989f7cbebfcda26a97ed150b7c48dfb95872c91333745bnat;
    let e7: nat = 2 * e6;
    lemma_pow_square(g, n, e6, x6, x7);
    let x8: nat = 0x1b1298961ccd1315515b1275f29a9042ae6797ec813f00bf735660518676dfbfnat;
    let e8: nat = e7 + 1;
    lemma_pow_times(g, n, e7, x7, x8);
    let x9: nat = 0x1436e3402d58ebb5cd58c5834d7179063a76d017c0dceaed851260ee8ecbbfc2nat;
    let e9: nat = 2 * e8;
    lemma_pow_square(g, n, e8, x8, x9);
    let x10: nat = 0x29714d88fa4f1dee2bc6a1caa8c34a9ff0a9ccf061a6c3d52557cb5a04dd88bcnat;
    let e10: nat = 2 * e9;
    lemma_pow_square(g, n, e9, x9, x10);
    let x11: nat = 0x29cb01c6cf595cd01e15864a042f9aaffbd15cc0da3ce76f144b6b4d80be02efnat;
    let e11: nat = e10 + 1;
    lemma_pow_times(g, n, e10, x10, x11);
    let x12: nat = 0x1b8223fb2bcdbf44fd9398aa09f45cc641df38a6f8ea2e73222f2723549fe55bnat;
    let e12: nat = 2 * e11;
    lemma_pow_square(g, n, e11, x11, x12);
    let x13: nat = 0x18b4c0904c762b26c143054af8846e7022218c143698b897cbf028c5ad1bf5fnat;
    let e13: nat = 2 * e12;
    lemma_pow_square(g, n, e12, x12, x13);
    let x14: nat = 0x2c7055f644db7365b0e562c7aee3916c6bf3c450f9d314a7ebccddd8b619dee5nat;
    let e14: nat = e13 + 1;
    lemma_pow_times(g, n, e13, x13, x14);
    let x15: nat = 0x252635ca4a58b91d36118cec41580d56866f34122b10433ae5ac9035ac78c80fnat;
    let e15: nat = 2 * e14;
    lemma_pow_square(g, n, e14, x14, x15);
    let x16: nat = 0x33fa6b3a01012ce5949acfaa53b874eddb1540c2803dc15d65b6289afcea42nat;
    let e16: nat = 2 * e15;
    lemma_pow_square(g, n, e15, x15, x16);
    let x17: nat = 0x23a2a21ca40b7eb0a0fa58121c7e5ab62fc5e1cac52c486aebc69f187a57874cnat;
    let e17: nat = 2 * e16;
    lemma_pow_square(g, n, e16, x16, x17);
    let x18: nat = 0x20478712f3259ee0d397267821c201fa6ba518683cd1ada99bef746cfca9daf5nat;
    let e18: nat = 2 * e17;
    lemma_pow_square(g, n, e17, x17, x18);
    let x19: nat = 0x242a0fc49801c1199216205edfda9e739ba272d8429bed2baba72df09559e9b2nat;
    let e19: nat = 2 * e18;
    lemma_pow_square(g, n, e18, x18, x19);
    let x20: nat = 0xa7c3fe86e5e869d24f673d1fcb88598b22789bfa25d02acf435a3064f5c44abnat;
    let e20: nat = 2 * e19;
    lemma_pow_square(g, n, e19, x19, x20);
    let x21: nat = 0x299197997ea7f9350696693e121508ab4dd08e9cfb68c11db06a36607e60641nat;
    let e21: nat = e20 + 1;
    lemma_pow_times(g, n, e20, x20, x21);
    let x22: nat = 0xd147f4bb0c1f0c75ddc6ca28800a737f8b243fe55e5f3b95fb4908d0db42655nat;
    let e22: nat = 2 * e21;
    lemma_pow_square(g, n, e21, x21, x22);
    let x23: nat = 0x1b3d19e41736ae16d7ace5bd9e237885eea1136cc8eac47c50877033fb23811fnat;
    let e23: nat = e22 + 1;
    lemma_pow_times(g, n, e22, x22, x23);
    let x24: nat = 0xd3a1ef5b8be3a9b288162ae44ae44b9026ce1fe7a3e4a67239d8e3688fce217nat;
    let e24: nat = 2 * e23;
    lemma_pow_square(g, n, e23, x23, x24);
    let x25: nat = 0x18fee9f4711028d1a567d5401f5b3aa9d56ff702edbc1052f1cb21824e5800fcnat;
    let e25: nat = 2 * e24;
    lemma_pow_square(g, n, e24, x24, x25);
    let x26: nat = 0x1bded900a4150a21f41ee8803f3495f51789949f598a6b51b0c0d04e8184acfanat;
    let e26: nat = e25 + 1;
    lemma_pow_times(g, n, e25, x25, x26);
    let x27: nat = 0x1ca50308e828c10aca83ebd8403ecf49ce0e3a13af6e42b259c57516cb7da94bnat;
    let e27: nat = 2 * e26;
    lemma_pow_square(g, n, e26, x26, x27);
    let x28: nat = 0xd29c4192a3362896c9481f76803e818fa5d55ca5bc7b78a0a5c7164aa2998nat;
    let e28: nat = e27 + 1;
    lemma_pow_times(g, n, e27, x27, x28);
}

proof fn lemma_modulus_raise_1()
    ensures
        pow_mod(5nat, 0x1c7e2ac3ce6ad895ec82fe75e3e288000000nat, 0x30644e72e131a029b85045b68181585d2833e84879b9709143e1f593f0000001nat) == 0xd29c4192a3362896c9481f76803e818fa5d55ca5bc7b78a0a5c7164aa2998nat,
{
    lemma_modulus_power_1();
    lemma_modulus_power_5();
    lemma_pow_raise(5nat, 0x30644e72e131a029b85045b68181585d2833e84879b9709143e1f593f0000001nat, 402653184nat, 0x2bf7dc2ee696398928961394c6799d23b938f13e213ea4b6005e0e4d700a925anat, 0x12fec72d34473b0e9daca9a3ed41bnat, 0xd29c4192a3362896c9481f76803e818fa5d55ca5bc7b78a0a5c7164aa2998nat, 0x1c7e2ac3ce6ad895ec82fe75e3e288000000nat);
}

proof fn lemma_modulus_power_6()
    ensures
        pow_mod(0xd29c4192a3362896c9481f76803e818fa5d55ca5bc7b78a0a5c7164aa2998nat, 638174nat, 0x30644e72e131a029b85045b68181585d2833e84879b9709143e1f593f0000001nat) == 0x111ce6c4ffe84db106cb32817a46e1af1c3c8053e4d74d6ad44430556c06764anat,
{
    let n: nat = 0x30644e72e131a029b85045b68181585d2833e84879b9709143e1f593f0000001nat;
    let g: nat = 0xd29c4192a3362896c9481f76803e818fa5d55ca5bc7b78a0a5c7164aa2998nat;
    let e0: nat = 1nat;
    let x0: nat = 0xd29c4192a3362896c9481f76803e818fa5d55ca5bc7b78a0a5c7164aa2998nat;
    lemma_pow_first(g, n, x0);
    let x1: nat = 0x1bf8a4e373c6afaf9296a8aa31cc610c6adb50015d2e4ddf75df53b2b945020dnat;
    let e1: nat = 2 * e0;
    lemma_pow_square(g, n, e0, x0, x1);
    let x2: nat = 0xfabd985f73dad82fa681c79bedc94ad22407b275b43e40d6eac8a37e702aeabnat;
    let e2: nat = 2 * e1;
    lemma_pow_square(g, n, e1, x1, x2);
    let x3: nat = 0x28e2843ea4198f7817106f5592612176da45c74a8ab417430705e59b536ace53nat;
    let e3: nat = 2 * e2;
    lemma_pow_square(g, n, e2, x2, x3);
    let x4: nat = 0x1221404d22a0505635c15fb815f80f025307252051e3b1e6cf5fdc468f3b84a3nat;
    let e4: nat = e3 + 1;
    lemma_pow_times(g, n, e3, x3, x4);
    let x5: nat = 0x1b4fb09231eec64c817c0b0d572606b81fe2dfb85027c7c4ee49a246a3c269fbnat;
    let e5: nat = 2 * e4;
    lemma_pow_square(g, n, e4, x4, x5);
    let x6: nat = 0x1f16831f631d87eff4203a8e0680ca2a2ab66ea40ce2e15c52bb659c194fc5e5nat;
    let e6: nat = e5 + 1;
    lemma_pow_times(g, n, e5, x5, x6);
    let x7: nat = 0x8f89f3416b58304d78458a456aa0895becb2a0dc2b33c12c5a0949d443c375nat;
    let e7: nat = 2 * e6;
    lemma_pow_square(g, n, e6, x6, x7);
    let x8: nat = 0x23a086e09f7315fc1550a4ffe7c04357819e7a1fa73562962e57047e47ebfa35nat;
    let e8: nat = 2 * e7;
    lemma_pow_square(g, n, e7, x7, x8);
    let x9: nat = 0x24bfaf78d4a0e2644b89539cf13d5884a36c268c886356aedda51905dd5d1b45nat;
    let e9: nat = e8 + 1;
    lemma_pow_times(g, n, e8, x8, x9);
    let x10: nat = 0x1f24a5ffa6ed16466f67bc04196e22b504cba2a39336550897030f2b025cbce9nat;
    let e10: nat = 2 * e9;
    lemma_pow_square(g, n, e9, x9, x10);
    let x11: nat = 0x256547a1b926adcd31e65dbfa202a501c127703d2192f9b37db9ae92da7239c4nat;
    let e11: nat = e10 + 1;
    lemma_pow_times(g, n, e10, x10, x11);
    let x12: nat = 0x20c6f18715b78be739f83e83be52b8961faf8388672e27220e0c9e6870cc58fbnat;
    let e12: nat = 2 * e11;
    lemma_pow_square(g, n, e11, x11, x12);
    let x13: nat = 0x2b5fff42e84594bca45d4d6808f0d4128dd2df7f3690b23a8edcf1c5e92f43d4nat;
    let e13: nat = e12 + 1;
    lemma_pow_times(g, n, e12, x12, x13);
    let x14: nat = 0x1eba564fbbce2ad8b895f065d88ca08f75981a2a7b73c365bafb931e8e2a404nat;
    let e14: nat = 2 * e13;
    lemma_pow_square(g, n, e13, x13, x14);
    let x15: nat = 0x1a134e45ece693fd183d62154a3de7b6155ec9e7333cedc8f3119d0a313f7fb7nat;
    let e15: nat = e14 + 1;
    lemma_pow_times(g, n, e14, x14, x15);
    let x16: nat = 0x1391f6878f371b3a79d1cb091ccf383b40837c77fec42994a1f99a02002dcca2nat;
    let e16: nat = 2 * e15;
    lemma_pow_square(g, n, e15, x15, x16);
    let x17: nat = 0x24d5e4ddae785ae2b32feecd2cbf030248305a1218edc9dddfb6dfc7a1724befnat;
    let e17: nat = 2 * e16;
    lemma_pow_square(g, n, e16, x16, x17);
    let x18: nat = 0x2b8269c67e6ad8c422405b12c0e69622f44bf5c592b282e507979d4d591bdcf9nat;
    let e18: nat = 2 * e17;
    lemma_pow_square(g, n, e17, x17, x18);
    let x19: nat = 0x113f270b5a1c7777fd684b19a0eddc4c8b59f2300cd434df20c52e0a163448d7nat;
    let e19: nat = e18 + 1;
    lemma_pow_times(g, n, e18, x18, x19);
    let x20: nat = 0x134bc39abcae06338b270ee60980b81599b1e4db0e5548c9e8ce211d49fe4f86nat;
    let e20: nat = 2 * e19;
    lemma_pow_square(g, n, e19, x19, x20);
    let x21: nat = 0x1bfbeb2375814366abfb6a31be16d8c8579e41be9c2edb5aba2ad3cf00849ea4nat;
    let e21: nat = e20 + 1;
    lemma_pow_times(g, n, e20, x20, x21);
    let x22: nat = 0x8c2dd2f03eb67d7f1fa354d533b8b028889de3f71e64f2be74e3cef0f21f0c2nat;
    let e22: nat = 2 * e21;
    lemma_pow_square(g, n, e21, x21, x22);
    let x23: nat = 0x251f50949856cd38077c75bc22a582c4fa0c3d10c6ca7613d5e0fce96b40e052nat;
    let e23: nat = 2 * e22;
    lemma_pow_square(g, n, e22, x22, x23);
    let x24: nat = 0x12a6cf2b27ce37310e12cf1f9a693371112051a66f0a739368ba3d0d137ec08bnat;
    let e24: nat = e23 + 1;
    lemma_pow_times(g, n, e23, x23, x24);
    let x25: nat = 0x99b4ccec5d464366b500ca95d354498c5c6bbbd9834d83234239ea26a0fa52bnat;
    let e25: nat = 2 * e24;
    lemma_pow_square(g, n, e24, x24, x25);
    let x26: nat = 0x1018931d2eecb24591ca1b56ddd101604173e67fd56c847a2ef90918a43c3a54nat;
    let e26: nat = e25 + 1;
    lemma_pow_times(g, n, e25, x25, x26);
    let x27: nat = 0x20d07096dc63b51b4ef60e0d697b014b77ecb19160c67cfa3aca9c28c1086d2bnat;
    let e27: nat = 2 * e26;
    lemma_pow_square(g, n, e26, x26, x27);
    let x28: nat = 0x1cd4b13d5153b8f30df9126506d4389ee843a7204dcc106d71d5d6ff8d30cec9nat;
    let e28: nat = e27 + 1;
    lemma_pow_times(g, n, e27, x27, x28);
    let x29: nat = 0x13a53ae579949008b86f82e0359e612d07841ad58b41e1e826b859614bed5d96nat;
    let e29: nat = 2 * e28;
    lemma_pow_square(g, n, e28, x28, x29);
    let x30: nat = 0x28e5529df2512a82c88f25060931efa23bbf0e39a52a0373f6cece2b472e1690nat;
    let e30: nat = e29 + 1;
    lemma_pow_times(g, n, e29, x29, x30);
    let x31: nat = 0x111ce6c4ffe84db106cb32817a46e1af1c3c8053e4d74d6ad44430556c06764anat;
    let e31: nat = 2 * e30;
    lemma_pow_square(g, n, e30, x30, x31);
}

proof fn lemma_modulus_raise_2()
    ensures
        pow_mod(5nat, 0x11574ddb3232514fb3c4e3e9c408cc251f0000000nat, 0x30644e72e131a029b85045b68181585d2833e84879b9709143e1f593f0000001nat) == 0x111ce6c4ffe84db106cb32817a46e1af1c3c8053e4d74d6ad44430556c06764anat,
{
    lemma_modulus_raise_1();
    lemma_modulus_power_6();
    lemma_pow_raise(5nat, 0x30644e72e131a029b85045b68181585d2833e84879b9709143e1f593f0000001nat, 0x1c7e2ac3ce6ad895ec82fe75e3e288000000nat, 0xd29c4192a3362896c9481f76803e818fa5d55ca5bc7b78a0a5c7164aa2998nat, 638174nat, 0x111ce6c4ffe84db106cb32817a46e1af1c3c8053e4d74d6ad44430556c06764anat, 0x11574ddb3232514fb3c4e3e9c408cc251f0000000nat);
}

proof fn lemma_modulus_power_7()
    ensures
        pow_mod(0xd29c4192a3362896c9481f76803e818fa5d55ca5bc7b78a0a5c7164aa2998nat, 0x1653243e7nat, 0x30644e72e131a029b85045b68181585d2833e84879b9709143e1f593f0000001nat) == 0xfd1d0624ce9fad0d9db36ee57dade269ea755ce577ee3a651ded6285610406anat,
{
    let n: nat = 0x30644e72e131a029b85045b68181585d2833e84879b9709143e1f593f0000001nat;
    let g: nat = 0xd29c4192a3362896c9481f76803e818fa5d55ca5bc7b78a0a5c7164aa2998nat;
    let e0: nat = 1nat;
    let x0: nat = 0xd29c4192a3362896c9481f76803e818fa5d55ca5bc7b78a0a5c7164aa2998nat;
    lemma_pow_first(g, n, x0);
    let x1: nat = 0x1bf8a4e373c6afaf9296a8aa31cc610c6adb50015d2e4ddf75df53b2b945020dnat;
    let e1: nat = 2 * e0;
    lemma_pow_square(g, n, e0, x0, x1);
    let x2: nat = 0xfabd985f73dad82fa681c79bedc94ad22407b275b43e40d6eac8a37e702aeabnat;
    let e2: nat = 2 * e1;
    lemma_pow_square(g, n, e1, x1, x2);
    let x3: nat = 0xd47d3cff91bc4af42b2fc641de0bc8c557bf4d1cd47dd98caaace6d7be38438nat;
    let e3: nat = e2 + 1;
    lemma_pow_times(g, n, e2, x2, x3);
    let x4: nat = 0x2336d04bfc2c8b9f2f56c8fd8564d4e3929c859e8e92109ddd0fd5ececdf91e1nat;
    let e4: nat = 2 * e3;
    lemma_pow_square(g, n, e3, x3, x4);
    let x5: nat = 0x22f52e3e9a35b4af1f495b704f871f3297b5235f3516fc6804816ec4f19e781cnat;
    let e5: nat = e4 + 1;
    lemma_pow_times(g, n, e4, x4, x5);
    let x6: nat = 0x2d51a713fae32abc417f6875bcb9e8ed7660df93b7b352c40f0959c7493f3097nat;
    let e6: nat = 2 * e5;
    lemma_pow_square(g, n, e5, x5, x6);
    let x7: nat = 0x2e426b41c3fefaf6ab1f58d7fb83d0a4b7b01047c7eff2ef2ab0d183ae8a85b8nat;
    let e7: nat = 2 * e6;
    lemma_pow_square(g, n, e6, x6, x7);
    let x8: nat = 0x21d0bf0e5e8e3ae9518af7ed9a93c7bcc91a10a1cebc426348d7ea4820a87808nat;
    let e8: nat = 2 * e7;
    lemma_pow_square(g, n, e7, x7, x8);
    let x9: nat = 0x1f0a25ffe289a7840b960ee23bf2a925fd82c673bbfbd70887f73acf8a7ce80dnat;
    let e9: nat = e8 + 1;
    lemma_pow_times(g, n, e8, x8, x9);
    let x10: nat = 0x170623dee08c816d1b190289f802af7669136aebebe8730312acf03ea5057b8dnat;
    let e10: nat = 2 * e9;
    lemma_pow_square(g, n, e9, x9, x10);
    let x11: nat = 0x28ca2b01b5a7f3dea8e22ae943816a368ae759d0b5767ad5fadb417d21dc8455nat;
    let e11: nat = 2 * e10;
    lemma_pow_square(g, n, e10, x10, x11);
    let x12: nat = 0x1fc92542c63fc86edcb450e5f4c783c5ca5ecf5812fdde1ebca7cb25b042960dnat;
    let e12: nat = e11 + 1;
    lemma_pow_times(g, n, e11, x11, x12);
    let x13: nat = 0x18f587757514b7eb56f6e6a43dcb0dcf09b1f682b71b398fc1adfe25c857dc22nat;
    let e13: nat = 2 * e12;
    lemma_pow_square(g, n, e12, x12, x13);
    let x14: nat = 0x1e2f1d2b691a2c851a96f979c710e01f8ecd6f026b46f971aa6cc0be1a941bccnat;
    let e14: nat = 2 * e13;
    lemma_pow_square(g, n, e13, x13, x14);
    let x15: nat = 0x1d1ba65e4308e889974de129175f7c34267c6329b595f9d4903a824dde766cefnat;
    let e15: nat = 2 * e14;
    lemma_pow_square(g, n, e14, x14, x15);
    let x16: nat = 0x2d98653ec18160de7e752f0db2228220f98cde1abbdac89a5d0c2f4c5d2bf130nat;
    let e16: nat = e15 + 1;
    lemma_pow_times(g, n, e15, x15, x16);
    let x17: nat = 0x1f5db798abba7724689371c932855422eb6d6ba02b572874e036300ac1c0b8ecnat;
    let e17: nat = 2 * e16;
    lemma_pow_square(g, n, e16, x16, x17);
    let x18: nat = 0x2fc0e4dd309e6b870e75d25d3006b5d9fcc02a445ffb37d07b8612ce4b92a02cnat;
    let e18: nat = e17 + 1;
    lemma_pow_times(g, n, e17, x17, x18);
    let x19: nat = 0x1c099dcb94a0618ceef330f1be281ceda50011c485ce39f406fa04aef73d8ca9nat;
    let e19: nat = 2 * e18;
    lemma_pow_square(g, n, e18, x18, x19);
    let x20: nat = 0xabfc43a21acd29c9760504787f02e08053401be7171686819f4e024847be9ddnat;
    let e20: nat = 2 * e19;
    lemma_pow_square(g, n, e19, x19, x20);
    let x21: nat = 0x2f1fdb39f34903c3ccd72e12a1ca4236ac99ef81a336772f6434c604618c7a8fnat;
    let e21: nat = 2 * e20;
    lemma_pow_square(g, n, e20, x20, x21);
    let x22: nat = 0x10cb5ec9818ffe9ffc3f360e3ee77a52f56cab6c8beded0d04c8b1de78a87396nat;
    let e22: nat = e21 + 1;
    lemma_pow_times(g, n, e21, x21, x22);
    let x23: nat = 0x102c05c331f1bb2d1131fc40bdf2b17a3ae66152e3baa08aa7f332d501b7fabdnat;
    let e23: nat = 2 * e22;
    lemma_pow_square(g, n, e22, x22, x23);
    let x24: nat = 0x2b731b6844a9640a94244fcb454499851efa4e35ffcfc85822cb7908d643ba1cnat;
    let e24: nat = 2 * e23;
    lemma_pow_square(g, n, e23, x23, x24);
    let x25: nat = 0x1947127c6f84e816d973a320e8b3d938bc88fb2f6a58e89ff62bbb421889863anat;
    let e25: nat = 2 * e24;
    lemma_pow_square(g, n, e24, x24, x25);
    let x26: nat = 0x27e3147eb77026e435d5aa39506d8af4979232618d2b25c1513545205fd9c2bdnat;
    let e26: nat = e25 + 1;
    lemma_pow_times(g, n, e25, x25, x26);
    let x27: nat = 0x4ff8c7cbb5b29b4f38ec7a727658149e1f560f059ddcfdd53a5c9402fac534fnat;
    let e27: nat = 2 * e26;
    lemma_pow_square(g, n, e26, x26, x27);
    let x28: nat = 0x234356000d4f8ce14043b366db34c82ce8c9ab7ab6373178d8430bb99c3d563anat;
    let e28: nat = 2 * e27;
    lemma_pow_square(g, n, e27, x27, x28);
    let x29: nat = 0x2ab32057ec2b8596ae87bc75bbfac97d066574e3627509d060bcc19eb1fc0852nat;
    let e29: nat = 2 * e28;
    lemma_pow_square(g, n, e28, x28, x29);
    let x30: nat = 0x11ec9eb2f53459155a0d17bdc689f7fe29e1d7f51e078ab874b1bd8a9531c453nat;
    let e30: nat = 2 * e29;
    lemma_pow_square(g, n, e29, x29, x30);
    let x31: nat = 0xbd6db0dd552c74c21d97c3171651cfc9d5a910ac940210c02ecf3b6b28ea269nat;
    let e31: nat = 2 * e30;
    lemma_pow_square(g, n, e30, x30, x31);
    let x32: nat = 0x107db2f1697534b553d9c2bdb593bc4bd9b94b4ce4f97a863fe0dbfb3c287cfdnat;
    let e32: nat = e31 + 1;
    lemma_pow_times(g, n, e31, x31, x32);
    let x33: nat = 0x1d3a2f87527a102918032090bf4daf6638ade2c24a793f11b524be590ea7d78bnat;
    let e33: nat = 2 * e32;
    lemma_pow_square(g, n, e32, x32, x33);
    let x34: nat = 0x1279a3b92b761399a4c8a667399ae192b00ea085b7242fdba08a748c6266c2cbnat;
    let e34: nat = e33 + 1;
    lemma_pow_times(g, n, e33, x33, x34);
    let x35: nat = 0x144326047f9ccae43b29c5c169e6a9dc42475b22cd747a8ff2b8489715cc8b5anat;
    let e35: nat = 2 * e34;
    lemma_pow_square(g, n, e34, x34, x35);
    let x36: nat = 0x19a006eb38837171af3b0f1e4d50ae710aefd3d151b94ada933fc387cb865d31nat;
    let e36: nat = e35 + 1;
    lemma_pow_times(g, n, e35, x35, x36);
    let x37: nat = 0x22e5e68a5e630ffcfc12986332ce3a058c8053365197b6b61e1d52bb5c9be1f4nat;
    let e37: nat = 2 * e36;
    lemma_pow_square(g, n, e36, x36, x37);
    let x38: nat = 0xe7b283499f6dd56c811af2cc003731a7c496bd01a889e7c556ed65ccc36f9b2nat;
    let e38: nat = e37 + 1;
    lemma_pow_times(g, n, e37, x37, x38);
    let x39: nat = 0x23f7dec4c391b7e2045568d59d6d791e9170d498bc0c5091f0bf916b4e6f4693nat;
    let e39: nat = 2 * e38;
    lemma_pow_square(g, n, e38, x38, x39);
    let x40: nat = 0x250e21505c745fca8270dd6a80ca94a52d6637d02a1b4a5379e85104a629bf81nat;
    let e40: nat = e39 + 1;
    lemma_pow_times(g, n, e39, x39, x40);
    let x41: nat = 0xff24bdeb1c8e12f2a87bd65715a7af7dc623ca3bbd5f0feb3b40e2225113177nat;
    let e41: nat = 2 * e40;
    lemma_pow_square(g, n, e40, x40, x41);
    let x42: nat = 0x4e6959f565ea2921f4bad7b33d1ca0fa2430a54665b6408410cddb09e7c5644nat;
    let e42: nat = 2 * e41;
    lemma_pow_square(g, n, e41, x41, x42);
    let x43: nat = 0x1e9b39e1f3fcbe2e8789005a981d1dc5f175d40baa917a915bc5ebf96e54e63bnat;
    let e43: nat = 2 * e42;
    lemma_pow_square(g, n, e42, x42, x43);
    let x44: nat = 0x218f95e2feca1faa5b9e04d5cf38feeee609a7ecf10e67d106822996c2145979nat;
    let e44: nat = e43 + 1;
    lemma_pow_times(g, n, e43, x43, x44);
    let x45: nat = 0x1e7d92535a980f78cc49088301d3c5ca65c1162eb6e965efc61a0032b44ab04nat;
    let e45: nat = 2 * e44;
    lemma_pow_square(g, n, e44, x44, x45);
    let x46: nat = 0x33a565d8b73cdc693f7bdbdea68441382a3c096ca84ae30445a28ed229e8018nat;
    let e46: nat = e45 + 1;
    lemma_pow_times(g, n, e45, x45, x46);
    let x47: nat = 0x14f8b253ecea1ee22c81086e60b41bb24eb66e64f5ed45257f70661b78e3a74dnat;
    let e47: nat = 2 * e46;
    lemma_pow_square(g, n, e46, x46, x47);
    let x48: nat = 0xfd1d0624ce9fad0d9db36ee57dade269ea755ce577ee3a651ded6285610406anat;
    let e48: nat = e47 + 1;
    lemma_pow_times(g, n, e47, x47, x48);
}

proof fn lemma_modulus_power_8()
    ensures
        pow_mod(0xd29c4192a3362896c9481f76803e818fa5d55ca5bc7b78a0a5c7164aa2998nat, 0xb29921f3f35e57a0nat, 0x30644e72e131a029b85045b68181585d2833e84879b9709143e1f593f0000001nat) == 0x27b2fba411dcfdf53d976d2e655d22c8ab29e0c7888eb24dc2d72593c99b911bnat,
{
    let n: nat = 0x30644e72e131a029b85045b68181585d2833e84879b9709143e1f593f0000001nat;
    let g: nat = 0xd29c4192a3362896c9481f76803e818fa5d55ca5bc7b78a0a5c7164aa2998nat;
    let e0: nat = 0x1653243e7nat;
    let x0: nat = 0xfd1d0624ce9fad0d9db36ee57dade269ea755ce577ee3a651ded6285610406anat;
    lemma_modulus_power_7();
    let x1: nat = 0x87ce671bf0b3a816f54b220804b1ab235c0125409959bbdd482e84f5432662cnat;
    let e1: nat = 2 * e0;
    lemma_pow_square(g, n, e0, x0, x1);
    let x2: nat = 0x2e25807fa91ae5ee2c73edb321282c602ed2937057efb9f5011f6bfbe0f9b78cnat;
    let e2: nat = e1 + 1;
    lemma_pow_times(g, n, e1, x1, x2);
    let x3: nat = 0x39628012c52a71bddf70416a5a0541fe28486a4489172ea64576199d2410f15nat;
    let e3: nat = 2 * e2;
    lemma_pow_square(g, n, e2, x2, x3);
    let x4: nat = 0x170ab764da68f96b23f6fad5b379a0b989145178f1f3a8a0b081fc7a09df700dnat;
    let e4: nat = e3 + 1;
    lemma_pow_times(g, n, e3, x3, x4);
    let x5: nat = 0x152f1f3ac8302f88c2a06cdb60e8b1d14c80f8fe6083810ec5e096ae7b70ee63nat;
    let e5: nat = 2 * e4;
    lemma_pow_square(g, n, e4, x4, x5);
    let x6: nat = 0x11cf602911f1bd78094294e72ca755ae987d7ad3860ff81c92c4b10eba5dd635nat;
    let e6: nat = e5 + 1;
    lemma_pow_times(g, n, e5, x5, x6);
    let x7: nat = 0x3d9ece63d01cf0fa663fecbfa745786facc0a220cbeec83d474fd138ad3d70fnat;
    let e7: nat = 2 * e6;
    lemma_pow_square(g, n, e6, x6, x7);
    let x8: nat = 0x1cf258911ff5fd45cfc033b8c995bda2a52fb3491ec75136ef55b7511b07862dnat;
    let e8: nat = 2 * e7;
    lemma_pow_square(g, n, e7, x7, x8);
    let x9: nat = 0xdd818e58ff8eafba9b644618f9c26086b42ba9d64be7a2529301e1e454551f6nat;
    let e9: nat = 2 * e8;
    lemma_pow_square(g, n, e8, x8, x9);
    let x10: nat = 0xefc4f14167fcb8ab0d6d4752e5a8b00f7df34d46e9deee9e0609bc610fd1850nat;
    let e10: nat = e9 + 1;
    lemma_pow_times(g, n, e9, x9, x10);
    let x11: nat = 0x13401c4a992400752acc5cbaa9977b946f64be94400a1612478c70f3330f5df3nat;
    let e11: nat = 2 * e10;
    lemma_pow_square(g, n, e10, x10, x11);
    let x12: nat = 0x7688e8bf6a659b17a6b832a065fb80a9bc11a0fb1486b125a6e35598ea3b312nat;
    let e12: nat = e11 + 1;
    lemma_pow_times(g, n, e11, x11, x12);
    let x13: nat = 0x1915d5b0b11a52491397d9c057c566181b644a3fc5e8982a023d7a77b71b4ccanat;
    let e13: nat = 2 * e12;
    lemma_pow_square(g, n, e12, x12, x13);
    let x14: nat = 0x2fc2c95ad8da798c5e9296c3b1f1c3cfe0113ff63dfb78456de9c9964b6e4830nat;
    let e14: nat = 2 * e13;
    lemma_pow_square(g, n, e13, x13, x14);
    let x15: nat = 0x3569729aed9334784db3d0ee7cadfca5e8f07d68ffdafd4b6c7af55812a2b9nat;
    let e15: nat = e14 + 1;
    lemma_pow_times(g, n, e14, x14, x15);
    let x16: nat = 0x20165b6962441709e29a2a7bc1c7210ffd1206e6fd0c933df4bf208c6998e74cnat;
    let e16: nat = 2 * e15;
    lemma_pow_square(g, n, e15, x15, x16);
    let x17: nat = 0x18a5b5b9dce88648b0dd2473661ade1625e602ceae398467642978e476a7024cnat;
    let e17: nat = 2 * e16;
    lemma_pow_square(g, n, e16, x16, x17);
    let x18: nat = 0x1ec06e4fd57c33fdb6bf73f61642a03a0824795f8e9c5958c7682cc26419dde6nat;
    let e18: nat = e17 + 1;
    lemma_pow_times(g, n, e17, x17, x18);
    let x19: nat = 0x141bfae787560285f65061bee8ba3ef0f85f2d28a8e36491944ec4c326924460nat;
    let e19: nat = 2 * e18;
    lemma_pow_square(g, n, e18, x18, x19);
    let x20: nat = 0x29cbc0f9f10d1e87d7b91848fb0369feeeb3ffef022c7747c3df707695cd3d85nat;
    let e20: nat = e19 + 1;
    lemma_pow_times(g, n, e19, x19, x20);
    let x21: nat = 0x19120d7af0dab40267f81afa9747a9fda8c8e0dad3b754ec56834a1c1a7c7bf8nat;
    let e21: nat = 2 * e20;
    lemma_pow_square(g, n, e20, x20, x21);
    let x22: nat = 0x1dec84252ca3343ffc7c5b0951caab7fa8e0226fd03ddd96b101995f54cf08anat;
    let e22: nat = e21 + 1;
    lemma_pow_times(g, n, e21, x21, x22);
    let x23: nat = 0x295370ea02a804c3805f74575d63d5f2e2c0f29b7e46f67295141df679b0c701nat;
    let e23: nat = 2 * e22;
    lemma_pow_square(g, n, e22, x22, x23);
    let x24: nat = 0x1ca75db4d10c9761b27d42d55968c2a77b5107b33a98e19abac6b628dd734939nat;
    let e24: nat = e23 + 1;
    lemma_pow_times(g, n, e23, x23, x24);
    let x25: nat = 0x196aac74b11744c4d1f7e589dadfa56000768ef67537e6a5f7b494fa4ffd2dffnat;
    let e25: nat = 2 * e24;
    lemma_pow_square(g, n, e24, x24, x25);
    let x26: nat = 0x8322a66f63b8b77c358ae631a9c7a069b6093c5a7d6d220f20797a6e05a6572nat;
    let e26: nat = 2 * e25;
    lemma_pow_square(g, n, e25, x25, x26);
    let x27: nat = 0xdbe9079c58fe03af9e8682594f35218d75f71eae0b6a0e4c37c5f3848508616nat;
    let e27: nat = 2 * e26;
    lemma_pow_square(g, n, e26, x26, x27);
    let x28: nat = 0x26630ccd50e894cb8461c767d9bd8112fe357a1d63ed45772c593ffc681b3139nat;
    let e28: nat = e27 + 1;
    lemma_pow_times(g, n, e27, x27, x28);
    let x29: nat = 0xa4a4f84127458a7970fb2c279773278210b3f028a6342bb6af8d9f33f2c9ee8nat;
    let e29: nat = 2 * e28;
    lemma_pow_square(g, n, e28, x28, x29);
    let x30: nat = 0xe98e2d17c4660371455110e39b2ca688b917ee3bc03355785ee9a08fabcec1cnat;
    let e30: nat = 2 * e29;
    lemma_pow_square(g, n, e29, x29, x30);
    let x31: nat = 0x29799d587398d4e3aa90cf59b058bb5b3e97c6cd43ec5b5fb246103a75d326ecnat;
    let e31: nat = e30 + 1;
    lemma_pow_times(g, n, e30, x30, x31);
    let x32: nat = 0x69d4791dfdd2cb21b39d86975a99ada7da6c4b560a50b2694931cc4dd0046ecnat;
    let e32: nat = 2 * e31;
    lemma_pow_square(g, n, e31, x31, x32);
    let x33: nat = 0x23cd6be23d583ae2ab2ec6249abf7a5cc11ba35b958c18b267808f26e148ea88nat;
    let e33: nat = 2 * e32;
    lemma_pow_square(g, n, e32, x32, x33);
    let x34: nat = 0xa324a7af139b05ecba14708b0ec96c6a04c3e063f293c009d8c915cb5434f48nat;
    let e34: nat = e33 + 1;
    lemma_pow_times(g, n, e33, x33, x34);
    let x35: nat = 0x18e991cc740172a40ac67c9999582fe2122c6f43129c64bbed4a4809c7efa967nat;
    let e35: nat = 2 * e34;
    lemma_pow_square(g, n, e34, x34, x35);
    let x36: nat = 0x1a611453a2188b643713dd2b74050aeea12fc6a4029f9d8265fa8f1de0ecbc59nat;
    let e36: nat = e35 + 1;
    lemma_pow_times(g, n, e35, x35, x36);
    let x37: nat = 0x28a275a7906a1ab83dd7638c60bce863c10850ab75a2d443b5b9dc3aac97b57fnat;
    let e37: nat = 2 * e36;
    lemma_pow_square(g, n, e36, x36, x37);
    let x38: nat = 0x3d55d5b7e08b9ce4599b88fd150adaaf79f792f94753b0a251fa1fdee0ac851nat;
    let e38: nat = e37 + 1;
    lemma_pow_times(g, n, e37, x37, x38);
    let x39: nat = 0x60af3564d306659451e6b4f57deee2fadf22a6791ad103282cef962c0a0e388nat;
    let e39: nat = 2 * e38;
    lemma_pow_square(g, n, e38, x38, x39);
    let x40: nat = 0x2b1348d99d093fc7f346da2a7f14a44105a34784772af0d1cbbfff48a31bd3f5nat;
    let e40: nat = e39 + 1;
    lemma_pow_times(g, n, e39, x39, x40);
    let x41: nat = 0x14bb3c95a63f9e3f5a95d7005422aa4f26774a6547818444263aed2354e691f0nat;
    let e41: nat = 2 * e40;
    lemma_pow_square(g, n, e40, x40, x41);
    let x42: nat = 0x23b7087d98cb8c74a17b097f83917af727c8f014cfff84292d2a96bb178a9dc0nat;
    let e42: nat = 2 * e41;
    lemma_pow_square(g, n, e41, x41, x42);
    let x43: nat = 0x2204cdba8f75255fe916ae89da6e768b98efa92a74f687dce53d1ea40c214ec0nat;
    let e43: nat = e42 + 1;
    lemma_pow_times(g, n, e42, x42, x43);
    let x44: nat = 0x28d095773c2b7181d0b898e62fbdee1ae6e0406fc09bc6ddb8fc12bd3044canat;
    let e44: nat = 2 * e43;
    lemma_pow_square(g, n, e43, x43, x44);
    let x45: nat = 0xd49811cd6eb4863c3ee97b07015b9cc00f550a8ff45accfed1d6995e3ed4e2fnat;
    let e45: nat = 2 * e44;
    lemma_pow_square(g, n, e44, x44, x45);
    let x46: nat = 0x2bf857d617fcc4ceae18caf7db03762f3b51098a9c333f5c380a592ba7e950dcnat;
    let e46: nat = 2 * e45;
    lemma_pow_square(g, n, e45, x45, x46);
    let x47: nat = 0xce69f8497933e82426f2cb2039da3a6cd4d214b1b28a554f68dc20115a38c1fnat;
    let e47: nat = 2 * e46;
    lemma_pow_square(g, n, e46, x46, x47);
    let x48: nat = 0x27b2fba411dcfdf53d976d2e655d22c8ab29e0c7888eb24dc2d72593c99b911bnat;
    let e48: nat = 2 * e47;
    lemma_pow_square(g, n, e47, x47, x48);
}

proof fn lemma_modulus_power_9()
    ensures
        pow_mod(0xd29c4192a3362896c9481f76803e818fa5d55ca5bc7b78a0a5c7164aa2998nat, 0x2ca6487cfcd795e8729527e1nat, 0x30644e72e131a029b85045b68181585d2833e84879b9709143e1f593f0000001nat) == 0x16d0c2772979716caee7e421e0218142d6f51c7b2fa4319cef5d3f62a47fddc8nat,
{
    let n: nat = 0x30644e72e131a029b85045b68181585d2833e84879b9709143e1f593f0000001nat;
    let g: nat = 0xd29c4192a3362896c9481f76803e818fa5d55ca5bc7b78a0a5c7164aa2998nat;
    let e0: nat = 0xb29921f3f35e57a0nat;
    let x0: nat = 0x27b2fba411dcfdf53d976d2e655d22c8ab29e0c7888eb24dc2d72593c99b911bnat;
    lemma_modulus_power_8();
    let x1: nat = 0x269303e2e8485b9c16f5582352e214a789d875a8f53eb514ed9ba17a51ef5e7enat;
    let e1: nat = e0 + 1;
    lemma_pow_times(g, n, e0, x0, x1);
    let x2: nat = 0x1d44bb7c242d8696d0e658d44e45d01fad1070457e15a487487aa0a127930b2enat;
    let e2: nat = 2 * e1;
    lemma_pow_square(g, n, e1, x1, x2);
    let x3: nat = 0x16a90904e102bdf9f1b82d6d219f649422cfcb7abeac3621773a80a60d7379eenat;
    let e3: nat = e2 + 1;
    lemma_pow_times(g, n, e2, x2, x3);
    let x4: nat = 0x180d0a5e5134410c6d8f17a1184ded5893e9d80d5e640d13ea5f846ab83d3ad0nat;
    let e4: nat = 2 * e3;
    lemma_pow_square(g, n, e3, x3, x4);
    let x5: nat = 0x2ef4913699d5fad97028d183351e984a56585e00201bf74dc53929c1b9b39159nat;
    let e5: nat = e4 + 1;
    lemma_pow_times(g, n, e4, x4, x5);
    let x6: nat = 0x299d359f6cc4e4d8d54ede640f53955224775f01a369033ce6394e6f840632c6nat;
    let e6: nat = 2 * e5;
    lemma_pow_square(g, n, e5, x5, x6);
    let x7: nat = 0x19569452c12ddb73cf7c6c08faaa00d1a72ce93cb7f74da065e2277d9217419bnat;
    let e7: nat = 2 * e6;
    lemma_pow_square(g, n, e6, x6, x7);
    let x8: nat = 0x4462591553b9e8e6cd4abc591a132b08d85201d014cb37f79d5b6041a0d1d06nat;
    let e8: nat = 2 * e7;
    lemma_pow_square(g, n, e7, x7, x8);
    let x9: nat = 0x15089b834ac6c51ee4f845037e641feeb898f2a2aba8f0e30a303d38b5f42eeanat;
    let e9: nat = e8 + 1;
    lemma_pow_times(g, n, e8, x8, x9);
    let x10: nat = 0xa12227e55280575adbfffb780281abbeccb677be7981468ab72aa87de6f128fnat;
    let e10: nat = 2 * e9;
    lemma_pow_square(g, n, e9, x9, x10);
    let x11: nat = 0x72d870712316a7cabbab7a9a2a7c1c72ddd5156cfd0422ed1d8d2cd9fb6d6b1nat;
    let e11: nat = 2 * e10;
    lemma_pow_square(g, n, e10, x10, x11);
    let x12: nat = 0xabd084b00d0d2c383e01165f8be374dc73d21435eb7660b7b691c0b172376enat;
    let e12: nat = e11 + 1;
    lemma_pow_times(g, n, e11, x11, x12);
    let x13: nat = 0x137fe0ffc08d629fc658e326fea252004ce2f824f744a2744ad2a060a6b71a38nat;
    let e13: nat = 2 * e12;
    lemma_pow_square(g, n, e12, x12, x13);
    let x14: nat = 0x604e5d6bdbc0050c3a8b0d4b587483205aa3be53ae3ac70c6cabcb990207d73nat;
    let e14: nat = 2 * e13;
    lemma_pow_square(g, n, e13, x13, x14);
    let x15: nat = 0x3004a05537c36befcc45e63d175975b7c55adcf61ea7f6e7da1c2df7ac25acf4nat;
    let e15: nat = 2 * e14;
    lemma_pow_square(g, n, e14, x14, x15);
    let x16: nat = 0x2d2d481185c9b76493f587e42d94f7c5f16d81f6b05ce3e383e4399b24c41c70nat;
    let e16: nat = e15 + 1;
    lemma_pow_times(g, n, e15, x15, x16);
    let x17: nat = 0x263ce811be1d7097661c9a880478f14687c4b13a54ffa4931ac11a5650b14bbcnat;
    let e17: nat = 2 * e16;
    lemma_pow_square(g, n, e16, x16, x17);
    let x18: nat = 0xfc48a99e1f5378b2568be1d66b29fa974ff7224cdd1efaae081ac06a43285c8nat;
    let e18: nat = 2 * e17;
    lemma_pow_square(g, n, e17, x17, x18);
    let x19: nat = 0x120ca5ec5406282c6c1ff691b5daada700b95f4445761468ccd0da6d2483d5abnat;
    let e19: nat = e18 + 1;
    lemma_pow_times(g, n, e18, x18, x19);
    let x20: nat = 0x21d8a79a96a83eabbf1af5df5649117768ce7ecbceb232cc37a073d9eb22616cnat;
    let e20: nat = 2 * e19;
    lemma_pow_square(g, n, e19, x19, x20);
    let x21: nat = 0x38415ccefe5926b8010f1018f78d70f668d969211014d81943211d7d6f97497nat;
    let e21: nat = 2 * e20;
    lemma_pow_square(g, n, e20, x20, x21);
    let x22: nat = 0x2c688f82eced95b56d9101a4cf019750b75c75cfc98502003c25f44879fd72d6nat;
    let e22: nat = e21 + 1;
    lemma_pow_times(g, n, e21, x21, x22);
    let x23: nat = 0x2e5c4ef6b39da5f6df43762dcd6850af9448aef88e6b083108c0629114527c1dnat;
    let e23: nat = 2 * e22;
    lemma_pow_square(g, n, e22, x22, x23);
    let x24: nat = 0x12a2842336858ff40b22c20781992f552bb5aa0615f62c6ad21917ff90ecfde2nat;
    let e24: nat = 2 * e23;
    lemma_pow_square(g, n, e23, x23, x24);
    let x25: nat = 0xa7af0599cf81352fad14148d0a2f489f48607427a4c9c0e17c3af3d9ddf9ad1nat;
    let e25: nat = 2 * e24;
    lemma_pow_square(g, n, e24, x24, x25);
    let x26: nat = 0x132cea8dd2591de1b3978294136f2c2400fe4fdd570bd1b11962ea2ef4fc4b0anat;
    let e26: nat = e25 + 1;
    lemma_pow_times(g, n, e25, x25, x26);
    let x27: nat = 0x2f41244d67f465e6f26c93b236e9a7ac6bbbc1b61e6dc63fc6e163f01a75f51nat;
    let e27: nat = 2 * e26;
    lemma_pow_square(g, n, e26, x26, x27);
    let x28: nat = 0x109480111fff7865938734c2a3bda7bfe61761bf6bab4917971d242c64a4b1d6nat;
    let e28: nat = 2 * e27;
    lemma_pow_square(g, n, e27, x27, x28);
    let x29: nat = 0x10e6ce5e91eb215795729fb0dd91258c6ee654c77e6acd43794996cb491dbc18nat;
    let e29: nat = 2 * e28;
    lemma_pow_square(g, n, e28, x28, x29);
    let x30: nat = 0x1f227c6eaff82b7e6739652a19f92c8405359b2204909f304b408452358efd00nat;
    let e30: nat = e29 + 1;
    lemma_pow_times(g, n, e29, x29, x30);
    let x31: nat = 0x3d12650a2fc3ce21fe38dd055b8ea3c9d166a3c6d032d3fc454bb511300a8bdnat;
    let e31: nat = 2 * e30;
    lemma_pow_square(g, n, e30, x30, x31);
    let x32: nat = 0x73583039d6498c4ef6de5398482b3c016392f53952966fd1832cede45d3ea7dnat;
    let e32: nat = e31 + 1;
    lemma_pow_times(g, n, e31, x31, x32);
    let x33: nat = 0x272935966556f59358b5437a525d7df3db705608ffb041501def404e71802180nat;
    let e33: nat = 2 * e32;
    lemma_pow_square(g, n, e32, x32, x33);
    let x34: nat = 0x15ed37b0e0859b3a97b5c43aad8c2f7e465a7aa82935b5233c029906acf0e2e6nat;
    let e34: nat = e33 + 1;
    lemma_pow_times(g, n, e33, x33, x34);
    let x35: nat = 0x109e9b5239de6c1b6647057923531c8d5e38dd2183d097de27fa234381bd404enat;
    let e35: nat = 2 * e34;
    lemma_pow_square(g, n, e34, x34, x35);
    let x36: nat = 0x1863e2a02ad8f122379877d6ef6326e62d8fe97fa353bc4f2c630c9660acb6abnat;
    let e36: nat = e35 + 1;
    lemma_pow_times(g, n, e35, x35, x36);
    let x37: nat = 0x18446715717e5e39d5f52273fa84fe54ebfefa08f22e8327914d00df90c01c5cnat;
    let e37: nat = 2 * e36;
    lemma_pow_square(g, n, e36, x36, x37);
    let x38: nat = 0x271f5d223779753051d973ba544fe624273c969c62911ddae1bbdbb29f47ed5bnat;
    let e38: nat = e37 + 1;
    lemma_pow_times(g, n, e37, x37, x38);
    let x39: nat = 0x26c654f2392a6b75e6881932c426d35a0e75f0062994cab49bd94095e61d2255nat;
    let e39: nat = 2 * e38;
    lemma_pow_square(g, n, e38, x38, x39);
    let x40: nat = 0xea5f002fcb6ec36636664bbe8cfee1f2df7ba8e0ff58b0c166e8ab78c1ec24fnat;
    let e40: nat = e39 + 1;
    lemma_pow_times(g, n, e39, x39, x40);
    let x41: nat = 0x23453480f0098dbaa4fc065b425df2ab87a6cfad754e276df3e8aedf997a2075nat;
    let e41: nat = 2 * e40;
    lemma_pow_square(g, n, e40, x40, x41);
    let x42: nat = 0x12382aa13c37741765b5a3137f7aa73bfb63cb0d0992655a4ca2d9ccbf7b78bnat;
    let e42: nat = 2 * e41;
    lemma_pow_square(g, n, e41, x41, x42);
    let x43: nat = 0x24095493efd7d7eeeda7b1650bfb515129a52b33af6b99ec9a23869b25484228nat;
    let e43: nat = 2 * e42;
    lemma_pow_square(g, n, e42, x42, x43);
    let x44: nat = 0x2fb4baa33f9d3d19144f4a532193a702d770a7c528b9ad988f8e02c7498f10e6nat;
    let e44: nat = 2 * e43;
    lemma_pow_square(g, n, e43, x43, x44);
    let x45: nat = 0x5fafffe781671c4f7117d82a66147530158f00a07560a034fb07bfaf90ccc2fnat;
    let e45: nat = 2 * e44;
    lemma_pow_square(g, n, e44, x44, x45);
    let x46: nat = 0x16d0c2772979716caee7e421e0218142d6f51c7b2fa4319cef5d3f62a47fddc8nat;
    let e46: nat = e45 + 1;
    lemma_pow_times(g, n, e45, x45, x46);
}

proof fn lemma_modulus_raise_3()
    ensures
        pow_mod(5nat, 0x4f8313ac7ba30263627fe41bf895faa239ca9f504715ebdf4d188000000nat, 0x30644e72e131a029b85045b68181585d2833e84879b9709143e1f593f0000001nat) == 0x16d0c2772979716caee7e421e0218142d6f51c7b2fa4319cef5d3f62a47fddc8nat,
{
    lemma_modulus_raise_1();
    lemma_modulus_power_9();
    lemma_pow_raise(5nat, 0x30644e72e131a029b85045b68181585d2833e84879b9709143e1f593f0000001nat, 0x1c7e2ac3ce6ad895ec82fe75e3e288000000nat, 0xd29c4192a3362896c9481f76803e818fa5d55ca5bc7b78a0a5c7164aa2998nat, 0x2ca6487cfcd795e8729527e1nat, 0x16d0c2772979716caee7e421e0218142d6f51c7b2fa4319cef5d3f62a47fddc8nat, 0x4f8313ac7ba30263627fe41bf895faa239ca9f504715ebdf4d188000000nat);
}

proof fn lemma_modulus_power_10()
    ensures
        pow_mod(0x16d0c2772979716caee7e421e0218142d6f51c7b2fa4319cef5d3f62a47fddc8nat, 58nat, 0x30644e72e131a029b85045b68181585d2833e84879b9709143e1f593f0000001nat) == 0x12591d69820f4e8c2a214912adb6a1389c2dfdc221e439da78e1afd8bbdf1ed0nat,
{
    let n: nat = 0x30644e72e131a029b85045b68181585d2833e84879b9709143e1f593f0000001nat;
    let g: nat = 0x16d0c2772979716caee7e421e0218142d6f51c7b2fa4319cef5d3f62a47fddc8nat;
    let e0: nat = 1nat;
    let x0: nat = 0x16d0c2772979716caee7e421e0218142d6f51c7b2fa4319cef5d3f62a47fddc8nat;
    lemma_pow_first(g, n, x0);
    let x1: nat = 0x14fed4cf3999af9775e697ba69b3e69e8f2bb4cbde95502a6fb4074438eb5abnat;
    let e1: nat = 2 * e0;
    lemma_pow_square(g, n, e0, x0, x1);
    let x2: nat = 0x26fc66e6b52bdc99ae9e9946b3b28006a9d8ea7a61910018e8c2a977fc6a2939nat;
    let e2: nat = e1 + 1;
    lemma_pow_times(g, n, e1, x1, x2);
    let x3: nat = 0x11315017fb0f4b1fdf8e8f2a467a3a1b37b2889db7e435207b1d2f2fbcd18ba9nat;
    let e3: nat = 2 * e2;
    lemma_pow_square(g, n, e2, x2, x3);
    let x4: nat = 0x1c1e7e89ac05e5fc127f099a6dde08e07bf67310d03f5401cdfa0e83bf6d497bnat;
    let e4: nat = e3 + 1;
    lemma_pow_times(g, n, e3, x3, x4);
    let x5: nat = 0xb9bfafe74a1392c0ecddad8f2fc8be155228fc57bfcd2ecb1b7bc712dc8b699nat;
    let e5: nat = 2 * e4;
    lemma_pow_square(g, n, e4, x4, x5);
    let x6: nat = 0x145d7b33a68dc05ef6f95ca8658d0b68b1cb7f7d6ba4ed51b0c4059ad54c7e0dnat;
    let e6: nat = 2 * e5;
    lemma_pow_square(g, n, e5, x5, x6);
    let x7: nat = 0x297610c46bdc7fa15343b7b56690de66e04ae6b31c1bc06d520faf275719a0d9nat;
    let e7: nat = e6 + 1;
    lemma_pow_times(g, n, e6, x6, x7);
    let x8: nat = 0x12591d69820f4e8c2a214912adb6a1389c2dfdc221e439da78e1afd8bbdf1ed0nat;
    let e8: nat = 2 * e7;
    lemma_pow_square(g, n, e7, x7, x8);
}

proof fn lemma_modulus_raise_4()
    ensures
        pow_mod(5nat, 0x1203b2751402ee8a8450f9ae5651fac8c117e818301af77097778d0000000nat, 0x30644e72e131a029b85045b68181585d2833e84879b9709143e1f593f0000001nat) == 0x12591d69820f4e8c2a214912adb6a1389c2dfdc221e439da78e1afd8bbdf1ed0nat,
{
    lemma_modulus_raise_3();
    lemma_modulus_power_10();
    lemma_pow_raise(5nat, 0x30644e72e131a029b85045b68181585d2833e84879b9709143e1f593f0000001nat, 0x4f8313ac7ba30263627fe41bf895faa239ca9f504715ebdf4d188000000nat, 0x16d0c2772979716caee7e421e0218142d6f51c7b2fa4319cef5d3f62a47fddc8nat, 58nat, 0x12591d69820f4e8c2a214912adb6a1389c2dfdc221e439da78e1afd8bbdf1ed0nat, 0x1203b2751402ee8a8450f9ae5651fac8c117e818301af77097778d0000000nat);
}

proof fn lemma_modulus_power_11()
    ensures
        pow_mod(0x16d0c2772979716caee7e421e0218142d6f51c7b2fa4319cef5d3f62a47fddc8nat, 11003nat, 0x30644e72e131a029b85045b68181585d2833e84879b9709143e1f593f0000001nat) == 0x2aa933046ad70582a30386c808d6abe960e017f5c41bca207acdd7275bcf28ccnat,
{
    let n: nat = 0x30644e72e131a029b85045b68181585d2833e84879b9709143e1f593f0000001nat;
    let g: nat = 0x16d0c2772979716caee7e421e0218142d6f51c7b2fa4319cef5d3f62a47fddc8nat;
    let e0: nat = 1nat;
    let x0: nat = 0x16d0c2772979716caee7e421e0218142d6f51c7b2fa4319cef5d3f62a47fddc8nat;
    lemma_pow_first(g, n, x0);
    let x1: nat = 0x14fed4cf3999af9775e697ba69b3e69e8f2bb4cbde95502a6fb4074438eb5abnat;
    let e1: nat = 2 * e0;
    lemma_pow_square(g, n, e0, x0, x1);
    let x2: nat = 0x49bc9ce8e6fe274b21bf06e7a9ead13107e7ab9fc585215e2044db525c7f3e5nat;
    let e2: nat = 2 * e1;
    lemma_pow_square(g, n, e1, x1, x2);
    let x3: nat = 0x1d1529d238d5b3c8b8790a0b08296db84fc974bd19881061eae77fa608069bbdnat;
    let e3: nat = e2 + 1;
    lemma_pow_times(g, n, e2, x2, x3);
    let x4: nat = 0x532ddf070fd4862b3d7d2c9819f0b01b69105370802561d090360807d67a585nat;
    let e4: nat = 2 * e3;
    lemma_pow_square(g, n, e3, x3, x4);
    let x5: nat = 0x14d710f70aa6235c6b362a9515cd4f6a4d70731b58b69896ded70cb0f76f7431nat;
    let e5: nat = 2 * e4;
    lemma_pow_square(g, n, e4, x4, x5);
    let x6: nat = 0x159abd263db41ab1bbe83a8359f72ffb047e640c710137f95633495023584799nat;
    let e6: nat = e5 + 1;
    lemma_pow_times(g, n, e5, x5, x6);
    let x7: nat = 0x1ea2070801fa1df7707cc750384a9788b6c2406419a1bf3774404cc727ac8ea7nat;
    let e7: nat = 2 * e6;
    lemma_pow_square(g, n, e6, x6, x7);
    let x8: nat = 0x281dac89330e5246308d8e83959390f8e2ce698eb0a7922b93b8ae24accf2bcnat;
    let e8: nat = 2 * e7;
    lemma_pow_square(g, n, e7, x7, x8);
    let x9: nat = 0x24a7a8a553dc239a373acdc23882c32ea62ef8112491b4b58ef51d02225ab4f2nat;
    let e9: nat = e8 + 1;
    lemma_pow_times(g, n, e8, x8, x9);
    let x10: nat = 0x34bab15ce3b645ca0e4ba576f684394cb6d26d1349fce7316324f85cbc84738nat;
    let e10: nat = 2 * e9;
    lemma_pow_square(g, n, e9, x9, x10);
    let x11: nat = 0x26befbdc4fc5097af085accc6bd1814537107bd392a87178791ff82ad12bb8dnat;
    let e11: nat = e10 + 1;
    lemma_pow_times(g, n, e10, x10, x11);
    let x12: nat = 0x845e3ac1c4a39111ce9aca36ab9b4d91e7523edf81c80d70ec0f1d6857294f7nat;
    let e12: nat = 2 * e11;
    lemma_pow_square(g, n, e11, x11, x12);
    let x13: nat = 0x1c690be46b57696ea00ee0e7be18eff4e8f58b559a27a5cba45a21c487ebdceenat;
    let e13: nat = e12 + 1;
    lemma_pow_times(g, n, e12, x12, x13);
    let x14: nat = 0x10cea7b74fb62849dd206a9b8d63664a0e8beb41023528c117590f0cf3870518nat;
    let e14: nat = 2 * e13;
    lemma_pow_square(g, n, e13, x13, x14);
    let x15: nat = 0x3048f152cea9f01c6d4becf0afca67d21669354912b19cfa8abfdc7f5b53a5dbnat;
    let e15: nat = e14 + 1;
    lemma_pow_times(g, n, e14, x14, x15);
    let x16: nat = 0x1d8b62443b445927b8c4d351fd047d8dde651ad28ad29b9794279df31f5c219bnat;
    let e16: nat = 2 * e15;
    lemma_pow_square(g, n, e15, x15, x16);
    let x17: nat = 0x5e3ba85f1a81a6b56c97656742bf0fbbad99c00c3b63f709ae2ef6c7dbc81b7nat;
    let e17: nat = e16 + 1;
    lemma_pow_times(g, n, e16, x16, x17);
    let x18: nat = 0x1e0653a7f72cd93a4eccdc409e513317c560c2e401e55876a76727a3f6d8e8a3nat;
    let e18: nat = 2 * e17;
    lemma_pow_square(g, n, e17, x17, x18);
    let x19: nat = 0x26e7bfb412700801d8b51efe549ec4ec9c4c189e336df9633ab46116fb99b23fnat;
    let e19: nat = 2 * e18;
    lemma_pow_square(g, n, e18, x18, x19);
    let x20: nat = 0x110a539bfa801f1ea0321e68497f1583b68b2e044d1fb291b87483c93afcac8nat;
    let e20: nat = e19 + 1;
    lemma_pow_times(g, n, e19, x19, x20);
    let x21: nat = 0xd378b0e458ad304ae834c80d50890119a6e656e133e52205db36d99b6238d33nat;
    let e21: nat = 2 * e20;
    lemma_pow_square(g, n, e20, x20, x21);
    let x22: nat = 0x2aa933046ad70582a30386c808d6abe960e017f5c41bca207acdd7275bcf28ccnat;
    let e22: nat = e21 + 1;
    lemma_pow_times(g, n, e21, x21, x22);
}

proof fn lemma_modulus_raise_5()
    ensures
        pow_mod(5nat, 0xd5976be9665f737a59a8ed13e35562b5a89e7cd5f5f4b30e6969c058000000nat, 0x30644e72e131a029b85045b68181585d2833e84879b9709143e1f593f0000001nat) == 0x2aa933046ad70582a30386c808d6abe960e017f5c41bca207acdd7275bcf28ccnat,
{
    lemma_modulus_raise_3();
    lemma_modulus_power_11();
    lemma_pow_raise(5nat, 0x30644e72e131a029b85045b68181585d2833e84879b9709143e1f593f0000001nat, 0x4f8313ac7ba30263627fe41bf895faa239ca9f504715ebdf4d188000000nat, 0x16d0c2772979716caee7e421e0218142d6f51c7b2fa4319cef5d3f62a47fddc8nat, 11003nat, 0x2aa933046ad70582a30386c808d6abe960e017f5c41bca207acdd7275bcf28ccnat, 0xd5976be9665f737a59a8ed13e35562b5a89e7cd5f5f4b30e6969c058000000nat);
}

proof fn lemma_modulus_power_12()
    ensures
        pow_mod(0x2aa933046ad70582a30386c808d6abe960e017f5c41bca207acdd7275bcf28ccnat, 2nat, 0x30644e72e131a029b85045b68181585d2833e84879b9709143e1f593f0000001nat) == 0x2896189ef9a170b981e0c07bf3d93bbf71bfae0b644dcdeae3298403a9fff61fnat,
{
    let n: nat = 0x30644e72e131a029b85045b68181585d2833e84879b9709143e1f593f0000001nat;
    let g: nat = 0x2aa933046ad70582a30386c808d6abe960e017f5c41bca207acdd7275bcf28ccnat;
    let e0: nat = 1nat;
    let x0: nat = 0x2aa933046ad70582a30386c808d6abe960e017f5c41bca207acdd7275bcf28ccnat;
    lemma_pow_first(g, n, x0);
    let x1: nat = 0x2896189ef9a170b981e0c07bf3d93bbf71bfae0b644dcdeae3298403a9fff61fnat;
    let e1: nat = 2 * e0;
    lemma_pow_square(g, n, e0, x0, x1);
}

proof fn lemma_modulus_raise_6()
    ensures
        pow_mod(5nat, 0x1ab2ed7d2ccbee6f4b351da27c6aac56b513cf9abebe9661cd2d380b0000000nat, 0x30644e72e131a029b85045b68181585d2833e84879b9709143e1f593f0000001nat) == 0x2896189ef9a170b981e0c07bf3d93bbf71bfae0b644dcdeae3298403a9fff61fnat,
{
    lemma_modulus_raise_5();
    lemma_modulus_power_12();
    lemma_pow_raise(5nat, 0x30644e72e131a029b85045b68181585d2833e84879b9709143e1f593f0000001nat, 0xd5976be9665f737a59a8ed13e35562b5a89e7cd5f5f4b30e6969c058000000nat, 0x2aa933046ad70582a30386c808d6abe960e017f5c41bca207acdd7275bcf28ccnat, 2nat, 0x2896189ef9a170b981e0c07bf3d93bbf71bfae0b644dcdeae3298403a9fff61fnat, 0x1ab2ed7d2ccbee6f4b351da27c6aac56b513cf9abebe9661cd2d380b0000000nat);
}

proof fn lemma_modulus_power_13()
    ensures
        pow_mod(0x2aa933046ad70582a30386c808d6abe960e017f5c41bca207acdd7275bcf28ccnat, 29nat, 0x30644e72e131a029b85045b68181585d2833e84879b9709143e1f593f0000001nat) == 0x30644e72e131a029b85045b68181585d2833e84879b9709143e1f593f0000000nat,
{
    let n: nat = 0x30644e72e131a029b85045b68181585d2833e84879b9709143e1f593f0000001nat;
    let g: nat = 0x2aa933046ad70582a30386c808d6abe960e017f5c41bca207acdd7275bcf28ccnat;
    let e0: nat = 1nat;
    let x0: nat = 0x2aa933046ad70582a30386c808d6abe960e017f5c41bca207acdd7275bcf28ccnat;
    lemma_pow_first(g, n, x0);
    let x1: nat = 0x2896189ef9a170b981e0c07bf3d93bbf71bfae0b644dcdeae3298403a9fff61fnat;
    let e1: nat = 2 * e0;
    lemma_pow_square(g, n, e0, x0, x1);
    let x2: nat = 0xedfad8eb9ce3d16cd69e7923f9b97f6bad57d42107b9e0b50d7b8a51581eba7nat;
    let e2: nat = e1 + 1;
    lemma_pow_times(g, n, e1, x1, x2);
    let x3: nat = 0x16f6203979d13c30f09c5df8b9502132dd2e7300278c6a53de4daa4af90317dnat;
    let e3: nat = 2 * e2;
    lemma_pow_square(g, n, e2, x2, x3);
    let x4: nat = 0xc0fbef31e7f31249813d7d8e66d50e7e3d1b5edc88d767b3184e615e1141c48nat;
    let e4: nat = e3 + 1;
    lemma_pow_times(g, n, e3, x3, x4);
    let x5: nat = 0x124248c3f5e204ac368863254bb0191b26dcf17a6cd1bb9c534d02d193ecaa31nat;
    let e5: nat = 2 * e4;
    lemma_pow_square(g, n, e4, x4, x5);
    let x6: nat = 0xce50c13cab8b6a9cd72ae07c140041bbb2db3e9a886207de3aaab58be93717enat;
    let e6: nat = 2 * e5;
    lemma_pow_square(g, n, e5, x5, x6);
    let x7: nat = 0x30644e72e131a029b85045b68181585d2833e84879b9709143e1f593f0000000nat;
    let e7: nat = e6 + 1;
    lemma_pow_times(g, n, e6, x6, x7);
}

proof fn lemma_modulus_raise_7()
    ensures
        pow_mod(5nat, 0x183227397098d014dc2822db40c0ac2e9419f4243cdcb848a1f0fac9f8000000nat, 0x30644e72e131a029b85045b68181585d2833e84879b9709143e1f593f0000001nat) == 0x30644e72e131a029b85045b68181585d2833e84879b9709143e1f593f0000000nat,
{
    lemma_modulus_raise_5();
    lemma_modulus_power_13();
    lemma_pow_raise(5nat, 0x30644e72e131a029b85045b68181585d2833e84879b9709143e1f593f0000001nat, 0xd5976be9665f737a59a8ed13e35562b5a89e7cd5f5f4b30e6969c058000000nat, 0x2aa933046ad70582a30386c808d6abe960e017f5c41bca207acdd7275bcf28ccnat, 29nat, 0x30644e72e131a029b85045b68181585d2833e84879b9709143e1f593f0000000nat, 0x183227397098d014dc2822db40c0ac2e9419f4243cdcb848a1f0fac9f8000000nat);
}

proof fn lemma_modulus_power_14()
    ensures
        pow_mod(0x2bf7dc2ee696398928961394c6799d23b938f13e213ea4b6005e0e4d700a925anat, 0x1b2c961d3nat, 0x30644e72e131a029b85045b68181585d2833e84879b9709143e1f593f0000001nat) == 0xbb02ff11fcff8de34f81ce3ebdee5706169591a5f97663304edbc05926e0638nat,
{
    let n: nat = 0x30644e72e131a029b85045b68181585d2833e84879b9709143e1f593f0000001nat;
    let g: nat = 0x2bf7dc2ee696398928961394c6799d23b938f13e213ea4b6005e0e4d700a925anat;
    let e0: nat = 1nat;
    let x0: nat = 0x2bf7dc2ee696398928961394c6799d23b938f13e213ea4b6005e0e4d700a925anat;
    lemma_pow_first(g, n, x0);
    let x1: nat = 0x19222d61fb3c1ca79303bff4b7153f9d621cc15ca639abb8b3d875285a391a02nat;
    let e1: nat = 2 * e0;
    lemma_pow_square(g, n, e0, x0, x1);
    let x2: nat = 0x267a86b2fb13c41f221489fd02cf469f6fa063f3f27e089580675cc68c52c492nat;
    let e2: nat = e1 + 1;
    lemma_pow_times(g, n, e1, x1, x2);
    let x3: nat = 0x235b6bb6047be028facac6ff9586e652afdba5e4f70fbe03e3a2589fe3e8e272nat;
    let e3: nat = 2 * e2;
    lemma_pow_square(g, n, e2, x2, x3);
    let x4: nat = 0x21101ce9d3875e28b3df381341e5c04017bb0c57ab9e5815fa532b795f73e156nat;
    let e4: nat = 2 * e3;
    lemma_pow_square(g, n, e3, x3, x4);
    let x5: nat = 0x195114f96700d58e47c692430e778d5696562d086103b87e2e22b1c0323e7e45nat;
    let e5: nat = e4 + 1;
    lemma_pow_times(g, n, e4, x4, x5);
    let x6: nat = 0x1ad2e034a2fc1f50ad78b5510f3333f3353d874e4ab7db8037e33713a684324dnat;
    let e6: nat = 2 * e5;
    lemma_pow_square(g, n, e5, x5, x6);
    let x7: nat = 0x2c343911f645df23b526fedfdd3f3e9a73283150d92f56cc2a580bd9016715dbnat;
    let e7: nat = e6 + 1;
    lemma_pow_times(g, n, e6, x6, x7);
    let x8: nat = 0x1e243ca4e33d3c46da8f5870ea3a1c4da9f072bde01545edd9aed24bf4c487e7nat;
    let e8: nat = 2 * e7;
    lemma_pow_square(g, n, e7, x7, x8);
    let x9: nat = 0x106d70798c44e5d442a995960defbca497a66513b655d6d39cd5508152ff4001nat;
    let e9: nat = 2 * e8;
    lemma_pow_square(g, n, e8, x8, x9);
    let x10: nat = 0x280c08815b6ccb094e4555e2748d01814cbf1292166b0e4da29c26b5b055a878nat;
    let e10: nat = 2 * e9;
    lemma_pow_square(g, n, e9, x9, x10);
    let x11: nat = 0x29da08de9cf5983fff2cd510fd90941f47951ab8465bf76adc03623399d50cc2nat;
    let e11: nat = e10 + 1;
    lemma_pow_times(g, n, e10, x10, x11);
    let x12: nat = 0x15738c67904b0dd245a93a80fb0aba0ff3da6c6f29b4a63160756585e8f8d93enat;
    let e12: nat = 2 * e11;
    lemma_pow_square(g, n, e11, x11, x12);
    let x13: nat = 0x2688c7aa1e36a5f64da74367fb262ce5fb6af6af629b9c8a98589a2e5197b178nat;
    let e13: nat = 2 * e12;
    lemma_pow_square(g, n, e12, x12, x13);
    let x14: nat = 0xf0aabc0b02766444e737f8b76a8ddafd517ce27b11cee848f66df16f3a9dcadnat;
    let e14: nat = e13 + 1;
    lemma_pow_times(g, n, e13, x13, x14);
    let x15: nat = 0x55f5f60a6955f7c0599e69502446f18dbdc221590fe7a2698c2f88265782332nat;
    let e15: nat = 2 * e14;
    lemma_pow_square(g, n, e14, x14, x15);
    let x16: nat = 0x2ab0770fc1355feb55fb28ddd279fc375284fdbc593f5b161c07c12e430f1157nat;
    let e16: nat = e15 + 1;
    lemma_pow_times(g, n, e15, x15, x16);
    let x17: nat = 0x9ae0dc26838e06f4110d18c0cc30f85d299a221137f706f81fab6c537c65e97nat;
    let e17: nat = 2 * e16;
    lemma_pow_square(g, n, e16, x16, x17);
    let x18: nat = 0xbac0c9b66ad03a92ff94ab4107247953b47d2680db68ee727fd40c8ab990d05nat;
    let e18: nat = 2 * e17;
    lemma_pow_square(g, n, e17, x17, x18);
    let x19: nat = 0x9e41cb690b0cbda821ebcaed4da9524bc0b439b9c332b3336f9983eaa8b87fnat;
    let e19: nat = 2 * e18;
    lemma_pow_square(g, n, e18, x18, x19);
    let x20: nat = 0x327d767fb16ac700a95d7748b8cf948b26fc6a3b45d4f4fb75ce2ab309646b9nat;
    let e20: nat = e19 + 1;
    lemma_pow_times(g, n, e19, x19, x20);
    let x21: nat = 0x1768c56da2eb2b234a293ec768b5ccaf2202d31e8be593775b9600e3d6c12e09nat;
    let e21: nat = 2 * e20;
    lemma_pow_square(g, n, e20, x20, x21);
    let x22: nat = 0x1afb78eaa5ef50ab871367c072eba31cbd6b3ee5c1f087f7cbbc02662836a63enat;
    let e22: nat = 2 * e21;
    lemma_pow_square(g, n, e21, x21, x22);
    let x23: nat = 0x6c4d82420aa1297d4749b02da10a84cd57df1b31c4b417c9b26b3ffc1fefef9nat;
    let e23: nat = 2 * e22;
    lemma_pow_square(g, n, e22, x22, x23);
    let x24: nat = 0x12593c9f733c3b377db8e70709c8622b82bfa22a2947bedd22073d6ef7df164nat;
    let e24: nat = e23 + 1;
    lemma_pow_times(g, n, e23, x23, x24);
    let x25: nat = 0x139e2c3b27472d0f7a8538d0a1dfccb2a6dfd4edb357597be3bb4139a822c44nat;
    let e25: nat = 2 * e24;
    lemma_pow_square(g, n, e24, x24, x25);
    let x26: nat = 0x134fc2c7fdd20915724244d4931a3dd2cf3f1c265cd723208d40a022e8b16af6nat;
    let e26: nat = 2 * e25;
    lemma_pow_square(g, n, e25, x25, x26);
    let x27: nat = 0x2fcdcc89327182662f52dd0742ab0ad8d4ee39785ac5506b88e75b9d338449bnat;
    let e27: nat = e26 + 1;
    lemma_pow_times(g, n, e26, x26, x27);
    let x28: nat = 0x266efef60ebf1d34756b55ff98d4b28106a70ec0e3192b2bd1bccd0ccbf426e1nat;
    let e28: nat = 2 * e27;
    lemma_pow_square(g, n, e27, x27, x28);
    let x29: nat = 0x11deeb25520e715c91efe22b8cdf88a55dbc33cd15713abbadc4925904e45bnat;
    let e29: nat = e28 + 1;
    lemma_pow_times(g, n, e28, x28, x29);
    let x30: nat = 0x20ae443952ce8dd77ec104e102678fe65bef2d5d9120cada012f2d0b3102b923nat;
    let e30: nat = 2 * e29;
    lemma_pow_square(g, n, e29, x29, x30);
    let x31: nat = 0x2e4656bc2c592805f892350136b7bb5a0c3e20301ca05cd404abd0174d991078nat;
    let e31: nat = 2 * e30;
    lemma_pow_square(g, n, e30, x30, x31);
    let x32: nat = 0x70ca09650eeb559332741beb9fb74992c74c232506b1c665b102e0b99d5564fnat;
    let e32: nat = 2 * e31;
    lemma_pow_square(g, n, e31, x31, x32);
    let x33: nat = 0xc847bea4bf96f9b9d236b5d7cb97280d8aa58a5242cde7aa3fe3d3cafba0d4dnat;
    let e33: nat = 2 * e32;
    lemma_pow_square(g, n, e32, x32, x33);
    let x34: nat = 0x12537b46156738483dc9cad2200f58af1d0d80b9abca665d44560477d9aeb0a7nat;
    let e34: nat = 2 * e33;
    lemma_pow_square(g, n, e33, x33, x34);
    let x35: nat = 0x1c2a29f6c9386bf040a7fb0faa9975583bf44079f7e0143ed55c896e57c1d099nat;
    let e35: nat = e34 + 1;
    lemma_pow_times(g, n, e34, x34, x35);
    let x36: nat = 0x107d335ca653907201f990f6ba380b4e639d48b0f08362cc2f80451a442fa7f9nat;
    let e36: nat = 2 * e35;
    lemma_pow_square(g, n, e35, x35, x36);
    let x37: nat = 0x1408c5ead5e271ebaca8b8d55cd376a320e23c7c4a16e73f19bb9063d5f628a7nat;
    let e37: nat = e36 + 1;
    lemma_pow_times(g, n, e36, x36, x37);
    let x38: nat = 0x10aab663b6b78639a0fb1c0e5574020dae3aa2e29d644d1fdbc5bffa097db911nat;
    let e38: nat = 2 * e37;
    lemma_pow_square(g, n, e37, x37, x38);
    let x39: nat = 0x1ede32527e2776ea5fbbb2d1dbdaf48b026879c1ede197f36c8ae17c6b88c41bnat;
    let e39: nat = e38 + 1;
    lemma_pow_times(g, n, e38, x38, x39);
    let x40: nat = 0x16832fb698cde6a0ef5b848ea068fdb049707c2b786c0eb15ad7e8553a70e81nat;
    let e40: nat = 2 * e39;
    lemma_pow_square(g, n, e39, x39, x40);
    let x41: nat = 0x1c88983c63a478931419fc125a9ea7373005184d3ba9c9b9e11bc915a47f2e8cnat;
    let e41: nat = 2 * e40;
    lemma_pow_square(g, n, e40, x40, x41);
    let x42: nat = 0x18dd104fb73ec1e6af8807d84db48fe7dd3b02f008ec3738f26923c82803361anat;
    let e42: nat = e41 + 1;
    lemma_pow_times(g, n, e41, x41, x42);
    let x43: nat = 0x2be79dd9a58453ec928ecc02e32dabf5d20d456bea69b4e966fb0f70de4cec27nat;
    let e43: nat = 2 * e42;
    lemma_pow_square(g, n, e42, x42, x43);
    let x44: nat = 0x131854fe1d7649984bdc3708093a2cebceb1afd4a6f215180b1c9be70c533be3nat;
    let e44: nat = 2 * e43;
    lemma_pow_square(g, n, e43, x43, x44);
    let x45: nat = 0x6da171bb324ba0aae901467fbb40481616f16a173e5202a4cb3e5c80a951a76nat;
    let e45: nat = 2 * e44;
    lemma_pow_square(g, n, e44, x44, x45);
    let x46: nat = 0x1c0b4e1fff9c5ba27df8d0d4e7385900705fb1378026b07c194823134a338b07nat;
    let e46: nat = e45 + 1;
    lemma_pow_times(g, n, e45, x45, x46);
    let x47: nat = 0x270d5cadfa7fae970943dc6ebed93e5be714a146493056a82867b856c149e93anat;
    let e47: nat = 2 * e46;
    lemma_pow_square(g, n, e46, x46, x47);
    let x48: nat = 0xbb02ff11fcff8de34f81ce3ebdee5706169591a5f97663304edbc05926e0638nat;
    let e48: nat = e47 + 1;
    lemma_pow_times(g, n, e47, x47, x48);
}

proof fn lemma_modulus_power_15()
    ensures
        pow_mod(0x2bf7dc2ee696398928961394c6799d23b938f13e213ea4b6005e0e4d700a925anat, 0x1b2c961d389a5da36nat, 0x30644e72e131a029b85045b68181585d2833e84879b9709143e1f593f0000001nat) == 0x18e04bf63da743c3088bb9be16e97146140f35995039000e114c1f7023ad79b4nat,
{
    let n: nat = 0x30644e72e131a029b85045b68181585d2833e84879b9709143e1f593f0000001nat;
    let g: nat = 0x2bf7dc2ee696398928961394c6799d23b938f13e213ea4b6005e0e4d700a925anat;
    let e0: nat = 0x1b2c961d3nat;
    let x0: nat = 0xbb02ff11fcff8de34f81ce3ebdee5706169591a5f97663304edbc05926e0638nat;
    lemma_modulus_power_14();
    let x1: nat = 0xb9be3e7e044c1645ea41f19ee4087f435573ffe93cb3cba59c69eb54dda77e1nat;
    let e1: nat = 2 * e0;
    lemma_pow_square(g, n, e0, x0, x1);
    let x2: nat = 0x4f21070e5d8e6436881d4e99f50320cd8323de7d9d6358b6c7d976ffa77ab89nat;
    let e2: nat = e1 + 1;
    lemma_pow_times(g, n, e1, x1, x2);
    let x3: nat = 0x9f24cdb00c8056e2a67f94ae6c294d8f0c1b036ff16dc94f38c8629e2a71ed6nat;
    let e3: nat = 2 * e2;
    lemma_pow_square(g, n, e2, x2, x3);
    let x4: nat = 0x4405d42593af161e9eb71d49552d970bb370a9509f3c330ff10dc700c175983nat;
    let e4: nat = 2 * e3;
    lemma_pow_square(g, n, e3, x3, x4);
    let x5: nat = 0x1e918ec87ffc1baaedaaa53b97250b376a21097c4d0d4e9cbeb9ceff6b397706nat;
    let e5: nat = 2 * e4;
    lemma_pow_square(g, n, e4, x4, x5);
    let x6: nat = 0x2aa591d154f49b2721215778ba73660d26b45ffd241bf2942aab2c07a2ffe03anat;
    let e6: nat = 2 * e5;
    lemma_pow_square(g, n, e5, x5, x6);
    let x7: nat = 0x1d94fe037827883523eb8e00493c4c88718a778f4125cc14f8a182ead176d6a2nat;
    let e7: nat = e6 + 1;
    lemma_pow_times(g, n, e6, x6, x7);
    let x8: nat = 0x2b01611d6eb24528bd4998bbdaee23db8889cc610ad8f182bba47f2a588e8159nat;
    let e8: nat = 2 * e7;
    lemma_pow_square(g, n, e7, x7, x8);
    let x9: nat = 0x44e09d1d97ca4792097f8f34fdc857a670db186bec7e8fa03f5e4187ddfd3e6nat;
    let e9: nat = 2 * e8;
    lemma_pow_square(g, n, e8, x8, x9);
    let x10: nat = 0xb2903976d9485e49de1108ebc5d06291938fd31b0f2768376752836b02440c3nat;
    let e10: nat = 2 * e9;
    lemma_pow_square(g, n, e9, x9, x10);
    let x11: nat = 0x953c9d603ca0fa08cc5e3aa8aee9e050946c58f02addeca3f71bcd6a41bec78nat;
    let e11: nat = e10 + 1;
    lemma_pow_times(g, n, e10, x10, x11);
    let x12: nat = 0x2516624c17a4a4f47145f339404662a6ff1268881ae7d489dce5e0780379e2f1nat;
    let e12: nat = 2 * e11;
    lemma_pow_square(g, n, e11, x11, x12);
    let x13: nat = 0x1a5251c95a21cd517d640fd63b2059400264cea7a793534f2b825630ffe2dbaenat;
    let e13: nat = e12 + 1;
    lemma_pow_times(g, n, e12, x12, x13);
    let x14: nat = 0x14671a3400d0521a27228756b2ef372b6822e137f365e6b663fe111b91a97900nat;
    let e14: nat = 2 * e13;
    lemma_pow_square(g, n, e13, x13, x14);
    let x15: nat = 0x2205547cb40762e7dee9cc42d1856b93592175c55de1073b8ec1c06706fa6a6dnat;
    let e15: nat = 2 * e14;
    lemma_pow_square(g, n, e14, x14, x15);
    let x16: nat = 0xb903b118d53032fadd2e06c5b34204ba8804b877e7b0b2ec6675917bfb773e2nat;
    let e16: nat = e15 + 1;
    lemma_pow_times(g, n, e15, x15, x16);
    let x17: nat = 0x332bd99c75100c74893021d24607f69fb2c800466a159434cec45d3fdece527nat;
    let e17: nat = 2 * e16;
    lemma_pow_square(g, n, e16, x16, x17);
    let x18: nat = 0x160da78391541f3a259b0505e3b3d90795edd220397b05f49852b10867d0439cnat;
    let e18: nat = 2 * e17;
    lemma_pow_square(g, n, e17, x17, x18);
    let x19: nat = 0x1f9707e6183b2c92ca0292186d3d857a77de0e907aa0613e637ca06bd7a7b7b0nat;
    let e19: nat = 2 * e18;
    lemma_pow_square(g, n, e18, x18, x19);
    let x20: nat = 0x2b7d3b01bfb0cce39077bef0ec438e504bcb62bd5a722b468eb624456458cdf9nat;
    let e20: nat = e19 + 1;
    lemma_pow_times(g, n, e19, x19, x20);
    let x21: nat = 0x2a0366f9b1ab022a078c045ba0563d5b161f985d087ed84ae6b26f79be2819e4nat;
    let e21: nat = 2 * e20;
    lemma_pow_square(g, n, e20, x20, x21);
    let x22: nat = 0x2d4ec0f5e44e1958ed942e19bd5675ea28317107d5d48708b80398a3c5755e4anat;
    let e22: nat = 2 * e21;
    lemma_pow_square(g, n, e21, x21, x22);
    let x23: nat = 0x2c67f32242e5994f0cf14125df4ec9b8a72529a10d789bdea433371e05227e30nat;
    let e23: nat = e22 + 1;
    lemma_pow_times(g, n, e22, x22, x23);
    let x24: nat = 0xcbf7fd0939fa1a035057a719698723ff1c6dd75ee006d4a26377112d40061cnat;
    let e24: nat = 2 * e23;
    lemma_pow_square(g, n, e23, x23, x24);
    let x25: nat = 0x98570f9179268a33eecd3511c0e72df3c086b6b0f4f324d388083c7455f931nat;
    let e25: nat = e24 + 1;
    lemma_pow_times(g, n, e24, x24, x25);
    let x26: nat = 0x5ce43d5e12f520c58beb9a87d403b1e1b17d95f83e4822a7d224ff09e6978c2nat;
    let e26: nat = 2 * e25;
    lemma_pow_square(g, n, e25, x25, x26);
    let x27: nat = 0x244451dedf4b6d162e9118f4ebe6928774cc274ed90e08721a1dfcc7196cdeb5nat;
    let e27: nat = e26 + 1;
    lemma_pow_times(g, n, e26, x26, x27);
    let x28: nat = 0x290a1e4e6cb1a566ae1a254cf858b7a1b6e1cd38a1c1d194f624a5e4e5dd7206nat;
    let e28: nat = 2 * e27;
    lemma_pow_square(g, n, e27, x27, x28);
    let x29: nat = 0x1b17ddacef9381db00fba78490fd9ae8057bf1af9fcc8633506eedc8801a3059nat;
    let e29: nat = 2 * e28;
    lemma_pow_square(g, n, e28, x28, x29);
    let x30: nat = 0x40aa9d00acb4e9418ccd87ce162a4641d2df83d4a34f96f09f5c9205f637c35nat;
    let e30: nat = e29 + 1;
    lemma_pow_times(g, n, e29, x29, x30);
    let x31: nat = 0x25b9298e1cc73b5de91e7da200c590218471c7a696bc292b28f96c487f0c63e9nat;
    let e31: nat = 2 * e30;
    lemma_pow_square(g, n, e30, x30, x31);
    let x32: nat = 0x24e8e0f39135f9fb9ef73c605bd41d06db0d6699ffaa62bda8a9490bc96c029enat;
    let e32: nat = e31 + 1;
    lemma_pow_times(g, n, e31, x31, x32);
    let x33: nat = 0x2ea949e95b9044c60060d80bcc760ce14f69cf0dbcf2f51bbffec9ff30048132nat;
    let e33: nat = 2 * e32;
    lemma_pow_square(g, n, e32, x32, x33);
    let x34: nat = 0x1a428bb5d02db7cc859fe0c6bad24aad625f2e5fc8bfa46c42861b0b180d2c95nat;
    let e34: nat = 2 * e33;
    lemma_pow_square(g, n, e33, x33, x34);
    let x35: nat = 0x155f2ad7f5734c0ac4590391019d56d7a7398f534de488c63bb10e1591c17146nat;
    let e35: nat = e34 + 1;
    lemma_pow_times(g, n, e34, x34, x35);
    let x36: nat = 0x15b6e94ee07fdae7f465d071b056cb586ea70d42a251ea293e55f9343e296b11nat;
    let e36: nat = 2 * e35;
    lemma_pow_square(g, n, e35, x35, x36);
    let x37: nat = 0x8781e4cd9a1873c9866cbca7867991728e8d0d613785ee2fec07af81a20b4fdnat;
    let e37: nat = 2 * e36;
    lemma_pow_square(g, n, e36, x36, x37);
    let x38: nat = 0x181f3d235ca9a96b2d848d8c5eacf1b5cf9caa4a90fb32a21792f80085f5c3f0nat;
    let e38: nat = 2 * e37;
    lemma_pow_square(g, n, e37, x37, x38);
    let x39: nat = 0x13163bd1b65a8ee645b481fc2e6bf34d3567616b8f1a4526832477b671b3b654nat;
    let e39: nat = 2 * e38;
    lemma_pow_square(g, n, e38, x38, x39);
    let x40: nat = 0x1469423dcbaf3762463eafa9084af569d563066d027979c4b098d45c03e66181nat;
    let e40: nat = e39 + 1;
    lemma_pow_times(g, n, e39, x39, x40);
    let x41: nat = 0x2a20ccf3e2dfb581b33809ecaf921d5a8d9455787527ed06551c5ef2bd3faacfnat;
    let e41: nat = 2 * e40;
    lemma_pow_square(g, n, e40, x40, x41);
    let x42: nat = 0x214c9bc6f91ed3b0149f3ece1d6bf9429ce4585fa2a832ce4aef7799ad6d5521nat;
    let e42: nat = e41 + 1;
    lemma_pow_times(g, n, e41, x41, x42);
    let x43: nat = 0x1542b86fe863297482a51ab89c2b4d0e669e224d860433a4ccfa10d7b5eec0ecnat;
    let e43: nat = 2 * e42;
    lemma_pow_square(g, n, e42, x42, x43);
    let x44: nat = 0x3162e7007e77ec5e2ba1d9f411b37429dd5fb9fcfb67d9c163375b381e5d0b4nat;
    let e44: nat = 2 * e43;
    lemma_pow_square(g, n, e43, x43, x44);
    let x45: nat = 0x19c8c3f3b49223856e6401283bb0278fffd1d7b96a8d761395f6a3df8bdc177bnat;
    let e45: nat = e44 + 1;
    lemma_pow_times(g, n, e44, x44, x45);
    let x46: nat = 0x162dbe54a05654dd670b34c1adbbbd30d74d5ce6301fc20e7f1a98e6ffcc1f73nat;
    let e46: nat = 2 * e45;
    lemma_pow_square(g, n, e45, x45, x46);
    let x47: nat = 0x198f9fa98ae48a4e145d22a01b9d80ec0f3c7a61364fd48dc2bd1215c501a0fenat;
    let e47: nat = e46 + 1;
    lemma_pow_times(g, n, e46, x46, x47);
    let x48: nat = 0x18e04bf63da743c3088bb9be16e97146140f35995039000e114c1f7023ad79b4nat;
    let e48: nat = 2 * e47;
    lemma_pow_square(g, n, e47, x47, x48);
}

proof fn lemma_modulus_power_16()
    ensures
        pow_mod(0x2bf7dc2ee696398928961394c6799d23b938f13e213ea4b6005e0e4d700a925anat, 0x6cb25874e269768daebdd362nat, 0x30644e72e131a029b85045b68181585d2833e84879b9709143e1f593f0000001nat) == 0x21b3e3243857e22c253b6cac748a9ff0940bbfd43c82bff622bb9eb74ecbb87fnat,
{
    let n: nat = 0x30644e72e131a029b85045b68181585d2833e84879b9709143e1f593f0000001nat;
    let g: nat = 0x2bf7dc2ee696398928961394c6799d23b938f13e213ea4b6005e0e4d700a925anat;
    let e0: nat = 0x1b2c961d389a5da36nat;
    let x0: nat = 0x18e04bf63da743c3088bb9be16e97146140f35995039000e114c1f7023ad79b4nat;
    lemma_modulus_power_15();
    let x1: nat = 0x2d8381c9f74e1d8bf50d88cd25bf9a403a1bbf641c79f49f4b36ce0056dfbfbcnat;
    let e1: nat = 2 * e0;
    lemma_pow_square(g, n, e0, x0, x1);
    let x2: nat = 0x30269da9a7a209ef85fbd089680362e1f1266a23638e9a610e8c5602a06b12f0nat;
    let e2: nat = e1 + 1;
    lemma_pow_times(g, n, e1, x1, x2);
    let x3: nat = 0x1edf4a4bd5c482d64700f989c4fe48f034adb3b850a1f230f090658d9a73c682nat;
    let e3: nat = 2 * e2;
    lemma_pow_square(g, n, e2, x2, x3);
    let x4: nat = 0x12622d8f7a497878641a6f07674e8f911ec5e00b1d85d5a3f33aee846d7c3525nat;
    let e4: nat = 2 * e3;
    lemma_pow_square(g, n, e3, x3, x4);
    let x5: nat = 0x2b5633eeba5dd6acffe6729b37177708bf92ec94d49d508373f3808e665b386anat;
    let e5: nat = e4 + 1;
    lemma_pow_times(g, n, e4, x4, x5);
    let x6: nat = 0x281a524ad599f41aa2e3a65b1e77359ac535ee76c6addfa847e12069541457ecnat;
    let e6: nat = 2 * e5;
    lemma_pow_square(g, n, e5, x5, x6);
    let x7: nat = 0x16e8ee36773d5a139c61577c62214b705a3790a70e6d8dd37a3afb0681dc0ca1nat;
    let e7: nat = e6 + 1;
    lemma_pow_times(g, n, e6, x6, x7);
    let x8: nat = 0x186f4fd95c8f3e4806ce81146c61758e8d1df7a72582bb5167dfce5bf99c264fnat;
    let e8: nat = 2 * e7;
    lemma_pow_square(g, n, e7, x7, x8);
    let x9: nat = 0x1c7be307136a61f9d3784f59b191ab622c060e53aa178a1bc88fa52b8ae9397bnat;
    let e9: nat = e8 + 1;
    lemma_pow_times(g, n, e8, x8, x9);
    let x10: nat = 0x1a62453ed82c8951f3e97cf345761a1b8bfb1efd19038c57c67fcaff0213590fnat;
    let e10: nat = 2 * e9;
    lemma_pow_square(g, n, e9, x9, x10);
    let x11: nat = 0x14d2bbc6f691a68fbc310105993ab7716ed4c039240e16dc916b49e3a622c971nat;
    let e11: nat = 2 * e10;
    lemma_pow_square(g, n, e10, x10, x11);
    let x12: nat = 0x1057e0309fa7c83558cea5e5329c50d5649738b771763c255d7c9f98424cdadanat;
    let e12: nat = e11 + 1;
    lemma_pow_times(g, n, e11, x11, x12);
    let x13: nat = 0x743e5d525ff4ed77c8458cde7112e74c59c9967fbe8d989ad5757759a05bfb6nat;
    let e13: nat = 2 * e12;
    lemma_pow_square(g, n, e12, x12, x13);
    let x14: nat = 0x1d9c66822e5ceab63833ecd6c71de677cbbc3a2f82d5ae70e9b987493c2419e1nat;
    let e14: nat = 2 * e13;
    lemma_pow_square(g, n, e13, x13, x14);
    let x15: nat = 0x2b92ab957492398177b9f9f1a205f89fada8fe804faca0c78992a22f87f15c1dnat;
    let e15: nat = e14 + 1;
    lemma_pow_times(g, n, e14, x14, x15);
    let x16: nat = 0x1a3ca4e9453f1bc6605d33168218e02f9cfdd35d2c21d0e3090d2a10e8e1a753nat;
    let e16: nat = 2 * e15;
    lemma_pow_square(g, n, e15, x15, x16);
    let x17: nat = 0x28d920ef263a8a86ced70d6e44771375dafb202fc513c01e75d5877d7711c574nat;
    let e17: nat = e16 + 1;
    lemma_pow_times(g, n, e16, x16, x17);
    let x18: nat = 0x6fc4b2cb038c4a3f151450e1c941f664b1554c171d11aadf806da6941f2d3e9nat;
    let e18: nat = 2 * e17;
    lemma_pow_square(g, n, e17, x17, x18);
    let x19: nat = 0x1f3574115013a78a57c26ecbe0731388616c06ed36c2d73c6fa545b2997bd04nat;
    let e19: nat = e18 + 1;
    lemma_pow_times(g, n, e18, x18, x19);
    let x20: nat = 0x191a5411ee612e6aebd37d37d5f1060848b078fb8b22a9f4d022725a7ddf46afnat;
    let e20: nat = 2 * e19;
    lemma_pow_square(g, n, e19, x19, x20);
    let x21: nat = 0xe632fa068dcb329adc2a5b2fe064213371396f5c7bcdc55f24d51921668343cnat;
    let e21: nat = e20 + 1;
    lemma_pow_times(g, n, e20, x20, x21);
    let x22: nat = 0x5f8358a3aa996845bcc461ee1bcf766d1543125fc744cc7650e18fb0740a3ffnat;
    let e22: nat = 2 * e21;
    lemma_pow_square(g, n, e21, x21, x22);
    let x23: nat = 0x2ef29b105443927b5378e13c608da0165469c03f79b023b6d2d85fbda9f4bc6anat;
    let e23: nat = 2 * e22;
    lemma_pow_square(g, n, e22, x22, x23);
    let x24: nat = 0x1dcb31ac213515e388eed63d8dcc5d2d97d0836a197dae2329ec0d941f6a9cd4nat;
    let e24: nat = e23 + 1;
    lemma_pow_times(g, n, e23, x23, x24);
    let x25: nat = 0x1dab7fdb56925a26cad010e7fe8396aa109af276a9cf83283f4ceb906a05dd2dnat;
    let e25: nat = 2 * e24;
    lemma_pow_square(g, n, e24, x24, x25);
    let x26: nat = 0xc19d64bf61914b59280cb99a968db038b24924fc6563744818e8af276e4627nat;
    let e26: nat = e25 + 1;
    lemma_pow_times(g, n, e25, x25, x26);
    let x27: nat = 0x12894e0f26829cf08e01e08bdf6579cde72cf50c50033028943b68c8cf11d8e3nat;
    let e27: nat = 2 * e26;
    lemma_pow_square(g, n, e26, x26, x27);
    let x28: nat = 0x1c294c7948418c64bf4a29ea0d0441ba338039097020c9e7f055a8d6bce459f5nat;
    let e28: nat = e27 + 1;
    lemma_pow_times(g, n, e27, x27, x28);
    let x29: nat = 0x26c95143eb28fa5bf2740a8d1a8f8a8f84c4ca031ccf690b1a2e54126d78966anat;
    let e29: nat = 2 * e28;
    lemma_pow_square(g, n, e28, x28, x29);
    let x30: nat = 0x1b770a889cb92d4c6e456d0b5c9a0a5e568fba88fd6c58838760e8d4b2b10a96nat;
    let e30: nat = 2 * e29;
    lemma_pow_square(g, n, e29, x29, x30);
    let x31: nat = 0x22c3f15beb7c677095e7ce28d2d40a64133af3d1fa76cd9719433eb4b3d3584cnat;
    let e31: nat = e30 + 1;
    lemma_pow_times(g, n, e30, x30, x31);
    let x32: nat = 0x24e1e5dc8bbf2b159bdf7eafe04731d9693b0deac5a5719e5d961c740e65eca4nat;
    let e32: nat = 2 * e31;
    lemma_pow_square(g, n, e31, x31, x32);
    let x33: nat = 0x1d19e1ecf747a6d652fb61912f931557d366b7da00cd4c58f1f8d98131b3a315nat;
    let e33: nat = 2 * e32;
    lemma_pow_square(g, n, e32, x32, x33);
    let x34: nat = 0x1eefa176c39d9beb76ad173849aa40f961a8eb2864ad7a6a25729f35daadfda6nat;
    let e34: nat = 2 * e33;
    lemma_pow_square(g, n, e33, x33, x34);
    let x35: nat = 0x183e9cadc5bda96b9ecdadc5400cf2b32801ff662b066b23b348f43bea98891nat;
    let e35: nat = e34 + 1;
    lemma_pow_times(g, n, e34, x34, x35);
    let x36: nat = 0xe6d388276ae35441f9629f3e9314f3f884721c605b28baead1d1832fcc300b3nat;
    let e36: nat = 2 * e35;
    lemma_pow_square(g, n, e35, x35, x36);
    let x37: nat = 0x29b28dd7d25090c23f3842f6cde13ef47b5e158462e9f72dd76b08adbd37bb9fnat;
    let e37: nat = e36 + 1;
    lemma_pow_times(g, n, e36, x36, x37);
    let x38: nat = 0xc408d0fc4b269afe5710d4e6f4f26ab2ff972b7583e359589f844a57b4acf3nat;
    let e38: nat = 2 * e37;
    lemma_pow_square(g, n, e37, x37, x38);
    let x39: nat = 0x2af5b87c4612f62a195b802846056255f8538232b8936b2d7dc8179d09cd1c06nat;
    let e39: nat = 2 * e38;
    lemma_pow_square(g, n, e38, x38, x39);
    let x40: nat = 0x751f91a59989c7d9d114e5ad5317d5043330fe2ddf109214adcd35d0803bdb8nat;
    let e40: nat = e39 + 1;
    lemma_pow_times(g, n, e39, x39, x40);
    let x41: nat = 0x2a5c08a50cf6706db17a84f4588ce07eed4d573635d1184d2579d9a1776f02fcnat;
    let e41: nat = 2 * e40;
    lemma_pow_square(g, n, e40, x40, x41);
    let x42: nat = 0x286eedc76621a7bfed46b8d4dbdcb74e75101fe21de89cf7939522bede69f51cnat;
    let e42: nat = e41 + 1;
    lemma_pow_times(g, n, e41, x41, x42);
    let x43: nat = 0x2cf4da1d6d5ebc09daa6a2eed1ad6eb707df2d0980f9aeee9118f9f7aa91f92anat;
    let e43: nat = 2 * e42;
    lemma_pow_square(g, n, e42, x42, x43);
    let x44: nat = 0x1d744f398fc35115760d435f393a731a3fffe007959836fe45d1e3563fbfc8d9nat;
    let e44: nat = 2 * e43;
    lemma_pow_square(g, n, e43, x43, x44);
    let x45: nat = 0xa76c864c6d988da563a6e4456d3023f4f6b5e5d2397879f7a68c09ac64e3ddenat;
    let e45: nat = 2 * e44;
    lemma_pow_square(g, n, e44, x44, x45);
    let x46: nat = 0x196b3faa589a09e6eace2ccae34c7aead39303e7644eb8b79bae8c9326cf4259nat;
    let e46: nat = 2 * e45;
    lemma_pow_square(g, n, e45, x45, x46);
    let x47: nat = 0x14593030090721efc75e1a5227f3295ace7297133b97c29dfcff3348f7fb3469nat;
    let e47: nat = e46 + 1;
    lemma_pow_times(g, n, e46, x46, x47);
    let x48: nat = 0x21b3e3243857e22c253b6cac748a9ff0940bbfd43c82bff622bb9eb74ecbb87fnat;
    let e48: nat = 2 * e47;
    lemma_pow_square(g, n, e47, x47, x48);
}

proof fn lemma_modulus_power_17()
    ensures
        pow_mod(0x2bf7dc2ee696398928961394c6799d23b938f13e213ea4b6005e0e4d700a925anat, 0x1b2c961d389a5da36baf74d8ad11enat, 0x30644e72e131a029b85045b68181585d2833e84879b9709143e1f593f0000001nat) == 0x23ba6b36fb4ed7ec7eebf739469c70d8e9bc9036cec0d9b3c84668f10cf691b3nat,
{
    let n: nat = 0x30644e72e131a029b85045b68181585d2833e84879b9709143e1f593f0000001nat;
    let g: nat = 0x2bf7dc2ee696398928961394c6799d23b938f13e213ea4b6005e0e4d700a925anat;
    let e0: nat = 0x6cb25874e269768daebdd362nat;
    let x0: nat = 0x21b3e3243857e22c253b6cac748a9ff0940bbfd43c82bff622bb9eb74ecbb87fnat;
    lemma_modulus_power_16();
    let x1: nat = 0x2e9b029984d59f03caf43ea23efc70fd917bf24a6e01ccb402da955cd0af2236nat;
    let e1: nat = 2 * e0;
    lemma_pow_square(g, n, e0, x0, x1);
    let x2: nat = 0x21feba7ba524169e4d7ae619c65c0cb266cb7ae3e3ad87036af9365e4b64ce72nat;
    let e2: nat = e1 + 1;
    lemma_pow_times(g, n, e1, x1, x2);
    let x3: nat = 0x2980ec7e493ccc9eca64af6b4e92d1a9b15acc1f3aa63acb3b64798d5d34aa87nat;
    let e3: nat = 2 * e2;
    lemma_pow_square(g, n, e2, x2, x3);
    let x4: nat = 0xba7cf274a2991b6911a59aab1c253bd9288000237059855ad218500cdacdbddnat;
    let e4: nat = 2 * e3;
    lemma_pow_square(g, n, e3, x3, x4);
    let x5: nat = 0x2839e6a2a64ecc8d6cd38fdc45a7b244cc6bb3200453899fa7d528ce6b4105cbnat;
    let e5: nat = e4 + 1;
    lemma_pow_times(g, n, e4, x4, x5);
    let x6: nat = 0x22281ec2fb90e7e3035ee4877cf0397259a05dfd478deacb675ae2d61c1ac5f1nat;
    let e6: nat = 2 * e5;
    lemma_pow_square(g, n, e5, x5, x6);
    let x7: nat = 0x2f49dd4fca20cb182bfa63992f640b2e286eb7f1a0d425fdde4704b7f69ae87nat;
    let e7: nat = e6 + 1;
    lemma_pow_times(g, n, e6, x6, x7);
    let x8: nat = 0x7ccd14a282707f84f38a8faa806ea9e3028f152a796faf0086627d20752ca6cnat;
    let e8: nat = 2 * e7;
    lemma_pow_square(g, n, e7, x7, x8);
    let x9: nat = 0x1ab4a49f3899b415fb670157eec6f8c3403db7cffadec96b82bf29e8d679a9a2nat;
    let e9: nat = 2 * e8;
    lemma_pow_square(g, n, e8, x8, x9);
    let x10: nat = 0x1568f11823695eea83ebc808554c5c7c680cb173a4362fcfb795d595551a0e99nat;
    let e10: nat = e9 + 1;
    lemma_pow_times(g, n, e9, x9, x10);
    let x11: nat = 0x6d1e4c9663046f7877e2343c2234468dcdf3218f1c45ed0ae095d00b0b8ce2nat;
    let e11: nat = 2 * e10;
    lemma_pow_square(g, n, e10, x10, x11);
    let x12: nat = 0x10df4d19d4d719e91d39dfaeef4cc492c48a103ee348ae73b17209c168044a96nat;
    let e12: nat = 2 * e11;
    lemma_pow_square(g, n, e11, x11, x12);
    let x13: nat = 0x695e10eb30aadd2b691b46077f2a4ec7353b7a792c3760788ece486138057f9nat;
    let e13: nat = 2 * e12;
    lemma_pow_square(g, n, e12, x12, x13);
    let x14: nat = 0x194672ed23c6b1bcf1d1984fdffcb2d3b30cfee2074303c8ecd8597d25382725nat;
    let e14: nat = 2 * e13;
    lemma_pow_square(g, n, e13, x13, x14);
    let x15: nat = 0x2dc5b6985bfbcb14720c55c9e3dcb5294d4cd4b862717d898718e362c3255c95nat;
    let e15: nat = e14 + 1;
    lemma_pow_times(g, n, e14, x14, x15);
    let x16: nat = 0x1931481337938a4801c0403c60adc7d58a400e68e2446310837c669b44e70b0dnat;
    let e16: nat = 2 * e15;
    lemma_pow_square(g, n, e15, x15, x16);
    let x17: nat = 0x8ad84310c643224623b12f08c13e93102fef582a0c02cbf713fb12720fa02aenat;
    let e17: nat = 2 * e16;
    lemma_pow_square(g, n, e16, x16, x17);
    let x18: nat = 0x1aa7eddb982feace5535b0aea59fc2e72e45143cddf395f8a06cf462fb5df84nat;
    let e18: nat = 2 * e17;
    lemma_pow_square(g, n, e17, x17, x18);
    let x19: nat = 0x13c873124241afbbda28554f6f3574cbcc279cb4c951338dc6f63230c32ddc28nat;
    let e19: nat = 2 * e18;
    lemma_pow_square(g, n, e18, x18, x19);
    let x20: nat = 0xe505f31b447d2f21583144c3d1ee23c88da672664194a0f474ec9477f3c8f3anat;
    let e20: nat = e19 + 1;
    lemma_pow_times(g, n, e19, x19, x20);
    let x21: nat = 0xe3a749dc0282446ab28073829abf809ae063c37d7d8a6f2f26742a63ab43491nat;
    let e21: nat = 2 * e20;
    lemma_pow_square(g, n, e20, x20, x21);
    let x22: nat = 0xdb8af4defc227bf792a33443ee518215dbf609ed115130542cccfaee3748d95nat;
    let e22: nat = e21 + 1;
    lemma_pow_times(g, n, e21, x21, x22);
    let x23: nat = 0x10e144dbc87a971b90f119abac813d2d601b963f1277e117bb598ad0b0a7f018nat;
    let e23: nat = 2 * e22;
    lemma_pow_square(g, n, e22, x22, x23);
    let x24: nat = 0x6bb0baaf2ede200f18f4ca06ffaa4476687dca807e6bcc565409654e3bffbe0nat;
    let e24: nat = e23 + 1;
    lemma_pow_times(g, n, e23, x23, x24);
    let x25: nat = 0x11cfb943c97d6ffe2c2a4f32b57b1c7a767450a04feae91ddf505ed3fa575d9dnat;
    let e25: nat = 2 * e24;
    lemma_pow_square(g, n, e24, x24, x25);
    let x26: nat = 0x301aa74e94db05f6ed09f22c6e6cc413c379b49ec184a05a62b17dc4bccdfdc6nat;
    let e26: nat = e25 + 1;
    lemma_pow_times(g, n, e25, x25, x26);
    let x27: nat = 0x23ba6b36fb4ed7ec7eebf739469c70d8e9bc9036cec0d9b3c84668f10cf691b3nat;
    let e27: nat = 2 * e26;
    lemma_pow_square(g, n, e26, x26, x27);
}

proof fn lemma_modulus_raise_8()
    ensures
        pow_mod(5nat, 0x28c2e12bd4e78c7521872f45039ad0000000nat, 0x30644e72e131a029b85045b68181585d2833e84879b9709143e1f593f0000001nat) == 0x23ba6b36fb4ed7ec7eebf739469c70d8e9bc9036cec0d9b3c84668f10cf691b3nat,
{
    lemma_modulus_power_1();
    lemma_modulus_power_17();
    lemma_pow_raise(5nat, 0x30644e72e131a029b85045b68181585d2833e84879b9709143e1f593f0000001nat, 402653184nat, 0x2bf7dc2ee696398928961394c6799d23b938f13e213ea4b6005e0e4d700a925anat, 0x1b2c961d389a5da36baf74d8ad11enat, 0x23ba6b36fb4ed7ec7eebf739469c70d8e9bc9036cec0d9b3c84668f10cf691b3nat, 0x28c2e12bd4e78c7521872f45039ad0000000nat);
}

proof fn lemma_modulus_power_18()
    ensures
        pow_mod(0x23ba6b36fb4ed7ec7eebf739469c70d8e9bc9036cec0d9b3c84668f10cf691b3nat, 0x2a02a27benat, 0x30644e72e131a029b85045b68181585d2833e84879b9709143e1f593f0000001nat) == 0x1ce6f59a164fa9c358abd2c8a528699651c0dcc35a59e6663e96a06a627731d9nat,
{
    let n: nat = 0x30644e72e131a029b85045b68181585d2833e84879b9709143e1f593f0000001nat;
    let g: nat = 0x23ba6b36fb4ed7ec7eebf739469c70d8e9bc9036cec0d9b3c84668f10cf691b3nat;
    let e0: nat = 1nat;
    let x0: nat = 0x23ba6b36fb4ed7ec7eebf739469c70d8e9bc9036cec0d9b3c84668f10cf691b3nat;
    lemma_pow_first(g, n, x0);
    let x1: nat = 0x2da1fd6a2ee988a67b55ed657ffaa15c2708c023e7b64cb96f7de460902a1ec5nat;
    let e1: nat = 2 * e0;
    lemma_pow_square(g, n, e0, x0, x1);
    let x2: nat = 0x9da517edd933a6fc0a274e7570d6fe9b26b36b00597e83fc8538e90bd942dcfnat;
    let e2: nat = 2 * e1;
    lemma_pow_square(g, n, e1, x1, x2);
    let x3: nat = 0x21d3b344213138587740b818b5d982a6e35f05ba1dabd0fd28fe35ad975495b5nat;
    let e3: nat = e2 + 1;
    lemma_pow_times(g, n, e2, x2, x3);
    let x4: nat = 0x27ea6b4b71c63c59fa6a5bac13eddbc24eb30564d0a97950f2fbd2229383f6ddnat;
    let e4: nat = 2 * e3;
    lemma_pow_square(g, n, e3, x3, x4);
    let x5: nat = 0x16bf757378b93a1bce240dc31f2845d4fa08180d62ad568132037a8b18873864nat;
    let e5: nat = 2 * e4;
    lemma_pow_square(g, n, e4, x4, x5);
    let x6: nat = 0x2191f1a8789061e86162ab794afd82dd6d5ad2fd4581135b6bafb000f74afeednat;
    let e6: nat = e5 + 1;
    lemma_pow_times(g, n, e5, x5, x6);
    let x7: nat = 0x1d247840fe398d7178a77415944a3b1d2b8c686ac344cb4e36b3d5837ddbbd7anat;
    let e7: nat = 2 * e6;
    lemma_pow_square(g, n, e6, x6, x7);
    let x8: nat = 0x2307229a61a35a400f9dadf5f314a4cc488b208aa10be115830ae7c9540a057nat;
    let e8: nat = 2 * e7;
    lemma_pow_square(g, n, e7, x7, x8);
    let x9: nat = 0x299e9627834c017a06e0289f9fde04f340e942ee3702f646ea89d01d6f6a629nat;
    let e9: nat = 2 * e8;
    lemma_pow_square(g, n, e8, x8, x9);
    let x10: nat = 0x25eb9ac8f82789cbbd2370a814aa5727b0396dad257f222ae8104fe15d5904c2nat;
    let e10: nat = 2 * e9;
    lemma_pow_square(g, n, e9, x9, x10);
    let x11: nat = 0x2da054a9eda762b89491d86e37c439f87185e55fb83f8c463e5a345a7526887bnat;
    let e11: nat = 2 * e10;
    lemma_pow_square(g, n, e10, x10, x11);
    let x12: nat = 0x170ab429f794396a577fcc67a0ffaa3f1db739d885e3293f1bf8859bb3b412e7nat;
    let e12: nat = 2 * e11;
    lemma_pow_square(g, n, e11, x11, x12);
    let x13: nat = 0x2e546f011ae9cf8c8898906403f8395869d816ad5ec4844cda34b1d3d47405bdnat;
    let e13: nat = 2 * e12;
    lemma_pow_square(g, n, e12, x12, x13);
    let x14: nat = 0x27b2e3a5e923e2d62f749ad47992c6a08748d15113fd39e2315b2753242c776anat;
    let e14: nat = 2 * e13;
    lemma_pow_square(g, n, e13, x13, x14);
    let x15: nat = 0x2840746e6b9fc1366b56ec7ce8aa07382f3d75845e6ed7766971d36b2b40faf3nat;
    let e15: nat = e14 + 1;
    lemma_pow_times(g, n, e14, x14, x15);
    let x16: nat = 0x2324c7ee82dc847b7529ba54ac172df59f99c1c60b085bc5a987f296ab38bc55nat;
    let e16: nat = 2 * e15;
    lemma_pow_square(g, n, e15, x15, x16);
    let x17: nat = 0xb221db807c84fe56a66bd4b9678342211482d601cb03d6c8a7c9b0f321b0986nat;
    let e17: nat = 2 * e16;
    lemma_pow_square(g, n, e16, x16, x17);
    let x18: nat = 0x137de074ee2fd00adaa66c6690412f5cfb0dfcdc7e7e5af4aef7151eace312f5nat;
    let e18: nat = e17 + 1;
    lemma_pow_times(g, n, e17, x17, x18);
    let x19: nat = 0x2951a4a26f62f1c87b9aa5f3fd9650179399eb3909b944db861d0bfa63c90ccnat;
    let e19: nat = 2 * e18;
    lemma_pow_square(g, n, e18, x18, x19);
    let x20: nat = 0x1f3e2dd2f7235001b9bdaef32ff2bc92c02c97144d38396ef38d763cd3759d0enat;
    let e20: nat = 2 * e19;
    lemma_pow_square(g, n, e19, x19, x20);
    let x21: nat = 0x247ec9bee58ae27ef9d01395122851b7573fd58125e066bdba46e22f059f9d02nat;
    let e21: nat = e20 + 1;
    lemma_pow_times(g, n, e20, x20, x21);
    let x22: nat = 0x13d368c5d10600ad223ac88de827fb2eec0a417291cecb8c4adaadbc8d66d4c5nat;
    let e22: nat = 2 * e21;
    lemma_pow_square(g, n, e21, x21, x22);
    let x23: nat = 0x18f84faf990f54ad4faf3e0fc30d6fc9e3340d90864b7c92e224b6660d5687afnat;
    let e23: nat = 2 * e22;
    lemma_pow_square(g, n, e22, x22, x23);
    let x24: nat = 0x1fe140309a1c089503f712db138b1226d6313ae6eaf7361d9b332425b8d87e35nat;
    let e24: nat = 2 * e23;
    lemma_pow_square(g, n, e23, x23, x24);
    let x25: nat = 0x1000e1009e324b35bda5d0e66929b6b9ad8a5f845166ee20c1f6575dc071933nat;
    let e25: nat = 2 * e24;
    lemma_pow_square(g, n, e24, x24, x25);
    let x26: nat = 0x217adbe5355afb2f6498c90f64bfd266f05db8907d4e2b07e15dc66e1ac7182nat;
    let e26: nat = e25 + 1;
    lemma_pow_times(g, n, e25, x25, x26);
    let x27: nat = 0x244b3a9038b8621c25f3fdee0306534e6e33e006895b6b16ff50a18b0cb54b34nat;
    let e27: nat = 2 * e26;
    lemma_pow_square(g, n, e26, x26, x27);
    let x28: nat = 0xf06579fbd41446a4b3f135eec1de8f7b3fda822343b63976c29dae66926c0e3nat;
    let e28: nat = 2 * e27;
    lemma_pow_square(g, n, e27, x27, x28);
    let x29: nat = 0x1b2c350c88d0163bdad54d81e7661b07ecc550887ae371f6c6844bddd6f9ccanat;
    let e29: nat = 2 * e28;
    lemma_pow_square(g, n, e28, x28, x29);
    let x30: nat = 0x2cdae4709c0970b20898c1cd446c11f7a5f1c610c41c564813978e8ca07be60bnat;
    let e30: nat = e29 + 1;
    lemma_pow_times(g, n, e29, x29, x30);
    let x31: nat = 0x18091afd99a6a581626589520dcc8bce439001ce405c79ed875703639a20abednat;
    let e31: nat = 2 * e30;
    lemma_pow_square(g, n, e30, x30, x31);
    let x32: nat = 0x119ce0f1c2e63ab2440e50da0802f617b7437da805aa0d1ccdc16cd0853decf1nat;
    let e32: nat = e31 + 1;
    lemma_pow_times(g, n, e31, x31, x32);
    let x33: nat = 0x2bac232b097a7320005a1dce1947597d9ab175f77a7aa478f28b615898c4867cnat;
    let e33: nat = 2 * e32;
    lemma_pow_square(g, n, e32, x32, x33);
    let x34: nat = 0x2b7217b41f8abda6805234cb33db8d8ef82a7914ae38fa63608e6872007a8d50nat;
    let e34: nat = e33 + 1;
    lemma_pow_times(g, n, e33, x33, x34);
    let x35: nat = 0xb4d16e4bd9159e4aa85b12ee2cdffc8f4cb5f61d23f7457b1433707f1bec85fnat;
    let e35: nat = 2 * e34;
    lemma_pow_square(g, n, e34, x34, x35);
    let x36: nat = 0xfdd164aaec16baaf8b1f1b2ddca171e3943f8aa89da5b9359f1664f9323911bnat;
    let e36: nat = e35 + 1;
    lemma_pow_times(g, n, e35, x35, x36);
    let x37: nat = 0x1b14370c092634f0b4c30ffd16f34b5f5570ab0350048a35a87a25dedd8debb8nat;
    let e37: nat = 2 * e36;
    lemma_pow_square(g, n, e36, x36, x37);
    let x38: nat = 0x1e527d83bd3566d9b1ecc5ba29c70b35749724d1de9e3a095757275eca9ffe2fnat;
    let e38: nat = 2 * e37;
    lemma_pow_square(g, n, e37, x37, x38);
    let x39: nat = 0x25dedc473bec8eaa6ae64078237a246790bac00e67a52163eeae62a1bb18f388nat;
    let e39: nat = e38 + 1;
    lemma_pow_times(g, n, e38, x38, x39);
    let x40: nat = 0xe2cc71511c24c74d1b47e079fd6578f89a7c07046f7e619359a19a0d0694e43nat;
    let e40: nat = 2 * e39;
    lemma_pow_square(g, n, e39, x39, x40);
    let x41: nat = 0x1afd8bc8f9f6b8dc47dfc73fd26aac41efff65890f86adf3476c3602c135f5d3nat;
    let e41: nat = e40 + 1;
    lemma_pow_times(g, n, e40, x40, x41);
    let x42: nat = 0x2ceaeae4d38d09da8849eee25352560cfbe0ce3b37a49b9479d7d16cff47c056nat;
    let e42: nat = 2 * e41;
    lemma_pow_square(g, n, e41, x41, x42);
    let x43: nat = 0x1f98ebc79e7e76629ed2c20f7793c116034d16900c28237159e66bdf75fda4f4nat;
    let e43: nat = e42 + 1;
    lemma_pow_times(g, n, e42, x42, x43);
    let x44: nat = 0xb7b8d158adb09411106ab0c16d1ffbea24f58c9a0c8e68e7ae4d70b82e50b06nat;
    let e44: nat = 2 * e43;
    lemma_pow_square(g, n, e43, x43, x44);
    let x45: nat = 0x4e627254e327c9b0f08d4b030c6655c2909481df393aeaf298c5dc37812e70anat;
    let e45: nat = e44 + 1;
    lemma_pow_times(g, n, e44, x44, x45);
    let x46: nat = 0x2960c8e4128a024fd349de1bec75d4e644d2b6b8e45bc470726749bde0d4a5d5nat;
    let e46: nat = 2 * e45;
    lemma_pow_square(g, n, e45, x45, x46);
    let x47: nat = 0x5c452e5ab2120edfed188291410e0f4218c602b7554d44523f7da1ff28cd473nat;
    let e47: nat = e46 + 1;
    lemma_pow_times(g, n, e46, x46, x47);
    let x48: nat = 0x1ce6f59a164fa9c358abd2c8a528699651c0dcc35a59e6663e96a06a627731d9nat;
    let e48: nat = 2 * e47;
    lemma_pow_square(g, n, e47, x47, x48);
}

proof fn lemma_modulus_power_19()
    ensures
        pow_mod(0x23ba6b36fb4ed7ec7eebf739469c70d8e9bc9036cec0d9b3c84668f10cf691b3nat, 0x1501513dfb4e459nat, 0x30644e72e131a029b85045b68181585d2833e84879b9709143e1f593f0000001nat) == 0xc38ffac5add5d93f5780c570103aee18ab09d8ebe59c462a9f83ef8f056f7bfnat,
{
    let n: nat = 0x30644e72e131a029b85045b68181585d2833e84879b9709143e1f593f0000001nat;
    let g: nat = 0x23ba6b36fb4ed7ec7eebf739469c70d8e9bc9036cec0d9b3c84668f10cf691b3nat;
    let e0: nat = 0x2a02a27benat;
    let x0: nat = 0x1ce6f59a164fa9c358abd2c8a528699651c0dcc35a59e6663e96a06a627731d9nat;
    lemma_modulus_power_18();
    let x1: nat = 0x2ef5731a654b20a43bec627c334c7fe5aa7ee25e46047e1ae024273940738b37nat;
    let e1: nat = e0 + 1;
    lemma_pow_times(g, n, e0, x0, x1);
    let x2: nat = 0x11dbf887f2bd0e3f769c588991db844c46006f87de0fbdaf781cadcf02532dd9nat;
    let e2: nat = 2 * e1;
    lemma_pow_square(g, n, e1, x1, x2);
    let x3: nat = 0x12273b67258ea8295858efb64ee823367949bd7894ced3fa3ab62eff316d65b0nat;
    let e3: nat = 2 * e2;
    lemma_pow_square(g, n, e2, x2, x3);
    let x4: nat = 0x5c3abf0f4617ee72940dfea97ab1c7b072ce90d6eebb36b465cf78f456341aanat;
    let e4: nat = e3 + 1;
    lemma_pow_times(g, n, e3, x3, x4);
    let x5: nat = 0x15563e192939689d6ddc2e9501fd96de3e76babce589756a963f119aafa15a36nat;
    let e5: nat = 2 * e4;
    lemma_pow_square(g, n, e4, x4, x5);
    let x6: nat = 0x24fa90dd7aefd2c55256c50f9898e7b38c1d7fb3af250cd0be7d2c904e6029danat;
    let e6: nat = e5 + 1;
    lemma_pow_times(g, n, e5, x5, x6);
    let x7: nat = 0x15a7cc97b635809d7ebc6a6133c88dfa54f91aa174130d0c93e4c12a5e1aed52nat;
    let e7: nat = 2 * e6;
    lemma_pow_square(g, n, e6, x6, x7);
    let x8: nat = 0x1edd9ffced5a685211e9c521cad5d5ed289d4d9e187f37db7661367f7fbabb8cnat;
    let e8: nat = 2 * e7;
    lemma_pow_square(g, n, e7, x7, x8);
    let x9: nat = 0x25b9c4e550b17a053e08c69ec99896b0dfe7df8010d035918bfd7aee5fe5f75nat;
    let e9: nat = e8 + 1;
    lemma_pow_times(g, n, e8, x8, x9);
    let x10: nat = 0x283928ca748c5fff3a86e5d01b90454025600d9ff4f33f4b3f76a4ae1775b93cnat;
    let e10: nat = 2 * e9;
    lemma_pow_square(g, n, e9, x9, x10);
    let x11: nat = 0x808c4f3a62eb29e71235d0473abfade31fc5ed288c12b7fac7fad89041d0a2anat;
    let e11: nat = 2 * e10;
    lemma_pow_square(g, n, e10, x10, x11);
    let x12: nat = 0x213d2af38e9b7f28ff05d9851ef1eef3b4e577561c23dbedbf714ba1cd386807nat;
    let e12: nat = 2 * e11;
    lemma_pow_square(g, n, e11, x11, x12);
    let x13: nat = 0x16678abbd01a60d40a2d20e2dec19e012e65ddd609137ce09df2b1193a45297cnat;
    let e13: nat = e12 + 1;
    lemma_pow_times(g, n, e12, x12, x13);
    let x14: nat = 0x6ead928cdc30c1bdbea25cab5432ea7f6b71ab3bb176a519b5f6cd5b05ed313nat;
    let e14: nat = 2 * e13;
    lemma_pow_square(g, n, e13, x13, x14);
    let x15: nat = 0x20c3c81ab725aeeadbb780f2fa91cb4b4fd5f60737df67fd669d1d91c323d6ffnat;
    let e15: nat = e14 + 1;
    lemma_pow_times(g, n, e14, x14, x15);
    let x16: nat = 0x6af95371cd3193fccbf1fd53c821299ceeedf82d1faf82c329cd3afc4db693bnat;
    let e16: nat = 2 * e15;
    lemma_pow_square(g, n, e15, x15, x16);
    let x17: nat = 0x25e17583def4d4a46ecb519b29480f66baaa9fdfe66e0c2e21a6340223e38558nat;
    let e17: nat = e16 + 1;
    lemma_pow_times(g, n, e16, x16, x17);
    let x18: nat = 0x11a6c4bab1193d7f5f6b93273c46c292ebd57970a47d468939bd58f73a120bfbnat;
    let e18: nat = 2 * e17;
    lemma_pow_square(g, n, e17, x17, x18);
    let x19: nat = 0x1e0a23d1c87de69fc08af187586d4db032d15929697d5db35bbb5fff8bd07ebfnat;
    let e19: nat = 2 * e18;
    lemma_pow_square(g, n, e18, x18, x19);
    let x20: nat = 0x232aad68cdfb0bbd3988a404a36f69d260b0d7b15539024810badfdb351801canat;
    let e20: nat = 2 * e19;
    lemma_pow_square(g, n, e19, x19, x20);
    let x21: nat = 0x5ffb5d723e1dcfda3c2f5298279a1523eae05f6bfd0e3a5ef6829c2053d230bnat;
    let e21: nat = e20 + 1;
    lemma_pow_times(g, n, e20, x20, x21);
    let x22: nat = 0x281e79fb95ac420d62f10134ab49b35c6ff3be61d9a7aad256dfd3bd193b7962nat;
    let e22: nat = 2 * e21;
    lemma_pow_square(g, n, e21, x21, x22);
    let x23: nat = 0x2af9c13025cd47d79efe6e88b287861890087a8bbd03654ddb56dc65cc65e70dnat;
    let e23: nat = 2 * e22;
    lemma_pow_square(g, n, e22, x22, x23);
    let x24: nat = 0x2403eccf4e8a04ca405b4e2370403136b2ac477ab4e5ac51b4e0473499792076nat;
    let e24: nat = 2 * e23;
    lemma_pow_square(g, n, e23, x23, x24);
    let x25: nat = 0x144074f6088553426b1f8728ac346dbfca8200b105861a85c871370ebb46cd35nat;
    let e25: nat = 2 * e24;
    lemma_pow_square(g, n, e24, x24, x25);
    let x26: nat = 0x1057514998e4617c84e8e96af473473358603926a0356eafe9ecfa5ade2fe9a4nat;
    let e26: nat = e25 + 1;
    lemma_pow_times(g, n, e25, x25, x26);
    let x27: nat = 0x63ce6f58f12383798a9a78bb7e35bd0c9e6836a44d68387e5b6de6cc1bde620nat;
    let e27: nat = 2 * e26;
    lemma_pow_square(g, n, e26, x26, x27);
    let x28: nat = 0x1985c2c980bfee34a9a0a505348a00227267f2a7320b96e84f8950429240b4b5nat;
    let e28: nat = 2 * e27;
    lemma_pow_square(g, n, e27, x27, x28);
    let x29: nat = 0x2355eac903e85b2c7e83ff9c1a03a29674f7f451fcaddeaee27fbf6b67e4968anat;
    let e29: nat = e28 + 1;
    lemma_pow_times(g, n, e28, x28, x29);
    let x30: nat = 0x13e84a70fa321900c2441c93f9daa6e1e828a91d067db6f770d1ee0e3c661d7cnat;
    let e30: nat = 2 * e29;
    lemma_pow_square(g, n, e29, x29, x30);
    let x31: nat = 0x8cd2b973c6bac1e29c5d020bb7699a2fad1b74eed477ef425f1c1a8788d8f52nat;
    let e31: nat = e30 + 1;
    lemma_pow_times(g, n, e30, x30, x31);
    let x32: nat = 0x1af5bf792070ca8a76b1cae0e2d1f54dff5fe1323df76d58d70cafcd412c2999nat;
    let e32: nat = 2 * e31;
    lemma_pow_square(g, n, e31, x31, x32);
    let x33: nat = 0x109fad0f6f07997451788cb6767522f6e8f633b84a96f3718beab47a8f45f2a3nat;
    let e33: nat = 2 * e32;
    lemma_pow_square(g, n, e32, x32, x33);
    let x34: nat = 0x23be3e91076aa4651e7d078bd237eddae4042d3d99fb5093b06d035f0cf22088nat;
    let e34: nat = 2 * e33;
    lemma_pow_square(g, n, e33, x33, x34);
    let x35: nat = 0xc38ffac5add5d93f5780c570103aee18ab09d8ebe59c462a9f83ef8f056f7bfnat;
    let e35: nat = e34 + 1;
    lemma_pow_times(g, n, e34, x34, x35);
}

proof fn lemma_modulus_raise_9()
    ensures
        pow_mod(5nat, 0x358322b0154e276303c1e3a6a6626b6050ba3e621250000000nat, 0x30644e72e131a029b85045b68181585d2833e84879b9709143e1f593f0000001nat) == 0xc38ffac5add5d93f5780c570103aee18ab09d8ebe59c462a9f83ef8f056f7bfnat,
{
    lemma_modulus_raise_8();
    lemma_modulus_power_19();
    lemma_pow_raise(5nat, 0x30644e72e131a029b85045b68181585d2833e84879b9709143e1f593f0000001nat, 0x28c2e12bd4e78c7521872f45039ad0000000nat, 0x23ba6b36fb4ed7ec7eebf739469c70d8e9bc9036cec0d9b3c84668f10cf691b3nat, 0x1501513dfb4e459nat, 0xc38ffac5add5d93f5780c570103aee18ab09d8ebe59c462a9f83ef8f056f7bfnat, 0x358322b0154e276303c1e3a6a6626b6050ba3e621250000000nat);
}

proof fn lemma_modulus_power_20()
    ensures
        pow_mod(0xc38ffac5add5d93f5780c570103aee18ab09d8ebe59c462a9f83ef8f056f7bfnat, 39nat, 0x30644e72e131a029b85045b68181585d2833e84879b9709143e1f593f0000001nat) == 0x2b6d904f4dd81999c858344739261ea5bc718a9874962af046a184669ce38707nat,
{
    let n: nat = 0x30644e72e131a029b85045b68181585d2833e84879b9709143e1f593f0000001nat;
    let g: nat = 0xc38ffac5add5d93f5780c570103aee18ab09d8ebe59c462a9f83ef8f056f7bfnat;
    let e0: nat = 1nat;
    let x0: nat = 0xc38ffac5add5d93f5780c570103aee18ab09d8ebe59c462a9f83ef8f056f7bfnat;
    lemma_pow_first(g, n, x0);
    let x1: nat = 0x18415a505a8bb86db58caa524206f98e95c8e63ff0a165f0b8f3f503e8d251d5nat;
    let e1: nat = 2 * e0;
    lemma_pow_square(g, n, e0, x0, x1);
    let x2: nat = 0x1dd07a0a33e2878a6042959b6c6d57e88b9a4250069235f8cdec3cf1b75ff053nat;
    let e2: nat = 2 * e1;
    lemma_pow_square(g, n, e1, x1, x2);
    let x3: nat = 0x87315e24ebd98680c3e28ad254039fd44e648eaa53d7053f94ee11c08ea2b82nat;
    let e3: nat = 2 * e2;
    lemma_pow_square(g, n, e2, x2, x3);
    let x4: nat = 0x1e831c51247c11869e93a3be659e6c2ec62f47ecbb2402f4eb0ada295cd7fcbbnat;
    let e4: nat = e3 + 1;
    lemma_pow_times(g, n, e3, x3, x4);
    let x5: nat = 0x8c1dabb342a3d44526b5aac4e8b1c69ef47ebab120be80d5ef6eaa3e1b9f6b2nat;
    let e5: nat = 2 * e4;
    lemma_pow_square(g, n, e4, x4, x5);
    let x6: nat = 0x2a6b2fdfa9115f3e87b062ae2be990a3431de0f12f7dda599e61ac5c744a31a2nat;
    let e6: nat = e5 + 1;
    lemma_pow_times(g, n, e5, x5, x6);
    let x7: nat = 0x167f02b2604f6f37d61c444b2a896ff8337e8a4decc42b81dfdbb99b415fcba4nat;
    let e7: nat = 2 * e6;
    lemma_pow_square(g, n, e6, x6, x7);
    let x8: nat = 0x2b6d904f4dd81999c858344739261ea5bc718a9874962af046a184669ce38707nat;
    let e8: nat = e7 + 1;
    lemma_pow_times(g, n, e7, x7, x8);
}

proof fn lemma_modulus_raise_10()
    ensures
        pow_mod(5nat, 0x826fa48d33ee800159289ae6358fe5bac4c5f80f0ca30000000nat, 0x30644e72e131a029b85045b68181585d2833e84879b9709143e1f593f0000001nat) == 0x2b6d904f4dd81999c858344739261ea5bc718a9874962af046a184669ce38707nat,
{
    lemma_modulus_raise_9();
    lemma_modulus_power_20();
    lemma_pow_raise(5nat, 0x30644e72e131a029b85045b68181585d2833e84879b9709143e1f593f0000001nat, 0x358322b0154e276303c1e3a6a6626b6050ba3e621250000000nat, 0xc38ffac5add5d93f5780c570103aee18ab09d8ebe59c462a9f83ef8f056f7bfnat, 39nat, 0x2b6d904f4dd81999c858344739261ea5bc718a9874962af046a184669ce38707nat, 0x826fa48d33ee800159289ae6358fe5bac4c5f80f0ca30000000nat);
}

proof fn lemma_modulus_power_21()
    ensures
        pow_mod(0xc38ffac5add5d93f5780c570103aee18ab09d8ebe59c462a9f83ef8f056f7bfnat, 796716881nat, 0x30644e72e131a029b85045b68181585d2833e84879b9709143e1f593f0000001nat) == 0x119f7374b128b7c785f6485221cf268d2c88c6a373b9961e7fe6da9e2464550enat,
{
    let n: nat = 0x30644e72e131a029b85045b68181585d2833e84879b9709143e1f593f0000001nat;
    let g: nat = 0xc38ffac5add5d93f5780c570103aee18ab09d8ebe59c462a9f83ef8f056f7bfnat;
    let e0: nat = 1nat;
    let x0: nat = 0xc38ffac5add5d93f5780c570103aee18ab09d8ebe59c462a9f83ef8f056f7bfnat;
    lemma_pow_first(g, n, x0);
    let x1: nat = 0x18415a505a8bb86db58caa524206f98e95c8e63ff0a165f0b8f3f503e8d251d5nat;
    let e1: nat = 2 * e0;
    lemma_pow_square(g, n, e0, x0, x1);
    let x2: nat = 0x1dd07a0a33e2878a6042959b6c6d57e88b9a4250069235f8cdec3cf1b75ff053nat;
    let e2: nat = 2 * e1;
    lemma_pow_square(g, n, e1, x1, x2);
    let x3: nat = 0x2362ed449aeef2dac73ec1116c2b1b3440ee8c37a24560714af4601c952d9772nat;
    let e3: nat = e2 + 1;
    lemma_pow_times(g, n, e2, x2, x3);
    let x4: nat = 0x204573e4eab04fd2bbca27f24d9ed1b5321f478a918d9d1e863f59c177fda152nat;
    let e4: nat = 2 * e3;
    lemma_pow_square(g, n, e3, x3, x4);
    let x5: nat = 0x171c4be198ce72039cef37a45c603412ec66d8400708bc33f6f76f52016d44aenat;
    let e5: nat = e4 + 1;
    lemma_pow_times(g, n, e4, x4, x5);
    let x6: nat = 0x26b7265b248ea4d0c6bd27008f5a940c2805ce3327a76477b41b39a575c76da8nat;
    let e6: nat = 2 * e5;
    lemma_pow_square(g, n, e5, x5, x6);
    let x7: nat = 0x21978cb99e505d32352c55b6048d4f5634edc745e1287ce42abd5c418876c95anat;
    let e7: nat = e6 + 1;
    lemma_pow_times(g, n, e6, x6, x7);
    let x8: nat = 0x2dcd5e5d8d422d1f1eff33675008e3d0062542d1b03afe02703f62999879fb57nat;
    let e8: nat = 2 * e7;
    lemma_pow_square(g, n, e7, x7, x8);
    let x9: nat = 0x1cd714e7722e1b8bade0063a3a2ffb3f1da65e6f7e5d72ba75af2f575c5c8998nat;
    let e9: nat = e8 + 1;
    lemma_pow_times(g, n, e8, x8, x9);
    let x10: nat = 0x243a75ceabae2fcf1ac751873218fe21c2c5db01a6c528760534eae6a2ea07dnat;
    let e10: nat = 2 * e9;
    lemma_pow_square(g, n, e9, x9, x10);
    let x11: nat = 0x2afcf4b91254a855228d82bd33cc0819079c55d84257487ec2cedb327a309d23nat;
    let e11: nat = 2 * e10;
    lemma_pow_square(g, n, e10, x10, x11);
    let x12: nat = 0x10a9610bc25642209e91503c79bb1898e1827c312f1d34cb9a28569f3d02b172nat;
    let e12: nat = e11 + 1;
    lemma_pow_times(g, n, e11, x11, x12);
    let x13: nat = 0x117257b31ba220401fb2332bcac71c07468ba8dbc30b2f883ef4fb666d46151anat;
    let e13: nat = 2 * e12;
    lemma_pow_square(g, n, e12, x12, x13);
    let x14: nat = 0x10380c370bc446be155909ac6abfd57fdc1ce794e8447dbc8fd2742d566dea65nat;
    let e14: nat = e13 + 1;
    lemma_pow_times(g, n, e13, x13, x14);
    let x15: nat = 0x281d88cc9d8ea87c070304c6b5acbfa9f7b633a1e401c20724a777589ccc69adnat;
    let e15: nat = 2 * e14;
    lemma_pow_square(g, n, e14, x14, x15);
    let x16: nat = 0x2d0bab9ba3c5ab683d1e6f9df51c1f8ee15070fb98f4a564eee16a412d5db045nat;
    let e16: nat = e15 + 1;
    lemma_pow_times(g, n, e15, x15, x16);
    let x17: nat = 0x248ed8f33faf63731564151b7e0b376809f98108a2f1465675b92fe428ae712nat;
    let e17: nat = 2 * e16;
    lemma_pow_square(g, n, e16, x16, x17);
    let x18: nat = 0x25deec1b83bea4674d50cb2674aaea2bb160e7b5e606fc1ae3020d2f594b4a26nat;
    let e18: nat = e17 + 1;
    lemma_pow_times(g, n, e17, x17, x18);
    let x19: nat = 0x2db84afdbd4d97949158188b27f6ede095e6db8b491c7fc8b016de87fccb6ccdnat;
    let e19: nat = 2 * e18;
    lemma_pow_square(g, n, e18, x18, x19);
    let x20: nat = 0x11fd3480c67132c6283ca60489613107a33d06a16a3d17e1db04e732c3856ad3nat;
    let e20: nat = e19 + 1;
    lemma_pow_times(g, n, e19, x19, x20);
    let x21: nat = 0x287e6c73db170a7a781442fdfae896d8a036db5598ac5c27321cd9854f4b6107nat;
    let e21: nat = 2 * e20;
    lemma_pow_square(g, n, e20, x20, x21);
    let x22: nat = 0x1b5c58c824730d6dde97eff41c9646bb78131c3ca50f22f19bfcaac1ece03a05nat;
    let e22: nat = 2 * e21;
    lemma_pow_square(g, n, e21, x21, x22);
    let x23: nat = 0x2e9e22fd6f66618f681b71af761aa45ef7c6e360286b2b6a8328a1bcc868d8bnat;
    let e23: nat = 2 * e22;
    lemma_pow_square(g, n, e22, x22, x23);
    let x24: nat = 0xfe7f38323b6b85078b5c296540b1ba03702a780eb554116df0d6c87e2be2ad1nat;
    let e24: nat = e23 + 1;
    lemma_pow_times(g, n, e23, x23, x24);
    let x25: nat = 0x20b21eb5258ee7a0d3991fb09a69381be204fa1e8a7230a9e6eabb7aa6c21dednat;
    let e25: nat = 2 * e24;
    lemma_pow_square(g, n, e24, x24, x25);
    let x26: nat = 0x8c0a35a9e5f559e44aa8506561b60e05e4dc213107c68ffc3c7498c5ba965fnat;
    let e26: nat = e25 + 1;
    lemma_pow_times(g, n, e25, x25, x26);
    let x27: nat = 0x746e8f3a74f0e61a489ee96a39a55e0c1fac95fd7a8b325192a7f1544f98905nat;
    let e27: nat = 2 * e26;
    lemma_pow_square(g, n, e26, x26, x27);
    let x28: nat = 0x27bc8459be8fe886169ac4692102669c0238b0e7849a81b8553de02717752ae9nat;
    let e28: nat = e27 + 1;
    lemma_pow_times(g, n, e27, x27, x28);
    let x29: nat = 0x1248d0dd6dd1f77b71b17e42de3de8f1abf7896c198d338482c92fe7fb5d7daenat;
    let e29: nat = 2 * e28;
    lemma_pow_square(g, n, e28, x28, x29);
    let x30: nat = 0x16293720fca1314689d68e4d848e64c402de99e1cdd87a8d38d590aa76d2eb30nat;
    let e30: nat = 2 * e29;
    lemma_pow_square(g, n, e29, x29, x30);
    let x31: nat = 0x7acdff7cb356dca824afeebd6ead93fa069a9f063456950e7404c950cb90edanat;
    let e31: nat = e30 + 1;
    lemma_pow_times(g, n, e30, x30, x31);
    let x32: nat = 0x10beba108bfae25181a0383949b6a044476820796d8a0374ddcc5661e4587124nat;
    let e32: nat = 2 * e31;
    lemma_pow_square(g, n, e31, x31, x32);
    let x33: nat = 0x152da6ab73b9130d6e14318171cc2cbf1b7418321aa2b65bc988dd601187a28cnat;
    let e33: nat = e32 + 1;
    lemma_pow_times(g, n, e32, x32, x33);
    let x34: nat = 0x11d15254fc76a70265dddbbffcd73e57fe527bb5876e7ea24fb16883bba4a434nat;
    let e34: nat = 2 * e33;
    lemma_pow_square(g, n, e33, x33, x34);
    let x35: nat = 0x1025e2369241c70cea48fd0bebbea16100ee4988da627eeb2f2c724ee151ca35nat;
    let e35: nat = e34 + 1;
    lemma_pow_times(g, n, e34, x34, x35);
    let x36: nat = 0x54ba4da25d34074f5da5e950db66617bed6e4952ed0c6cf37f4a2675846cd4dnat;
    let e36: nat = 2 * e35;
    lemma_pow_square(g, n, e35, x35, x36);
    let x37: nat = 0x254984c8bdc72f8e5975f9a686875972791c97c001bf53d6104e5ba2042f904nat;
    let e37: nat = e36 + 1;
    lemma_pow_times(g, n, e36, x36, x37);
    let x38: nat = 0x20802c0e4667f503d493d3ae01fcd4e35470dea09d857d91450f6c1732a1f318nat;
    let e38: nat = 2 * e37;
    lemma_pow_square(g, n, e37, x37, x38);
    let x39: nat = 0x1254c282298bbe45dcf7ea3b1475d92ea7e21f240a85472d5eeff054bfff2363nat;
    let e39: nat = 2 * e38;
    lemma_pow_square(g, n, e38, x38, x39);
    let x40: nat = 0x1b55ad5870f6c214e22662699db10f6a38c265e65d135cad46946178d5ae6068nat;
    let e40: nat = e39 + 1;
    lemma_pow_times(g, n, e39, x39, x40);
    let x41: nat = 0x27db7592ced8ce5340a8406ea065d69432c751fb5b3dbe010b6c06ccc3f28a52nat;
    let e41: nat = 2 * e40;
    lemma_pow_square(g, n, e40, x40, x41);
    let x42: nat = 0x10270dc9a976ff68114beb4ffb2490ec1bf4392dba64571527ed186032a982e6nat;
    let e42: nat = 2 * e41;
    lemma_pow_square(g, n, e41, x41, x42);
    let x43: nat = 0x2cbcc277d3bb90a5a1f59bd4887674c949284d07e0b28b630c72316137770401nat;
    let e43: nat = e42 + 1;
    lemma_pow_times(g, n, e42, x42, x43);
    let x44: nat = 0x199567d900430808a312cf8e11dd3883415970f7c38435d3d56d792ce2ed57f0nat;
    let e44: nat = 2 * e43;
    lemma_pow_square(g, n, e43, x43, x44);
    let x45: nat = 0x29401b9e935f613a017f82c2d59b402683511808181fa8beeb4726e94e79f6c3nat;
    let e45: nat = 2 * e44;
    lemma_pow_square(g, n, e44, x44, x45);
    let x46: nat = 0x26d653a7403943f50087299bf6e305d23ff9bc39ccee18fb12acc1d13db861f5nat;
    let e46: nat = 2 * e45;
    lemma_pow_square(g, n, e45, x45, x46);
    let x47: nat = 0x1952e07d6802387652c409e4d9f1c996df6bcafdddc002d3c9803e3926b6da3dnat;
    let e47: nat = 2 * e46;
    lemma_pow_square(g, n, e46, x46, x47);
    let x48: nat = 0x119f7374b128b7c785f6485221cf268d2c88c6a373b9961e7fe6da9e2464550enat;
    let e48: nat = e47 + 1;
    lemma_pow_times(g, n, e47, x47, x48);
}

proof fn lemma_modulus_power_22()
    ensures
        pow_mod(0xc38ffac5add5d93f5780c570103aee18ab09d8ebe59c462a9f83ef8f056f7bfnat, 0x5ef9dea338eb5nat, 0x30644e72e131a029b85045b68181585d2833e84879b9709143e1f593f0000001nat) == 0xe050df9fe370629dd1dfe246344c443bc91b4d9a27b699e8eadc659eddbc36cnat,
{
    let n: nat = 0x30644e72e131a029b85045b68181585d2833e84879b9709143e1f593f0000001nat;
    let g: nat = 0xc38ffac5add5d93f5780c570103aee18ab09d8ebe59c462a9f83ef8f056f7bfnat;
    let e0: nat = 796716881nat;
    let x0: nat = 0x119f7374b128b7c785f6485221cf268d2c88c6a373b9961e7fe6da9e2464550enat;
    lemma_modulus_power_21();
    let x1: nat = 0xd73e1b5006491ba7516a20766b0be849b1fe7316b2813e605780510b4395f80nat;
    let e1: nat = 2 * e0;
    lemma_pow_square(g, n, e0, x0, x1);
    let x2: nat = 0x2addeae76e7d25d2cd4e0c8df67f3135f96415bf8f0601d26c810be048870993nat;
    let e2: nat = e1 + 1;
    lemma_pow_times(g, n, e1, x1, x2);
    let x3: nat = 0x29e9beeb58bfad04b15bc6955a4984cfbd953d29f9ee003487fd0bb82444b78fnat;
    let e3: nat = 2 * e2;
    lemma_pow_square(g, n, e2, x2, x3);
    let x4: nat = 0x304d369b34da34c2cd5cabcc903329f93082727ee8e6eee11abee186e2fde254nat;
    let e4: nat = 2 * e3;
    lemma_pow_square(g, n, e3, x3, x4);
    let x5: nat = 0x51a4fa18866f59ae170601f0446fb4a2fd5b92b6770c3ce17a970d7ac1794fanat;
    let e5: nat = 2 * e4;
    lemma_pow_square(g, n, e4, x4, x5);
    let x6: nat = 0x255452614074f3176bbf52fc0116286753936e1f46606d01dcc70a2a3fd071acnat;
    let e6: nat = e5 + 1;
    lemma_pow_times(g, n, e5, x5, x6);
    let x7: nat = 0x694d1c43ad6c59ff46adf1697477483907583477579c6e62bdbf28736daaea9nat;
    let e7: nat = 2 * e6;
    lemma_pow_square(g, n, e6, x6, x7);
    let x8: nat = 0x2b270415c926a98cebe13394af1b132e8c00473942cccf781d52453546111900nat;
    let e8: nat = e7 + 1;
    lemma_pow_times(g, n, e7, x7, x8);
    let x9: nat = 0xe9cabab11d77ca197d5ad9dce2c3449972ec9ff06047f31b78b1840ce2bc09enat;
    let e9: nat = 2 * e8;
    lemma_pow_square(g, n, e8, x8, x9);
    let x10: nat = 0x5ccff79763c4bf296674e70fd5ea4763e559322b3fa30ed409b06c36313a26fnat;
    let e10: nat = e9 + 1;
    lemma_pow_times(g, n, e9, x9, x10);
    let x11: nat = 0x24791898fe8250a8c50e990538ea2b70d1e9f2a66e2b16446d8ee736ec4d8a21nat;
    let e11: nat = 2 * e10;
    lemma_pow_square(g, n, e10, x10, x11);
    let x12: nat = 0x12aa5177d8d969e6e80c6fdef30e8bd027b5e0b9d62a9a4f29af9a65487e7b32nat;
    let e12: nat = 2 * e11;
    lemma_pow_square(g, n, e11, x11, x12);
    let x13: nat = 0x204dcf8597746f76fd1afd33a84c0ccd783e03bb3f0c7ebcba4433e00de64081nat;
    let e13: nat = 2 * e12;
    lemma_pow_square(g, n, e12, x12, x13);
    let x14: nat = 0x1312943ad9361860191e60038ba6b038251eac7337de115452ba6585f4710cacnat;
    let e14: nat = 2 * e13;
    lemma_pow_square(g, n, e13, x13, x14);
    let x15: nat = 0x2146127e9d1046defb63c85216864df772347a12652bf185fec8bdb9c218c249nat;
    let e15: nat = e14 + 1;
    lemma_pow_times(g, n, e14, x14, x15);
    let x16: nat = 0x1a0f0f9521e27298c8d9e4bc2f3de43841aacb3f5562207434151baaf565a2a2nat;
    let e16: nat = 2 * e15;
    lemma_pow_square(g, n, e15, x15, x16);
    let x17: nat = 0x2d1d40c1a4c5e25e3f2f15d51ac2383aaf451d602393bda3910933c86659ac76nat;
    let e17: nat = e16 + 1;
    lemma_pow_times(g, n, e16, x16, x17);
    let x18: nat = 0x844555c8317688accd54b1291c22663c1690d4785fa8f940dd95363d1868d31nat;
    let e18: nat = 2 * e17;
    lemma_pow_square(g, n, e17, x17, x18);
    let x19: nat = 0xe63e17e85e39abb6b012adca2eb8279ec12795fa327d214f7678815e3390038nat;
    let e19: nat = e18 + 1;
    lemma_pow_times(g, n, e18, x18, x19);
    let x20: nat = 0xaac07f66802555dae2efd2e5f4d3d73ebd032f5552730a52c9cbae429b5cc79nat;
    let e20: nat = 2 * e19;
    lemma_pow_square(g, n, e19, x19, x20);
    let x21: nat = 0x1644fbdeb6b25d2c1af4930d8c2f0cd55647c9a8c3fac7d66e035bc6c01f5aeanat;
    let e21: nat = 2 * e20;
    lemma_pow_square(g, n, e20, x20, x21);
    let x22: nat = 0x982c560a55511ba425f482a33ab99ff3d3c5767b5b1ae55e1f8cd763c476b1enat;
    let e22: nat = e21 + 1;
    lemma_pow_times(g, n, e21, x21, x22);
    let x23: nat = 0x24c29e9f075f8f8890bcbc042313c04486660b8c0f6e0ff99b599c7bdbf2d399nat;
    let e23: nat = 2 * e22;
    lemma_pow_square(g, n, e22, x22, x23);
    let x24: nat = 0x2b273fd95d1ce878ee572a61b90be8edb38840d1e29704c0491bcb3998948f9enat;
    let e24: nat = 2 * e23;
    lemma_pow_square(g, n, e23, x23, x24);
    let x25: nat = 0x19805788674e9beffd61b4fbf1ad37c989e084c88914c3b2e1445da6bb74556enat;
    let e25: nat = e24 + 1;
    lemma_pow_times(g, n, e24, x24, x25);
    let x26: nat = 0x1add7346ad2625fb1174b119e620504832c219d2e221845eac2f7ee45c73447dnat;
    let e26: nat = 2 * e25;
    lemma_pow_square(g, n, e25, x25, x26);
    let x27: nat = 0x1a717a5a91e2f502eec1376308e13ed8bd4604484c989de40ee22a37b908c80fnat;
    let e27: nat = e26 + 1;
    lemma_pow_times(g, n, e26, x26, x27);
    let x28: nat = 0xfdc4bafb2c1518c85633ca5bae92e00bf5aed8c22189ffc9be6834996cb5ed1nat;
    let e28: nat = 2 * e27;
    lemma_pow_square(g, n, e27, x27, x28);
    let x29: nat = 0x433ad66b1264d0529f93306721a5a6a86c0e5c7ef4f14183dad82cd05293e5fnat;
    let e29: nat = 2 * e28;
    lemma_pow_square(g, n, e28, x28, x29);
    let x30: nat = 0x2ae9c76d623d5a1c8f1827ce807c84f8283f19ad473dcccf57dade4297853364nat;
    let e30: nat = e29 + 1;
    lemma_pow_times(g, n, e29, x29, x30);
    let x31: nat = 0x1a249804905f09bab1da7b668a9421372fe42aad8008bcc7e1d011c12da2c4dfnat;
    let e31: nat = 2 * e30;
    lemma_pow_square(g, n, e30, x30, x31);
    let x32: nat = 0xb46d73818021ee5d7f49324b98f795dc8b185ae3eefd4337c3241451b311ee2nat;
    let e32: nat = 2 * e31;
    lemma_pow_square(g, n, e31, x31, x32);
    let x33: nat = 0xe050df9fe370629dd1dfe246344c443bc91b4d9a27b699e8eadc659eddbc36cnat;
    let e33: nat = e32 + 1;
    lemma_pow_times(g, n, e32, x32, x33);
}

proof fn lemma_modulus_raise_11()
    ensures
        pow_mod(5nat, 0x13da61d33b9113c258be787f63143e821d9f2437fd6ce5f9f476f5290000000nat, 0x30644e72e131a029b85045b68181585d2833e84879b9709143e1f593f0000001nat) == 0xe050df9fe370629dd1dfe246344c443bc91b4d9a27b699e8eadc659eddbc36cnat,
{
    lemma_modulus_raise_9();
    lemma_modulus_power_22();
    lemma_pow_raise(5nat, 0x30644e72e131a029b85045b68181585d2833e84879b9709143e1f593f0000001nat, 0x358322b0154e276303c1e3a6a6626b6050ba3e621250000000nat, 0xc38ffac5add5d93f5780c570103aee18ab09d8ebe59c462a9f83ef8f056f7bfnat, 0x5ef9dea338eb5nat, 0xe050df9fe370629dd1dfe246344c443bc91b4d9a27b699e8eadc659eddbc36cnat, 0x13da61d33b9113c258be787f63143e821d9f2437fd6ce5f9f476f5290000000nat);
}

proof fn lemma_modulus_power_23()
    ensures
        pow_mod(0xe050df9fe370629dd1dfe246344c443bc91b4d9a27b699e8eadc659eddbc36cnat, 3nat, 0x30644e72e131a029b85045b68181585d2833e84879b9709143e1f593f0000001nat) == 0x2e167b2ab6ff98bb542b91ce1eb47e4fb4fc2d6a727502587705045d20d99a2dnat,
{
    let n: nat = 0x30644e72e131a029b85045b68181585d2833e84879b9709143e1f593f0000001nat;
    let g: nat = 0xe050df9fe370629dd1dfe246344c443bc91b4d9a27b699e8eadc659eddbc36cnat;
    let e0: nat = 1nat;
    let x0: nat = 0xe050df9fe370629dd1dfe246344c443bc91b4d9a27b699e8eadc659eddbc36cnat;
    lemma_pow_first(g, n, x0);
    let x1: nat = 0xf18b7702dafd47a9c37344733ef64f42c49b71684c3ca9b3154f7ac712263f8nat;
    let e1: nat = 2 * e0;
    lemma_pow_square(g, n, e0, x0, x1);
    let x2: nat = 0x2e167b2ab6ff98bb542b91ce1eb47e4fb4fc2d6a727502587705045d20d99a2dnat;
    let e2: nat = e1 + 1;
    lemma_pow_times(g, n, e1, x1, x2);
}

proof fn lemma_modulus_raise_12()
    ensures
        pow_mod(5nat, 0x3b8f2579b2b33b470a3b697e293cbb8658dd6ca7f846b1eddd64df7b0000000nat, 0x30644e72e131a029b85045b68181585d2833e84879b9709143e1f593f0000001nat) == 0x2e167b2ab6ff98bb542b91ce1eb47e4fb4fc2d6a727502587705045d20d99a2dnat,
{
    lemma_modulus_raise_11();
    lemma_modulus_power_23();
    lemma_pow_raise(5nat, 0x30644e72e131a029b85045b68181585d2833e84879b9709143e1f593f0000001nat, 0x13da61d33b9113c258be787f63143e821d9f2437fd6ce5f9f476f5290000000nat, 0xe050df9fe370629dd1dfe246344c443bc91b4d9a27b699e8eadc659eddbc36cnat, 3nat, 0x2e167b2ab6ff98bb542b91ce1eb47e4fb4fc2d6a727502587705045d20d99a2dnat, 0x3b8f2579b2b33b470a3b697e293cbb8658dd6ca7f846b1eddd64df7b0000000nat);
}

proof fn lemma_modulus_power_24()
    ensures
        pow_mod(0xe050df9fe370629dd1dfe246344c443bc91b4d9a27b699e8eadc659eddbc36cnat, 13nat, 0x30644e72e131a029b85045b68181585d2833e84879b9709143e1f593f0000001nat) == 0xb3c4d79d41a917585bfc41088d8daaa78b17ea66b99c90ddnat,
{
    let n: nat = 0x30644e72e131a029b85045b68181585d2833e84879b9709143e1f593f0000001nat;
    let g: nat = 0xe050df9fe370629dd1dfe246344c443bc91b4d9a27b699e8eadc659eddbc36cnat;
    let e0: nat = 1nat;
    let x0: nat = 0xe050df9fe370629dd1dfe246344c443bc91b4d9a27b699e8eadc659eddbc36cnat;
    lemma_pow_first(g, n, x0);
    let x1: nat = 0xf18b7702dafd47a9c37344733ef64f42c49b71684c3ca9b3154f7ac712263f8nat;
    let e1: nat = 2 * e0;
    lemma_pow_square(g, n, e0, x0, x1);
    let x2: nat = 0x2e167b2ab6ff98bb542b91ce1eb47e4fb4fc2d6a727502587705045d20d99a2dnat;
    let e2: nat = e1 + 1;
    lemma_pow_times(g, n, e1, x1, x2);
    let x3: nat = 0x63894d6f68c8126d035c1e526b00e98bf183ead0c8cbca1402615c127257829nat;
    let e3: nat = 2 * e2;
    lemma_pow_square(g, n, e2, x2, x3);
    let x4: nat = 0x1ae4328740a77448b7396fe396aa511993226e61e19119d92b0d5c9c96ef5d10nat;
    let e4: nat = 2 * e3;
    lemma_pow_square(g, n, e3, x3, x4);
    let x5: nat = 0xb3c4d79d41a917585bfc41088d8daaa78b17ea66b99c90ddnat;
    let e5: nat = e4 + 1;
    lemma_pow_times(g, n, e4, x4, x5);
}

proof fn lemma_modulus_raise_13()
    ensures
        pow_mod(5nat, 0x10216f7ba065e00de81ac1e7808072c9b8114d6d7de87adb16a0a73150000000nat, 0x30644e72e131a029b85045b68181585d2833e84879b9709143e1f593f0000001nat) == 0xb3c4d79d41a917585bfc41088d8daaa78b17ea66b99c90ddnat,
{
    lemma_modulus_raise_11();
    lemma_modulus_power_24();
    lemma_pow_raise(5nat, 0x30644e72e131a029b85045b68181585d2833e84879b9709143e1f593f0000001nat, 0x13da61d33b9113c258be787f63143e821d9f2437fd6ce5f9f476f5290000000nat, 0xe050df9fe370629dd1dfe246344c443bc91b4d9a27b699e8eadc659eddbc36cnat, 13nat, 0xb3c4d79d41a917585bfc41088d8daaa78b17ea66b99c90ddnat, 0x10216f7ba065e00de81ac1e7808072c9b8114d6d7de87adb16a0a73150000000nat);
}

proof fn lemma_modulus_power_25()
    ensures
        pow_mod(0x23ba6b36fb4ed7ec7eebf739469c70d8e9bc9036cec0d9b3c84668f10cf691b3nat, 0x1cf021d5bnat, 0x30644e72e131a029b85045b68181585d2833e84879b9709143e1f593f0000001nat) == 0x2a4e202992d58e4ad7ecad4b8faebcdd8df978e85bd7f5937cfd15d667884041nat,
{
    let n: nat = 0x30644e72e131a029b85045b68181585d2833e84879b9709143e1f593f0000001nat;
    let g: nat = 0x23ba6b36fb4ed7ec7eebf739469c70d8e9bc9036cec0d9b3c84668f10cf691b3nat;
    let e0: nat = 1nat;
    let x0: nat = 0x23ba6b36fb4ed7ec7eebf739469c70d8e9bc9036cec0d9b3c84668f10cf691b3nat;
    lemma_pow_first(g, n, x0);
    let x1: nat = 0x2da1fd6a2ee988a67b55ed657ffaa15c2708c023e7b64cb96f7de460902a1ec5nat;
    let e1: nat = 2 * e0;
    lemma_pow_square(g, n, e0, x0, x1);
    let x2: nat = 0x2c4d7913d63d5e2c82a5d4d44282bf0220d3be84ec61e5b1f98a23e247da8e98nat;
    let e2: nat = e1 + 1;
    lemma_pow_times(g, n, e1, x1, x2);
    let x3: nat = 0xfc00d6d6089e812adbab089bab4b51c341553620fb8725d52c73c6ff99f1502nat;
    let e3: nat = 2 * e2;
    lemma_pow_square(g, n, e2, x2, x3);
    let x4: nat = 0x289ea6f66b36af97cce859d03f0b9e927a7ca625582e5f8ac84983f80b1e60fdnat;
    let e4: nat = e3 + 1;
    lemma_pow_times(g, n, e3, x3, x4);
    let x5: nat = 0x15a6520612aba49072ec906aa4d12baeeddd0680e31ff43353610125ff751444nat;
    let e5: nat = 2 * e4;
    lemma_pow_square(g, n, e4, x4, x5);
    let x6: nat = 0xe4118456b6d3d861042bcc0dea717a368d7b4427878ead9bee8b8456c1ff463nat;
    let e6: nat = 2 * e5;
    lemma_pow_square(g, n, e5, x5, x6);
    let x7: nat = 0x313e334b67e8ed7d4021f1d5499d0a82c7ad13b8417309a66259cff9bc45243nat;
    let e7: nat = 2 * e6;
    lemma_pow_square(g, n, e6, x6, x7);
    let x8: nat = 0xee8476c7f1d3ff4f201ca0703fce973c76d522c96973e1917dae9d48cca8d18nat;
    let e8: nat = e7 + 1;
    lemma_pow_times(g, n, e7, x7, x8);
    let x9: nat = 0x244ff7efa255b7e6f38683aae2d52513e16bf50d1cd038872a8aedbcf016ab1nat;
    let e9: nat = 2 * e8;
    lemma_pow_square(g, n, e8, x8, x9);
    let x10: nat = 0x288063fcb22da1433c6a745883fe0d70c4c703c89fc781c191d76895e906de9fnat;
    let e10: nat = e9 + 1;
    lemma_pow_times(g, n, e9, x9, x10);
    let x11: nat = 0x2763410e343bb6bfbe38dc5d09eff4c5c55ad0a5936d5af162912afe5e898ce4nat;
    let e11: nat = 2 * e10;
    lemma_pow_square(g, n, e10, x10, x11);
    let x12: nat = 0x25b767a6a32f374f0f103d0f9d55376e350d3cf5f7c04f88e4b87039ce4720f2nat;
    let e12: nat = e11 + 1;
    lemma_pow_times(g, n, e11, x11, x12);
    let x13: nat = 0x2c2362eb90f4ded97d1e797467ff71c4869e3afc451cc717e872458aecd8f8cdnat;
    let e13: nat = 2 * e12;
    lemma_pow_square(g, n, e12, x12, x13);
    let x14: nat = 0x18b76bc0a34765fa467f9d4ada9e5c70115cb19d0d948b20d12ff4a48668c3a9nat;
    let e14: nat = e13 + 1;
    lemma_pow_times(g, n, e13, x13, x14);
    let x15: nat = 0x2544213d9ddcb6556346acf14db505e25ea47fc3442904afb2a1e1c31fa76e99nat;
    let e15: nat = 2 * e14;
    lemma_pow_square(g, n, e14, x14, x15);
    let x16: nat = 0xc8dcb92493a1ac55ef2694171ceed4b82f7c13352ae5e1106a0aefe00e4f3bbnat;
    let e16: nat = 2 * e15;
    lemma_pow_square(g, n, e15, x15, x16);
    let x17: nat = 0x2a75e4a8b44d86f8908ffcc24cd1b4da73cef0ef4022c6d21e08ade32e253901nat;
    let e17: nat = 2 * e16;
    lemma_pow_square(g, n, e16, x16, x17);
    let x18: nat = 0x271dc980fa93ac1c2fd613524d397d84c383df1f4ffc258b155e7c1de6723aebnat;
    let e18: nat = 2 * e17;
    lemma_pow_square(g, n, e17, x17, x18);
    let x19: nat = 0x76c590273a95bfceb6822127a7b0ebb99363b3bda82af8d41abb3ee853c020anat;
    let e19: nat = 2 * e18;
    lemma_pow_square(g, n, e18, x18, x19);
    let x20: nat = 0x19c4607b3542f98f4a1a760d3f146ba67c2629cf295651e102de3ab9957376bcnat;
    let e20: nat = 2 * e19;
    lemma_pow_square(g, n, e19, x19, x20);
    let x21: nat = 0x18ca4634826a5636fcb1d11dae1bbb59fc819dfa6c047473eb2b864cd87fc2eenat;
    let e21: nat = 2 * e20;
    lemma_pow_square(g, n, e20, x20, x21);
    let x22: nat = 0x1ec1e8272d7ee222b8dade33cc3941406504185bddc700b7de2fad74245dcda3nat;
    let e22: nat = e21 + 1;
    lemma_pow_times(g, n, e21, x21, x22);
    let x23: nat = 0x2a8efd7487e15cc99916fe5b1ef888bcbe5db043e273716c7bbbab60f03b17e1nat;
    let e23: nat = 2 * e22;
    lemma_pow_square(g, n, e22, x22, x23);
    let x24: nat = 0x5f4153189cf1f550acd92ce0f7129e6d4dc12ee7ce49aa075aeb522dd227e37nat;
    let e24: nat = 2 * e23;
    lemma_pow_square(g, n, e23, x23, x24);
    let x25: nat = 0x6f486bc3b4747792958c01c51a834ba09cc8928f5636346b6aef5f2ba27aaa2nat;
    let e25: nat = 2 * e24;
    lemma_pow_square(g, n, e24, x24, x25);
    let x26: nat = 0xd92d18a1a8acd9f99b99fa8ba9207a7ac3e11fc6d55c9ac5309cbfeade99bd4nat;
    let e26: nat = 2 * e25;
    lemma_pow_square(g, n, e25, x25, x26);
    let x27: nat = 0x2ce8de5234bac9ef86d5b49bdd0c6c8544647bc428c681afcc6857d47f515b07nat;
    let e27: nat = 2 * e26;
    lemma_pow_square(g, n, e26, x26, x27);
    let x28: nat = 0xae5492859fe24cd94c4f4733b2e2ec7f969cdaa0f0b1e564e642ea5ae3e100anat;
    let e28: nat = e27 + 1;
    lemma_pow_times(g, n, e27, x27, x28);
    let x29: nat = 0x9b8473dcf9eca04f44791a6ba8f7eff215dc6f22c97595d2a9be7e884a8a988nat;
    let e29: nat = 2 * e28;
    lemma_pow_square(g, n, e28, x28, x29);
    let x30: nat = 0x2834af8a1d2c4b843234474cee44f875542a7efc1cdcae69c6db9ee3293b6b70nat;
    let e30: nat = e29 + 1;
    lemma_pow_times(g, n, e29, x29, x30);
    let x31: nat = 0x110e380f53dfd3e5202260fa76a9f6caaf6ea06a1d40e77be3c3ae54db262fb7nat;
    let e31: nat = 2 * e30;
    lemma_pow_square(g, n, e30, x30, x31);
    let x32: nat = 0xaef916d5ff705c48d9dda15a38579a0fd263574bf82eff96faa6f1a14db7b14nat;
    let e32: nat = e31 + 1;
    lemma_pow_times(g, n, e31, x31, x32);
    let x33: nat = 0xde9bd9ec8bcd9a908f28e0f311b8d9de200446e9812ec13ea0e3510bea6cfbdnat;
    let e33: nat = 2 * e32;
    lemma_pow_square(g, n, e32, x32, x33);
    let x34: nat = 0x2064cc080b54a238e018e01ae6884366f36793dd226b2fa50a1d8a952ac6135cnat;
    let e34: nat = 2 * e33;
    lemma_pow_square(g, n, e33, x33, x34);
    let x35: nat = 0x219ade4a3c509a32a1bef0b74a6aad77669ff3f29855c4b72b3913c5d7bfd4a6nat;
    let e35: nat = e34 + 1;
    lemma_pow_times(g, n, e34, x34, x35);
    let x36: nat = 0xff9ec5a68d3f64f733abe8271ec7fe9cf02fa14ff6a3826f0d33bedda757d59nat;
    let e36: nat = 2 * e35;
    lemma_pow_square(g, n, e35, x35, x36);
    let x37: nat = 0x474369173a0a1e348fd0c8d01255646758ff9d4f878896076b19e229a71e52fnat;
    let e37: nat = 2 * e36;
    lemma_pow_square(g, n, e36, x36, x37);
    let x38: nat = 0x1b1d15edfc4d11970cb992c46662c8266420299afe463bd6e2411b090c9e4103nat;
    let e38: nat = e37 + 1;
    lemma_pow_times(g, n, e37, x37, x38);
    let x39: nat = 0x16283b0d4bd809ea5aece3fa15e3addae655ab216ae09f3c73a6d906fd982023nat;
    let e39: nat = 2 * e38;
    lemma_pow_square(g, n, e38, x38, x39);
    let x40: nat = 0x2b64d60968291e8aeca9902466bdd1c76591e37dbea6723b871e13f5454ddc98nat;
    let e40: nat = 2 * e39;
    lemma_pow_square(g, n, e39, x39, x40);
    let x41: nat = 0x2b888f9096584762b1e42d85c689e6030fd849db36ee44cd909c4bdde06dcc6fnat;
    let e41: nat = e40 + 1;
    lemma_pow_times(g, n, e40, x40, x41);
    let x42: nat = 0x2b086aeabdb8bd24b1c822bf58dc7b4aabcba1602abc83e1ae962e0516c97aenat;
    let e42: nat = 2 * e41;
    lemma_pow_square(g, n, e41, x41, x42);
    let x43: nat = 0xfcb73590308d448c316b67d16c77fffd2004216a43cd157eeb398f276f23e88nat;
    let e43: nat = e42 + 1;
    lemma_pow_times(g, n, e42, x42, x43);
    let x44: nat = 0x188a07195d6a7cf6bc3789c8bc5c8be7f73ca1713734edf8250ece553a1be545nat;
    let e44: nat = 2 * e43;
    lemma_pow_square(g, n, e43, x43, x44);
    let x45: nat = 0x14c7841451358efc51e57edcacaabed96ea4d93896a5b14c40f9fbf14a49febnat;
    let e45: nat = 2 * e44;
    lemma_pow_square(g, n, e44, x44, x45);
    let x46: nat = 0x1351c4a124aea7ccde50346cadcbf128cdbd3f115ad9943d877bbc786e2cd109nat;
    let e46: nat = e45 + 1;
    lemma_pow_times(g, n, e45, x45, x46);
    let x47: nat = 0x1496b1d73bcf6df77c538602653bc47091f7d481453eaad7c858d407d78fd677nat;
    let e47: nat = 2 * e46;
    lemma_pow_square(g, n, e46, x46, x47);
    let x48: nat = 0x2a4e202992d58e4ad7ecad4b8faebcdd8df978e85bd7f5937cfd15d667884041nat;
    let e48: nat = e47 + 1;
    lemma_pow_times(g, n, e47, x47, x48);
}

proof fn lemma_modulus_power_26()
    ensures
        pow_mod(0x23ba6b36fb4ed7ec7eebf739469c70d8e9bc9036cec0d9b3c84668f10cf691b3nat, 0xe7810eaddabd93nat, 0x30644e72e131a029b85045b68181585d2833e84879b9709143e1f593f0000001nat) == 0x2b06592b4f0edba04e33f8609084187cc7e9d0c21d4e793a64b8c8a8f8db9798nat,
{
    let n: nat = 0x30644e72e131a029b85045b68181585d2833e84879b9709143e1f593f0000001nat;
    let g: nat = 0x23ba6b36fb4ed7ec7eebf739469c70d8e9bc9036cec0d9b3c84668f10cf691b3nat;
    let e0: nat = 0x1cf021d5bnat;
    let x0: nat = 0x2a4e202992d58e4ad7ecad4b8faebcdd8df978e85bd7f5937cfd15d667884041nat;
    lemma_modulus_power_25();
    let x1: nat = 0x2448bde0c2ae9944e9b76cbdfd2ae8a701dc7751f1bd33ded3d59ee434f69ae4nat;
    let e1: nat = 2 * e0;
    lemma_pow_square(g, n, e0, x0, x1);
    let x2: nat = 0x146fb3f87330a0a37b711eda2ccf3434ff9c82a17c4377b37b7b184cb39315dfnat;
    let e2: nat = e1 + 1;
    lemma_pow_times(g, n, e1, x1, x2);
    let x3: nat = 0x29e8fc5069079984b0e975beb627a7e1cb6b1baad61c358f8b152a8e22d24dacnat;
    let e3: nat = 2 * e2;
    lemma_pow_square(g, n, e2, x2, x3);
    let x4: nat = 0x3319cffe08d8035d0cde4d8e3d12ea090f0791216552dfdbdd8bb404a63572dnat;
    let e4: nat = 2 * e3;
    lemma_pow_square(g, n, e3, x3, x4);
    let x5: nat = 0xda529ea082d23f8169c91a7432d0312a7fc6567364a831a857666d3f086f079nat;
    let e5: nat = e4 + 1;
    lemma_pow_times(g, n, e4, x4, x5);
    let x6: nat = 0x17feba0f74d966f6f8c7208c620461e089a80d3418f2627c2a5c59a72a8d4da2nat;
    let e6: nat = 2 * e5;
    lemma_pow_square(g, n, e5, x5, x6);
    let x7: nat = 0x1d19d1f7d260cd23640fb0c30c37707b202d0e5c163f3568a47577e832dcf00bnat;
    let e7: nat = e6 + 1;
    lemma_pow_times(g, n, e6, x6, x7);
    let x8: nat = 0x20a7e3ac841821bd060b05302f9cec3c85a8b6ab1820e515a28522fc02e0408enat;
    let e8: nat = 2 * e7;
    lemma_pow_square(g, n, e7, x7, x8);
    let x9: nat = 0x23f05b6cea886401a30578791c42f9158f9bc482bfb5a0ad5d9f9edf7589e16fnat;
    let e9: nat = 2 * e8;
    lemma_pow_square(g, n, e8, x8, x9);
    let x10: nat = 0x2c1ef88cc7ce808896b1d1cdfc9e5a591fe11aa1ba0626bf5110cc9327770e1cnat;
    let e10: nat = e9 + 1;
    lemma_pow_times(g, n, e9, x9, x10);
    let x11: nat = 0x2e0972a7d738e86cd8e12b440b0ed77afc65a1a7cbd9899042432e82e798d4f9nat;
    let e11: nat = 2 * e10;
    lemma_pow_square(g, n, e10, x10, x11);
    let x12: nat = 0x2da1b2828808c0a45a9b664ebccaa07d420520b49c857fb7471fb2d7fc1f6b7anat;
    let e12: nat = 2 * e11;
    lemma_pow_square(g, n, e11, x11, x12);
    let x13: nat = 0x9acf8c739a9fa96d52ded5d751366e4d508cfca4e5d7727433d34e75b0d2dcbnat;
    let e13: nat = e12 + 1;
    lemma_pow_times(g, n, e12, x12, x13);
    let x14: nat = 0x1db031d515be6979cbc970643ef46766458d2814e8bdc35fe7f1ce545dc12e7enat;
    let e14: nat = 2 * e13;
    lemma_pow_square(g, n, e13, x13, x14);
    let x15: nat = 0x8e3f2ed7003a2ac399513202dc79666433f26e5bcae8da225ec50ee1115db20nat;
    let e15: nat = 2 * e14;
    lemma_pow_square(g, n, e14, x14, x15);
    let x16: nat = 0x1594c1c354c89b30cc33a87b0eb5c713d237793e1e17947ffb481987de1d0151nat;
    let e16: nat = e15 + 1;
    lemma_pow_times(g, n, e15, x15, x16);
    let x17: nat = 0x257aee270f5cfe97749c20abcf94fb3bc2b1aab1993bd9a44b97155bbd19a147nat;
    let e17: nat = 2 * e16;
    lemma_pow_square(g, n, e16, x16, x17);
    let x18: nat = 0x56a8cc4579d909de91511b44dce93554386b9134cf78a511c414f2ea5d7d208nat;
    let e18: nat = e17 + 1;
    lemma_pow_times(g, n, e17, x17, x18);
    let x19: nat = 0x70e4afb402a0a00becfe9564445be5ff58ce77b6f60136c499b655c074580denat;
    let e19: nat = 2 * e18;
    lemma_pow_square(g, n, e18, x18, x19);
    let x20: nat = 0x26128909f6e41a2b929abdda9adcdf661cf6c0b85deff064bdfc78b4fd90a578nat;
    let e20: nat = e19 + 1;
    lemma_pow_times(g, n, e19, x19, x20);
    let x21: nat = 0x1330e96698623dbdbe2a5c7e54cd9aaf28bfc358fc86bbb31f93e897cdbd611anat;
    let e21: nat = 2 * e20;
    lemma_pow_square(g, n, e20, x20, x21);
    let x22: nat = 0x509d93cf60729c6a290e2de4ebcecb4c9b4720d643c1430a7e05070dd4c145cnat;
    let e22: nat = e21 + 1;
    lemma_pow_times(g, n, e21, x21, x22);
    let x23: nat = 0x215f5cf7ad4c37789c99eb92a7dc3b50854c4e6a69ca7fa3a148e9b58b810397nat;
    let e23: nat = 2 * e22;
    lemma_pow_square(g, n, e22, x22, x23);
    let x24: nat = 0x122c715204a19348c083af4dd9a03a28bb6cf2dc375a99f32b8d41c43bbb6d65nat;
    let e24: nat = 2 * e23;
    lemma_pow_square(g, n, e23, x23, x24);
    let x25: nat = 0x8ab462bca5ebb9abca28786cf07d71a9e2bd5a81fa2e9e54d339cd55f74a162nat;
    let e25: nat = e24 + 1;
    lemma_pow_times(g, n, e24, x24, x25);
    let x26: nat = 0x2541c4db14cb14c08db1a77555ce46afb4b709b9d26fe870f4db26c4de201ca3nat;
    let e26: nat = 2 * e25;
    lemma_pow_square(g, n, e25, x25, x26);
    let x27: nat = 0x1f3e5633cdcbc4a8e61c43f3f0033815652f3b4858fe25d503218dcefac2012nat;
    let e27: nat = e26 + 1;
    lemma_pow_times(g, n, e26, x26, x27);
    let x28: nat = 0xcf4a55cac8568b4714641da4d1998d21dfeb1148b3dad7a072e0e05e52346canat;
    let e28: nat = 2 * e27;
    lemma_pow_square(g, n, e27, x27, x28);
    let x29: nat = 0xc80c55d62d633a3e195314a00b7536995a493af93241d5a352555bf5e3fefebnat;
    let e29: nat = 2 * e28;
    lemma_pow_square(g, n, e28, x28, x29);
    let x30: nat = 0x58f0bea1be64be84ec471a2398fd83c2441f1a4c2ced9b229106b9bb3b11d03nat;
    let e30: nat = 2 * e29;
    lemma_pow_square(g, n, e29, x29, x30);
    let x31: nat = 0x10bfd3c09cf804750964292d8cc1d736a6437513fbd8a9114625ebd12ee6dd84nat;
    let e31: nat = e30 + 1;
    lemma_pow_times(g, n, e30, x30, x31);
    let x32: nat = 0x16aeb1f7b30936403ee6057748f5c9f98cd2cffd76c7c630d721442265ec5057nat;
    let e32: nat = 2 * e31;
    lemma_pow_square(g, n, e31, x31, x32);
    let x33: nat = 0x25c671165ee9cca6936cae8801ce33a1aa33003cf4fb053805576ff3373f73d8nat;
    let e33: nat = 2 * e32;
    lemma_pow_square(g, n, e32, x32, x33);
    let x34: nat = 0x155988552de96e04f0cdeb1635cd9ca763901171bb0781beecfd9725f58afccfnat;
    let e34: nat = 2 * e33;
    lemma_pow_square(g, n, e33, x33, x34);
    let x35: nat = 0x572937bc3eebff6f2c3ae0805c95e1ed473f4a56aaffa69ebbc892db6f5638bnat;
    let e35: nat = e34 + 1;
    lemma_pow_times(g, n, e34, x34, x35);
    let x36: nat = 0x2d9bfd07b20c0e3d9bc5d8222e2f5d55a9c7dbb142e394090ae124fe7a284343nat;
    let e36: nat = 2 * e35;
    lemma_pow_square(g, n, e35, x35, x36);
    let x37: nat = 0x2b06592b4f0edba04e33f8609084187cc7e9d0c21d4e793a64b8c8a8f8db9798nat;
    let e37: nat = e36 + 1;
    lemma_pow_times(g, n, e36, x36, x37);
}

proof fn lemma_modulus_raise_14()
    ensures
        pow_mod(5nat, 0x24dc65b85b09ebb67a64bb928ba65bd80228af7d7570000000nat, 0x30644e72e131a029b85045b68181585d2833e84879b9709143e1f593f0000001nat) == 0x2b06592b4f0edba04e33f8609084187cc7e9d0c21d4e793a64b8c8a8f8db9798nat,
{
    lemma_modulus_raise_8();
    lemma_modulus_power_26();
    lemma_pow_raise(5nat, 0x30644e72e131a029b85045b68181585d2833e84879b9709143e1f593f0000001nat, 0x28c2e12bd4e78c7521872f45039ad0000000nat, 0x23ba6b36fb4ed7ec7eebf739469c70d8e9bc9036cec0d9b3c84668f10cf691b3nat, 0xe7810eaddabd93nat, 0x2b06592b4f0edba04e33f8609084187cc7e9d0c21d4e793a64b8c8a8f8db9798nat, 0x24dc65b85b09ebb67a64bb928ba65bd80228af7d7570000000nat);
}

proof fn lemma_modulus_power_27()
    ensures
        pow_mod(0x2b06592b4f0edba04e33f8609084187cc7e9d0c21d4e793a64b8c8a8f8db9798nat, 233042759nat, 0x30644e72e131a029b85045b68181585d2833e84879b9709143e1f593f0000001nat) == 0x2ab7c2ee47ae2a627340ca2a27a2f7f766b2bb2a541870da8aeeefb71e01cb0enat,
{
    let n: nat = 0x30644e72e131a029b85045b68181585d2833e84879b9709143e1f593f0000001nat;
    let g: nat = 0x2b06592b4f0edba04e33f8609084187cc7e9d0c21d4e793a64b8c8a8f8db9798nat;
    let e0: nat = 1nat;
    let x0: nat = 0x2b06592b4f0edba04e33f8609084187cc7e9d0c21d4e793a64b8c8a8f8db9798nat;
    lemma_pow_first(g, n, x0);
    let x1: nat = 0x1c1cb7c989b59d649c6ee125f873ef0ccf9fcf5babcbdc1cdc978469ba8fc895nat;
    let e1: nat = 2 * e0;
    lemma_pow_square(g, n, e0, x0, x1);
    let x2: nat = 0x47ddd19730ba7483180ea058297812a4958743d9f9ecbabc90fbab3502e088dnat;
    let e2: nat = e1 + 1;
    lemma_pow_times(g, n, e1, x1, x2);
    let x3: nat = 0x28558602ade7289bc52706bbc1aea7f7fb4bfc1484e8d165d1378b646edbac3cnat;
    let e3: nat = 2 * e2;
    lemma_pow_square(g, n, e2, x2, x3);
    let x4: nat = 0x58dbf5462fa0f68ab93516c4798fd6a60ffdfed25c890960894bc540c7b938nat;
    let e4: nat = 2 * e3;
    lemma_pow_square(g, n, e3, x3, x4);
    let x5: nat = 0x16b90d28a6361b166a7eb81a56beb23bb63c46bb5c5f6ac1c199e94f02cbf41anat;
    let e5: nat = e4 + 1;
    lemma_pow_times(g, n, e4, x4, x5);
    let x6: nat = 0xa0b81dee4ece5bb7a706f9328663af88e3b158688c9e6af30255909d57abf03nat;
    let e6: nat = 2 * e5;
    lemma_pow_square(g, n, e5, x5, x6);
    let x7: nat = 0x2bcf10ceca1841a0491fa55cbf705e04bf77e2cee2902d7729887512ccd334fenat;
    let e7: nat = e6 + 1;
    lemma_pow_times(g, n, e6, x6, x7);
    let x8: nat = 0xee05d0073d32d9e891184e5c433cea0c24ff134fb9ce03bd5ab19229f19c7f2nat;
    let e8: nat = 2 * e7;
    lemma_pow_square(g, n, e7, x7, x8);
    let x9: nat = 0xd4d3f4a7aa7dd9ebf9d5e8ba07a1e0c93a5b7be7df7400116b0c9fbc42981aanat;
    let e9: nat = e8 + 1;
    lemma_pow_times(g, n, e8, x8, x9);
    let x10: nat = 0x73572c28f1116918e86b97155f73cacec2d946ba7b5d8584c06c63c0e3fedeenat;
    let e10: nat = 2 * e9;
    lemma_pow_square(g, n, e9, x9, x10);
    let x11: nat = 0x189a23db7dd95200b83669d803d2bd5d6a2bcc7c4551ada645c3aed0c9962b4dnat;
    let e11: nat = e10 + 1;
    lemma_pow_times(g, n, e10, x10, x11);
    let x12: nat = 0x17f1ff7e4e783735e3774bcd0e467ef9e44c0e17e4ad57ece0926d3e3a090254nat;
    let e12: nat = 2 * e11;
    lemma_pow_square(g, n, e11, x11, x12);
    let x13: nat = 0x5cc02fdbf07e52b833d898a4ea960723cb78a9c71b7c55d9668a70e5173ff37nat;
    let e13: nat = 2 * e12;
    lemma_pow_square(g, n, e12, x12, x13);
    let x14: nat = 0xba5613a6ffa48313690d3f2ae420dd79698396c5f1a419d9a6de47f98b6ff4dnat;
    let e14: nat = 2 * e13;
    lemma_pow_square(g, n, e13, x13, x14);
    let x15: nat = 0x294270a85c9830cc2a44025106d3c93e5513ad3929d2213ca97edda80a3d6159nat;
    let e15: nat = 2 * e14;
    lemma_pow_square(g, n, e14, x14, x15);
    let x16: nat = 0x1f03ac99ca9bfb92f6a5c5907e3726afc252fa2b16390103fe49b65b68b06a97nat;
    let e16: nat = e15 + 1;
    lemma_pow_times(g, n, e15, x15, x16);
    let x17: nat = 0x1a390f96103c9683b07dddb38cc71e3cf9993a43b1dbd9d95f4fed38027fe469nat;
    let e17: nat = 2 * e16;
    lemma_pow_square(g, n, e16, x16, x17);
    let x18: nat = 0xbb2a5007fac9c5f97643801d7dba75caeb01f59a682f0e941e07d1a554b138nat;
    let e18: nat = e17 + 1;
    lemma_pow_times(g, n, e17, x17, x18);
    let x19: nat = 0x2ad82b4ec3b2d544832e94428b3175bb56f9ea193955f92334135992d73d34ebnat;
    let e19: nat = 2 * e18;
    lemma_pow_square(g, n, e18, x18, x19);
    let x20: nat = 0x287bd3aaae89c88185877a7f055402488a37e0c010303a24e70b627b91c6e878nat;
    let e20: nat = e19 + 1;
    lemma_pow_times(g, n, e19, x19, x20);
    let x21: nat = 0x2d2818d586468fe4b7a01a19a414a3faded67bdf3de8a6d3a88e1ae6fefdf9ednat;
    let e21: nat = 2 * e20;
    lemma_pow_square(g, n, e20, x20, x21);
    let x22: nat = 0x18f6691ee4fd23906e67793edeb169ddb335cb03f0727234bde35cfac3e3f2bdnat;
    let e22: nat = e21 + 1;
    lemma_pow_times(g, n, e21, x21, x22);
    let x23: nat = 0xb6f430d729fdf71ecf91f1cc6125aa09ac84b819646418a4e5889e30530484fnat;
    let e23: nat = 2 * e22;
    lemma_pow_square(g, n, e22, x22, x23);
    let x24: nat = 0x24a89ed5f265cda40d205185daa879081e4921be5b3c5065e2d31666c748a6e1nat;
    let e24: nat = e23 + 1;
    lemma_pow_times(g, n, e23, x23, x24);
    let x25: nat = 0x29b39e4c03767e60af9067904f602a95d9ead1dfe36252e10dc1e4a32fb4b354nat;
    let e25: nat = 2 * e24;
    lemma_pow_square(g, n, e24, x24, x25);
    let x26: nat = 0x10f86d4a75a2e9a939d4b2dc2eff4aa6fc6be5cf8ff36bfe1eb81af424624cb3nat;
    let e26: nat = e25 + 1;
    lemma_pow_times(g, n, e25, x25, x26);
    let x27: nat = 0x1a4d837410ae1f39c0c82cb8d0297d589419179570a5a0e79c2005383425921dnat;
    let e27: nat = 2 * e26;
    lemma_pow_square(g, n, e26, x26, x27);
    let x28: nat = 0x1a8fb486719dacf6e1a71955d0de44e0cc144508787fa1050880e46b5ebbb363nat;
    let e28: nat = 2 * e27;
    lemma_pow_square(g, n, e27, x27, x28);
    let x29: nat = 0x29ba620bccdd87add9d000148fab34f023caec2dd78539bb3856c732a80d2e9dnat;
    let e29: nat = 2 * e28;
    lemma_pow_square(g, n, e28, x28, x29);
    let x30: nat = 0xe3fad1cf9d5bd74cdb6fd8e44eb3a6f7403cf359b155d556630794f912fddednat;
    let e30: nat = e29 + 1;
    lemma_pow_times(g, n, e29, x29, x30);
    let x31: nat = 0xfd24873a90005cbed366f8519b9189314c0e48e814dc242160ba4d4b819fb45nat;
    let e31: nat = 2 * e30;
    lemma_pow_square(g, n, e30, x30, x31);
    let x32: nat = 0x29eaa9f56e0484b8ce4163ce3d2b9825b7b0c32af9079a70148642f6e9132314nat;
    let e32: nat = e31 + 1;
    lemma_pow_times(g, n, e31, x31, x32);
    let x33: nat = 0x14e837b83f20ce013790598d89aa0d5bc1b261130a75e41f7b6143c17d83b578nat;
    let e33: nat = 2 * e32;
    lemma_pow_square(g, n, e32, x32, x33);
    let x34: nat = 0x300edc62fa801e3dfeb2d8522d124ff0d689c9ac969c1f113d44dfd4d88de507nat;
    let e34: nat = 2 * e33;
    lemma_pow_square(g, n, e33, x33, x34);
    let x35: nat = 0x19f3543421c0520909020083f24ac55b53e03812ae41168198ed362e5dc2804anat;
    let e35: nat = e34 + 1;
    lemma_pow_times(g, n, e34, x34, x35);
    let x36: nat = 0x1dd9718ba2c284786a7825647922d17aa25ee2d2c7b293f1f490bd0ec5113656nat;
    let e36: nat = 2 * e35;
    lemma_pow_square(g, n, e35, x35, x36);
    let x37: nat = 0x27d7f655dc5536dca3653b7470be2b5929b6bd9097b2c087f2c14b38653a167bnat;
    let e37: nat = 2 * e36;
    lemma_pow_square(g, n, e36, x36, x37);
    let x38: nat = 0x2791560262144fd10212a9557effc760f2a2700e051fc0a090e4ef5d3b40f291nat;
    let e38: nat = 2 * e37;
    lemma_pow_square(g, n, e37, x37, x38);
    let x39: nat = 0x1db6660df348c6c3189bb3ff611ed2c1b7c2723d4c1e0a1697f331d6073269aanat;
    let e39: nat = 2 * e38;
    lemma_pow_square(g, n, e38, x38, x39);
    let x40: nat = 0xb7236112a1bdd6df5e55f848ec56cc46a03dab7979bd2d88a7bc9e67e3708c5nat;
    let e40: nat = e39 + 1;
    lemma_pow_times(g, n, e39, x39, x40);
    let x41: nat = 0x1747c51f035b14f534f38e5ef1a767838662b15120cc89a01bee978454ec78d9nat;
    let e41: nat = 2 * e40;
    lemma_pow_square(g, n, e40, x40, x41);
    let x42: nat = 0x2490195f138459403a738716bcb364ccebfdbc63707aabd9359d9a36fe21aef7nat;
    let e42: nat = e41 + 1;
    lemma_pow_times(g, n, e41, x41, x42);
    let x43: nat = 0x2213fff85237039247f6231f3c1ef8150de0affe1a974e1d501e5410e3e4d6acnat;
    let e43: nat = 2 * e42;
    lemma_pow_square(g, n, e42, x42, x43);
    let x44: nat = 0x2ab7c2ee47ae2a627340ca2a27a2f7f766b2bb2a541870da8aeeefb71e01cb0enat;
    let e44: nat = e43 + 1;
    lemma_pow_times(g, n, e43, x43, x44);
}

proof fn lemma_modulus_raise_15()
    ensures
        pow_mod(5nat, 0x200039ffcc66f4ff1843aa2540567610cf77df233129494e210000000nat, 0x30644e72e131a029b85045b68181585d2833e84879b9709143e1f593f0000001nat) == 0x2ab7c2ee47ae2a627340ca2a27a2f7f766b2bb2a541870da8aeeefb71e01cb0enat,
{
    lemma_modulus_raise_14();
    lemma_modulus_power_27();
    lemma_pow_raise(5nat, 0x30644e72e131a029b85045b68181585d2833e84879b9709143e1f593f0000001nat, 0x24dc65b85b09ebb67a64bb928ba65bd80228af7d7570000000nat, 0x2b06592b4f0edba04e33f8609084187cc7e9d0c21d4e793a64b8c8a8f8db9798nat, 233042759nat, 0x2ab7c2ee47ae2a627340ca2a27a2f7f766b2bb2a541870da8aeeefb71e01cb0enat, 0x200039ffcc66f4ff1843aa2540567610cf77df233129494e210000000nat);
}

proof fn lemma_modulus_power_28()
    ensures
        pow_mod(0x2b06592b4f0edba04e33f8609084187cc7e9d0c21d4e793a64b8c8a8f8db9798nat, 405928799nat, 0x30644e72e131a029b85045b68181585d2833e84879b9709143e1f593f0000001nat) == 0xc3332c771d7ba98bd39f74c3ac2577531fdf95d59f2a535d8f5eb8846c87c09nat,
{
    let n: nat = 0x30644e72e131a029b85045b68181585d2833e84879b9709143e1f593f0000001nat;
    let g: nat = 0x2b06592b4f0edba04e33f8609084187cc7e9d0c21d4e793a64b8c8a8f8db9798nat;
    let e0: nat = 1nat;
    let x0: nat = 0x2b06592b4f0edba04e33f8609084187cc7e9d0c21d4e793a64b8c8a8f8db9798nat;
    lemma_pow_first(g, n, x0);
    let x1: nat = 0x1c1cb7c989b59d649c6ee125f873ef0ccf9fcf5babcbdc1cdc978469ba8fc895nat;
    let e1: nat = 2 * e0;
    lemma_pow_square(g, n, e0, x0, x1);
    let x2: nat = 0x47ddd19730ba7483180ea058297812a4958743d9f9ecbabc90fbab3502e088dnat;
    let e2: nat = e1 + 1;
    lemma_pow_times(g, n, e1, x1, x2);
    let x3: nat = 0x28558602ade7289bc52706bbc1aea7f7fb4bfc1484e8d165d1378b646edbac3cnat;
    let e3: nat = 2 * e2;
    lemma_pow_square(g, n, e2, x2, x3);
    let x4: nat = 0x58dbf5462fa0f68ab93516c4798fd6a60ffdfed25c890960894bc540c7b938nat;
    let e4: nat = 2 * e3;
    lemma_pow_square(g, n, e3, x3, x4);
    let x5: nat = 0x2544b2cd125005305a86756a7fbaf3ac848cc3b84f779f05b15d1051b42c12b6nat;
    let e5: nat = 2 * e4;
    lemma_pow_square(g, n, e4, x4, x5);
    let x6: nat = 0x16f7834a605f133326f3a1ef9715b0851cca3e486900b1b536adfd7a47df1829nat;
    let e6: nat = 2 * e5;
    lemma_pow_square(g, n, e5, x5, x6);
    let x7: nat = 0x10b40c64e74118715ac52bd41a9c7c9cf26e7d5dfa8d5a69f06082ffcfbead34nat;
    let e7: nat = 2 * e6;
    lemma_pow_square(g, n, e6, x6, x7);
    let x8: nat = 0x2e7cdd194dde2c6633dd5ee9440c7a5491cb2351ac05f77054e858af0cc64217nat;
    let e8: nat = 2 * e7;
    lemma_pow_square(g, n, e7, x7, x8);
    let x9: nat = 0xda7f99ec7d4bbf787625f991d6ce0eb37729bfc30acd775b509ef886af42830nat;
    let e9: nat = e8 + 1;
    lemma_pow_times(g, n, e8, x8, x9);
    let x10: nat = 0x65f3c139f1c490e0c81314d7ecd23e1a457e9933de057dc9003550120095622nat;
    let e10: nat = 2 * e9;
    lemma_pow_square(g, n, e9, x9, x10);
    let x11: nat = 0xc315ad5f0392914b1e0822a33a1bde5758d0fecd761d9525a90355e6c8bed89nat;
    let e11: nat = e10 + 1;
    lemma_pow_times(g, n, e10, x10, x11);
    let x12: nat = 0x1201bb42bcae7bad15dcd536cb8ed75718c563fd08a90b21c002249370941446nat;
    let e12: nat = 2 * e11;
    lemma_pow_square(g, n, e11, x11, x12);
    let x13: nat = 0x17183cc987e23027262cc813c7454e99e229397275289018c12c3df069b5d63bnat;
    let e13: nat = 2 * e12;
    lemma_pow_square(g, n, e12, x12, x13);
    let x14: nat = 0x264c44568964af5599cff38391aa5e4adf6a4ba917fe37eadd82e44b29f2ea7nat;
    let e14: nat = 2 * e13;
    lemma_pow_square(g, n, e13, x13, x14);
    let x15: nat = 0x1a27a6964df2816293cf728526197a157253b16e247d52351f8816ae0b3f3549nat;
    let e15: nat = 2 * e14;
    lemma_pow_square(g, n, e14, x14, x15);
    let x16: nat = 0x182572d2de540f6c51f116b83a96ce6346d851259a2536c383ab53760f8ff88anat;
    let e16: nat = e15 + 1;
    lemma_pow_times(g, n, e15, x15, x16);
    let x17: nat = 0x272bc418e80c04eeb440459d787b25e2fc1d6b0449e8bbb233ea5d9fe74804efnat;
    let e17: nat = 2 * e16;
    lemma_pow_square(g, n, e16, x16, x17);
    let x18: nat = 0x13da64f646ec7cf024a2a4deabfd22d573220a5cbcf5d392efda1336d343cd74nat;
    let e18: nat = e17 + 1;
    lemma_pow_times(g, n, e17, x17, x18);
    let x19: nat = 0x1f97a12bd0df03734a6f4ec9afbc177fe4d94c8094659b1144cc64820ec51522nat;
    let e19: nat = 2 * e18;
    lemma_pow_square(g, n, e18, x18, x19);
    let x20: nat = 0xc950cee7aad7b016ddade9ac0d9198e2ed2e8d1927deb1716df2ca0d7cddcdfnat;
    let e20: nat = e19 + 1;
    lemma_pow_times(g, n, e19, x19, x20);
    let x21: nat = 0x119a27a4a9eb42e6a4f511f77c225d95559453ca4c665b9125441ea2b5504596nat;
    let e21: nat = 2 * e20;
    lemma_pow_square(g, n, e20, x20, x21);
    let x22: nat = 0x137e15afe5cc9d95f51f4f8217f0f015166d9dd042b8cf51d922c1babfdcdfdfnat;
    let e22: nat = e21 + 1;
    lemma_pow_times(g, n, e21, x21, x22);
    let x23: nat = 0x1c96f842be0d935120e3a9a0d09f0dd58ff99e26593692589c4a3b22774a4327nat;
    let e23: nat = 2 * e22;
    lemma_pow_square(g, n, e22, x22, x23);
    let x24: nat = 0x19643d86697584212e8c1ea766e8e12f1aa494e438366c9e62328fbcb0e3c1cenat;
    let e24: nat = e23 + 1;
    lemma_pow_times(g, n, e23, x23, x24);
    let x25: nat = 0xf76d4f3b20085db69dc3732a0b7b4f98106119fb6b980668df719f1d093ac66nat;
    let e25: nat = 2 * e24;
    lemma_pow_square(g, n, e24, x24, x25);
    let x26: nat = 0x2d43043f187a001a9bbc73726bc49873052dd2caf92a36b15206fc9d6d245444nat;
    let e26: nat = e25 + 1;
    lemma_pow_times(g, n, e25, x25, x26);
    let x27: nat = 0x2ac680e27ac26a5fa460bd5f516e79d4994f8ff50b2b8fddcef81c03c14f8b6nat;
    let e27: nat = 2 * e26;
    lemma_pow_square(g, n, e26, x26, x27);
    let x28: nat = 0x13b2cc691e1cee7b09b06e4c51768eb25f0ede3d802eff2e7fc67fd5b210cd06nat;
    let e28: nat = 2 * e27;
    lemma_pow_square(g, n, e27, x27, x28);
    let x29: nat = 0x12b2ba6c3dded5667fdb3001d919492d4f7ce5dc51f49799bfb6d76752e407c4nat;
    let e29: nat = e28 + 1;
    lemma_pow_times(g, n, e28, x28, x29);
    let x30: nat = 0x7c4c5901a86dab6300dfb10e618849bc6e53b73b5bdb8f1a673e478fc168e41nat;
    let e30: nat = 2 * e29;
    lemma_pow_square(g, n, e29, x29, x30);
    let x31: nat = 0xcc4efc7fa8366e193570492a8e71e81176ab90a9529a0803f16c35204bdd214nat;
    let e31: nat = e30 + 1;
    lemma_pow_times(g, n, e30, x30, x31);
    let x32: nat = 0xdd6f5d3d5fb23612162a6e87d8568805fbec4e3b0f0a449bc84def853c32d4nat;
    let e32: nat = 2 * e31;
    lemma_pow_square(g, n, e31, x31, x32);
    let x33: nat = 0x11184db28396ea8fc1b11ff71104e0673871593b84812abca0982c78013f7f88nat;
    let e33: nat = 2 * e32;
    lemma_pow_square(g, n, e32, x32, x33);
    let x34: nat = 0x229a94aed601b5bc15cc0e766684ec66a8ceef70d688a80a3872476160050fe5nat;
    let e34: nat = e33 + 1;
    lemma_pow_times(g, n, e33, x33, x34);
    let x35: nat = 0x8a358317d4be903c37df1fef9757a89c237d11b0df5df84f13b8d8408eb9d99nat;
    let e35: nat = 2 * e34;
    lemma_pow_square(g, n, e34, x34, x35);
    let x36: nat = 0x2563ed409c01b6d60ad2c2cb1647ef0faeae8b3c506fff1a0b9f1ed9734117b3nat;
    let e36: nat = 2 * e35;
    lemma_pow_square(g, n, e35, x35, x36);
    let x37: nat = 0x22f485e44766178a8b97f60a996bbedd801400d92f7d4208deee6577c3cca104nat;
    let e37: nat = e36 + 1;
    lemma_pow_times(g, n, e36, x36, x37);
    let x38: nat = 0x1f5c8f0d59106a87c802118bcbdaa6b6cf90834ec6bc986ef00e327ff56037b8nat;
    let e38: nat = 2 * e37;
    lemma_pow_square(g, n, e37, x37, x38);
    let x39: nat = 0x18afaa26595de0a4cd8d1c39e195494f3809aa28584680f8f3febb3fe27cc960nat;
    let e39: nat = e38 + 1;
    lemma_pow_times(g, n, e38, x38, x39);
    let x40: nat = 0x13063f9c0b6996871679e4e082795086d76c2db1f8341ccb52fade50397d050cnat;
    let e40: nat = 2 * e39;
    lemma_pow_square(g, n, e39, x39, x40);
    let x41: nat = 0x301b7e5d4a40997cf43762a583b814d9e2810607c7f79602f9dcb29455f216a9nat;
    let e41: nat = e40 + 1;
    lemma_pow_times(g, n, e40, x40, x41);
    let x42: nat = 0xf92e349fc08ed0189dea81f10aece018427cc8da07d5f817185436da2a4bcacnat;
    let e42: nat = 2 * e41;
    lemma_pow_square(g, n, e41, x41, x42);
    let x43: nat = 0x660639e1238fb2c1414d53171c8d15357435e6ebb0cf21bbd8cf5000cc9c155nat;
    let e43: nat = e42 + 1;
    lemma_pow_times(g, n, e42, x42, x43);
    let x44: nat = 0x24aa1f1da546a6f7eec26e61de95500a790f919c096ef850c7dbce4a56a6c832nat;
    let e44: nat = 2 * e43;
    lemma_pow_square(g, n, e43, x43, x44);
    let x45: nat = 0xc3332c771d7ba98bd39f74c3ac2577531fdf95d59f2a535d8f5eb8846c87c09nat;
    let e45: nat = e44 + 1;
    lemma_pow_times(g, n, e44, x44, x45);
}

proof fn lemma_modulus_raise_16()
    ensures
        pow_mod(5nat, 0x37bdbea8657dbabbc314195d36e9dc1c35519840b2f1c236490000000nat, 0x30644e72e131a029b85045b68181585d2833e84879b9709143e1f593f0000001nat) == 0xc3332c771d7ba98bd39f74c3ac2577531fdf95d59f2a535d8f5eb8846c87c09nat,
{
    lemma_modulus_raise_14();
    lemma_modulus_power_28();
    lemma_pow_raise(5nat, 0x30644e72e131a029b85045b68181585d2833e84879b9709143e1f593f0000001nat, 0x24dc65b85b09ebb67a64bb928ba65bd80228af7d7570000000nat, 0x2b06592b4f0edba04e33f8609084187cc7e9d0c21d4e793a64b8c8a8f8db9798nat, 405928799nat, 0xc3332c771d7ba98bd39f74c3ac2577531fdf95d59f2a535d8f5eb8846c87c09nat, 0x37bdbea8657dbabbc314195d36e9dc1c35519840b2f1c236490000000nat);
}

proof fn lemma_modulus_power_29()
    ensures
        pow_mod(0xc3332c771d7ba98bd39f74c3ac2577531fdf95d59f2a535d8f5eb8846c87c09nat, 983nat, 0x30644e72e131a029b85045b68181585d2833e84879b9709143e1f593f0000001nat) == 0x282b40d353b542bae83b678dc399f070c0ab53c69697f50ae1271347203d055nat,
{
    let n: nat = 0x30644e72e131a029b85045b68181585d2833e84879b9709143e1f593f0000001nat;
    let g: nat = 0xc3332c771d7ba98bd39f74c3ac2577531fdf95d59f2a535d8f5eb8846c87c09nat;
    let e0: nat = 1nat;
    let x0: nat = 0xc3332c771d7ba98bd39f74c3ac2577531fdf95d59f2a535d8f5eb8846c87c09nat;
    lemma_pow_first(g, n, x0);
    let x1: nat = 0x19517c0a5119c7148493fcb534bf902fb16ba3bfae8d0d22e95172d5bd3a6182nat;
    let e1: nat = 2 * e0;
    lemma_pow_square(g, n, e0, x0, x1);
    let x2: nat = 0x444420caf9c818ef408d803d51bb1bf2ae95804a8ba978d91e11b47393a566dnat;
    let e2: nat = e1 + 1;
    lemma_pow_times(g, n, e1, x1, x2);
    let x3: nat = 0xa49c553ee565f1b6ed48eae7efd169470209df08a84969f71914e72bc467848nat;
    let e3: nat = 2 * e2;
    lemma_pow_square(g, n, e2, x2, x3);
    let x4: nat = 0x3009151c934b502f3ce4925b907a1de8e9c4405d224cb58ca8329624a3c595ebnat;
    let e4: nat = e3 + 1;
    lemma_pow_times(g, n, e3, x3, x4);
    let x5: nat = 0x153d269d4696b15ea7d15cad0edcda36f01544fd5ca157f4517b2f3f4a03e362nat;
    let e5: nat = 2 * e4;
    lemma_pow_square(g, n, e4, x4, x5);
    let x6: nat = 0x1ef9e5ef479760fa18a243a29c99a3d652b5dd69e73fe9d0b5f09e8a09719485nat;
    let e6: nat = e5 + 1;
    lemma_pow_times(g, n, e5, x5, x6);
    let x7: nat = 0x409be41c1387b01ba9486dd3e4eb80d192c138c1552fcb0f263f2f0af3392eenat;
    let e7: nat = 2 * e6;
    lemma_pow_square(g, n, e6, x6, x7);
    let x8: nat = 0x1de32e26f8107538a6d7d8fc1b54eb0c54fd08f40a1dbb049b5e12c6224544cbnat;
    let e8: nat = 2 * e7;
    lemma_pow_square(g, n, e7, x7, x8);
    let x9: nat = 0x19167df4431d0e6f8912eb036c44af225aaec519cc1029ea00c7ef01744e1e6dnat;
    let e9: nat = e8 + 1;
    lemma_pow_times(g, n, e8, x8, x9);
    let x10: nat = 0x1f82bb79407c6c34ea4dfd51b3a60472e9952e646cdf956671aba8bde0c0222bnat;
    let e10: nat = 2 * e9;
    lemma_pow_square(g, n, e9, x9, x10);
    let x11: nat = 0x20a9d6d8fc2bb3dc81ca61416513cf90f397cd6670fbaaaff66726a8eca1defdnat;
    let e11: nat = 2 * e10;
    lemma_pow_square(g, n, e10, x10, x11);
    let x12: nat = 0x1cdb28a3c5f2660c569c8fd42ea158757fe6aa0957001ae3d6c60bac02453b2anat;
    let e12: nat = e11 + 1;
    lemma_pow_times(g, n, e11, x11, x12);
    let x13: nat = 0x27c8e7488b53efae9695463404be93f042b1360bc60eeb53e57bb88fde383830nat;
    let e13: nat = 2 * e12;
    lemma_pow_square(g, n, e12, x12, x13);
    let x14: nat = 0xf070a0c8289fc61e42345ad6c75265d955cf422131fc30aaa5453ded43c0609nat;
    let e14: nat = e13 + 1;
    lemma_pow_times(g, n, e13, x13, x14);
    let x15: nat = 0x1b26b73110022e99878d5f74d8b26b566335b4b0083619f7620da1ff1701bfdanat;
    let e15: nat = 2 * e14;
    lemma_pow_square(g, n, e14, x14, x15);
    let x16: nat = 0x282b40d353b542bae83b678dc399f070c0ab53c69697f50ae1271347203d055nat;
    let e16: nat = e15 + 1;
    lemma_pow_times(g, n, e15, x15, x16);
}

proof fn lemma_modulus_raise_17()
    ensures
        pow_mod(5nat, 0xd60997189db5c806fa122d64eddbfc3050bc4fa06f1e50be724f0000000nat, 0x30644e72e131a029b85045b68181585d2833e84879b9709143e1f593f0000001nat) == 0x282b40d353b542bae83b678dc399f070c0ab53c69697f50ae1271347203d055nat,
{
    lemma_modulus_raise_16();
    lemma_modulus_power_29();
    lemma_pow_raise(5nat, 0x30644e72e131a029b85045b68181585d2833e84879b9709143e1f593f0000001nat, 0x37bdbea8657dbabbc314195d36e9dc1c35519840b2f1c236490000000nat, 0xc3332c771d7ba98bd39f74c3ac2577531fdf95d59f2a535d8f5eb8846c87c09nat, 983nat, 0x282b40d353b542bae83b678dc399f070c0ab53c69697f50ae1271347203d055nat, 0xd60997189db5c806fa122d64eddbfc3050bc4fa06f1e50be724f0000000nat);
}

proof fn lemma_modulus_power_30()
    ensures
        pow_mod(0xc3332c771d7ba98bd39f74c3ac2577531fdf95d59f2a535d8f5eb8846c87c09nat, 237073nat, 0x30644e72e131a029b85045b68181585d2833e84879b9709143e1f593f0000001nat) == 0x23b5ac29e080cde5cc11772a04f058c27b039eae3eeaf3d978dc89cc9a7bf77fnat,
{
    let n: nat = 0x30644e72e131a029b85045b68181585d2833e84879b9709143e1f593f0000001nat;
    let g: nat = 0xc3332c771d7ba98bd39f74c3ac2577531fdf95d59f2a535d8f5eb8846c87c09nat;
    let e0: nat = 1nat;
    let x0: nat = 0xc3332c771d7ba98bd39f74c3ac2577531fdf95d59f2a535d8f5eb8846c87c09nat;
    lemma_pow_first(g, n, x0);
    let x1: nat = 0x19517c0a5119c7148493fcb534bf902fb16ba3bfae8d0d22e95172d5bd3a6182nat;
    let e1: nat = 2 * e0;
    lemma_pow_square(g, n, e0, x0, x1);
    let x2: nat = 0x444420caf9c818ef408d803d51bb1bf2ae95804a8ba978d91e11b47393a566dnat;
    let e2: nat = e1 + 1;
    lemma_pow_times(g, n, e1, x1, x2);
    let x3: nat = 0xa49c553ee565f1b6ed48eae7efd169470209df08a84969f71914e72bc467848nat;
    let e3: nat = 2 * e2;
    lemma_pow_square(g, n, e2, x2, x3);
    let x4: nat = 0x3009151c934b502f3ce4925b907a1de8e9c4405d224cb58ca8329624a3c595ebnat;
    let e4: nat = e3 + 1;
    lemma_pow_times(g, n, e3, x3, x4);
    let x5: nat = 0x153d269d4696b15ea7d15cad0edcda36f01544fd5ca157f4517b2f3f4a03e362nat;
    let e5: nat = 2 * e4;
    lemma_pow_square(g, n, e4, x4, x5);
    let x6: nat = 0x1e0d971713cabde91a95d9291bf671cfb7e9d224d500baf3330e40e25d615819nat;
    let e6: nat = 2 * e5;
    lemma_pow_square(g, n, e5, x5, x6);
    let x7: nat = 0xbb5e1a3f822da416f5c7a99bd836999f7f31b79d52f93d0f7b1a10c06292e0bnat;
    let e7: nat = 2 * e6;
    lemma_pow_square(g, n, e6, x6, x7);
    let x8: nat = 0x18ec41f1b52a3ba87cffe5561e8ed2ced0f1a6b7c8b9f784b1ddeec345796437nat;
    let e8: nat = e7 + 1;
    lemma_pow_times(g, n, e7, x7, x8);
    let x9: nat = 0x271ca925c4e14d12033eda888ac914a3d88d049da0cc8c39718abb3b3ca959cdnat;
    let e9: nat = 2 * e8;
    lemma_pow_square(g, n, e8, x8, x9);
    let x10: nat = 0x4539d1e64c56baacff8636081d6edc2836121b5cbf8a87894fb0b2de4ffb756nat;
    let e10: nat = e9 + 1;
    lemma_pow_times(g, n, e9, x9, x10);
    let x11: nat = 0x2feff738f09ad4a35da614d08b8cfd6b47def9b4b0cc76b64484766d0821eefanat;
    let e11: nat = 2 * e10;
    lemma_pow_square(g, n, e10, x10, x11);
    let x12: nat = 0x19d087bd0a0d11c02fff4b9a52a8779ba21c93443ea605a331adb58d1d4be92anat;
    let e12: nat = e11 + 1;
    lemma_pow_times(g, n, e11, x11, x12);
    let x13: nat = 0x2b1eaa903ff03678ead1bfd55166de5e0208875b1e75fdd305887bb83dcf77c5nat;
    let e13: nat = 2 * e12;
    lemma_pow_square(g, n, e12, x12, x13);
    let x14: nat = 0x21626a8e236f41d2e9ff8dc5326103908f9e7b079e5c17f6e05135ea1aa533fnat;
    let e14: nat = e13 + 1;
    lemma_pow_times(g, n, e13, x13, x14);
    let x15: nat = 0x20c1823a7dd0ab7e85b61bd87e60b74b2a7ccdf2af031c10c0ffdd893bfb60a5nat;
    let e15: nat = 2 * e14;
    lemma_pow_square(g, n, e14, x14, x15);
    let x16: nat = 0x1d2cec5eded8adc7e924e401318cf38ee5970c13feef8221a56f71195d2b0ffcnat;
    let e16: nat = 2 * e15;
    lemma_pow_square(g, n, e15, x15, x16);
    let x17: nat = 0x28b4d7d567630a2c5835c7f84c385430609a78914e0bec800fc5f18620583f77nat;
    let e17: nat = 2 * e16;
    lemma_pow_square(g, n, e16, x16, x17);
    let x18: nat = 0x2ffc0dad6438fccb890e2f8c8be1cd5c0ac35780cb3a8fa676aceb8efe5c9b48nat;
    let e18: nat = 2 * e17;
    lemma_pow_square(g, n, e17, x17, x18);
    let x19: nat = 0x18b99c4414a873bb42d5831b377b5843de990012690343e47ef31445d4a27f33nat;
    let e19: nat = 2 * e18;
    lemma_pow_square(g, n, e18, x18, x19);
    let x20: nat = 0x2166db30249dc805a7730da1ca2f996a6368c4bec1fbee66b5dc66b8a2a18fb7nat;
    let e20: nat = e19 + 1;
    lemma_pow_times(g, n, e19, x19, x20);
    let x21: nat = 0x28df6ff4078a2356d56031e58d7e575d9acbdb27544c736c9412a2035ab92f9bnat;
    let e21: nat = 2 * e20;
    lemma_pow_square(g, n, e20, x20, x21);
    let x22: nat = 0x10727372706e967a77f6228cd5a9aaa779e43c6fedeb1f0a11e3fea98ab33b6anat;
    let e22: nat = 2 * e21;
    lemma_pow_square(g, n, e21, x21, x22);
    let x23: nat = 0x301009c8995fe9cb916e80f2eca0cc9640d2a360833e7b0c38c1637e7cb42c98nat;
    let e23: nat = 2 * e22;
    lemma_pow_square(g, n, e22, x22, x23);
    let x24: nat = 0x8834f57fe9dd671b6bdd510ab081521eb7794de0e436efe43d7a326b39af134nat;
    let e24: nat = 2 * e23;
    lemma_pow_square(g, n, e23, x23, x24);
    let x25: nat = 0x23b5ac29e080cde5cc11772a04f058c27b039eae3eeaf3d978dc89cc9a7bf77fnat;
    let e25: nat = e24 + 1;
    lemma_pow_times(g, n, e24, x24, x25);
}

proof fn lemma_modulus_raise_18()
    ensures
        pow_mod(5nat, 0xc9a40b3ec84b86cc921aa814dbd28fb5a6bcaf2523925e8e41a8d90000000nat, 0x30644e72e131a029b85045b68181585d2833e84879b9709143e1f593f0000001nat) == 0x23b5ac29e080cde5cc11772a04f058c27b039eae3eeaf3d978dc89cc9a7bf77fnat,
{
    lemma_modulus_raise_16();
    lemma_modulus_power_30();
    lemma_pow_raise(5nat, 0x30644e72e131a029b85045b68181585d2833e84879b9709143e1f593f0000001nat, 0x37bdbea8657dbabbc314195d36e9dc1c35519840b2f1c236490000000nat, 0xc3332c771d7ba98bd39f74c3ac2577531fdf95d59f2a535d8f5eb8846c87c09nat, 237073nat, 0x23b5ac29e080cde5cc11772a04f058c27b039eae3eeaf3d978dc89cc9a7bf77fnat, 0xc9a40b3ec84b86cc921aa814dbd28fb5a6bcaf2523925e8e41a8d90000000nat);
}

proof fn lemma_modulus_power_31()
    ensures
        pow_mod(0x30644e72e131a029b85045b68181585d2833e84879b9709143e1f593f0000000nat, 2nat, 0x30644e72e131a029b85045b68181585d2833e84879b9709143e1f593f0000001nat) == 1nat,
{
    let n: nat = 0x30644e72e131a029b85045b68181585d2833e84879b9709143e1f593f0000001nat;
    let g: nat = 0x30644e72e131a029b85045b68181585d2833e84879b9709143e1f593f0000000nat;
    let e0: nat = 1nat;
    let x0: nat = 0x30644e72e131a029b85045b68181585d2833e84879b9709143e1f593f0000000nat;
    lemma_pow_first(g, n, x0);
    let x1: nat = 1nat;
    let e1: nat = 2 * e0;
    lemma_pow_square(g, n, e0, x0, x1);
}

proof fn lemma_modulus_raise_19()
    ensures
        pow_mod(5nat, 0x30644e72e131a029b85045b68181585d2833e84879b9709143e1f593f0000000nat, 0x30644e72e131a029b85045b68181585d2833e84879b9709143e1f593f0000001nat) == 1nat,
{
    lemma_modulus_raise_7();
    lemma_modulus_power_31();
    lemma_pow_raise(5nat, 0x30644e72e131a029b85045b68181585d2833e84879b9709143e1f593f0000001nat, 0x183227397098d014dc2822db40c0ac2e9419f4243cdcb848a1f0fac9f8000000nat, 0x30644e72e131a029b85045b68181585d2833e84879b9709143e1f593f0000000nat, 2nat, 1nat, 0x30644e72e131a029b85045b68181585d2833e84879b9709143e1f593f0000000nat);
}

/// The modulus of the native field is prime.
pub proof fn lemma_prime_modulus()
    ensures
        is_prime(0x30644e72e131a029b85045b68181585d2833e84879b9709143e1f593f0000001nat),
{
    let n: nat = 0x30644e72e131a029b85045b68181585d2833e84879b9709143e1f593f0000001nat;
    let g: nat = 5nat;
    lemma_two_is_prime();
    lemma_modulus_raise_7();
    lemma_prime_3();
    lemma_modulus_raise_13();
    lemma_prime_13();
    lemma_modulus_raise_12();
    lemma_prime_29();
    lemma_modulus_raise_6();
    lemma_prime_983();
    lemma_modulus_raise_18();
    lemma_prime_11003();
    lemma_modulus_raise_4();
    lemma_prime_237073();
    lemma_modulus_raise_17();
    lemma_prime_405928799();
    lemma_modulus_raise_15();
    lemma_prime_1670836401704629();
    lemma_modulus_raise_10();
    lemma_prime_cofactor();
    lemma_modulus_raise_2();
    lemma_modulus_raise_19();
    let s0: Seq<nat> = Seq::<nat>::empty();
    lemma_witnessed_none(n, g);
    let s1: Seq<nat> = s0.push(2nat);
    lemma_witnessed_more(n, g, s0, 2nat, 0x183227397098d014dc2822db40c0ac2e9419f4243cdcb848a1f0fac9f8000000nat, 0x30644e72e131a029b85045b68181585d2833e84879b9709143e1f593f0000000nat, 2nat);
    let s2: Seq<nat> = s1.push(2nat);
    lemma_witnessed_more(n, g, s1, 2nat, 0x183227397098d014dc2822db40c0ac2e9419f4243cdcb848a1f0fac9f8000000nat, 0x30644e72e131a029b85045b68181585d2833e84879b9709143e1f593f0000000nat, 4nat);
    let s3: Seq<nat> = s2.push(2nat);
    lemma_witnessed_more(n, g, s2, 2nat, 0x183227397098d014dc2822db40c0ac2e9419f4243cdcb848a1f0fac9f8000000nat, 0x30644e72e131a029b85045b68181585d2833e84879b9709143e1f593f0000000nat, 8nat);
    let s4: Seq<nat> = s3.push(2nat);
    lemma_witnessed_more(n, g, s3, 2nat, 0x183227397098d014dc2822db40c0ac2e9419f4243cdcb848a1f0fac9f8000000nat, 0x30644e72e131a029b85045b68181585d2833e84879b9709143e1f593f0000000nat, 16nat);
    let s5: Seq<nat> = s4.push(2nat);
    lemma_witnessed_more(n, g, s4, 2nat, 0x183227397098d014dc2822db40c0ac2e9419f4243cdcb848a1f0fac9f8000000nat, 0x30644e72e131a029b85045b68181585d2833e84879b9709143e1f593f0000000nat, 32nat);
    let s6: Seq<nat> = s5.push(2nat);
    lemma_witnessed_more(n, g, s5, 2nat, 0x183227397098d014dc2822db40c0ac2e9419f4243cdcb848a1f0fac9f8000000nat, 0x30644e72e131a029b85045b68181585d2833e84879b9709143e1f593f0000000nat, 64nat);
    let s7: Seq<nat> = s6.push(2nat);
    lemma_witnessed_more(n, g, s6, 2nat, 0x183227397098d014dc2822db40c0ac2e9419f4243cdcb848a1f0fac9f8000000nat, 0x30644e72e131a029b85045b68181585d2833e84879b9709143e1f593f0000000nat, 128nat);
    let s8: Seq<nat> = s7.push(2nat);
    lemma_witnessed_more(n, g, s7, 2nat, 0x183227397098d014dc2822db40c0ac2e9419f4243cdcb848a1f0fac9f8000000nat, 0x30644e72e131a029b85045b68181585d2833e84879b9709143e1f593f0000000nat, 256nat);
    let s9: Seq<nat> = s8.push(2nat);
    lemma_witnessed_more(n, g, s8, 2nat, 0x183227397098d014dc2822db40c0ac2e9419f4243cdcb848a1f0fac9f8000000nat, 0x30644e72e131a029b85045b68181585d2833e84879b9709143e1f593f0000000nat, 512nat);
    let s10: Seq<nat> = s9.push(2nat);
    lemma_witnessed_more(n, g, s9, 2nat, 0x183227397098d014dc2822db40c0ac2e9419f4243cdcb848a1f0fac9f8000000nat, 0x30644e72e131a029b85045b68181585d2833e84879b9709143e1f593f0000000nat, 1024nat);
    let s11: Seq<nat> = s10.push(2nat);
    lemma_witnessed_more(n, g, s10, 2nat, 0x183227397098d014dc2822db40c0ac2e9419f4243cdcb848a1f0fac9f8000000nat, 0x30644e72e131a029b85045b68181585d2833e84879b9709143e1f593f0000000nat, 2048nat);
    let s12: Seq<nat> = s11.push(2nat);
    lemma_witnessed_more(n, g, s11, 2nat, 0x183227397098d014dc2822db40c0ac2e9419f4243cdcb848a1f0fac9f8000000nat, 0x30644e72e131a029b85045b68181585d2833e84879b9709143e1f593f0000000nat, 4096nat);
    let s13: Seq<nat> = s12.push(2nat);
    lemma_witnessed_more(n, g, s12, 2nat, 0x183227397098d014dc2822db40c0ac2e9419f4243cdcb848a1f0fac9f8000000nat, 0x30644e72e131a029b85045b68181585d2833e84879b9709143e1f593f0000000nat, 8192nat);
    let s14: Seq<nat> = s13.push(2nat);
    lemma_witnessed_more(n, g, s13, 2nat, 0x183227397098d014dc2822db40c0ac2e9419f4243cdcb848a1f0fac9f8000000nat, 0x30644e72e131a029b85045b68181585d2833e84879b9709143e1f593f0000000nat, 16384nat);
    let s15: Seq<nat> = s14.push(2nat);
    lemma_witnessed_more(n, g, s14, 2nat, 0x183227397098d014dc2822db40c0ac2e9419f4243cdcb848a1f0fac9f8000000nat, 0x30644e72e131a029b85045b68181585d2833e84879b9709143e1f593f0000000nat, 32768nat);
    let s16: Seq<nat> = s15.push(2nat);
    lemma_witnessed_more(n, g, s15, 2nat, 0x183227397098d014dc2822db40c0ac2e9419f4243cdcb848a1f0fac9f8000000nat, 0x30644e72e131a029b85045b68181585d2833e84879b9709143e1f593f0000000nat, 65536nat);
    let s17: Seq<nat> = s16.push(2nat);
    lemma_witnessed_more(n, g, s16, 2nat, 0x183227397098d014dc2822db40c0ac2e9419f4243cdcb848a1f0fac9f8000000nat, 0x30644e72e131a029b85045b68181585d2833e84879b9709143e1f593f0000000nat, 131072nat);
    let s18: Seq<nat> = s17.push(2nat);
    lemma_witnessed_more(n, g, s17, 2nat, 0x183227397098d014dc2822db40c0ac2e9419f4243cdcb848a1f0fac9f8000000nat, 0x30644e72e131a029b85045b68181585d2833e84879b9709143e1f593f0000000nat, 262144nat);
    let s19: Seq<nat> = s18.push(2nat);
    lemma_witnessed_more(n, g, s18, 2nat, 0x183227397098d014dc2822db40c0ac2e9419f4243cdcb848a1f0fac9f8000000nat, 0x30644e72e131a029b85045b68181585d2833e84879b9709143e1f593f0000000nat, 524288nat);
    let s20: Seq<nat> = s19.push(2nat);
    lemma_witnessed_more(n, g, s19, 2nat, 0x183227397098d014dc2822db40c0ac2e9419f4243cdcb848a1f0fac9f8000000nat, 0x30644e72e131a029b85045b68181585d2833e84879b9709143e1f593f0000000nat, 1048576nat);
    let s21: Seq<nat> = s20.push(2nat);
    lemma_witnessed_more(n, g, s20, 2nat, 0x183227397098d014dc2822db40c0ac2e9419f4243cdcb848a1f0fac9f8000000nat, 0x30644e72e131a029b85045b68181585d2833e84879b9709143e1f593f0000000nat, 2097152nat);
    let s22: Seq<nat> = s21.push(2nat);
    lemma_witnessed_more(n, g, s21, 2nat, 0x183227397098d014dc2822db40c0ac2e9419f4243cdcb848a1f0fac9f8000000nat, 0x30644e72e131a029b85045b68181585d2833e84879b9709143e1f593f0000000nat, 4194304nat);
    let s23: Seq<nat> = s22.push(2nat);
    lemma_witnessed_more(n, g, s22, 2nat, 0x183227397098d014dc2822db40c0ac2e9419f4243cdcb848a1f0fac9f8000000nat, 0x30644e72e131a029b85045b68181585d2833e84879b9709143e1f593f0000000nat, 8388608nat);
    let s24: Seq<nat> = s23.push(2nat);
    lemma_witnessed_more(n, g, s23, 2nat, 0x183227397098d014dc2822db40c0ac2e9419f4243cdcb848a1f0fac9f8000000nat, 0x30644e72e131a029b85045b68181585d2833e84879b9709143e1f593f0000000nat, 16777216nat);
    let s25: Seq<nat> = s24.push(2nat);
    lemma_witnessed_more(n, g, s24, 2nat, 0x183227397098d014dc2822db40c0ac2e9419f4243cdcb848a1f0fac9f8000000nat, 0x30644e72e131a029b85045b68181585d2833e84879b9709143e1f593f0000000nat, 33554432nat);
    let s26: Seq<nat> = s25.push(2nat);
    lemma_witnessed_more(n, g, s25, 2nat, 0x183227397098d014dc2822db40c0ac2e9419f4243cdcb848a1f0fac9f8000000nat, 0x30644e72e131a029b85045b68181585d2833e84879b9709143e1f593f0000000nat, 67108864nat);
    let s27: Seq<nat> = s26.push(2nat);
    lemma_witnessed_more(n, g, s26, 2nat, 0x183227397098d014dc2822db40c0ac2e9419f4243cdcb848a1f0fac9f8000000nat, 0x30644e72e131a029b85045b68181585d2833e84879b9709143e1f593f0000000nat, 134217728nat);
    let s28: Seq<nat> = s27.push(2nat);
    lemma_witnessed_more(n, g, s27, 2nat, 0x183227397098d014dc2822db40c0ac2e9419f4243cdcb848a1f0fac9f8000000nat, 0x30644e72e131a029b85045b68181585d2833e84879b9709143e1f593f0000000nat, 268435456nat);
    let s29: Seq<nat> = s28.push(3nat);
    lemma_witnessed_more(n, g, s28, 3nat, 0x10216f7ba065e00de81ac1e7808072c9b8114d6d7de87adb16a0a73150000000nat, 0xb3c4d79d41a917585bfc41088d8daaa78b17ea66b99c90ddnat, 805306368nat);
    let s30: Seq<nat> = s29.push(3nat);
    lemma_witnessed_more(n, g, s29, 3nat, 0x10216f7ba065e00de81ac1e7808072c9b8114d6d7de87adb16a0a73150000000nat, 0xb3c4d79d41a917585bfc41088d8daaa78b17ea66b99c90ddnat, 2415919104nat);
    let s31: Seq<nat> = s30.push(13nat);
    lemma_witnessed_more(n, g, s30, 13nat, 0x3b8f2579b2b33b470a3b697e293cbb8658dd6ca7f846b1eddd64df7b0000000nat, 0x2e167b2ab6ff98bb542b91ce1eb47e4fb4fc2d6a727502587705045d20d99a2dnat, 0x750000000nat);
    let s32: Seq<nat> = s31.push(29nat);
    lemma_witnessed_more(n, g, s31, 29nat, 0x1ab2ed7d2ccbee6f4b351da27c6aac56b513cf9abebe9661cd2d380b0000000nat, 0x2896189ef9a170b981e0c07bf3d93bbf71bfae0b644dcdeae3298403a9fff61fnat, 0xd410000000nat);
    let s33: Seq<nat> = s32.push(983nat);
    lemma_witnessed_more(n, g, s32, 983nat, 0xc9a40b3ec84b86cc921aa814dbd28fb5a6bcaf2523925e8e41a8d90000000nat, 0x23b5ac29e080cde5cc11772a04f058c27b039eae3eeaf3d978dc89cc9a7bf77fnat, 0x32e4970000000nat);
    let s34: Seq<nat> = s33.push(11003nat);
    lemma_witnessed_more(n, g, s33, 11003nat, 0x1203b2751402ee8a8450f9ae5651fac8c117e818301af77097778d0000000nat, 0x12591d69820f4e8c2a214912adb6a1389c2dfdc221e439da78e1afd8bbdf1ed0nat, 0x88b66e60d0000000nat);
    let s35: Seq<nat> = s34.push(237073nat);
    lemma_witnessed_more(n, g, s34, 237073nat, 0xd60997189db5c806fa122d64eddbfc3050bc4fa06f1e50be724f0000000nat, 0x282b40d353b542bae83b678dc399f070c0ab53c69697f50ae1271347203d055nat, 0x1ee8cf75f84cdd0000000nat);
    let s36: Seq<nat> = s35.push(405928799nat);
    lemma_witnessed_more(n, g, s35, 405928799nat, 0x200039ffcc66f4ff1843aa2540567610cf77df233129494e210000000nat, 0x2ab7c2ee47ae2a627340ca2a27a2f7f766b2bb2a541870da8aeeefb71e01cb0enat, 0x2ebdc5c80a962a8ce35030000000nat);
    let s37: Seq<nat> = s36.push(0x5ef9dea338eb5nat);
    lemma_witnessed_more(n, g, s36, 0x5ef9dea338eb5nat, 0x826fa48d33ee800159289ae6358fe5bac4c5f80f0ca30000000nat, 0x2b6d904f4dd81999c858344739261ea5bc718a9874962af046a184669ce38707nat, 0x11574ddb3232514fb3c4e3e9c408cc251f0000000nat);
    let s38: Seq<nat> = s37.push(0x2ca6487cfcd795e8729527e1nat);
    lemma_witnessed_more(n, g, s37, 0x2ca6487cfcd795e8729527e1nat, 0x11574ddb3232514fb3c4e3e9c408cc251f0000000nat, 0x111ce6c4ffe84db106cb32817a46e1af1c3c8053e4d74d6ad44430556c06764anat, 0x30644e72e131a029b85045b68181585d2833e84879b9709143e1f593f0000000nat);
    lemma_witnessed_prime(n, g, s38);
}

} // verus!
