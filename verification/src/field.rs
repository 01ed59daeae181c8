//! The native field: its modulus, the arithmetic of residues, and field elements.
//!
//! Residues are modelled as natural numbers below [`modulus`]. A field
//! element [`Fe`] holds the canonical residue in four 64-bit limbs; the
//! arithmetic itself is done by `halo2curves` on its `grumpkin::Fq`.
use vstd::prelude::*;
use vstd::arithmetic::div_mod::*;
use vstd::arithmetic::mul::*;
use crate::certificate::lemma_prime_modulus;
use crate::primality::{is_prime, lemma_prime_inverse, mulmod};
use halo2curves::grumpkin::Fq;
use halo2curves::ff::Field;

verus! {

/// The modulus of the native field: the order of the base field of Grumpkin.
pub open spec fn modulus() -> nat {
    0x30644e72e131a029b85045b68181585d2833e84879b9709143e1f593f0000001nat
}

/// Sum of two residues.
#[verifier::opaque]
pub open spec fn fadd(a: nat, b: nat) -> nat {
    (a + b) % modulus()
}

/// Difference of two residues.
#[verifier::opaque]
pub open spec fn fsub(a: nat, b: nat) -> nat {
    ((a as int - b as int) % (modulus() as int)) as nat
}

/// Product of two residues.
#[verifier::opaque]
pub open spec fn fmul(a: nat, b: nat) -> nat {
    (a * b) % modulus()
}

/// Additive inverse of a residue.
pub open spec fn fneg(a: nat) -> nat {
    fsub(0, a)
}

/// Square of a residue.
pub open spec fn fsq(a: nat) -> nat {
    fmul(a, a)
}

/// `x` is the canonical multiplicative inverse of `a`.
pub open spec fn is_inverse(a: nat, x: nat) -> bool {
    x < modulus() && fmul(a, x) == 1
}

/// The multiplicative inverse of `a`, extended by zero where `a` has none.
pub open spec fn finv(a: nat) -> nat {
    if exists|x: nat| is_inverse(a, x) {
        choose|x: nat| is_inverse(a, x)
    } else {
        0
    }
}

/// The blend `bit * v1 + (1 - bit) * v0`: `v1` where `bit` is one, `v0`
/// where it is zero.
pub open spec fn select(bit: nat, v1: nat, v0: nat) -> nat {
    fadd(fmul(bit, v1), fmul(fsub(1, bit), v0))
}

/// The native field has no zero divisors: a product of canonical residues
/// vanishes only where a factor does.
pub open spec fn no_zero_divisors() -> bool {
    forall|a: nat, b: nat|
        a < modulus() && b < modulus() && #[trigger] fmul(a, b) == 0 ==> a == 0 || b == 0
}

/// The native field is a field: its modulus is prime, so no product of
/// canonical residues vanishes unless a factor does.
pub proof fn lemma_no_zero_divisors()
    ensures
        no_zero_divisors(),
        is_prime(modulus()),
{
    lemma_prime_modulus();
    assert forall|a: nat, b: nat|
        a < modulus() && b < modulus() && #[trigger] fmul(a, b) == 0 implies a == 0 || b
        == 0 by {
        reveal(fmul);
        assert(mulmod(a, b, modulus()) == 0);
    }
}

/// Every residue but zero has an inverse, and the extended inverse is it.
pub proof fn lemma_inverse_exists(a: nat)
    requires
        0 < a < modulus(),
    ensures
        is_inverse(a, finv(a)),
        fmul(a, finv(a)) == 1,
        fmul(finv(a), a) == 1,
        finv(a) < modulus(),
{
    lemma_prime_modulus();
    let y = lemma_prime_inverse(modulus(), a);
    assert(is_inverse(a, y)) by {
        reveal(fmul);
    }
    lemma_finv(a, y);
    lemma_fmul_comm(a, y);
}

/// A number is made up of its lowest 64-bit limb and of what is above it
/// in one way only.
proof fn lemma_limb_split(lo1: nat, hi1: nat, lo2: nat, hi2: nat)
    requires
        lo1 < 0x1_0000_0000_0000_0000,
        lo2 < 0x1_0000_0000_0000_0000,
        lo1 + 0x1_0000_0000_0000_0000 * hi1 == lo2 + 0x1_0000_0000_0000_0000 * hi2,
    ensures
        lo1 == lo2,
        hi1 == hi2,
{
}

/// The number that four little-endian 64-bit limbs stand for.
pub open spec fn limbs_value(l0: u64, l1: u64, l2: u64, l3: u64) -> nat {
    (l0 as nat) + (l1 as nat) * 0x1_0000_0000_0000_0000nat + (l2 as nat)
        * 0x1_0000_0000_0000_0000_0000_0000_0000_0000nat + (l3 as nat)
        * 0x1_0000_0000_0000_0000_0000_0000_0000_0000_0000_0000_0000_0000nat
}

/// An element of the native field, kept as its canonical residue.
#[derive(Clone, Copy, Debug, PartialEq, Eq, Structural)]
pub struct Fe {
    l0: u64,
    l1: u64,
    l2: u64,
    l3: u64,
}

impl View for Fe {
    type V = nat;

    closed spec fn view(&self) -> nat {
        limbs_value(self.l0, self.l1, self.l2, self.l3)
    }
}

/// Every sum, difference and product of residues is canonical.
pub proof fn lemma_canonical()
    ensures
        forall|a: nat, b: nat| #[trigger] fadd(a, b) < modulus(),
        forall|a: nat, b: nat| #[trigger] fsub(a, b) < modulus(),
        forall|a: nat, b: nat| #[trigger] fmul(a, b) < modulus(),
{
    reveal(fadd);
    reveal(fsub);
    reveal(fmul);
}

/// Two canonical residues differ by zero exactly where they are equal.
pub proof fn lemma_fsub_zero(a: nat, b: nat)
    requires
        a < modulus(),
        b < modulus(),
    ensures
        fsub(a, b) == 0 <==> a == b,
{
    reveal(fadd);
    reveal(fsub);
    reveal(fmul);
}

/// Zero and one under multiplication and addition.
pub proof fn lemma_units(a: nat)
    requires
        a < modulus(),
    ensures
        fmul(1, a) == a,
        fmul(a, 1) == a,
        fmul(0, a) == 0,
        fmul(a, 0) == 0,
        fadd(a, 0) == a,
        fadd(0, a) == a,
        fsub(a, 0) == a,
        fsub(a, a) == 0,
{
    reveal(fadd);
    reveal(fsub);
    reveal(fmul);
    assert(1 * a == a) by (nonlinear_arith);
    assert(a * 1 == a) by (nonlinear_arith);
    assert(0 * a == 0) by (nonlinear_arith);
    assert(a * 0 == 0) by (nonlinear_arith);
}

/// Multiplication of residues is commutative.
pub proof fn lemma_fmul_comm(a: nat, b: nat)
    ensures
        fmul(a, b) == fmul(b, a),
{
    reveal(fadd);
    reveal(fsub);
    reveal(fmul);
    assert(a * b == b * a) by (nonlinear_arith);
}

/// Multiplication of residues is associative.
pub proof fn lemma_fmul_assoc(a: nat, b: nat, c: nat)
    ensures
        fmul(fmul(a, b), c) == fmul(a, fmul(b, c)),
{
    reveal(fadd);
    reveal(fsub);
    reveal(fmul);
    let p = modulus() as int;
    let (x, y, z) = (a as int, b as int, c as int);
    lemma_mul_mod_noop_left(x * y, z, p);
    lemma_mul_mod_noop_right(x, y * z, p);
    assert((x * y) * z == x * (y * z)) by (nonlinear_arith);
}

/// A residue has at most one canonical inverse.
pub proof fn lemma_inverse_unique(a: nat, x: nat, y: nat)
    requires
        is_inverse(a, x),
        is_inverse(a, y),
    ensures
        x == y,
{
    reveal(fadd);
    reveal(fsub);
    reveal(fmul);
    // x = x * (a * y) = (x * a) * y = y
    lemma_fmul_assoc(x, a, y);
    lemma_fmul_comm(x, a);
    lemma_units(x);
    lemma_units(y);
}

/// The inverse of a residue that has one is that one; zero has none.
pub proof fn lemma_finv(a: nat, x: nat)
    requires
        is_inverse(a, x),
    ensures
        finv(a) == x,
        a % modulus() != 0,
{
    reveal(fadd);
    reveal(fsub);
    reveal(fmul);
    let y = choose|y: nat| is_inverse(a, y);
    lemma_inverse_unique(a, x, y);
    if a % modulus() == 0 {
        lemma_mul_mod_noop_left(a as int, x as int, modulus() as int);
        assert(0 * (x as int) == 0) by (nonlinear_arith);
    }
}

/// Zero has no inverse, so its extended inverse is zero.
pub proof fn lemma_finv_zero()
    ensures
        finv(0) == 0,
{
    reveal(fadd);
    reveal(fsub);
    reveal(fmul);
    assert forall|x: nat| !is_inverse(0, x) by {
        assert(0 * x == 0) by (nonlinear_arith);
    }
}

/// The blend picks `v1` at one and `v0` at zero.
pub proof fn lemma_select(v1: nat, v0: nat)
    requires
        v1 < modulus(),
        v0 < modulus(),
    ensures
        select(1, v1, v0) == v1,
        select(0, v1, v0) == v0,
{
    reveal(fadd);
    reveal(fsub);
    reveal(fmul);
    lemma_units(v1);
    lemma_units(v0);
}

/// The residues `b` with `b * (1 - b) = 0` are the bits: zero and one.
pub proof fn lemma_boolean(b: nat)
    requires
        b < modulus(),
    ensures
        fmul(b, fsub(1, b)) == 0 <==> b == 0 || b == 1,
{
    lemma_units(b);
    lemma_units(1);
    lemma_canonical();
    lemma_fsub_zero(1, b);
    lemma_fsub_zero(1, 0);
    lemma_no_zero_divisors();
    if fmul(b, fsub(1, b)) == 0 && b != 0 {
        assert(fsub(1, b) == 0);
    }
}

impl Fe {
    /// The residue is canonical.
    pub open spec fn wf(&self) -> bool {
        self@ < modulus()
    }

    /// Field elements with the same residue are the same.
    pub proof fn lemma_view_injective(a: Fe, b: Fe)
        ensures
            a@ == b@ <==> a == b,
    {
        if a@ == b@ {
            let w = 0x1_0000_0000_0000_0000nat;
            let ga = a.l2 as nat + w * (a.l3 as nat);
            let gb = b.l2 as nat + w * (b.l3 as nat);
            let ha = a.l1 as nat + w * ga;
            let hb = b.l1 as nat + w * gb;
            assert(a@ == a.l0 as nat + w * ha);
            assert(b@ == b.l0 as nat + w * hb);
            lemma_limb_split(a.l0 as nat, ha, b.l0 as nat, hb);
            lemma_limb_split(a.l1 as nat, ga, b.l1 as nat, gb);
            lemma_limb_split(a.l2 as nat, a.l3 as nat, b.l2 as nat, b.l3 as nat);
        }
    }

    /// The residue zero.
    pub fn zero() -> (r: Fe)
        ensures
            r.wf(),
            r@ == 0,
    {
        Fe { l0: 0, l1: 0, l2: 0, l3: 0 }
    }

    /// The residue one.
    pub fn one() -> (r: Fe)
        ensures
            r.wf(),
            r@ == 1,
    {
        Fe { l0: 1, l1: 0, l2: 0, l3: 0 }
    }

    /// The residue of a 64-bit integer.
    pub fn from_u64(v: u64) -> (r: Fe)
        ensures
            r.wf(),
            r@ == v as nat,
    {
        Fe { l0: v, l1: 0, l2: 0, l3: 0 }
    }

    /// The residue of a 128-bit integer.
    pub fn from_u128(v: u128) -> (r: Fe)
        ensures
            r.wf(),
            r@ == v as nat,
    {
        let lo: u64 = (v & 0xffff_ffff_ffff_ffff) as u64;
        let hi: u64 = (v >> 64) as u64;
        proof {
            assert(v == (v & 0xffff_ffff_ffff_ffff) + (v >> 64) * 0x1_0000_0000_0000_0000)
                by (bit_vector);
            assert(v & 0xffff_ffff_ffff_ffff <= 0xffff_ffff_ffff_ffff) by (bit_vector);
            assert(v >> 64 <= 0xffff_ffff_ffff_ffff) by (bit_vector);
        }
        Fe { l0: lo, l1: hi, l2: 0, l3: 0 }
    }

    /// The element with the given little-endian limbs, if they are a
    /// canonical residue.
    pub fn from_limbs(limbs: [u64; 4]) -> (r: Option<Fe>)
        ensures
            r.is_some() <==> limbs_value(limbs[0], limbs[1], limbs[2], limbs[3]) < modulus(),
            r matches Some(e) ==> e.wf() && e@ == limbs_value(
                limbs[0],
                limbs[1],
                limbs[2],
                limbs[3],
            ) && e.spec_limbs() == limbs@,
    {
        let (l0, l1, l2, l3) = (limbs[0], limbs[1], limbs[2], limbs[3]);
        let below = l3 < 0x30644e72e131a029 || (l3 == 0x30644e72e131a029 && (l2
            < 0xb85045b68181585d || (l2 == 0xb85045b68181585d && (l1 < 0x2833e84879b97091 || (l1
            == 0x2833e84879b97091 && l0 < 0x43e1f593f0000001)))));
        if below {
            Some(Fe { l0, l1, l2, l3 })
        } else {
            None
        }
    }

    /// The limbs of the residue, least significant first.
    pub closed spec fn spec_limbs(&self) -> Seq<u64> {
        seq![self.l0, self.l1, self.l2, self.l3]
    }

    /// The little-endian limbs of the canonical residue.
    pub fn to_limbs(&self) -> (r: [u64; 4])
        ensures
            r@ == self.spec_limbs(),
            limbs_value(r[0], r[1], r[2], r[3]) == self@,
    {
        [self.l0, self.l1, self.l2, self.l3]
    }

    /// Whether the element is zero.
    pub fn is_zero(&self) -> (r: bool)
        ensures
            r == (self@ == 0),
    {
        proof {
            Fe::lemma_view_injective(*self, Fe { l0: 0, l1: 0, l2: 0, l3: 0 });
        }
        self.l0 == 0 && self.l1 == 0 && self.l2 == 0 && self.l3 == 0
    }

    /// Whether two elements are the same residue.
    pub fn equals(&self, rhs: &Fe) -> (r: bool)
        ensures
            r == (self@ == rhs@),
            r == (*self == *rhs),
    {
        proof {
            Fe::lemma_view_injective(*self, *rhs);
        }
        self.l0 == rhs.l0 && self.l1 == rhs.l1 && self.l2 == rhs.l2 && self.l3 == rhs.l3
    }

    /// The sum of the two elements.
    pub fn add(&self, rhs: &Fe) -> (r: Fe)
        requires
            self.wf(),
            rhs.wf(),
        ensures
            r.wf(),
            r@ == fadd(self@, rhs@),
    {
        raw_add(self, rhs)
    }

    /// The difference of the two elements.
    pub fn sub(&self, rhs: &Fe) -> (r: Fe)
        requires
            self.wf(),
            rhs.wf(),
        ensures
            r.wf(),
            r@ == fsub(self@, rhs@),
    {
        raw_sub(self, rhs)
    }

    /// The product of the two elements.
    pub fn mul(&self, rhs: &Fe) -> (r: Fe)
        requires
            self.wf(),
            rhs.wf(),
        ensures
            r.wf(),
            r@ == fmul(self@, rhs@),
    {
        raw_mul(self, rhs)
    }

    /// The negative of the element.
    pub fn neg(&self) -> (r: Fe)
        requires
            self.wf(),
        ensures
            r.wf(),
            r@ == fneg(self@),
    {
        raw_sub(&Fe::zero(), self)
    }

    /// The square of the element.
    pub fn square(&self) -> (r: Fe)
        requires
            self.wf(),
        ensures
            r.wf(),
            r@ == fsq(self@),
    {
        raw_mul(self, self)
    }

    /// The multiplicative inverse, which every element but zero has.
    pub fn invert(&self) -> (r: Option<Fe>)
        requires
            self.wf(),
        ensures
            r.is_some() <==> self@ != 0,
            r matches Some(x) ==> x.wf() && is_inverse(self@, x@) && x@ == finv(self@),
    {
        let r = raw_invert(self);
        proof {
            if let Some(x) = r {
                lemma_finv(self@, x@);
            }
        }
        r
    }

    /// The multiplicative inverse, or zero for zero.
    pub fn invert_or_zero(&self) -> (r: Fe)
        requires
            self.wf(),
        ensures
            r.wf(),
            r@ == finv(self@),
            self@ != 0 ==> is_inverse(self@, r@),
    {
        match self.invert() {
            Some(x) => x,
            None => {
                proof {
                    lemma_finv_zero();
                }
                Fe::zero()
            },
        }
    }

    /// The blend `bit * v1 + (1 - bit) * v0`, computed without a branch on
    /// `bit`: both summands are always formed.
    pub fn select(bit: &Fe, v1: &Fe, v0: &Fe) -> (r: Fe)
        requires
            bit.wf(),
            v1.wf(),
            v0.wf(),
        ensures
            r.wf(),
            r@ == select(bit@, v1@, v0@),
            bit@ == 1 ==> r@ == v1@,
            bit@ == 0 ==> r@ == v0@,
    {
        let taken = bit.mul(v1);
        let kept = Fe::one().sub(bit).mul(v0);
        proof {
            lemma_select(v1@, v0@);
        }
        taken.add(&kept)
    }
}

/// Addition of `halo2curves::grumpkin::Fq`, between `Fq::from_raw`, which
/// takes four little-endian limbs below the modulus to the element with
/// that residue, and `Fq::to_bytes`, which hands an element back as the
/// little-endian bytes of its canonical residue: the sum of the two
/// residues, reduced modulo the field modulus.
#[verifier::external_body]
fn raw_add(a: &Fe, b: &Fe) -> (r: Fe)
    requires
        a.wf(),
        b.wf(),
    ensures
        r.wf(),
        r@ == fadd(a@, b@),
{
    let s = Fq::from_raw([a.l0, a.l1, a.l2, a.l3]) + Fq::from_raw([b.l0, b.l1, b.l2, b.l3]);
    let t = s.to_bytes();
    Fe {
        l0: u64::from_le_bytes(t[0..8].try_into().unwrap()),
        l1: u64::from_le_bytes(t[8..16].try_into().unwrap()),
        l2: u64::from_le_bytes(t[16..24].try_into().unwrap()),
        l3: u64::from_le_bytes(t[24..32].try_into().unwrap()),
    }
}

/// Subtraction of `halo2curves::grumpkin::Fq`, between `Fq::from_raw` and
/// `Fq::to_bytes`: the difference of the two residues, reduced modulo the
/// field modulus.
#[verifier::external_body]
fn raw_sub(a: &Fe, b: &Fe) -> (r: Fe)
    requires
        a.wf(),
        b.wf(),
    ensures
        r.wf(),
        r@ == fsub(a@, b@),
{
    let s = Fq::from_raw([a.l0, a.l1, a.l2, a.l3]) - Fq::from_raw([b.l0, b.l1, b.l2, b.l3]);
    let t = s.to_bytes();
    Fe {
        l0: u64::from_le_bytes(t[0..8].try_into().unwrap()),
        l1: u64::from_le_bytes(t[8..16].try_into().unwrap()),
        l2: u64::from_le_bytes(t[16..24].try_into().unwrap()),
        l3: u64::from_le_bytes(t[24..32].try_into().unwrap()),
    }
}

/// Multiplication of `halo2curves::grumpkin::Fq`, between `Fq::from_raw`
/// and `Fq::to_bytes`: the product of the two residues, reduced modulo the
/// field modulus.
#[verifier::external_body]
fn raw_mul(a: &Fe, b: &Fe) -> (r: Fe)
    requires
        a.wf(),
        b.wf(),
    ensures
        r.wf(),
        r@ == fmul(a@, b@),
{
    let s = Fq::from_raw([a.l0, a.l1, a.l2, a.l3]) * Fq::from_raw([b.l0, b.l1, b.l2, b.l3]);
    let t = s.to_bytes();
    Fe {
        l0: u64::from_le_bytes(t[0..8].try_into().unwrap()),
        l1: u64::from_le_bytes(t[8..16].try_into().unwrap()),
        l2: u64::from_le_bytes(t[16..24].try_into().unwrap()),
        l3: u64::from_le_bytes(t[24..32].try_into().unwrap()),
    }
}

/// `Field::invert` of `halo2curves::grumpkin::Fq`, between `Fq::from_raw`
/// and `Fq::to_bytes`: for a residue other than zero, the canonical
/// residue whose product with it is one; nothing for zero.
#[verifier::external_body]
fn raw_invert(a: &Fe) -> (r: Option<Fe>)
    requires
        a.wf(),
    ensures
        r.is_some() <==> a@ != 0,
        r matches Some(x) ==> is_inverse(a@, x@),
{
    let s: Option<Fq> = Fq::from_raw([a.l0, a.l1, a.l2, a.l3]).invert().into();
    let t = match s {
        Some(v) => v.to_bytes(),
        None => return None,
    };
    Some(Fe {
        l0: u64::from_le_bytes(t[0..8].try_into().unwrap()),
        l1: u64::from_le_bytes(t[8..16].try_into().unwrap()),
        l2: u64::from_le_bytes(t[16..24].try_into().unwrap()),
        l3: u64::from_le_bytes(t[24..32].try_into().unwrap()),
    })
}

} // verus!
