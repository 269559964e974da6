//! The scalar field of the pairing groups: integers modulo the group order.
//!
//! A [`Scalar`] holds the canonical integer of a field element as twelve
//! little-endian 64-bit limbs; its view is that integer.

use ark_ff::{BigInt, Field, PrimeField, UniformRand};
use ark_mnt6_753::Fr;
use rand_chacha::ChaCha20Rng;
use vstd::arithmetic::div_mod::{lemma_mod_bound, lemma_mul_mod_noop_general, lemma_small_mod};
use vstd::arithmetic::mul::{lemma_mul_is_associative, lemma_mul_is_commutative};
use vstd::prelude::*;

verus! {

/// The prime order `r` of the groups G1 and G2, which is the size of the
/// scalar field.
#[verifier::opaque]
pub open spec fn scalar_modulus() -> nat {
    41898490967918953402344214791240637128170709919953949071783502921025352812571106773058893763790338921418070971888253786114353726529584385201591605722013126468931404347949840543007986327743462853720628051692141265303114721689601nat
}

/// The integer that little-endian 64-bit limbs stand for.
pub open spec fn limbs_value(limbs: Seq<u64>) -> nat
    decreases limbs.len(),
{
    if limbs.len() == 0 {
        0
    } else {
        limbs[0] as nat + 0x1_0000_0000_0000_0000 * limbs_value(limbs.drop_first())
    }
}

/// The product of two field elements.
pub open spec fn mul_mod(a: nat, b: nat) -> nat {
    (a * b) % scalar_modulus()
}

/// `base` raised to `exp` in the scalar field.
pub open spec fn pow_mod(base: nat, exp: nat) -> nat
    decreases exp,
{
    if exp == 0 {
        1
    } else {
        mul_mod(pow_mod(base, (exp - 1) as nat), base)
    }
}

/// The modulus exceeds every 64-bit integer.
pub proof fn lemma_modulus_large()
    ensures
        scalar_modulus() > 0x1_0000_0000_0000_0000,
{
    reveal(scalar_modulus);
}

/// Products in the field are canonical.
pub proof fn lemma_mul_mod_bound(a: nat, b: nat)
    ensures
        mul_mod(a, b) < scalar_modulus(),
{
    lemma_modulus_large();
    lemma_mod_bound((a * b) as int, scalar_modulus() as int);
}

/// Powers in the field are canonical.
pub proof fn lemma_pow_mod_bound(base: nat, exp: nat)
    ensures
        pow_mod(base, exp) < scalar_modulus(),
{
    lemma_modulus_large();
    if exp > 0 {
        lemma_mul_mod_bound(pow_mod(base, (exp - 1) as nat), base);
    }
}

/// Multiplication in the field is commutative.
pub proof fn lemma_mul_mod_commutes(a: nat, b: nat)
    ensures
        mul_mod(a, b) == mul_mod(b, a),
{
    lemma_mul_is_commutative(a as int, b as int);
}

/// Multiplication in the field is associative.
pub proof fn lemma_mul_mod_associates(a: nat, b: nat, c: nat)
    ensures
        mul_mod(mul_mod(a, b), c) == mul_mod(a, mul_mod(b, c)),
{
    lemma_modulus_large();
    let m = scalar_modulus() as int;
    lemma_mul_mod_noop_general((a * b) as int, c as int, m);
    lemma_mul_mod_noop_general(a as int, (b * c) as int, m);
    lemma_mul_is_associative(a as int, b as int, c as int);
}

/// One is neutral for multiplication of canonical values.
pub proof fn lemma_mul_mod_one(a: nat)
    requires
        a < scalar_modulus(),
    ensures
        mul_mod(1, a) == a,
        mul_mod(a, 1) == a,
{
    lemma_modulus_large();
    assert(1 * a == a) by (nonlinear_arith);
    assert(a * 1 == a) by (nonlinear_arith);
    lemma_small_mod(a, scalar_modulus());
}

/// A power of a product is the product of the powers.
pub proof fn lemma_pow_mod_of_product(a: nat, b: nat, exp: nat)
    ensures
        pow_mod(mul_mod(a, b), exp) == mul_mod(pow_mod(a, exp), pow_mod(b, exp)),
    decreases exp,
{
    if exp == 0 {
        lemma_modulus_large();
        lemma_mul_mod_one(1);
    } else {
        let k = (exp - 1) as nat;
        let pa = pow_mod(a, k);
        let pb = pow_mod(b, k);
        lemma_pow_mod_of_product(a, b, k);
        // (pa * pb) * (a * b) = (pa * a) * (pb * b)
        lemma_mul_mod_associates(mul_mod(pa, pb), a, b);
        lemma_mul_mod_associates(pa, pb, a);
        lemma_mul_mod_commutes(pb, a);
        lemma_mul_mod_associates(pa, a, pb);
        lemma_mul_mod_associates(mul_mod(pa, a), pb, b);
    }
}

/// The ChaCha20 generator that key material is drawn from; its state is
/// never read here.
#[verifier::external_type_specification]
#[verifier::external_body]
pub struct ExChaCha20Rng(ChaCha20Rng);

/// `Mul` of `Fr`, between `from_bigint` of the two integers and `into_bigint`
/// of the result: the product of the integers modulo the group order.
#[verifier::external_body]
fn field_mul(a: &[u64; 12], b: &[u64; 12]) -> (r: [u64; 12])
    requires
        limbs_value(a@) < scalar_modulus(),
        limbs_value(b@) < scalar_modulus(),
    ensures
        limbs_value(r@) == mul_mod(limbs_value(a@), limbs_value(b@)),
{
    let x = Fr::from_bigint(BigInt::new(*a)).unwrap();
    let y = Fr::from_bigint(BigInt::new(*b)).unwrap();
    (x * y).into_bigint().0
}

/// `Field::pow` of `Fr` with an exponent of one limb, between `from_bigint`
/// and `into_bigint`: the power of the integer modulo the group order.
#[verifier::external_body]
fn field_pow(a: &[u64; 12], exp: u64) -> (r: [u64; 12])
    requires
        limbs_value(a@) < scalar_modulus(),
    ensures
        limbs_value(r@) == pow_mod(limbs_value(a@), exp as nat),
{
    let x = Fr::from_bigint(BigInt::new(*a)).unwrap();
    x.pow([exp]).into_bigint().0
}

/// `UniformRand::rand` of `Fr` on `rand::thread_rng`: some field element, as
/// its canonical integer. Nothing is said of which.
#[verifier::external_body]
fn field_random() -> (r: [u64; 12])
    ensures
        limbs_value(r@) < scalar_modulus(),
{
    Fr::rand(&mut rand::thread_rng()).into_bigint().0
}

/// `UniformRand::rand` of `Fr` on a given generator: some field element, as
/// its canonical integer. Nothing is said of which, nor of the generator
/// afterwards.
#[verifier::external_body]
fn field_sample(rng: &mut ChaCha20Rng) -> (r: [u64; 12])
    ensures
        limbs_value(r@) < scalar_modulus(),
{
    Fr::rand(rng).into_bigint().0
}

/// The modulus of the scalar field, as little-endian limbs.
pub fn modulus_limbs() -> (limbs: [u64; 12])
    ensures
        limbs_value(limbs@) == scalar_modulus(),
{
    let limbs: [u64; 12] = [
        0x5e9063de245e8001,
        0xe39d54522cdd119f,
        0x638810719ac425f0,
        0x685acce9767254a4,
        0xb80f0da5cb537e38,
        0xb117e776f218059d,
        0x99d124d9a15af79d,
        0x07fdb925e8a0ed8d,
        0x5eb7e8f96c97d873,
        0xb7f997505b8fafed,
        0x10229022eee2cdad,
        0x0001c4c62d92c411,
    ];
    proof {
        reveal(scalar_modulus);
        reveal_with_fuel(limbs_value, 13);
        assert(limbs_value(limbs@) == scalar_modulus());
    }
    limbs
}

/// Limbs that differ at `i`, and agree above it, are ordered as they are at
/// `i`.
proof fn lemma_limbs_order(a: Seq<u64>, b: Seq<u64>, i: int)
    requires
        a.len() == b.len(),
        0 <= i < a.len(),
        a[i] < b[i],
        forall|j: int| i < j < a.len() ==> a[j] == b[j],
    ensures
        limbs_value(a) < limbs_value(b),
    decreases a.len(),
{
    let higher_a = a.drop_first();
    let higher_b = b.drop_first();
    if i == 0 {
        assert(higher_a =~= higher_b);
    } else {
        lemma_limbs_order(higher_a, higher_b, i - 1);
        let x = limbs_value(higher_a);
        let y = limbs_value(higher_b);
        assert(0x1_0000_0000_0000_0000 * x + 0x1_0000_0000_0000_0000 <= 0x1_0000_0000_0000_0000
            * y) by (nonlinear_arith)
            requires
                x + 1 <= y,
        ;
    }
}

/// Whether the limbs stand for an integer below the modulus.
fn below_modulus(limbs: &[u64; 12]) -> (below: bool)
    ensures
        below == (limbs_value(limbs@) < scalar_modulus()),
{
    let modulus = modulus_limbs();
    let mut i: usize = 12;
    while i > 0
        invariant
            i <= 12,
            limbs_value(modulus@) == scalar_modulus(),
            forall|j: int| i <= j < 12 ==> limbs@[j] == modulus@[j],
        decreases i,
    {
        i -= 1;
        if limbs[i] < modulus[i] {
            proof {
                lemma_limbs_order(limbs@, modulus@, i as int);
            }
            return true;
        }
        if limbs[i] > modulus[i] {
            proof {
                lemma_limbs_order(modulus@, limbs@, i as int);
            }
            return false;
        }
    }
    assert(limbs@ =~= modulus@);
    false
}

/// An element of the scalar field.
#[derive(Debug, PartialEq, Eq)]
pub struct Scalar {
    limbs: [u64; 12],
}

impl View for Scalar {
    type V = nat;

    closed spec fn view(&self) -> nat {
        limbs_value(self.limbs@)
    }
}

impl Scalar {
    #[verifier::type_invariant]
    spec fn canonical(self) -> bool {
        limbs_value(self.limbs@) < scalar_modulus()
    }

    /// The field element of a canonical integer, if `limbs` hold one.
    pub fn from_limbs(limbs: [u64; 12]) -> (s: Option<Scalar>)
        ensures
            s is Some <==> limbs_value(limbs@) < scalar_modulus(),
            s matches Some(v) ==> v@ == limbs_value(limbs@),
    {
        if below_modulus(&limbs) {
            Some(Scalar { limbs })
        } else {
            None
        }
    }

    /// The field element of a small integer.
    pub fn from_u64(value: u64) -> (s: Scalar)
        ensures
            s@ == value,
    {
        let limbs: [u64; 12] = [value, 0, 0, 0, 0, 0, 0, 0, 0, 0, 0, 0];
        proof {
            lemma_modulus_large();
            reveal_with_fuel(limbs_value, 13);
            assert(limbs_value(limbs@) == value);
        }
        Scalar { limbs }
    }

    /// The canonical integer, as little-endian limbs.
    pub fn to_limbs(&self) -> (limbs: [u64; 12])
        ensures
            limbs_value(limbs@) == self@,
            self@ < scalar_modulus(),
    {
        proof {
            use_type_invariant(self);
        }
        self.limbs
    }

    /// A second copy of the element.
    pub fn duplicate(&self) -> (s: Scalar)
        ensures
            s@ == self@,
    {
        proof {
            use_type_invariant(self);
        }
        Scalar { limbs: self.limbs }
    }

    /// The product `self * other`.
    pub fn mul(&self, other: &Scalar) -> (r: Scalar)
        ensures
            r@ == mul_mod(self@, other@),
    {
        proof {
            use_type_invariant(self);
            use_type_invariant(other);
            lemma_mul_mod_bound(self@, other@);
        }
        let limbs = field_mul(&self.limbs, &other.limbs);
        Scalar { limbs }
    }

    /// The power `self^exp`.
    pub fn pow(&self, exp: u64) -> (r: Scalar)
        ensures
            r@ == pow_mod(self@, exp as nat),
    {
        proof {
            use_type_invariant(self);
            lemma_pow_mod_bound(self@, exp as nat);
        }
        let limbs = field_pow(&self.limbs, exp);
        Scalar { limbs }
    }

    /// Overwrites the element with zero.
    pub fn clear(&mut self)
        ensures
            final(self)@ == 0,
        opens_invariants none
        no_unwind
    {
        let limbs: [u64; 12] = [0, 0, 0, 0, 0, 0, 0, 0, 0, 0, 0, 0];
        proof {
            lemma_modulus_large();
            reveal_with_fuel(limbs_value, 13);
            assert(limbs_value(limbs@) == 0);
        }
        self.limbs = limbs;
    }

    /// A field element drawn from the thread-local generator.
    pub fn random() -> (r: Scalar)
        ensures
            r@ < scalar_modulus(),
    {
        let limbs = field_random();
        Scalar { limbs }
    }

    /// A field element drawn from `rng`.
    pub fn sample(rng: &mut ChaCha20Rng) -> (r: Scalar)
        ensures
            r@ < scalar_modulus(),
    {
        let limbs = field_sample(rng);
        Scalar { limbs }
    }
}

/// The integers of a sequence of scalars.
pub open spec fn values(rho: Seq<Scalar>) -> Seq<nat> {
    Seq::new(rho.len(), |i: int| rho[i]@)
}

/// `count` field elements drawn from the thread-local generator.
pub fn random_scalars(count: usize) -> (out: Vec<Scalar>)
    ensures
        out@.len() == count,
{
    let mut out: Vec<Scalar> = Vec::new();
    let mut i: usize = 0;
    while i < count
        invariant
            i <= count,
            out@.len() == i,
        decreases count - i,
    {
        out.push(Scalar::random());
        i += 1;
    }
    out
}

} // verus!
