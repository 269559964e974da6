//! The accumulator that the participants of the ceremony contribute their
//! randomness to: powers of tau in G1 and in G2, powers of tau times alpha
//! and times beta in G1, and beta in G2.

use crate::curve::{
    encodings, generator_point, point_mul, CurvePoint, G1Point, G2Point, GroupId,
};
use crate::keys::{PrivateKey, PrivateKeyView};
use crate::parallel::{available_workers, par_map};
use crate::powers::tau_powers;
use crate::scalar::{
    lemma_mul_mod_associates, lemma_mul_mod_bound, lemma_mul_mod_commutes, lemma_pow_mod_bound,
    lemma_pow_mod_of_product, mul_mod, pow_mod, scalar_modulus, Scalar,
};
use vstd::prelude::*;

verus! {

/// Number of powers of tau in G2, and of the powers times alpha and times
/// beta: the accumulator supports circuits with this many multiplication
/// gates.
pub const TAU_POWERS_LENGTH: usize = 32;

/// Number of powers of tau in G1, one less than twice `TAU_POWERS_LENGTH`.
pub const TAU_POWERS_G1_LENGTH: usize = 2 * TAU_POWERS_LENGTH - 1;

/// The accumulator of the ceremony.
#[derive(Clone, Debug, PartialEq, Eq)]
pub struct Accumulator {
    /// tau^0, tau^1, ..., tau^{TAU_POWERS_G1_LENGTH - 1} in G1
    pub tau_powers_g1: Vec<G1Point>,
    /// tau^0, tau^1, ..., tau^{TAU_POWERS_LENGTH - 1} in G2
    pub tau_powers_g2: Vec<G2Point>,
    /// alpha * tau^0, ..., alpha * tau^{TAU_POWERS_LENGTH - 1} in G1
    pub alpha_tau_powers_g1: Vec<G1Point>,
    /// beta * tau^0, ..., beta * tau^{TAU_POWERS_LENGTH - 1} in G1
    pub beta_tau_powers_g1: Vec<G1Point>,
    /// beta in G2
    pub beta_g2: G2Point,
}

/// The encodings of the points of an accumulator.
pub struct AccumulatorView {
    pub tau_powers_g1: Seq<Seq<u8>>,
    pub tau_powers_g2: Seq<Seq<u8>>,
    pub alpha_tau_powers_g1: Seq<Seq<u8>>,
    pub beta_tau_powers_g1: Seq<Seq<u8>>,
    pub beta_g2: Seq<u8>,
}

impl AccumulatorView {
    /// Whether the vectors have the lengths of the ceremony.
    pub open spec fn wf(self) -> bool {
        &&& self.tau_powers_g1.len() == TAU_POWERS_G1_LENGTH
        &&& self.tau_powers_g2.len() == TAU_POWERS_LENGTH
        &&& self.alpha_tau_powers_g1.len() == TAU_POWERS_LENGTH
        &&& self.beta_tau_powers_g1.len() == TAU_POWERS_LENGTH
    }
}

impl View for Accumulator {
    type V = AccumulatorView;

    open spec fn view(&self) -> AccumulatorView {
        AccumulatorView {
            tau_powers_g1: encodings(self.tau_powers_g1@),
            tau_powers_g2: encodings(self.tau_powers_g2@),
            alpha_tau_powers_g1: encodings(self.alpha_tau_powers_g1@),
            beta_tau_powers_g1: encodings(self.beta_tau_powers_g1@),
            beta_g2: self.beta_g2@,
        }
    }
}

/// `count` copies of the point `p`.
pub open spec fn repeated(p: Seq<u8>, count: nat) -> Seq<Seq<u8>> {
    Seq::new(count, |i: int| p)
}

/// The accumulator of tau = alpha = beta = 1: every slot holds the
/// generator of its group.
pub open spec fn initial_accumulator() -> AccumulatorView {
    AccumulatorView {
        tau_powers_g1: repeated(generator_point(GroupId::G1), TAU_POWERS_G1_LENGTH as nat),
        tau_powers_g2: repeated(generator_point(GroupId::G2), TAU_POWERS_LENGTH as nat),
        alpha_tau_powers_g1: repeated(generator_point(GroupId::G1), TAU_POWERS_LENGTH as nat),
        beta_tau_powers_g1: repeated(generator_point(GroupId::G1), TAU_POWERS_LENGTH as nat),
        beta_g2: generator_point(GroupId::G2),
    }
}

/// The exponent that slot `i` is raised to: `tau^i`, times the coefficient
/// where there is one.
pub open spec fn slot_exponent(tau: nat, i: nat, coeff: Option<nat>) -> nat {
    match coeff {
        Some(c) => mul_mod(pow_mod(tau, i), c),
        None => pow_mod(tau, i),
    }
}

/// The points `bases[i]` multiplied by `coeff * tau^i`.
pub open spec fn raised(group: GroupId, bases: Seq<Seq<u8>>, tau: nat, coeff: Option<nat>) -> Seq<
    Seq<u8>,
> {
    Seq::new(bases.len(), |i: int| point_mul(group, bases[i], slot_exponent(tau, i as nat, coeff)))
}

/// The accumulator `acc` after a contribution of the secrets `key`.
pub open spec fn transformed(acc: AccumulatorView, key: PrivateKeyView) -> AccumulatorView {
    AccumulatorView {
        tau_powers_g1: raised(GroupId::G1, acc.tau_powers_g1, key.tau, None),
        tau_powers_g2: raised(GroupId::G2, acc.tau_powers_g2, key.tau, None),
        alpha_tau_powers_g1: raised(
            GroupId::G1,
            acc.alpha_tau_powers_g1,
            key.tau,
            Some(key.alpha),
        ),
        beta_tau_powers_g1: raised(GroupId::G1, acc.beta_tau_powers_g1, key.tau, Some(key.beta)),
        beta_g2: point_mul(GroupId::G2, acc.beta_g2, key.beta),
    }
}

/// The key whose secrets are the products of the secrets of two keys.
pub open spec fn combined_key(first: PrivateKeyView, second: PrivateKeyView) -> PrivateKeyView {
    PrivateKeyView {
        tau: mul_mod(first.tau, second.tau),
        alpha: mul_mod(first.alpha, second.alpha),
        beta: mul_mod(first.beta, second.beta),
    }
}

/// The lengths of the ceremony: the powers of tau in G1 are one less than
/// twice the others, and every vector holds at least the two points that
/// the verification reads.
pub proof fn lemma_ceremony_lengths(acc: AccumulatorView)
    requires
        acc.wf(),
    ensures
        acc.tau_powers_g1.len() == 2 * acc.tau_powers_g2.len() - 1,
        acc.tau_powers_g1.len() >= 2,
        acc.tau_powers_g2.len() >= 2,
        acc.alpha_tau_powers_g1.len() >= 2,
        acc.beta_tau_powers_g1.len() >= 2,
{
}

/// The initial accumulator transformed with a key holds the powers of tau
/// on the generators: slot `i` of the powers of tau is `tau^i` times the
/// generator, slot `i` of the alpha and beta powers is `alpha * tau^i` and
/// `beta * tau^i` times the generator of G1, and beta of G2 is `beta` times
/// the generator of G2.
pub proof fn lemma_transform_of_initial(key: PrivateKeyView)
    ensures
        ({
            let acc = transformed(initial_accumulator(), key);
            let g1 = generator_point(GroupId::G1);
            let g2 = generator_point(GroupId::G2);
            &&& acc.wf()
            &&& forall|i: int|
                0 <= i < TAU_POWERS_G1_LENGTH ==> #[trigger] acc.tau_powers_g1[i] == point_mul(
                    GroupId::G1,
                    g1,
                    pow_mod(key.tau, i as nat),
                )
            &&& forall|i: int|
                0 <= i < TAU_POWERS_LENGTH ==> #[trigger] acc.tau_powers_g2[i] == point_mul(
                    GroupId::G2,
                    g2,
                    pow_mod(key.tau, i as nat),
                )
            &&& forall|i: int|
                0 <= i < TAU_POWERS_LENGTH ==> #[trigger] acc.alpha_tau_powers_g1[i] == point_mul(
                    GroupId::G1,
                    g1,
                    mul_mod(pow_mod(key.tau, i as nat), key.alpha),
                )
            &&& forall|i: int|
                0 <= i < TAU_POWERS_LENGTH ==> #[trigger] acc.beta_tau_powers_g1[i] == point_mul(
                    GroupId::G1,
                    g1,
                    mul_mod(pow_mod(key.tau, i as nat), key.beta),
                )
            &&& acc.beta_g2 == point_mul(GroupId::G2, g2, key.beta)
        }),
{
}

/// Two transformations in a row multiply each slot by the exponent of the
/// first key and then by the exponent of the second.
pub proof fn lemma_transformed_twice(
    acc: AccumulatorView,
    first: PrivateKeyView,
    second: PrivateKeyView,
)
    ensures
        ({
            let twice = transformed(transformed(acc, first), second);
            &&& forall|i: int|
                0 <= i < acc.tau_powers_g1.len() ==> #[trigger] twice.tau_powers_g1[i]
                    == point_mul(
                    GroupId::G1,
                    point_mul(
                        GroupId::G1,
                        acc.tau_powers_g1[i],
                        slot_exponent(first.tau, i as nat, None),
                    ),
                    slot_exponent(second.tau, i as nat, None),
                )
            &&& forall|i: int|
                0 <= i < acc.tau_powers_g2.len() ==> #[trigger] twice.tau_powers_g2[i]
                    == point_mul(
                    GroupId::G2,
                    point_mul(
                        GroupId::G2,
                        acc.tau_powers_g2[i],
                        slot_exponent(first.tau, i as nat, None),
                    ),
                    slot_exponent(second.tau, i as nat, None),
                )
            &&& forall|i: int|
                0 <= i < acc.alpha_tau_powers_g1.len() ==> #[trigger] twice.alpha_tau_powers_g1[i]
                    == point_mul(
                    GroupId::G1,
                    point_mul(
                        GroupId::G1,
                        acc.alpha_tau_powers_g1[i],
                        slot_exponent(first.tau, i as nat, Some(first.alpha)),
                    ),
                    slot_exponent(second.tau, i as nat, Some(second.alpha)),
                )
            &&& forall|i: int|
                0 <= i < acc.beta_tau_powers_g1.len() ==> #[trigger] twice.beta_tau_powers_g1[i]
                    == point_mul(
                    GroupId::G1,
                    point_mul(
                        GroupId::G1,
                        acc.beta_tau_powers_g1[i],
                        slot_exponent(first.tau, i as nat, Some(first.beta)),
                    ),
                    slot_exponent(second.tau, i as nat, Some(second.beta)),
                )
            &&& twice.beta_g2 == point_mul(
                GroupId::G2,
                point_mul(GroupId::G2, acc.beta_g2, first.beta),
                second.beta,
            )
        }),
{
}

/// In the field of exponents two transformations in a row are the
/// transformation with the products of the secrets: the product of the
/// exponents that a slot is raised to under two keys is the exponent that
/// it is raised to under the combined key.
pub proof fn lemma_exponents_compose(first: PrivateKeyView, second: PrivateKeyView, i: nat)
    ensures
        mul_mod(slot_exponent(first.tau, i, None), slot_exponent(second.tau, i, None))
            == slot_exponent(combined_key(first, second).tau, i, None),
        mul_mod(
            slot_exponent(first.tau, i, Some(first.alpha)),
            slot_exponent(second.tau, i, Some(second.alpha)),
        ) == slot_exponent(
            combined_key(first, second).tau,
            i,
            Some(combined_key(first, second).alpha),
        ),
        mul_mod(
            slot_exponent(first.tau, i, Some(first.beta)),
            slot_exponent(second.tau, i, Some(second.beta)),
        ) == slot_exponent(
            combined_key(first, second).tau,
            i,
            Some(combined_key(first, second).beta),
        ),
{
    lemma_pow_mod_of_product(first.tau, second.tau, i);
    lemma_products_regroup(
        pow_mod(first.tau, i),
        first.alpha,
        pow_mod(second.tau, i),
        second.alpha,
    );
    lemma_products_regroup(pow_mod(first.tau, i), first.beta, pow_mod(second.tau, i), second.beta);
}

/// Whether multiplying the point `p` by a scalar and then by another is
/// multiplying it by their product. Nothing here says that the curve
/// library multiplies so.
pub open spec fn scaling_composes(group: GroupId, p: Seq<u8>) -> bool {
    forall|a: nat, b: nat|
        a < scalar_modulus() && b < scalar_modulus() ==> #[trigger] point_mul(
            group,
            point_mul(group, p, a),
            b,
        ) == point_mul(group, p, mul_mod(a, b))
}

/// Whether scaling composes on every one of `points`.
pub open spec fn scaling_composes_on(group: GroupId, points: Seq<Seq<u8>>) -> bool {
    forall|i: int| 0 <= i < points.len() ==> scaling_composes(group, #[trigger] points[i])
}

/// The exponent of a slot is a canonical scalar.
pub proof fn lemma_slot_exponent_bound(tau: nat, i: nat, coeff: Option<nat>)
    ensures
        slot_exponent(tau, i, coeff) < scalar_modulus(),
{
    lemma_pow_mod_bound(tau, i);
    match coeff {
        Some(c) => lemma_mul_mod_bound(pow_mod(tau, i), c),
        None => {},
    }
}

/// Where scaling composes on the points of an accumulator, two
/// transformations in a row are the transformation with the key of the
/// products of the secrets.
pub proof fn lemma_transforms_compose(
    acc: AccumulatorView,
    first: PrivateKeyView,
    second: PrivateKeyView,
)
    requires
        first.beta < scalar_modulus(),
        second.beta < scalar_modulus(),
        scaling_composes_on(GroupId::G1, acc.tau_powers_g1),
        scaling_composes_on(GroupId::G2, acc.tau_powers_g2),
        scaling_composes_on(GroupId::G1, acc.alpha_tau_powers_g1),
        scaling_composes_on(GroupId::G1, acc.beta_tau_powers_g1),
        scaling_composes(GroupId::G2, acc.beta_g2),
    ensures
        transformed(transformed(acc, first), second) == transformed(
            acc,
            combined_key(first, second),
        ),
{
    let twice = transformed(transformed(acc, first), second);
    let once = transformed(acc, combined_key(first, second));
    lemma_transformed_twice(acc, first, second);
    assert forall|i: int| 0 <= i < acc.tau_powers_g1.len() implies twice.tau_powers_g1[i]
        == once.tau_powers_g1[i] by {
        lemma_exponents_compose(first, second, i as nat);
        lemma_slot_exponent_bound(first.tau, i as nat, None);
        lemma_slot_exponent_bound(second.tau, i as nat, None);
        assert(scaling_composes(GroupId::G1, acc.tau_powers_g1[i]));
    }
    assert forall|i: int| 0 <= i < acc.tau_powers_g2.len() implies twice.tau_powers_g2[i]
        == once.tau_powers_g2[i] by {
        lemma_exponents_compose(first, second, i as nat);
        lemma_slot_exponent_bound(first.tau, i as nat, None);
        lemma_slot_exponent_bound(second.tau, i as nat, None);
        assert(scaling_composes(GroupId::G2, acc.tau_powers_g2[i]));
    }
    assert forall|i: int|
        0 <= i < acc.alpha_tau_powers_g1.len() implies twice.alpha_tau_powers_g1[i]
        == once.alpha_tau_powers_g1[i] by {
        lemma_exponents_compose(first, second, i as nat);
        lemma_slot_exponent_bound(first.tau, i as nat, Some(first.alpha));
        lemma_slot_exponent_bound(second.tau, i as nat, Some(second.alpha));
        assert(scaling_composes(GroupId::G1, acc.alpha_tau_powers_g1[i]));
    }
    assert forall|i: int|
        0 <= i < acc.beta_tau_powers_g1.len() implies twice.beta_tau_powers_g1[i]
        == once.beta_tau_powers_g1[i] by {
        lemma_exponents_compose(first, second, i as nat);
        lemma_slot_exponent_bound(first.tau, i as nat, Some(first.beta));
        lemma_slot_exponent_bound(second.tau, i as nat, Some(second.beta));
        assert(scaling_composes(GroupId::G1, acc.beta_tau_powers_g1[i]));
    }
    assert(twice.tau_powers_g1 =~= once.tau_powers_g1);
    assert(twice.tau_powers_g2 =~= once.tau_powers_g2);
    assert(twice.alpha_tau_powers_g1 =~= once.alpha_tau_powers_g1);
    assert(twice.beta_tau_powers_g1 =~= once.beta_tau_powers_g1);
}

/// `(p * a) * (q * b) = (p * q) * (a * b)` in the field.
proof fn lemma_products_regroup(p: nat, a: nat, q: nat, b: nat)
    ensures
        mul_mod(mul_mod(p, a), mul_mod(q, b)) == mul_mod(mul_mod(p, q), mul_mod(a, b)),
{
    // (p a)(q b) = p (a (q b)) = p ((a q) b) = p ((q a) b) = p (q (a b)) = (p q)(a b)
    lemma_mul_mod_associates(p, a, mul_mod(q, b));
    lemma_mul_mod_associates(a, q, b);
    lemma_mul_mod_commutes(a, q);
    lemma_mul_mod_associates(q, a, b);
    lemma_mul_mod_associates(p, q, mul_mod(a, b));
}

/// `count` copies of the generator.
fn generators<G: CurvePoint>(count: usize) -> (v: Vec<G>)
    ensures
        encodings(v@) == repeated(generator_point(G::group()), count as nat),
{
    let g = G::generator();
    let mut v: Vec<G> = Vec::new();
    let mut i: usize = 0;
    while i < count
        invariant
            i <= count,
            v@.len() == i,
            g.encoding() == generator_point(G::group()),
            forall|j: int| 0 <= j < i ==> (#[trigger] v@[j]).encoding() == g.encoding(),
        decreases count - i,
    {
        v.push(g.duplicate());
        i += 1;
    }
    assert(encodings(v@) =~= repeated(generator_point(G::group()), count as nat));
    v
}

/// Raises each base to its exponent, times the coefficient where there is
/// one: slot `i` becomes `(coeff * exp[i]) * bases[i]`. The slots are
/// worked on independently of each other, on the thread pool.
pub fn batch_exp<G: CurvePoint>(bases: &Vec<G>, exp: &[Scalar], coeff: Option<&Scalar>) -> (out:
    Vec<G>)
    requires
        bases@.len() == exp@.len(),
    ensures
        out@.len() == bases@.len(),
        forall|i: int|
            0 <= i < out@.len() ==> (#[trigger] out@[i]).encoding() == point_mul(
                G::group(),
                bases@[i].encoding(),
                match coeff {
                    Some(c) => mul_mod(exp@[i]@, c@),
                    None => exp@[i]@,
                },
            ),
{
    let count: usize = bases.len();
    let raise = |i: usize| -> (r: G)
        requires
            i < count,
        ensures
            r.encoding() == point_mul(
                G::group(),
                bases@[i as int].encoding(),
                match coeff {
                    Some(c) => mul_mod(exp@[i as int]@, c@),
                    None => exp@[i as int]@,
                },
            ),
        {
            match coeff {
                Some(c) => {
                    let e = exp[i].mul(c);
                    bases[i].scale(&e)
                },
                None => bases[i].scale(&exp[i]),
            }
        };
    let out = par_map(count, raise);
    proof {
        assert forall|i: int| 0 <= i < out@.len() implies (#[trigger] out@[i]).encoding()
            == point_mul(
            G::group(),
            bases@[i].encoding(),
            match coeff {
                Some(c) => mul_mod(exp@[i]@, c@),
                None => exp@[i]@,
            },
        ) by {
            assert(call_ensures(raise, (i as usize,), out@[i as usize as int]));
        }
    }
    out
}

impl Default for Accumulator {
    fn default() -> (acc: Accumulator)
        ensures
            acc.wf(),
            acc@ == initial_accumulator(),
    {
        Accumulator::new()
    }
}

impl Accumulator {
    /// Whether the vectors have the lengths of the ceremony.
    pub open spec fn wf(&self) -> bool {
        self@.wf()
    }

    /// Constructs an "initial" accumulator with tau = 1, alpha = 1, beta = 1.
    pub fn new() -> (acc: Accumulator)
        ensures
            acc.wf(),
            acc@ == initial_accumulator(),
    {
        Accumulator {
            tau_powers_g1: generators(TAU_POWERS_G1_LENGTH),
            tau_powers_g2: generators(TAU_POWERS_LENGTH),
            alpha_tau_powers_g1: generators(TAU_POWERS_LENGTH),
            beta_tau_powers_g1: generators(TAU_POWERS_LENGTH),
            beta_g2: G2Point::generator(),
        }
    }

    /// Transforms the accumulator with a private key: slot `i` of the
    /// powers of tau is multiplied by `tau^i`, slot `i` of the alpha and
    /// beta powers by `alpha * tau^i` and `beta * tau^i`, and the beta of G2
    /// by `beta`.
    pub fn transform(&mut self, key: &PrivateKey)
        requires
            old(self).wf(),
        ensures
            final(self).wf(),
            final(self)@ == transformed(old(self)@, key@),
    {
        let workers: usize = available_workers();
        let taupowers = tau_powers(key.tau(), TAU_POWERS_G1_LENGTH, workers);
        let short = &taupowers.as_slice()[0..TAU_POWERS_LENGTH];
        let tau_g1 = batch_exp(&self.tau_powers_g1, taupowers.as_slice(), None);
        let tau_g2 = batch_exp(&self.tau_powers_g2, short, None);
        let alpha_g1 = batch_exp(&self.alpha_tau_powers_g1, short, Some(key.alpha()));
        let beta_g1 = batch_exp(&self.beta_tau_powers_g1, short, Some(key.beta()));
        let beta_g2 = self.beta_g2.scale(key.beta());
        proof {
            let before = old(self)@;
            let after = transformed(before, key@);
            assert(encodings(tau_g1@) =~= after.tau_powers_g1);
            assert(encodings(tau_g2@) =~= after.tau_powers_g2);
            assert(encodings(alpha_g1@) =~= after.alpha_tau_powers_g1);
            assert(encodings(beta_g1@) =~= after.beta_tau_powers_g1);
        }
        self.tau_powers_g1 = tau_g1;
        self.tau_powers_g2 = tau_g2;
        self.alpha_tau_powers_g1 = alpha_g1;
        self.beta_tau_powers_g1 = beta_g1;
        self.beta_g2 = beta_g2;
    }
}

} // verus!
