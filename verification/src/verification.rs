//! Verification of a contribution: the pairing checks that tie the
//! accumulator before, the accumulator after and the public key together.

use crate::accumulator::{Accumulator, AccumulatorView};
use crate::curve::{generator_point, CurvePoint, G1Point, G2Point, GroupId};
use crate::keys::{
    challenge_point, challenge_point_of, PublicKey, PublicKeyView, ALPHA_PERSONALIZATION,
    BETA_PERSONALIZATION, TAU_PERSONALIZATION,
};
use crate::ratio::{
    all_but_first, all_but_last, is_merge_of, power_pairs, ratios_agree, same_ratio,
};
use vstd::prelude::*;

verus! {

/// Whether the public key proves knowledge of the three secrets: for each,
/// the G1 pair has the ratio of the G2 pair made of the point hashed from
/// the transcript and its multiple in the key.
pub open spec fn knowledge_proven(key: PublicKeyView, digest: Seq<u8>) -> bool {
    &&& ratios_agree(
        key.tau_g1.0,
        key.tau_g1.1,
        challenge_point(TAU_PERSONALIZATION, digest, key.tau_g1.0, key.tau_g1.1),
        key.tau_g2,
    )
    &&& ratios_agree(
        key.alpha_g1.0,
        key.alpha_g1.1,
        challenge_point(ALPHA_PERSONALIZATION, digest, key.alpha_g1.0, key.alpha_g1.1),
        key.alpha_g2,
    )
    &&& ratios_agree(
        key.beta_g1.0,
        key.beta_g1.1,
        challenge_point(BETA_PERSONALIZATION, digest, key.beta_g1.0, key.beta_g1.1),
        key.beta_g2,
    )
}

/// Whether the powers of tau still start at the generators.
pub open spec fn generators_kept(after: AccumulatorView) -> bool {
    &&& after.tau_powers_g1[0] == generator_point(GroupId::G1)
    &&& after.tau_powers_g2[0] == generator_point(GroupId::G2)
}

/// Whether the new tau, alpha and beta are the old ones multiplied by the
/// secrets of the key, and beta is the same in both groups.
pub open spec fn contribution_linked(
    before: AccumulatorView,
    after: AccumulatorView,
    key: PublicKeyView,
    digest: Seq<u8>,
) -> bool {
    &&& ratios_agree(
        before.tau_powers_g1[1],
        after.tau_powers_g1[1],
        challenge_point(TAU_PERSONALIZATION, digest, key.tau_g1.0, key.tau_g1.1),
        key.tau_g2,
    )
    &&& ratios_agree(
        before.alpha_tau_powers_g1[0],
        after.alpha_tau_powers_g1[0],
        challenge_point(ALPHA_PERSONALIZATION, digest, key.alpha_g1.0, key.alpha_g1.1),
        key.alpha_g2,
    )
    &&& ratios_agree(
        before.beta_tau_powers_g1[0],
        after.beta_tau_powers_g1[0],
        challenge_point(BETA_PERSONALIZATION, digest, key.beta_g1.0, key.beta_g1.1),
        key.beta_g2,
    )
    &&& ratios_agree(
        before.beta_tau_powers_g1[0],
        after.beta_tau_powers_g1[0],
        before.beta_g2,
        after.beta_g2,
    )
}

/// The four pairs that the vectors of an accumulator are folded into.
pub struct PowerPairs {
    pub tau_g1: (Seq<u8>, Seq<u8>),
    pub tau_g2: (Seq<u8>, Seq<u8>),
    pub alpha_g1: (Seq<u8>, Seq<u8>),
    pub beta_g1: (Seq<u8>, Seq<u8>),
}

/// Whether each pair is a linear combination of the neighbours in its
/// vector.
pub open spec fn folded_from(after: AccumulatorView, pairs: PowerPairs) -> bool {
    &&& is_merge_of(
        GroupId::G1,
        all_but_last(after.tau_powers_g1),
        all_but_first(after.tau_powers_g1),
        pairs.tau_g1,
    )
    &&& is_merge_of(
        GroupId::G2,
        all_but_last(after.tau_powers_g2),
        all_but_first(after.tau_powers_g2),
        pairs.tau_g2,
    )
    &&& is_merge_of(
        GroupId::G1,
        all_but_last(after.alpha_tau_powers_g1),
        all_but_first(after.alpha_tau_powers_g1),
        pairs.alpha_g1,
    )
    &&& is_merge_of(
        GroupId::G1,
        all_but_last(after.beta_tau_powers_g1),
        all_but_first(after.beta_tau_powers_g1),
        pairs.beta_g1,
    )
}

/// Whether the folded pairs have the ratio of the first two powers of tau
/// in the other group.
pub open spec fn powers_consistent(after: AccumulatorView, pairs: PowerPairs) -> bool {
    &&& ratios_agree(
        pairs.tau_g1.0,
        pairs.tau_g1.1,
        after.tau_powers_g2[0],
        after.tau_powers_g2[1],
    )
    &&& ratios_agree(
        after.tau_powers_g1[0],
        after.tau_powers_g1[1],
        pairs.tau_g2.0,
        pairs.tau_g2.1,
    )
    &&& ratios_agree(
        pairs.alpha_g1.0,
        pairs.alpha_g1.1,
        after.tau_powers_g2[0],
        after.tau_powers_g2[1],
    )
    &&& ratios_agree(
        pairs.beta_g1.0,
        pairs.beta_g1.1,
        after.tau_powers_g2[0],
        after.tau_powers_g2[1],
    )
}

/// The checks that involve no randomness.
pub open spec fn structure_accepted(
    before: AccumulatorView,
    after: AccumulatorView,
    key: PublicKeyView,
    digest: Seq<u8>,
) -> bool {
    &&& knowledge_proven(key, digest)
    &&& generators_kept(after)
    &&& contribution_linked(before, after, key, digest)
}

/// What a verdict on a contribution can be. It is a rejection where a check
/// without randomness fails. Else it is what the check of the powers says
/// of some random folding of the four vectors.
pub open spec fn is_verdict(
    before: AccumulatorView,
    after: AccumulatorView,
    key: PublicKeyView,
    digest: Seq<u8>,
    accepted: bool,
) -> bool {
    if structure_accepted(before, after, key, digest) {
        exists|pairs: PowerPairs| #[trigger]
            folded_from(after, pairs) && accepted == powers_consistent(after, pairs)
    } else {
        !accepted
    }
}

/// Checks the proofs of knowledge, the generators and the links between
/// the two accumulators: all the checks that involve no randomness.
pub fn verify_structure(before: &Accumulator, after: &Accumulator, key: &PublicKey, digest: &[u8]) -> (accepted:
    bool)
    requires
        before.wf(),
        after.wf(),
    ensures
        accepted == structure_accepted(before@, after@, key@, digest@),
{
    let tau_g1 = key.tau_g1();
    let alpha_g1 = key.alpha_g1();
    let beta_g1 = key.beta_g1();
    let tau_g2_s = challenge_point_of(TAU_PERSONALIZATION, digest, tau_g1.0, tau_g1.1);
    let alpha_g2_s = challenge_point_of(ALPHA_PERSONALIZATION, digest, alpha_g1.0, alpha_g1.1);
    let beta_g2_s = challenge_point_of(BETA_PERSONALIZATION, digest, beta_g1.0, beta_g1.1);

    // Check the proofs-of-knowledge for tau/alpha/beta
    if !same_ratio(tau_g1, (&tau_g2_s, key.tau_g2())) {
        return false;
    }
    if !same_ratio(alpha_g1, (&alpha_g2_s, key.alpha_g2())) {
        return false;
    }
    if !same_ratio(beta_g1, (&beta_g2_s, key.beta_g2())) {
        return false;
    }
    // Check the correctness of the generators for tau powers

    if !after.tau_powers_g1[0].same(&G1Point::generator()) {
        return false;
    }
    if !after.tau_powers_g2[0].same(&G2Point::generator()) {
        return false;
    }
    // Did the participant multiply the previous tau by the new one?

    if !same_ratio(
        (&before.tau_powers_g1[1], &after.tau_powers_g1[1]),
        (&tau_g2_s, key.tau_g2()),
    ) {
        return false;
    }
    // Did the participant multiply the previous alpha by the new one?

    if !same_ratio(
        (&before.alpha_tau_powers_g1[0], &after.alpha_tau_powers_g1[0]),
        (&alpha_g2_s, key.alpha_g2()),
    ) {
        return false;
    }
    // Did the participant multiply the previous beta by the new one?

    if !same_ratio(
        (&before.beta_tau_powers_g1[0], &after.beta_tau_powers_g1[0]),
        (&beta_g2_s, key.beta_g2()),
    ) {
        return false;
    }
    if !same_ratio(
        (&before.beta_tau_powers_g1[0], &after.beta_tau_powers_g1[0]),
        (&before.beta_g2, &after.beta_g2),
    ) {
        return false;
    }
    true
}

/// Checks given foldings of the four vectors of `after` against the first
/// two powers of tau in the other group.
pub fn verify_powers(
    after: &Accumulator,
    tau_g1: &(G1Point, G1Point),
    tau_g2: &(G2Point, G2Point),
    alpha_g1: &(G1Point, G1Point),
    beta_g1: &(G1Point, G1Point),
) -> (accepted: bool)
    requires
        after.wf(),
    ensures
        accepted == powers_consistent(
            after@,
            (PowerPairs {
                tau_g1: (tau_g1.0@, tau_g1.1@),
                tau_g2: (tau_g2.0@, tau_g2.1@),
                alpha_g1: (alpha_g1.0@, alpha_g1.1@),
                beta_g1: (beta_g1.0@, beta_g1.1@),
            }),
        ),
{
    let first_g1 = (&after.tau_powers_g1[0], &after.tau_powers_g1[1]);
    let first_g2 = (&after.tau_powers_g2[0], &after.tau_powers_g2[1]);
    if !same_ratio((&tau_g1.0, &tau_g1.1), first_g2) {
        return false;
    }
    if !same_ratio(first_g1, (&tau_g2.0, &tau_g2.1)) {
        return false;
    }
    if !same_ratio((&alpha_g1.0, &alpha_g1.1), first_g2) {
        return false;
    }
    if !same_ratio((&beta_g1.0, &beta_g1.1), first_g2) {
        return false;
    }
    true
}

/// Verifies a transformation of the `Accumulator` with the `PublicKey`,
/// given a 64-byte transcript `digest`.
pub fn verify_transform(before: &Accumulator, after: &Accumulator, key: &PublicKey, digest: &[u8]) -> (accepted:
    bool)
    requires
        before.wf(),
        after.wf(),
        digest@.len() == 64,
    ensures
        is_verdict(before@, after@, key@, digest@, accepted),
{
    if !verify_structure(before, after, key, digest) {
        return false;
    }
    // Are the powers of tau correct?
    let tau_g1 = power_pairs(after.tau_powers_g1.as_slice());
    let tau_g2 = power_pairs(after.tau_powers_g2.as_slice());
    let alpha_g1 = power_pairs(after.alpha_tau_powers_g1.as_slice());
    let beta_g1 = power_pairs(after.beta_tau_powers_g1.as_slice());
    let accepted = verify_powers(after, &tau_g1, &tau_g2, &alpha_g1, &beta_g1);
    proof {
        let pairs = PowerPairs {
            tau_g1: (tau_g1.0@, tau_g1.1@),
            tau_g2: (tau_g2.0@, tau_g2.1@),
            alpha_g1: (alpha_g1.0@, alpha_g1.1@),
            beta_g1: (beta_g1.0@, beta_g1.1@),
        };
        assert(folded_from(after@, pairs));
    }
    accepted
}

} // verus!
