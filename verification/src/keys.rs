//! Key material of one contribution: the secret exponents, and the public
//! key that proves knowledge of them and binds them to the transcript.

use crate::bytes::append_bytes;
use crate::curve::{
    identity_point, point_mul, seeded_point, CurvePoint, G1Point, G2Point, GroupId,
};
use crate::hashing::{blake2b, hash_of};
use crate::scalar::Scalar;
use rand_chacha::ChaCha20Rng;
use vstd::prelude::*;

verus! {

/// Length of the seed that a G2 point is derived from.
pub const SEED_BYTES: usize = 32;

/// The personalization byte of the proof of knowledge of tau.
pub const TAU_PERSONALIZATION: u8 = 0;

/// The personalization byte of the proof of knowledge of alpha.
pub const ALPHA_PERSONALIZATION: u8 = 1;

/// The personalization byte of the proof of knowledge of beta.
pub const BETA_PERSONALIZATION: u8 = 2;

/// The secrets tau, alpha and beta that the participant must destroy. They
/// are overwritten when the key is dropped.
pub struct PrivateKey {
    tau: Scalar,
    alpha: Scalar,
    beta: Scalar,
}

/// The exponents of a private key.
pub struct PrivateKeyView {
    pub tau: nat,
    pub alpha: nat,
    pub beta: nat,
}

impl View for PrivateKey {
    type V = PrivateKeyView;

    closed spec fn view(&self) -> PrivateKeyView {
        PrivateKeyView { tau: self.tau@, alpha: self.alpha@, beta: self.beta@ }
    }
}

impl Drop for PrivateKey {
    /// Overwrites the secrets before the key goes away.
    fn drop(&mut self)
        opens_invariants none
        no_unwind
    {
        self.tau.clear();
        self.alpha.clear();
        self.beta.clear();
    }
}

impl PrivateKey {
    /// The private key of given secrets.
    pub fn new(tau: Scalar, alpha: Scalar, beta: Scalar) -> (key: PrivateKey)
        ensures
            key@ == (PrivateKeyView { tau: tau@, alpha: alpha@, beta: beta@ }),
    {
        PrivateKey { tau, alpha, beta }
    }

    /// The secret tau.
    pub fn tau(&self) -> (tau: &Scalar)
        ensures
            tau@ == self@.tau,
    {
        &self.tau
    }

    /// The secret alpha.
    pub fn alpha(&self) -> (alpha: &Scalar)
        ensures
            alpha@ == self@.alpha,
    {
        &self.alpha
    }

    /// The secret beta.
    pub fn beta(&self) -> (beta: &Scalar)
        ensures
            beta@ == self@.beta,
    {
        &self.beta
    }
}

/// For each secret `x` of tau, alpha and beta: a pair `(s, x*s)` of G1 with
/// `s` chosen by the participant, and the point `x*h` of G2 where `h` is
/// derived by hashing from the transcript and the pair.
#[derive(Debug, PartialEq, Eq)]
pub struct PublicKey {
    tau_g1: (G1Point, G1Point),
    alpha_g1: (G1Point, G1Point),
    beta_g1: (G1Point, G1Point),
    tau_g2: G2Point,
    alpha_g2: G2Point,
    beta_g2: G2Point,
}

/// The encodings of the points of a public key.
pub struct PublicKeyView {
    pub tau_g1: (Seq<u8>, Seq<u8>),
    pub alpha_g1: (Seq<u8>, Seq<u8>),
    pub beta_g1: (Seq<u8>, Seq<u8>),
    pub tau_g2: Seq<u8>,
    pub alpha_g2: Seq<u8>,
    pub beta_g2: Seq<u8>,
}

impl PublicKeyView {
    /// Whether one of the points of the key is the neutral element of its
    /// group, which no point of a public key may be.
    pub open spec fn holds_identity(self) -> bool {
        ||| self.tau_g1.0 == identity_point(GroupId::G1)
        ||| self.tau_g1.1 == identity_point(GroupId::G1)
        ||| self.alpha_g1.0 == identity_point(GroupId::G1)
        ||| self.alpha_g1.1 == identity_point(GroupId::G1)
        ||| self.beta_g1.0 == identity_point(GroupId::G1)
        ||| self.beta_g1.1 == identity_point(GroupId::G1)
        ||| self.tau_g2 == identity_point(GroupId::G2)
        ||| self.alpha_g2 == identity_point(GroupId::G2)
        ||| self.beta_g2 == identity_point(GroupId::G2)
    }
}

impl View for PublicKey {
    type V = PublicKeyView;

    closed spec fn view(&self) -> PublicKeyView {
        PublicKeyView {
            tau_g1: (self.tau_g1.0@, self.tau_g1.1@),
            alpha_g1: (self.alpha_g1.0@, self.alpha_g1.1@),
            beta_g1: (self.beta_g1.0@, self.beta_g1.1@),
            tau_g2: self.tau_g2@,
            alpha_g2: self.alpha_g2@,
            beta_g2: self.beta_g2@,
        }
    }
}

impl PublicKey {
    /// The public key of given points.
    pub fn new(
        tau_g1: (G1Point, G1Point),
        alpha_g1: (G1Point, G1Point),
        beta_g1: (G1Point, G1Point),
        tau_g2: G2Point,
        alpha_g2: G2Point,
        beta_g2: G2Point,
    ) -> (key: PublicKey)
        ensures
            key@ == (PublicKeyView {
                tau_g1: (tau_g1.0@, tau_g1.1@),
                alpha_g1: (alpha_g1.0@, alpha_g1.1@),
                beta_g1: (beta_g1.0@, beta_g1.1@),
                tau_g2: tau_g2@,
                alpha_g2: alpha_g2@,
                beta_g2: beta_g2@,
            }),
    {
        PublicKey { tau_g1, alpha_g1, beta_g1, tau_g2, alpha_g2, beta_g2 }
    }

    /// Whether one of the points of the key is the neutral element.
    pub fn holds_identity(&self) -> (held: bool)
        ensures
            held == self@.holds_identity(),
    {
        self.tau_g1.0.is_identity() || self.tau_g1.1.is_identity()
            || self.alpha_g1.0.is_identity() || self.alpha_g1.1.is_identity()
            || self.beta_g1.0.is_identity() || self.beta_g1.1.is_identity()
            || self.tau_g2.is_identity() || self.alpha_g2.is_identity()
            || self.beta_g2.is_identity()
    }

    /// The pair `(s, tau*s)`.
    pub fn tau_g1(&self) -> (pair: (&G1Point, &G1Point))
        ensures
            (pair.0@, pair.1@) == self@.tau_g1,
    {
        (&self.tau_g1.0, &self.tau_g1.1)
    }

    /// The pair `(s, alpha*s)`.
    pub fn alpha_g1(&self) -> (pair: (&G1Point, &G1Point))
        ensures
            (pair.0@, pair.1@) == self@.alpha_g1,
    {
        (&self.alpha_g1.0, &self.alpha_g1.1)
    }

    /// The pair `(s, beta*s)`.
    pub fn beta_g1(&self) -> (pair: (&G1Point, &G1Point))
        ensures
            (pair.0@, pair.1@) == self@.beta_g1,
    {
        (&self.beta_g1.0, &self.beta_g1.1)
    }

    /// The point `tau*h`.
    pub fn tau_g2(&self) -> (point: &G2Point)
        ensures
            point@ == self@.tau_g2,
    {
        &self.tau_g2
    }

    /// The point `alpha*h`.
    pub fn alpha_g2(&self) -> (point: &G2Point)
        ensures
            point@ == self@.alpha_g2,
    {
        &self.alpha_g2
    }

    /// The point `beta*h`.
    pub fn beta_g2(&self) -> (point: &G2Point)
        ensures
            point@ == self@.beta_g2,
    {
        &self.beta_g2
    }
}

/// The G2 point derived from the first 32 bytes of `digest`.
pub open spec fn hash_to_g2_of(digest: Seq<u8>) -> Seq<u8> {
    seeded_point(digest.take(32))
}

/// What is hashed for a proof of knowledge: the personalization byte, the
/// transcript digest, and the two points of the G1 pair.
pub open spec fn challenge_input(personalization: u8, digest: Seq<u8>, s: Seq<u8>, sx: Seq<u8>) -> Seq<
    u8,
> {
    seq![personalization] + digest + s + sx
}

/// The G2 base point of a proof of knowledge.
pub open spec fn challenge_point(personalization: u8, digest: Seq<u8>, s: Seq<u8>, sx: Seq<u8>) -> Seq<
    u8,
> {
    hash_to_g2_of(blake2b(challenge_input(personalization, digest, s, sx)))
}

/// The proof of knowledge of `x` on the base `s`: the pair `(s, x*s)` and
/// the point `x*h`.
pub open spec fn knowledge_proof(x: nat, s: Seq<u8>, personalization: u8, digest: Seq<u8>) -> (
    (Seq<u8>, Seq<u8>),
    Seq<u8>,
) {
    let sx = point_mul(GroupId::G1, s, x);
    ((s, sx), point_mul(GroupId::G2, challenge_point(personalization, digest, s, sx), x))
}

/// The public key of the secrets `sk` on the bases `s_tau`, `s_alpha` and
/// `s_beta`, bound to `digest`.
pub open spec fn public_key_for(
    sk: PrivateKeyView,
    s_tau: Seq<u8>,
    s_alpha: Seq<u8>,
    s_beta: Seq<u8>,
    digest: Seq<u8>,
) -> PublicKeyView {
    let tau = knowledge_proof(sk.tau, s_tau, TAU_PERSONALIZATION, digest);
    let alpha = knowledge_proof(sk.alpha, s_alpha, ALPHA_PERSONALIZATION, digest);
    let beta = knowledge_proof(sk.beta, s_beta, BETA_PERSONALIZATION, digest);
    PublicKeyView {
        tau_g1: tau.0,
        alpha_g1: alpha.0,
        beta_g1: beta.0,
        tau_g2: tau.1,
        alpha_g2: alpha.1,
        beta_g2: beta.1,
    }
}

/// Hashes to G2 with the first 32 bytes of `digest` as the seed.
pub fn hash_to_g2(digest: &[u8]) -> (point: G2Point)
    requires
        digest@.len() >= 32,
    ensures
        point@ == hash_to_g2_of(digest@),
{
    let mut seed: [u8; 32] = [0u8; 32];
    let mut i: usize = 0;
    while i < 32
        invariant
            i <= 32,
            digest@.len() >= 32,
            forall|j: int| 0 <= j < i ==> seed@[j] == digest@[j],
        decreases 32 - i,
    {
        seed[i] = digest[i];
        i += 1;
    }
    assert(seed@ =~= digest@.take(32));
    G2Point::from_seed(&seed)
}

/// The G2 base point of the proof of knowledge on the pair `(s, sx)`: the
/// hash to G2 of `BLAKE2b(personalization | digest | s | sx)`.
pub fn challenge_point_of(personalization: u8, digest: &[u8], s: &G1Point, sx: &G1Point) -> (point:
    G2Point)
    ensures
        point@ == challenge_point(personalization, digest@, s@, sx@),
{
    let mut input: Vec<u8> = Vec::new();
    input.push(personalization);
    assert(input@ =~= seq![personalization]);
    append_bytes(&mut input, digest);
    append_bytes(&mut input, s.as_bytes().as_slice());
    append_bytes(&mut input, sx.as_bytes().as_slice());
    let h = hash_of(input.as_slice());
    hash_to_g2(h.as_slice())
}

/// The proof of knowledge of `x` on the base `s`.
pub fn prove_knowledge(x: &Scalar, s: G1Point, personalization: u8, digest: &[u8]) -> (proof_of: (
    (G1Point, G1Point),
    G2Point,
))
    ensures
        ((proof_of.0.0@, proof_of.0.1@), proof_of.1@) == knowledge_proof(
            x@,
            s@,
            personalization,
            digest@,
        ),
{
    let sx = s.scale(x);
    let base = challenge_point_of(personalization, digest, &s, &sx);
    let base_x = base.scale(x);
    ((s, sx), base_x)
}

/// The keypair of given secrets and given bases, bound to `digest`. There
/// is none where a point of the public key would be the neutral element,
/// which no point of a public key may be.
pub fn keypair_from(
    tau: Scalar,
    alpha: Scalar,
    beta: Scalar,
    s_tau: G1Point,
    s_alpha: G1Point,
    s_beta: G1Point,
    digest: &[u8],
) -> (made: Option<(PublicKey, PrivateKey)>)
    ensures
        made is None <==> public_key_for(
            PrivateKeyView { tau: tau@, alpha: alpha@, beta: beta@ },
            s_tau@,
            s_alpha@,
            s_beta@,
            digest@,
        ).holds_identity(),
        made matches Some(pair) ==> pair.1@ == (PrivateKeyView {
            tau: tau@,
            alpha: alpha@,
            beta: beta@,
        }) && pair.0@ == public_key_for(pair.1@, s_tau@, s_alpha@, s_beta@, digest@),
{
    let pk_tau = prove_knowledge(&tau, s_tau, TAU_PERSONALIZATION, digest);
    let pk_alpha = prove_knowledge(&alpha, s_alpha, ALPHA_PERSONALIZATION, digest);
    let pk_beta = prove_knowledge(&beta, s_beta, BETA_PERSONALIZATION, digest);
    let public = PublicKey {
        tau_g1: pk_tau.0,
        alpha_g1: pk_alpha.0,
        beta_g1: pk_beta.0,
        tau_g2: pk_tau.1,
        alpha_g2: pk_alpha.1,
        beta_g2: pk_beta.1,
    };
    if public.holds_identity() {
        None
    } else {
        Some((public, PrivateKey { tau, alpha, beta }))
    }
}

/// Constructs a keypair from fresh secrets and bases drawn from `rng`,
/// bound to the 64-byte transcript `digest`. No point of the public key is
/// the neutral element: where the draw would give such a key, there is no
/// keypair, and the caller draws again.
pub fn keypair(rng: &mut ChaCha20Rng, digest: &[u8]) -> (drawn: Option<(PublicKey, PrivateKey)>)
    requires
        digest@.len() == 64,
    ensures
        drawn matches Some(pair) ==> !pair.0@.holds_identity() && pair.0@ == public_key_for(
            pair.1@,
            pair.0@.tau_g1.0,
            pair.0@.alpha_g1.0,
            pair.0@.beta_g1.0,
            digest@,
        ),
{
    let tau = Scalar::sample(rng);
    let alpha = Scalar::sample(rng);
    let beta = Scalar::sample(rng);
    let s_tau = G1Point::sample(rng);
    let s_alpha = G1Point::sample(rng);
    let s_beta = G1Point::sample(rng);
    keypair_from(tau, alpha, beta, s_tau, s_alpha, s_beta, digest)
}

} // verus!
