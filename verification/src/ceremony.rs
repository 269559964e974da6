//! One round of the ceremony on the bytes of its files: the first
//! challenge, the response to a challenge, and the verification of a
//! response against its challenge.

use crate::accumulator::{initial_accumulator, transformed, Accumulator, AccumulatorView};
use crate::bytes::{append_bytes, same_bytes};
use crate::format::{
    challenge_layout, challenge_reading, read_challenge, read_response, response_layout,
    response_reading, write_challenge, write_response, FormatError, CHALLENGE_BYTES,
};
use crate::hashing::{blake2b, blank_hash, hash_of};
use crate::keys::{keypair, public_key_for, PrivateKey, PrivateKeyView, PublicKey, PublicKeyView};
use crate::verification::{is_verdict, verify_transform};
use rand::SeedableRng;
use rand_chacha::ChaCha20Rng;
use vstd::prelude::*;

verus! {

/// Whether `key` is a public key of the secrets `secrets` that is bound to
/// `digest`.
pub open spec fn key_matches(key: PublicKeyView, secrets: PrivateKeyView, digest: Seq<u8>) -> bool {
    key == public_key_for(secrets, key.tau_g1.0, key.alpha_g1.0, key.beta_g1.0, digest)
}

/// Whether `response` answers `challenge` with the accumulator `before`:
/// it holds the hash of the challenge, the accumulator transformed with
/// some secrets, and a public key of those secrets bound to that hash.
pub open spec fn is_response_to(challenge: Seq<u8>, before: AccumulatorView, response: Seq<u8>) -> bool {
    exists|secrets: PrivateKeyView, key: PublicKeyView|
        key_matches(key, secrets, blake2b(challenge)) && #[trigger] response_layout(
            blake2b(challenge),
            transformed(before, secrets),
            key,
        ) == response
}

/// The ChaCha20 generator in the state in which it starts from `seed`.
pub uninterp spec fn seeded_generator(seed: Seq<u8>) -> ChaCha20Rng;

/// The seed that the entropy `system` of the system and the entropy `user`
/// of the participant give: the first 32 bytes of the digest of the one
/// followed by the other.
pub open spec fn entropy_seed_of(system: Seq<u8>, user: Seq<u8>) -> Seq<u8> {
    blake2b(system + user).take(32)
}

/// `SeedableRng::from_seed` of `ChaCha20Rng`, which builds the state of the
/// generator from the seed and from nothing else. What comes back is named
/// by `seeded_generator`.
#[verifier::external_body]
fn chacha_from_seed(seed: &[u8; 32]) -> (rng: ChaCha20Rng)
    ensures
        rng == seeded_generator(seed@),
{
    ChaCha20Rng::from_seed(*seed)
}

/// The seed of the generator that the secrets are drawn from: the first 32
/// bytes of the digest of the entropy of the system followed by the entropy
/// that the participant typed.
pub fn entropy_seed(system: &[u8], user: &[u8]) -> (seed: [u8; 32])
    ensures
        seed@ == entropy_seed_of(system@, user@),
{
    let mut all: Vec<u8> = Vec::new();
    append_bytes(&mut all, system);
    append_bytes(&mut all, user);
    assert(all@ =~= system@ + user@);
    let h = hash_of(all.as_slice());
    let mut seed: [u8; 32] = [0u8; 32];
    let mut i: usize = 0;
    while i < 32
        invariant
            i <= 32,
            forall|j: int| 0 <= j < i ==> seed@[j] == h@[j],
        decreases 32 - i,
    {
        seed[i] = h[i];
        i += 1;
    }
    assert(seed@ =~= h@.take(32));
    seed
}

/// The generator that the secrets are drawn from: the ChaCha20 generator
/// at its start from the seed that the entropy of the system and of the
/// participant give.
pub fn entropy_rng(system: &[u8], user: &[u8]) -> (rng: ChaCha20Rng)
    ensures
        rng == seeded_generator(entropy_seed_of(system@, user@)),
{
    let seed = entropy_seed(system, user);
    chacha_from_seed(&seed)
}

/// The first challenge of a ceremony: the digest of the empty input, then
/// the initial accumulator.
pub fn genesis_challenge() -> (bytes: Vec<u8>)
    ensures
        bytes@ == challenge_layout(blake2b(Seq::<u8>::empty()), initial_accumulator()),
        bytes@.len() == CHALLENGE_BYTES,
{
    let hash = blank_hash();
    let acc = Accumulator::new();
    write_challenge(&hash, &acc)
}

/// The response to `challenge` with given keys: the hash of the challenge,
/// the accumulator of the challenge transformed with `secrets`, and `key`.
/// There is none where the challenge is not read, nor where the key holds
/// the neutral element, which no key of a response may hold; every
/// response that there is, is read back.
pub fn respond(challenge: &[u8], key: &PublicKey, secrets: &PrivateKey) -> (r: Result<
    Vec<u8>,
    FormatError,
>)
    ensures
        match challenge_reading(challenge@) {
            Ok((_, before)) => {
                &&& r is Err <==> key@.holds_identity()
                &&& r matches Err(e) ==> e == FormatError::IdentityInKey
                &&& r matches Ok(response) ==> response@ == response_layout(
                    blake2b(challenge@),
                    transformed(before, secrets@),
                    key@,
                ) && response_reading(response@) == Ok::<
                    (Seq<u8>, AccumulatorView, PublicKeyView),
                    FormatError,
                >((blake2b(challenge@), transformed(before, secrets@), key@))
            },
            Err(e) => r == Err::<Vec<u8>, FormatError>(e),
        },
{
    match read_challenge(challenge) {
        Ok((_, mut acc)) => {
            if key.holds_identity() {
                return Err(FormatError::IdentityInKey);
            }
            let digest = hash_of(challenge);
            acc.transform(secrets);
            Ok(write_response(&digest, &acc, key))
        },
        Err(e) => Err(e),
    }
}

/// The response to `challenge` of a participant who draws fresh secrets
/// from `rng`: what `respond` gives for the keypair that was drawn. Where
/// the challenge is read, the only fault can be that the draw gave a key
/// with the neutral element; the participant then draws again.
pub fn contribute(challenge: &[u8], rng: &mut ChaCha20Rng) -> (r: Result<Vec<u8>, FormatError>)
    ensures
        match challenge_reading(challenge@) {
            Ok((_, before)) => match r {
                Ok(response) => is_response_to(challenge@, before, response@)
                    && response_reading(response@) is Ok,
                Err(e) => e == FormatError::IdentityInKey,
            },
            Err(e) => r == Err::<Vec<u8>, FormatError>(e),
        },
{
    let digest = hash_of(challenge);
    match keypair(rng, digest.as_slice()) {
        Some((key, secrets)) => {
            let r = respond(challenge, &key, &secrets);
            proof {
                if r is Ok {
                    assert(key_matches(key@, secrets@, blake2b(challenge@)));
                }
            }
            r
        },
        None => match read_challenge(challenge) {
            Ok(_) => Err(FormatError::IdentityInKey),
            Err(e) => Err(e),
        },
    }
}

/// What the verdict on `response` as an answer to `challenge` can be, where
/// both are read: a rejection where the response does not start with the
/// hash of the challenge, and else a verdict on the transformation.
pub open spec fn is_contribution_verdict(
    challenge: Seq<u8>,
    before: AccumulatorView,
    response_hash: Seq<u8>,
    after: AccumulatorView,
    key: PublicKeyView,
    accepted: bool,
) -> bool {
    if response_hash == blake2b(challenge) {
        is_verdict(before, after, key, blake2b(challenge), accepted)
    } else {
        !accepted
    }
}

/// Verifies `response` as an answer to `challenge`.
pub fn verify_contribution(challenge: &[u8], response: &[u8]) -> (r: Result<bool, FormatError>)
    ensures
        match (challenge_reading(challenge@), response_reading(response@)) {
            (Err(e), _) => r == Err::<bool, FormatError>(e),
            (Ok(_), Err(e)) => r == Err::<bool, FormatError>(e),
            (Ok((_, before)), Ok((hash, after, key))) => r matches Ok(accepted)
                && is_contribution_verdict(challenge@, before, hash, after, key, accepted),
        },
{
    let (_, before) = match read_challenge(challenge) {
        Ok(read) => read,
        Err(e) => {
            return Err(e);
        },
    };
    let (hash, after, key) = match read_response(response) {
        Ok(read) => read,
        Err(e) => {
            return Err(e);
        },
    };
    let digest = hash_of(challenge);
    if !same_bytes(hash.as_slice(), digest.as_slice()) {
        return Ok(false);
    }
    Ok(verify_transform(&before, &after, &key, digest.as_slice()))
}

} // verus!
