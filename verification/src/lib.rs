//! One round of a powers-of-tau ceremony over the MNT6-753 pairing groups.
//!
//! A participant reads a challenge, which holds an accumulator of powers of
//! the secrets of all participants before, multiplies fresh secrets into it,
//! and writes a response with the new accumulator and a public key that
//! proves knowledge of the secrets. A verifier checks the response against
//! the challenge with pairing equations, without learning the secrets.
//!
//! * [`scalar`] holds the field of exponents, with exact arithmetic modulo
//!   the group order, and [`powers`] the powers of a scalar.
//! * [`curve`] holds the points of G1 and G2 in their canonical encodings,
//!   and [`generators`] the encodings of the two generators. The arithmetic
//!   of the curve, the pairing and the encodings are those of the curve
//!   library; their results are named, not described.
//! * [`ratio`] is the pairing-ratio kernel, [`accumulator`] the accumulator
//!   and its transformation, [`keys`] the key material, and [`verification`]
//!   the checks on a contribution.
//! * [`hashing`] holds BLAKE2b and the hashing reader and writer.
//! * [`format`] and [`sizes`] lay the accumulator and the public key out in
//!   bytes, and [`ceremony`] puts a round together on the bytes of its files.
//! * [`parallel`] cuts work into chunks and runs them on the thread pool.
//!
//! What is taken on trust is the behaviour of the outside crates behind the
//! functions marked `external_body`, each of which wraps one operation of
//! theirs.

pub mod accumulator;
pub mod bytes;
pub mod ceremony;
pub mod curve;
pub mod format;
pub mod generators;
pub mod hashing;
pub mod keys;
pub mod parallel;
pub mod powers;
pub mod ratio;
pub mod scalar;
pub mod sizes;
pub mod verification;

pub use accumulator::{Accumulator, TAU_POWERS_G1_LENGTH, TAU_POWERS_LENGTH};
pub use curve::{CurvePoint, G1Point, G2Point};
pub use hashing::{blank_hash, HashReader, HashWriter};
pub use keys::{hash_to_g2, keypair, PrivateKey, PublicKey};
pub use ratio::{merge_pairs, power_pairs, same_ratio};
pub use scalar::Scalar;
pub use sizes::Sizes;
pub use verification::verify_transform;
