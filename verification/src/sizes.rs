//! The sizes of the challenge and of the response on disk.

use crate::accumulator::{TAU_POWERS_G1_LENGTH, TAU_POWERS_LENGTH};
use crate::curve::{compressed_len, encoded_size, uncompressed_len, GroupId};
use crate::format::{
    accumulator_size, lemma_lengths_in_numbers, CHALLENGE_BYTES, COUNT_BYTES, PUBLIC_KEY_BYTES,
    RESPONSE_BYTES,
};
use crate::hashing::HASH_BYTES;
use vstd::prelude::*;

verus! {

/// Bytes that the length prefixes of the four vectors of an accumulator
/// take.
pub const LENGTH_PREFIX_BYTES: usize = 4 * COUNT_BYTES;

/// The sizes of the points of the two groups, as the curve library encodes
/// them.
#[derive(Debug)]
pub struct Sizes {
    g1_uncompressed_byte_size: usize,
    g2_uncompressed_byte_size: usize,
    g1_compressed_byte_size: usize,
    g2_compressed_byte_size: usize,
}

/// The sizes that a `Sizes` holds.
pub struct SizesView {
    pub g1_uncompressed: nat,
    pub g2_uncompressed: nat,
    pub g1_compressed: nat,
    pub g2_compressed: nat,
}

impl View for Sizes {
    type V = SizesView;

    closed spec fn view(&self) -> SizesView {
        SizesView {
            g1_uncompressed: self.g1_uncompressed_byte_size as nat,
            g2_uncompressed: self.g2_uncompressed_byte_size as nat,
            g1_compressed: self.g1_compressed_byte_size as nat,
            g2_compressed: self.g2_compressed_byte_size as nat,
        }
    }
}

/// The sizes of the points of MNT6-753.
pub open spec fn curve_sizes() -> SizesView {
    SizesView {
        g1_uncompressed: uncompressed_len(GroupId::G1),
        g2_uncompressed: uncompressed_len(GroupId::G2),
        g1_compressed: compressed_len(GroupId::G1),
        g2_compressed: compressed_len(GroupId::G2),
    }
}

/// Size of the accumulator on disk where a G1 point takes `g1` bytes and a
/// G2 point `g2` bytes, without the hash and the length prefixes.
pub open spec fn accumulator_points_size(g1: nat, g2: nat) -> nat {
    TAU_POWERS_G1_LENGTH as nat * g1 + TAU_POWERS_LENGTH as nat * (g2 + 2 * g1) + g2
}

/// Size of a challenge: the uncompressed accumulator, the length prefixes
/// of its vectors, and the hash of the previous contribution.
pub open spec fn challenge_size() -> nat {
    accumulator_points_size(uncompressed_len(GroupId::G1), uncompressed_len(GroupId::G2))
        + LENGTH_PREFIX_BYTES as nat + HASH_BYTES as nat
}

/// Size of a public key: three uncompressed G1 pairs and three uncompressed
/// G2 points.
pub open spec fn public_key_bytes() -> nat {
    6 * uncompressed_len(GroupId::G1) + 3 * uncompressed_len(GroupId::G2)
}

/// Size of a contribution: the compressed points of the accumulator, the
/// hash of the challenge, and the public key. The length prefixes of the
/// vectors are not counted in it.
pub open spec fn contribution_size() -> nat {
    accumulator_points_size(compressed_len(GroupId::G1), compressed_len(GroupId::G2))
        + HASH_BYTES as nat + public_key_bytes()
}

/// The sizes are those of the files: a challenge is as long as the size of
/// the accumulator on disk says, and a response is longer than the size of
/// the contribution says by the length prefixes of the four vectors.
pub proof fn lemma_sizes_of_the_files()
    ensures
        challenge_size() == CHALLENGE_BYTES,
        challenge_size() == accumulator_size(false) + HASH_BYTES,
        public_key_bytes() == PUBLIC_KEY_BYTES,
        contribution_size() + LENGTH_PREFIX_BYTES == RESPONSE_BYTES,
        RESPONSE_BYTES == HASH_BYTES + accumulator_size(true) + PUBLIC_KEY_BYTES,
{
    lemma_lengths_in_numbers();
}

impl Sizes {
    #[verifier::type_invariant]
    spec fn of_the_curve(self) -> bool {
        &&& self.g1_uncompressed_byte_size == uncompressed_len(GroupId::G1)
        &&& self.g2_uncompressed_byte_size == uncompressed_len(GroupId::G2)
        &&& self.g1_compressed_byte_size == compressed_len(GroupId::G1)
        &&& self.g2_compressed_byte_size == compressed_len(GroupId::G2)
    }

    /// The sizes of the points of MNT6-753, as the curve library gives
    /// them.
    pub fn new() -> (sizes: Sizes)
        ensures
            sizes@ == curve_sizes(),
    {
        Sizes {
            g1_uncompressed_byte_size: encoded_size(GroupId::G1, false),
            g2_uncompressed_byte_size: encoded_size(GroupId::G2, false),
            g1_compressed_byte_size: encoded_size(GroupId::G1, true),
            g2_compressed_byte_size: encoded_size(GroupId::G2, true),
        }
    }

    /// The size of the accumulator on disk.
    pub fn accumulator_byte_size_with_hash(&self) -> (size: usize)
        ensures
            self@ == curve_sizes(),
            size == accumulator_points_size(self@.g1_uncompressed, self@.g2_uncompressed)
                + LENGTH_PREFIX_BYTES + HASH_BYTES,
            size == challenge_size(),
    {
        proof {
            use_type_invariant(self);
            lemma_lengths_in_numbers();
        }
        (TAU_POWERS_G1_LENGTH * self.g1_uncompressed_byte_size)  // g1 tau powers
         + (TAU_POWERS_LENGTH * self.g2_uncompressed_byte_size)  // g2 tau powers
         + (TAU_POWERS_LENGTH * self.g1_uncompressed_byte_size)  // alpha tau powers
         + (TAU_POWERS_LENGTH * self.g1_uncompressed_byte_size)  // beta tau powers
         + LENGTH_PREFIX_BYTES  // lengths of vectors
         + self.g2_uncompressed_byte_size  // beta in g2
         + HASH_BYTES  // blake2b hash of previous contribution
    }

    /// The size of the public key, which is used to verify that a
    /// contribution was correctly computed.
    pub fn public_key_size(&self) -> (size: usize)
        ensures
            size == 6 * self@.g1_uncompressed + 3 * self@.g2_uncompressed,
            size == public_key_bytes(),
    {
        proof {
            use_type_invariant(self);
            lemma_lengths_in_numbers();
        }
        6 * self.g1_uncompressed_byte_size + 3 * self.g2_uncompressed_byte_size
    }

    /// The size of the contribution on disk.
    pub fn contribution_byte_size(&self) -> (size: usize)
        ensures
            size == accumulator_points_size(self@.g1_compressed, self@.g2_compressed)
                + HASH_BYTES + public_key_bytes(),
            size == contribution_size(),
    {
        proof {
            use_type_invariant(self);
            lemma_lengths_in_numbers();
        }
        (TAU_POWERS_G1_LENGTH * self.g1_compressed_byte_size)  // g1 tau powers
         + (TAU_POWERS_LENGTH * self.g2_compressed_byte_size)  // g2 tau powers
         + (TAU_POWERS_LENGTH * self.g1_compressed_byte_size)  // alpha tau powers
         + (TAU_POWERS_LENGTH * self.g1_compressed_byte_size)  // beta tau powers
         + self.g2_compressed_byte_size  // beta in g2
         + HASH_BYTES  // blake2b hash of input accumulator
         + self.public_key_size()  // public key
    }
}

impl Default for Sizes {
    fn default() -> (sizes: Sizes)
        ensures
            sizes@ == curve_sizes(),
    {
        Sizes::new()
    }
}

} // verus!
