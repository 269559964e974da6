//! Points of the two pairing groups.
//!
//! A point is held as its canonical uncompressed encoding, which is also its
//! view. What the curve library computes on points is named here by
//! functions of those encodings; nothing more is said of them than which
//! call returns them.

use crate::bytes::same_bytes;
use crate::generators::{G1_GENERATOR_ENCODING, G2_GENERATOR_ENCODING};
use crate::scalar::{limbs_value, scalar_modulus, Scalar};
use ark_ec::pairing::Pairing;
use ark_ec::{AffineRepr, CurveGroup};
use ark_ff::{BigInt, PrimeField};
use ark_mnt6_753::{Fr, G1Affine, G1Projective, G2Affine, G2Projective, MNT6_753};
use ark_serialize::{CanonicalDeserialize, CanonicalSerialize};
use ark_std::UniformRand;
use rand::{Rng, SeedableRng};
use rand_chacha::ChaCha20Rng;
use vstd::prelude::*;

verus! {

/// Which of the two source groups of the pairing a point belongs to.
#[derive(Clone, Copy, Debug, PartialEq, Eq, Structural)]
pub enum GroupId {
    G1,
    G2,
}

/// Length of a coordinate of G1, an element of the base field of 753 bits
/// with room for two flags.
pub const G1_COORDINATE_BYTES: usize = 95;

/// Length of a coordinate of G2, an element of the cubic extension of the
/// base field.
pub const G2_COORDINATE_BYTES: usize = 3 * G1_COORDINATE_BYTES;

/// Length of an uncompressed point of G1: two coordinates.
pub const G1_UNCOMPRESSED_BYTES: usize = 2 * G1_COORDINATE_BYTES;

/// Length of an uncompressed point of G2: two coordinates.
pub const G2_UNCOMPRESSED_BYTES: usize = 2 * G2_COORDINATE_BYTES;

/// Length of an uncompressed point of `group`.
pub open spec fn uncompressed_len(group: GroupId) -> nat {
    match group {
        GroupId::G1 => G1_UNCOMPRESSED_BYTES as nat,
        GroupId::G2 => G2_UNCOMPRESSED_BYTES as nat,
    }
}

/// Length of a compressed point of `group`: one coordinate.
pub open spec fn compressed_len(group: GroupId) -> nat {
    match group {
        GroupId::G1 => G1_COORDINATE_BYTES as nat,
        GroupId::G2 => G2_COORDINATE_BYTES as nat,
    }
}

/// What the validating uncompressed deserializer makes of `bytes`: the
/// canonical uncompressed encoding of the point read from their start, or
/// `None` where it rejects them.
pub uninterp spec fn point_reading(group: GroupId, bytes: Seq<u8>) -> Option<Seq<u8>>;

/// What the validating compressed deserializer makes of `bytes`, as the
/// canonical uncompressed encoding of the point read, or `None` where it
/// rejects them.
pub uninterp spec fn point_decompressed(group: GroupId, bytes: Seq<u8>) -> Option<Seq<u8>>;

/// The compressed encoding of the point that `point` encodes.
pub uninterp spec fn point_compressed(group: GroupId, point: Seq<u8>) -> Seq<u8>;

/// The fixed generator of `group`, in its canonical uncompressed encoding.
pub open spec fn generator_point(group: GroupId) -> Seq<u8> {
    match group {
        GroupId::G1 => G1_GENERATOR_ENCODING@,
        GroupId::G2 => G2_GENERATOR_ENCODING@,
    }
}

/// The neutral element of `group`, the point at infinity. In its encoding
/// both coordinates are zero, and the last byte holds the flag of the point
/// at infinity.
pub open spec fn identity_point(group: GroupId) -> Seq<u8> {
    Seq::new(
        uncompressed_len(group),
        |i: int|
            if i == uncompressed_len(group) - 1 {
                0x40u8
            } else {
                0u8
            },
    )
}

/// The multiple `scalar * point` in `group`.
pub uninterp spec fn point_mul(group: GroupId, point: Seq<u8>, scalar: nat) -> Seq<u8>;

/// The sum `a + b` in `group`.
pub uninterp spec fn point_add(group: GroupId, a: Seq<u8>, b: Seq<u8>) -> Seq<u8>;

/// The pairing `e(p, q)` of a G1 point and a G2 point, as the uncompressed
/// encoding of the target-group element.
pub uninterp spec fn pairing_value(p: Seq<u8>, q: Seq<u8>) -> Seq<u8>;

/// The G2 point that a ChaCha20 generator seeded with `seed` yields first.
pub uninterp spec fn seeded_point(seed: Seq<u8>) -> Seq<u8>;

/// Whether `bytes` are the canonical uncompressed encoding of a point of
/// `group`: the validating deserializer reads them back as themselves.
pub open spec fn is_point(group: GroupId, bytes: Seq<u8>) -> bool {
    &&& bytes.len() == uncompressed_len(group)
    &&& point_reading(group, bytes) == Some(bytes)
}

/// `G1Affine::deserialize_uncompressed`, which checks the curve equation and
/// the subgroup, followed by `serialize_uncompressed` of the point that was
/// read. What comes back is named by `point_reading`. It is a canonical
/// encoding: it has the length of an uncompressed point, and reading it gives
/// it back.
#[verifier::external_body]
fn g1_read(bytes: &[u8]) -> (r: Option<Vec<u8>>)
    ensures
        match r {
            Some(c) => point_reading(GroupId::G1, bytes@) == Some(c@) && is_point(GroupId::G1, c@),
            None => point_reading(GroupId::G1, bytes@) is None,
        },
{
    match G1Affine::deserialize_uncompressed(bytes) {
        Ok(p) => {
            let mut out = Vec::new();
            p.serialize_uncompressed(&mut out).unwrap();
            Some(out)
        },
        Err(_) => None,
    }
}

/// `G2Affine::deserialize_uncompressed` followed by `serialize_uncompressed`
/// of the point that was read, with the same claims as for G1.
#[verifier::external_body]
fn g2_read(bytes: &[u8]) -> (r: Option<Vec<u8>>)
    ensures
        match r {
            Some(c) => point_reading(GroupId::G2, bytes@) == Some(c@) && is_point(GroupId::G2, c@),
            None => point_reading(GroupId::G2, bytes@) is None,
        },
{
    match G2Affine::deserialize_uncompressed(bytes) {
        Ok(p) => {
            let mut out = Vec::new();
            p.serialize_uncompressed(&mut out).unwrap();
            Some(out)
        },
        Err(_) => None,
    }
}

/// `G1Affine::deserialize_compressed`, which checks the subgroup, followed
/// by `serialize_uncompressed` of the point that was read. What comes back
/// is named by `point_decompressed`, and is a canonical encoding.
#[verifier::external_body]
fn g1_decompress(bytes: &[u8]) -> (r: Option<Vec<u8>>)
    ensures
        match r {
            Some(c) => point_decompressed(GroupId::G1, bytes@) == Some(c@) && is_point(
                GroupId::G1,
                c@,
            ),
            None => point_decompressed(GroupId::G1, bytes@) is None,
        },
{
    match G1Affine::deserialize_compressed(bytes) {
        Ok(p) => {
            let mut out = Vec::new();
            p.serialize_uncompressed(&mut out).unwrap();
            Some(out)
        },
        Err(_) => None,
    }
}

/// `G2Affine::deserialize_compressed` followed by `serialize_uncompressed`
/// of the point that was read, with the same claims as for G1.
#[verifier::external_body]
fn g2_decompress(bytes: &[u8]) -> (r: Option<Vec<u8>>)
    ensures
        match r {
            Some(c) => point_decompressed(GroupId::G2, bytes@) == Some(c@) && is_point(
                GroupId::G2,
                c@,
            ),
            None => point_decompressed(GroupId::G2, bytes@) is None,
        },
{
    match G2Affine::deserialize_compressed(bytes) {
        Ok(p) => {
            let mut out = Vec::new();
            p.serialize_uncompressed(&mut out).unwrap();
            Some(out)
        },
        Err(_) => None,
    }
}

/// `serialize_compressed` of a G1 point. What comes back is named by
/// `point_compressed`; it has 95 bytes, and `deserialize_compressed` reads it
/// back as the same point.
#[verifier::external_body]
fn g1_compress(p: &Vec<u8>) -> (r: Vec<u8>)
    requires
        is_point(GroupId::G1, p@),
    ensures
        r@ == point_compressed(GroupId::G1, p@),
        r@.len() == compressed_len(GroupId::G1),
        point_decompressed(GroupId::G1, r@) == Some(p@),
{
    let a = G1Affine::deserialize_uncompressed_unchecked(&p[..]).unwrap();
    let mut out = Vec::new();
    a.serialize_compressed(&mut out).unwrap();
    out
}

/// `serialize_compressed` of a G2 point. What comes back is named by
/// `point_compressed`; it has 285 bytes, and `deserialize_compressed` reads
/// it back as the same point.
#[verifier::external_body]
fn g2_compress(p: &Vec<u8>) -> (r: Vec<u8>)
    requires
        is_point(GroupId::G2, p@),
    ensures
        r@ == point_compressed(GroupId::G2, p@),
        r@.len() == compressed_len(GroupId::G2),
        point_decompressed(GroupId::G2, r@) == Some(p@),
{
    let a = G2Affine::deserialize_uncompressed_unchecked(&p[..]).unwrap();
    let mut out = Vec::new();
    a.serialize_compressed(&mut out).unwrap();
    out
}

/// `CanonicalSerialize::uncompressed_size` of a G1 point, which is 190 for
/// every point.
#[verifier::external_body]
fn g1_uncompressed_size() -> (size: usize)
    ensures
        size == uncompressed_len(GroupId::G1),
{
    G1Affine::zero().uncompressed_size()
}

/// `CanonicalSerialize::compressed_size` of a G1 point, which is 95 for
/// every point.
#[verifier::external_body]
fn g1_compressed_size() -> (size: usize)
    ensures
        size == compressed_len(GroupId::G1),
{
    G1Affine::zero().compressed_size()
}

/// `CanonicalSerialize::uncompressed_size` of a G2 point, which is 570 for
/// every point.
#[verifier::external_body]
fn g2_uncompressed_size() -> (size: usize)
    ensures
        size == uncompressed_len(GroupId::G2),
{
    G2Affine::zero().uncompressed_size()
}

/// `CanonicalSerialize::compressed_size` of a G2 point, which is 285 for
/// every point.
#[verifier::external_body]
fn g2_compressed_size() -> (size: usize)
    ensures
        size == compressed_len(GroupId::G2),
{
    G2Affine::zero().compressed_size()
}

/// `G1Affine::generator`, in its canonical encoding: the coordinates that
/// the curve fixes for the generator, as `generator_point` writes them out.
#[verifier::external_body]
fn g1_generator() -> (r: Vec<u8>)
    ensures
        r@ == generator_point(GroupId::G1),
        is_point(GroupId::G1, r@),
{
    let mut out = Vec::new();
    G1Affine::generator().serialize_uncompressed(&mut out).unwrap();
    out
}

/// `G2Affine::generator`, in its canonical encoding: the coordinates that
/// the curve fixes for the generator, as `generator_point` writes them out.
#[verifier::external_body]
fn g2_generator() -> (r: Vec<u8>)
    ensures
        r@ == generator_point(GroupId::G2),
        is_point(GroupId::G2, r@),
{
    let mut out = Vec::new();
    G2Affine::generator().serialize_uncompressed(&mut out).unwrap();
    out
}

/// `G1Affine::zero`, the point at infinity, in its canonical encoding: zero
/// coordinates, and the flag of the point at infinity in the last byte.
#[verifier::external_body]
fn g1_identity() -> (r: Vec<u8>)
    ensures
        r@ == identity_point(GroupId::G1),
        is_point(GroupId::G1, r@),
{
    let mut out = Vec::new();
    G1Affine::zero().serialize_uncompressed(&mut out).unwrap();
    out
}

/// `G2Affine::zero`, the point at infinity, in its canonical encoding: zero
/// coordinates, and the flag of the point at infinity in the last byte.
#[verifier::external_body]
fn g2_identity() -> (r: Vec<u8>)
    ensures
        r@ == identity_point(GroupId::G2),
        is_point(GroupId::G2, r@),
{
    let mut out = Vec::new();
    G2Affine::zero().serialize_uncompressed(&mut out).unwrap();
    out
}

/// `Mul` of `G1Affine` by a scalar, brought back to affine form with
/// `into_affine`. What comes back is named by `point_mul`, and is the
/// canonical encoding of a point of the group.
#[verifier::external_body]
fn g1_scale(p: &Vec<u8>, s: &[u64; 12]) -> (r: Vec<u8>)
    requires
        is_point(GroupId::G1, p@),
        limbs_value(s@) < scalar_modulus(),
    ensures
        r@ == point_mul(GroupId::G1, p@, limbs_value(s@)),
        is_point(GroupId::G1, r@),
{
    let a = G1Affine::deserialize_uncompressed_unchecked(&p[..]).unwrap();
    let k = Fr::from_bigint(BigInt::new(*s)).unwrap();
    let mut out = Vec::new();
    (a * k).into_affine().serialize_uncompressed(&mut out).unwrap();
    out
}

/// `Mul` of `G2Affine` by a scalar, brought back to affine form with
/// `into_affine`. What comes back is named by `point_mul`, and is the
/// canonical encoding of a point of the group.
#[verifier::external_body]
fn g2_scale(p: &Vec<u8>, s: &[u64; 12]) -> (r: Vec<u8>)
    requires
        is_point(GroupId::G2, p@),
        limbs_value(s@) < scalar_modulus(),
    ensures
        r@ == point_mul(GroupId::G2, p@, limbs_value(s@)),
        is_point(GroupId::G2, r@),
{
    let a = G2Affine::deserialize_uncompressed_unchecked(&p[..]).unwrap();
    let k = Fr::from_bigint(BigInt::new(*s)).unwrap();
    let mut out = Vec::new();
    (a * k).into_affine().serialize_uncompressed(&mut out).unwrap();
    out
}

/// `Add` of two `G1Affine` points, brought back to affine form with
/// `into_affine`. What comes back is named by `point_add`, and is the
/// canonical encoding of a point of the group.
#[verifier::external_body]
fn g1_sum(p: &Vec<u8>, q: &Vec<u8>) -> (r: Vec<u8>)
    requires
        is_point(GroupId::G1, p@),
        is_point(GroupId::G1, q@),
    ensures
        r@ == point_add(GroupId::G1, p@, q@),
        is_point(GroupId::G1, r@),
{
    let a = G1Affine::deserialize_uncompressed_unchecked(&p[..]).unwrap();
    let b = G1Affine::deserialize_uncompressed_unchecked(&q[..]).unwrap();
    let mut out = Vec::new();
    (a + b).into_affine().serialize_uncompressed(&mut out).unwrap();
    out
}

/// `Add` of two `G2Affine` points, brought back to affine form with
/// `into_affine`. What comes back is named by `point_add`, and is the
/// canonical encoding of a point of the group.
#[verifier::external_body]
fn g2_sum(p: &Vec<u8>, q: &Vec<u8>) -> (r: Vec<u8>)
    requires
        is_point(GroupId::G2, p@),
        is_point(GroupId::G2, q@),
    ensures
        r@ == point_add(GroupId::G2, p@, q@),
        is_point(GroupId::G2, r@),
{
    let a = G2Affine::deserialize_uncompressed_unchecked(&p[..]).unwrap();
    let b = G2Affine::deserialize_uncompressed_unchecked(&q[..]).unwrap();
    let mut out = Vec::new();
    (a + b).into_affine().serialize_uncompressed(&mut out).unwrap();
    out
}

/// `UniformRand::rand` of `G1Projective` on a given generator, brought to
/// affine form with `into_affine`: the canonical encoding of some point of
/// the group. Nothing is said of which.
#[verifier::external_body]
fn g1_sample(rng: &mut ChaCha20Rng) -> (r: Vec<u8>)
    ensures
        is_point(GroupId::G1, r@),
{
    let mut out = Vec::new();
    G1Projective::rand(rng).into_affine().serialize_uncompressed(&mut out).unwrap();
    out
}

/// `ChaCha20Rng::from_seed` and the first draw of a `G2Projective` with
/// `Rng::gen` from the generator that it returns, brought to affine form.
/// What comes back depends on the seed alone and is named by `seeded_point`;
/// it is the canonical encoding of a point of the group.
#[verifier::external_body]
fn g2_from_seed(seed: &[u8; 32]) -> (r: Vec<u8>)
    ensures
        r@ == seeded_point(seed@),
        is_point(GroupId::G2, r@),
{
    let mut out = Vec::new();
    let p: G2Projective = ChaCha20Rng::from_seed(*seed).gen();
    p.into_affine().serialize_uncompressed(&mut out).unwrap();
    out
}

/// `Pairing::pairing` of MNT6-753, followed by `serialize_uncompressed` of
/// its result, which is named by `pairing_value`. The points at infinity are
/// kept away from it: the pairing of this curve has no case for them.
#[verifier::external_body]
fn pairing_of(p: &Vec<u8>, q: &Vec<u8>) -> (r: Vec<u8>)
    requires
        is_point(GroupId::G1, p@),
        is_point(GroupId::G2, q@),
        p@ != identity_point(GroupId::G1),
        q@ != identity_point(GroupId::G2),
    ensures
        r@ == pairing_value(p@, q@),
{
    let a = G1Affine::deserialize_uncompressed_unchecked(&p[..]).unwrap();
    let b = G2Affine::deserialize_uncompressed_unchecked(&q[..]).unwrap();
    let mut out = Vec::new();
    MNT6_753::pairing(a, b).serialize_uncompressed(&mut out).unwrap();
    out
}

/// What the algorithms of the ceremony need of a group: they are written
/// once, for both G1 and G2.
pub trait CurvePoint: Sized + Send + Sync {
    /// The group of this type of point.
    spec fn group() -> GroupId;

    /// The canonical uncompressed encoding.
    spec fn encoding(&self) -> Seq<u8>;

    /// The neutral element.
    fn identity() -> (r: Self)
        ensures
            r.encoding() == identity_point(Self::group()),
    ;

    /// The fixed generator.
    fn generator() -> (r: Self)
        ensures
            r.encoding() == generator_point(Self::group()),
    ;

    /// The multiple `s * self`.
    fn scale(&self, s: &Scalar) -> (r: Self)
        ensures
            r.encoding() == point_mul(Self::group(), self.encoding(), s@),
    ;

    /// The sum `self + other`.
    fn plus(&self, other: &Self) -> (r: Self)
        ensures
            r.encoding() == point_add(Self::group(), self.encoding(), other.encoding()),
    ;

    /// A second copy of the point.
    fn duplicate(&self) -> (r: Self)
        ensures
            r.encoding() == self.encoding(),
    ;

    /// Whether two points are the same.
    fn same(&self, other: &Self) -> (b: bool)
        ensures
            b == (self.encoding() == other.encoding()),
    ;

    /// Whether the point is the neutral element.
    fn is_identity(&self) -> (b: bool)
        ensures
            b == (self.encoding() == identity_point(Self::group())),
    ;

    /// The canonical uncompressed encoding.
    fn as_bytes(&self) -> (bytes: &Vec<u8>)
        ensures
            bytes@ == self.encoding(),
            is_point(Self::group(), bytes@),
    ;

    /// The compressed encoding, which `from_compressed` reads back as this
    /// point.
    fn to_compressed(&self) -> (bytes: Vec<u8>)
        ensures
            bytes@ == point_compressed(Self::group(), self.encoding()),
            bytes@.len() == compressed_len(Self::group()),
            point_decompressed(Self::group(), bytes@) == Some(self.encoding()),
            is_point(Self::group(), self.encoding()),
    ;

    /// The point that `bytes` are the canonical uncompressed encoding of,
    /// if they are one.
    fn from_bytes(bytes: &[u8]) -> (r: Option<Self>)
        ensures
            r is Some <==> is_point(Self::group(), bytes@),
            r matches Some(p) ==> p.encoding() == bytes@,
    ;

    /// The point that `bytes` are a compressed encoding of, if they are
    /// one.
    fn from_compressed(bytes: &[u8]) -> (r: Option<Self>)
        ensures
            match r {
                Some(p) => point_decompressed(Self::group(), bytes@) == Some(p.encoding()),
                None => point_decompressed(Self::group(), bytes@) is None,
            },
    ;
}

/// The encodings of a sequence of points.
pub open spec fn encodings<G: CurvePoint>(v: Seq<G>) -> Seq<Seq<u8>> {
    Seq::new(v.len(), |i: int| v[i].encoding())
}

/// A point of G1.
#[derive(Debug, PartialEq, Eq)]
pub struct G1Point {
    bytes: Vec<u8>,
}

/// A point of G2.
#[derive(Debug, PartialEq, Eq)]
pub struct G2Point {
    bytes: Vec<u8>,
}

impl View for G1Point {
    type V = Seq<u8>;

    closed spec fn view(&self) -> Seq<u8> {
        self.bytes@
    }
}

impl View for G2Point {
    type V = Seq<u8>;

    closed spec fn view(&self) -> Seq<u8> {
        self.bytes@
    }
}

impl Clone for G1Point {
    fn clone(&self) -> (r: Self)
        ensures
            r@ == self@,
    {
        self.duplicate()
    }
}

impl Clone for G2Point {
    fn clone(&self) -> (r: Self)
        ensures
            r@ == self@,
    {
        self.duplicate()
    }
}

impl G1Point {
    #[verifier::type_invariant]
    spec fn valid(self) -> bool {
        is_point(GroupId::G1, self.bytes@)
    }

    /// A point of the group drawn from `rng`.
    pub fn sample(rng: &mut ChaCha20Rng) -> (r: G1Point)
        ensures
            is_point(GroupId::G1, r@),
    {
        let bytes = g1_sample(rng);
        G1Point { bytes }
    }
}

impl CurvePoint for G1Point {
    open spec fn group() -> GroupId {
        GroupId::G1
    }

    open spec fn encoding(&self) -> Seq<u8> {
        self@
    }

    fn identity() -> (r: Self) {
        let bytes = g1_identity();
        G1Point { bytes }
    }

    fn generator() -> (r: Self) {
        let bytes = g1_generator();
        G1Point { bytes }
    }

    fn scale(&self, s: &Scalar) -> (r: Self) {
        proof {
            use_type_invariant(self);
        }
        let limbs = s.to_limbs();
        let bytes = g1_scale(&self.bytes, &limbs);
        G1Point { bytes }
    }

    fn plus(&self, other: &Self) -> (r: Self) {
        proof {
            use_type_invariant(self);
            use_type_invariant(other);
        }
        let bytes = g1_sum(&self.bytes, &other.bytes);
        G1Point { bytes }
    }

    fn duplicate(&self) -> (r: Self) {
        proof {
            use_type_invariant(self);
        }
        let bytes = self.bytes.clone();
        assert(bytes@ =~= self.bytes@);
        G1Point { bytes }
    }

    fn same(&self, other: &Self) -> (b: bool) {
        same_bytes(self.bytes.as_slice(), other.bytes.as_slice())
    }

    fn is_identity(&self) -> (b: bool) {
        let zero = Self::identity();
        same_bytes(self.bytes.as_slice(), zero.bytes.as_slice())
    }

    fn as_bytes(&self) -> (bytes: &Vec<u8>) {
        proof {
            use_type_invariant(self);
        }
        &self.bytes
    }

    fn to_compressed(&self) -> (bytes: Vec<u8>) {
        proof {
            use_type_invariant(self);
        }
        g1_compress(&self.bytes)
    }

    fn from_bytes(bytes: &[u8]) -> (r: Option<Self>) {
        match g1_read(bytes) {
            Some(c) => {
                if same_bytes(c.as_slice(), bytes) {
                    Some(G1Point { bytes: c })
                } else {
                    None
                }
            },
            None => None,
        }
    }

    fn from_compressed(bytes: &[u8]) -> (r: Option<Self>) {
        match g1_decompress(bytes) {
            Some(c) => Some(G1Point { bytes: c }),
            None => None,
        }
    }
}

impl G2Point {
    #[verifier::type_invariant]
    spec fn valid(self) -> bool {
        is_point(GroupId::G2, self.bytes@)
    }

    /// The point that the ChaCha20 generator seeded with `seed` yields first.
    pub fn from_seed(seed: &[u8; 32]) -> (r: G2Point)
        ensures
            r@ == seeded_point(seed@),
    {
        let bytes = g2_from_seed(seed);
        G2Point { bytes }
    }
}

impl CurvePoint for G2Point {
    open spec fn group() -> GroupId {
        GroupId::G2
    }

    open spec fn encoding(&self) -> Seq<u8> {
        self@
    }

    fn identity() -> (r: Self) {
        let bytes = g2_identity();
        G2Point { bytes }
    }

    fn generator() -> (r: Self) {
        let bytes = g2_generator();
        G2Point { bytes }
    }

    fn scale(&self, s: &Scalar) -> (r: Self) {
        proof {
            use_type_invariant(self);
        }
        let limbs = s.to_limbs();
        let bytes = g2_scale(&self.bytes, &limbs);
        G2Point { bytes }
    }

    fn plus(&self, other: &Self) -> (r: Self) {
        proof {
            use_type_invariant(self);
            use_type_invariant(other);
        }
        let bytes = g2_sum(&self.bytes, &other.bytes);
        G2Point { bytes }
    }

    fn duplicate(&self) -> (r: Self) {
        proof {
            use_type_invariant(self);
        }
        let bytes = self.bytes.clone();
        assert(bytes@ =~= self.bytes@);
        G2Point { bytes }
    }

    fn same(&self, other: &Self) -> (b: bool) {
        same_bytes(self.bytes.as_slice(), other.bytes.as_slice())
    }

    fn is_identity(&self) -> (b: bool) {
        let zero = Self::identity();
        same_bytes(self.bytes.as_slice(), zero.bytes.as_slice())
    }

    fn as_bytes(&self) -> (bytes: &Vec<u8>) {
        proof {
            use_type_invariant(self);
        }
        &self.bytes
    }

    fn to_compressed(&self) -> (bytes: Vec<u8>) {
        proof {
            use_type_invariant(self);
        }
        g2_compress(&self.bytes)
    }

    fn from_bytes(bytes: &[u8]) -> (r: Option<Self>) {
        match g2_read(bytes) {
            Some(c) => {
                if same_bytes(c.as_slice(), bytes) {
                    Some(G2Point { bytes: c })
                } else {
                    None
                }
            },
            None => None,
        }
    }

    fn from_compressed(bytes: &[u8]) -> (r: Option<Self>) {
        match g2_decompress(bytes) {
            Some(c) => Some(G2Point { bytes: c }),
            None => None,
        }
    }
}

/// Length of the encoding of a point of `group`, compressed or not.
pub fn encoded_size(group: GroupId, compressed: bool) -> (size: usize)
    ensures
        size == if compressed {
            compressed_len(group)
        } else {
            uncompressed_len(group)
        },
{
    match group {
        GroupId::G1 => if compressed {
            g1_compressed_size()
        } else {
            g1_uncompressed_size()
        },
        GroupId::G2 => if compressed {
            g2_compressed_size()
        } else {
            g2_uncompressed_size()
        },
    }
}

/// The pairing `e(p, q)`, as the uncompressed encoding of the target-group
/// element. Where `p` or `q` is the neutral element the pairing is the
/// neutral element of the target group, which `None` stands for.
pub fn pairing(p: &G1Point, q: &G2Point) -> (r: Option<Vec<u8>>)
    ensures
        r is None <==> p@ == identity_point(GroupId::G1) || q@ == identity_point(GroupId::G2),
        r matches Some(value) ==> value@ == pairing_value(p@, q@),
{
    proof {
        use_type_invariant(p);
        use_type_invariant(q);
    }
    if p.is_identity() || q.is_identity() {
        None
    } else {
        Some(pairing_of(&p.bytes, &q.bytes))
    }
}

} // verus!
