use ark_ec::pairing::Pairing;
use ark_ec::{AffineRepr, CurveGroup};
use ark_ff::{BigInt, PrimeField};
use ark_mnt6_753::{Fr, G1Affine, G1Projective, G2Affine, G2Projective, MNT6_753};
use ark_serialize::{CanonicalDeserialize, CanonicalSerialize};
use ark_std::UniformRand;
use powers_of_tau::curve::{encoded_size, pairing, GroupId};
use powers_of_tau::generators::{G1_GENERATOR_ENCODING, G2_GENERATOR_ENCODING};
use powers_of_tau::{CurvePoint, G1Point, G2Point, Scalar};
use rand::{Rng, SeedableRng};
use rand_chacha::ChaCha20Rng;

fn g1_bytes(p: &G1Affine) -> Vec<u8> {
    let mut out = Vec::new();
    p.serialize_uncompressed(&mut out).unwrap();
    out
}

fn g2_bytes(p: &G2Affine) -> Vec<u8> {
    let mut out = Vec::new();
    p.serialize_uncompressed(&mut out).unwrap();
    out
}

fn fr(s: &Scalar) -> Fr {
    Fr::from_bigint(BigInt::new(s.to_limbs())).unwrap()
}

#[test]
fn generator_encodings_are_those_of_the_curve() {
    assert_eq!(G1_GENERATOR_ENCODING.to_vec(), g1_bytes(&G1Affine::generator()));
    assert_eq!(G2_GENERATOR_ENCODING.to_vec(), g2_bytes(&G2Affine::generator()));
    assert_eq!(G1Point::generator().as_bytes(), &G1_GENERATOR_ENCODING.to_vec());
    assert_eq!(G2Point::generator().as_bytes(), &G2_GENERATOR_ENCODING.to_vec());
}

#[test]
fn generators_are_those_of_the_curve() {
    assert_eq!(G1Point::generator().as_bytes(), &g1_bytes(&G1Affine::generator()));
    assert_eq!(G2Point::generator().as_bytes(), &g2_bytes(&G2Affine::generator()));
}

#[test]
fn identities_are_the_points_at_infinity() {
    let zero = G1Point::identity();
    assert_eq!(zero.as_bytes(), &g1_bytes(&G1Affine::zero()));
    assert_eq!(zero.as_bytes().len(), 190);
    assert_eq!(zero.as_bytes()[189], 64);
    assert!(zero.as_bytes()[..189].iter().all(|b| *b == 0));
    assert_eq!(G2Point::identity().as_bytes(), &g2_bytes(&G2Affine::zero()));
    assert_eq!(G2Point::identity().as_bytes().len(), 570);
    assert_eq!(G2Point::identity().as_bytes()[569], 64);
    assert!(G2Point::identity().as_bytes()[..569].iter().all(|b| *b == 0));
    assert_ne!(G1Point::identity(), G1Point::generator());
}

#[test]
fn scale_is_the_multiplication_of_the_curve() {
    let s = Scalar::random();
    let expected1 = (G1Affine::generator() * fr(&s)).into_affine();
    let expected2 = (G2Affine::generator() * fr(&s)).into_affine();
    assert_eq!(G1Point::generator().scale(&s).as_bytes(), &g1_bytes(&expected1));
    assert_eq!(G2Point::generator().scale(&s).as_bytes(), &g2_bytes(&expected2));
    assert_ne!(G1Point::generator().scale(&Scalar::from_u64(2)), G1Point::generator());
}

#[test]
fn scale_by_zero_and_one() {
    let g = G1Point::generator();
    assert_eq!(g.scale(&Scalar::from_u64(0)), G1Point::identity());
    assert_eq!(g.scale(&Scalar::from_u64(1)), g);
    let h = G2Point::generator();
    assert_eq!(h.scale(&Scalar::from_u64(0)), G2Point::identity());
    assert_eq!(h.scale(&Scalar::from_u64(1)), h);
}

#[test]
fn plus_is_the_addition_of_the_curve() {
    let g = G1Point::generator();
    let two_g = g.scale(&Scalar::from_u64(2));
    assert_eq!(g.plus(&g), two_g);
    assert_eq!(g.plus(&two_g), g.scale(&Scalar::from_u64(3)));
    assert_eq!(g.plus(&G1Point::identity()), g);
    let h = G2Point::generator();
    assert_eq!(h.plus(&h), h.scale(&Scalar::from_u64(2)));
    assert_eq!(G2Point::identity().plus(&h), h);
    let expected = (G1Affine::generator() + G1Affine::generator()).into_affine();
    assert_eq!(g.plus(&g).as_bytes(), &g1_bytes(&expected));
}

#[test]
fn same_and_duplicate() {
    let g = G1Point::generator();
    let h = g.scale(&Scalar::from_u64(9));
    assert!(g.same(&g.duplicate()));
    assert!(!g.same(&h));
    assert_eq!(h.clone(), h);
    let p = G2Point::generator();
    assert!(p.same(&p.duplicate()));
    assert!(!p.same(&G2Point::identity()));
    assert_eq!(p.clone(), p);
}

#[test]
fn from_bytes_reads_canonical_encodings() {
    let p = G1Point::generator().scale(&Scalar::from_u64(11));
    assert_eq!(G1Point::from_bytes(p.as_bytes()), Some(p));
    let q = G2Point::generator().scale(&Scalar::from_u64(11));
    assert_eq!(G2Point::from_bytes(q.as_bytes()), Some(q));
    assert_eq!(
        G1Point::from_bytes(G1Point::identity().as_bytes()),
        Some(G1Point::identity())
    );
}

#[test]
fn from_bytes_rejects_what_is_no_point() {
    let g = G1Point::generator();
    assert_eq!(G1Point::from_bytes(&[0xffu8; 190]), None);
    assert_eq!(G1Point::from_bytes(&[]), None);
    assert_eq!(G1Point::from_bytes(&g.as_bytes()[..189]), None);
    let mut longer = g.as_bytes().clone();
    longer.push(0);
    assert_eq!(G1Point::from_bytes(&longer), None);
    // a point off the curve
    let mut off = g.as_bytes().clone();
    off[95] ^= 1;
    assert_eq!(G1Point::from_bytes(&off), None);
    // the sign flag of another point
    let mut flipped = g.as_bytes().clone();
    flipped[189] ^= 0x80;
    assert_eq!(G1Point::from_bytes(&flipped), None);
    // infinity with a coordinate that is not zero
    let mut infinity = G1Point::identity().as_bytes().clone();
    infinity[0] = 1;
    assert_eq!(G1Point::from_bytes(&infinity), None);
    assert_eq!(G2Point::from_bytes(&[0u8; 570]), None);
    assert_eq!(G2Point::from_bytes(g.as_bytes()), None);
}

#[test]
fn from_bytes_rejects_a_point_outside_the_subgroup() {
    // a point of the curve of G2 that the cofactor was not cleared from
    let mut rng = ChaCha20Rng::from_seed([1u8; 32]);
    let mut found = None;
    while found.is_none() {
        let x = ark_mnt6_753::Fq3::rand(&mut rng);
        if let Some(p) = G2Affine::get_point_from_x_unchecked(x, true) {
            if !p.is_in_correct_subgroup_assuming_on_curve() {
                found = Some(p);
            }
        }
    }
    assert_eq!(G2Point::from_bytes(&g2_bytes(&found.unwrap())), None);
}

#[test]
fn compressed_encoding_is_that_of_the_curve() {
    let p = G1Point::generator().scale(&Scalar::from_u64(5));
    let ark = G1Affine::deserialize_uncompressed(p.as_bytes().as_slice()).unwrap();
    let mut expected = Vec::new();
    ark.serialize_compressed(&mut expected).unwrap();
    assert_eq!(p.to_compressed(), expected);
    assert_eq!(p.to_compressed().len(), 95);
    let q = G2Point::generator().scale(&Scalar::from_u64(5));
    let ark = G2Affine::deserialize_uncompressed(q.as_bytes().as_slice()).unwrap();
    let mut expected = Vec::new();
    ark.serialize_compressed(&mut expected).unwrap();
    assert_eq!(q.to_compressed(), expected);
    assert_eq!(q.to_compressed().len(), 285);
}

#[test]
fn compressed_encoding_is_read_back() {
    for k in [0u64, 1, 2, 3, 1000] {
        let p = G1Point::generator().scale(&Scalar::from_u64(k));
        assert_eq!(G1Point::from_compressed(&p.to_compressed()), Some(p));
        let q = G2Point::generator().scale(&Scalar::from_u64(k));
        assert_eq!(G2Point::from_compressed(&q.to_compressed()), Some(q));
    }
}

#[test]
fn from_compressed_rejects_what_is_no_point() {
    assert_eq!(G1Point::from_compressed(&[0xffu8; 95]), None);
    assert_eq!(G1Point::from_compressed(&[]), None);
    assert_eq!(G2Point::from_compressed(&[0xffu8; 285]), None);
    let p = G1Point::generator();
    assert_eq!(G1Point::from_compressed(&p.to_compressed()[..94]), None);
}

#[test]
fn seeded_point_is_the_first_draw_of_chacha() {
    let seed = [42u8; 32];
    let expected: G2Projective = ChaCha20Rng::from_seed(seed).gen();
    assert_eq!(G2Point::from_seed(&seed).as_bytes(), &g2_bytes(&expected.into_affine()));
    assert_ne!(G2Point::from_seed(&seed), G2Point::from_seed(&[43u8; 32]));
}

#[test]
fn sampled_point_follows_the_generator() {
    let mut rng = ChaCha20Rng::from_seed([5u8; 32]);
    let mut reference = ChaCha20Rng::from_seed([5u8; 32]);
    let first = G1Point::sample(&mut rng);
    let second = G1Point::sample(&mut rng);
    assert_eq!(first.as_bytes(), &g1_bytes(&G1Projective::rand(&mut reference).into_affine()));
    assert_eq!(second.as_bytes(), &g1_bytes(&G1Projective::rand(&mut reference).into_affine()));
    assert_ne!(first, second);
    assert_eq!(G1Point::from_bytes(first.as_bytes()), Some(first));
}

#[test]
fn pairing_is_that_of_the_curve() {
    let p = G1Point::generator().scale(&Scalar::from_u64(3));
    let q = G2Point::generator().scale(&Scalar::from_u64(4));
    let a = G1Affine::deserialize_uncompressed(p.as_bytes().as_slice()).unwrap();
    let b = G2Affine::deserialize_uncompressed(q.as_bytes().as_slice()).unwrap();
    let mut expected = Vec::new();
    MNT6_753::pairing(a, b).serialize_uncompressed(&mut expected).unwrap();
    assert_eq!(pairing(&p, &q), Some(expected.clone()));
    assert_eq!(expected.len(), 570);
    assert_ne!(pairing(&p, &q), pairing(&G1Point::generator(), &q));
}

#[test]
fn pairing_is_bilinear() {
    let g = G1Point::generator();
    let h = G2Point::generator();
    let left = pairing(&g.scale(&Scalar::from_u64(6)), &h);
    let right = pairing(&g.scale(&Scalar::from_u64(2)), &h.scale(&Scalar::from_u64(3)));
    assert_eq!(left, right);
    assert!(left.is_some());
}

#[test]
fn pairing_with_the_neutral_element_is_none() {
    let g = G1Point::generator();
    let h = G2Point::generator();
    assert_eq!(pairing(&G1Point::identity(), &h), None);
    assert_eq!(pairing(&g, &G2Point::identity()), None);
    assert_eq!(pairing(&G1Point::identity(), &G2Point::identity()), None);
    assert!(G1Point::identity().is_identity());
    assert!(!g.is_identity());
    assert!(G2Point::identity().is_identity());
    assert!(!h.is_identity());
}

#[test]
fn encoded_sizes() {
    assert_eq!(encoded_size(GroupId::G1, false), 190);
    assert_eq!(encoded_size(GroupId::G1, true), 95);
    assert_eq!(encoded_size(GroupId::G2, false), 570);
    assert_eq!(encoded_size(GroupId::G2, true), 285);
    assert_eq!(G1Affine::generator().uncompressed_size(), 190);
    assert_eq!(G2Affine::generator().compressed_size(), 285);
}

#[test]
fn computed_points_are_canonical_encodings() {
    let s = Scalar::random();
    let p = G1Point::generator().scale(&s);
    let q = G2Point::generator().scale(&s);
    assert_eq!(G1Point::from_bytes(p.as_bytes()), Some(p.clone()));
    assert_eq!(G2Point::from_bytes(q.as_bytes()), Some(q.clone()));
    let sum = p.plus(&G1Point::generator());
    assert_eq!(G1Point::from_bytes(sum.as_bytes()), Some(sum));
    let sum = q.plus(&G2Point::generator());
    assert_eq!(G2Point::from_bytes(sum.as_bytes()), Some(sum));
    let seeded = G2Point::from_seed(&[1u8; 32]);
    assert_eq!(G2Point::from_bytes(seeded.as_bytes()), Some(seeded));
    let read = G1Point::from_compressed(&p.to_compressed()).unwrap();
    assert_eq!(G1Point::from_bytes(read.as_bytes()), Some(read));
    let read = G2Point::from_compressed(&q.to_compressed()).unwrap();
    assert_eq!(G2Point::from_bytes(read.as_bytes()), Some(read));
    assert_eq!(G1Point::from_bytes(G1Point::generator().as_bytes()), Some(G1Point::generator()));
    assert_eq!(G2Point::from_bytes(G2Point::identity().as_bytes()), Some(G2Point::identity()));
}

#[test]
fn operations_on_the_neutral_element() {
    let zero1 = G1Point::identity();
    let zero2 = G2Point::identity();
    let s = Scalar::random();
    assert_eq!(zero1.scale(&s), zero1);
    assert_eq!(zero2.scale(&s), zero2);
    assert_eq!(zero1.plus(&zero1), zero1);
    assert_eq!(zero2.plus(&zero2), zero2);
    assert_eq!(G1Point::from_compressed(&zero1.to_compressed()), Some(zero1.clone()));
    assert_eq!(G2Point::from_compressed(&zero2.to_compressed()), Some(zero2.clone()));
    let g = G1Point::generator();
    let mut order_minus_one = [
        0x5e9063de245e8001u64,
        0xe39d54522cdd119f,
        0x638810719ac425f0,
        0x685acce9767254a4,
        0xb80f0da5cb537e38,
        0xb117e776f218059d,
        0x99d124d9a15af79d,
        0x07fdb925e8a0ed8d,
        0x5eb7e8f96c97d873,
        0xb7f997505b8fafed,
        0x10229022eee2cdad,
        0x0001c4c62d92c411,
    ];
    order_minus_one[0] -= 1;
    let minus_one = Scalar::from_limbs(order_minus_one).unwrap();
    assert_eq!(g.scale(&minus_one).plus(&g), zero1);
    assert_eq!(G2Point::generator().scale(&minus_one).plus(&G2Point::generator()), zero2);
}

#[test]
fn pairing_of_points_drawn_at_random() {
    let mut rng = ChaCha20Rng::from_seed([21u8; 32]);
    for i in 0..6u8 {
        let p = G1Point::sample(&mut rng);
        let q = G2Point::from_seed(&[i; 32]);
        let value = pairing(&p, &q).unwrap();
        assert_eq!(value.len(), 570);
        let two = Scalar::from_u64(2);
        assert_eq!(pairing(&p.scale(&two), &q), pairing(&p, &q.scale(&two)));
    }
}
