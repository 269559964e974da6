use ark_ff::{BigInt, Field, PrimeField};
use ark_mnt6_753::Fr;
use ark_std::UniformRand;
use powers_of_tau::parallel::{available_workers, chunk_count, chunk_len};
use powers_of_tau::powers::{powers_from, tau_powers};
use powers_of_tau::scalar::{modulus_limbs, random_scalars};
use powers_of_tau::Scalar;
use rand::SeedableRng;
use rand_chacha::ChaCha20Rng;

const MODULUS: [u64; 12] = [
    0x5e9063de245e8001,
    0xe39d54522cdd119f,
    0x638810719ac425f0,
    0x685acce9767254a4,
    0xb80f0da5cb537e38,
    0xb117e776f218059d,
    0x99d124d9a15af79d,
    0x07fdb925e8a0ed8d,
    0x5eb7e8f96c97d873,
    0xb7f997505b8fafed,
    0x10229022eee2cdad,
    0x0001c4c62d92c411,
];

fn small(value: u64) -> [u64; 12] {
    let mut limbs = [0u64; 12];
    limbs[0] = value;
    limbs
}

fn to_ark(s: &Scalar) -> Fr {
    Fr::from_bigint(BigInt::new(s.to_limbs())).unwrap()
}

#[test]
fn modulus_is_the_order_of_the_field() {
    assert_eq!(Fr::MODULUS.0, MODULUS);
    assert_eq!(modulus_limbs(), MODULUS);
}

#[test]
fn from_limbs_accepts_below_the_modulus_only() {
    let mut below = MODULUS;
    below[0] -= 1;
    assert!(Scalar::from_limbs(below).is_some());
    assert!(Scalar::from_limbs(MODULUS).is_none());
    assert!(Scalar::from_limbs([u64::MAX; 12]).is_none());
    assert_eq!(Scalar::from_limbs(small(0)).unwrap().to_limbs(), small(0));
}

#[test]
fn from_u64_keeps_the_value() {
    assert_eq!(Scalar::from_u64(0).to_limbs(), small(0));
    assert_eq!(Scalar::from_u64(u64::MAX).to_limbs(), small(u64::MAX));
    assert_eq!(Scalar::from_u64(77), Scalar::from_limbs(small(77)).unwrap());
}

#[test]
fn product_of_small_values() {
    let x = Scalar::from_u64(6);
    let y = Scalar::from_u64(7);
    assert_eq!(x.mul(&y).to_limbs(), small(42));
}

#[test]
fn product_is_reduced_modulo_the_order() {
    let mut limbs = MODULUS;
    limbs[0] -= 1;
    let minus_one = Scalar::from_limbs(limbs).unwrap();
    assert_eq!(minus_one.mul(&minus_one).to_limbs(), small(1));
    let two = Scalar::from_u64(2);
    let mut minus_two = MODULUS;
    minus_two[0] -= 2;
    assert_eq!(minus_one.mul(&two).to_limbs(), minus_two);
}

#[test]
fn power_of_small_values() {
    let three = Scalar::from_u64(3);
    assert_eq!(three.pow(5).to_limbs(), small(243));
    assert_eq!(three.pow(0).to_limbs(), small(1));
    assert_eq!(three.pow(1).to_limbs(), small(3));
    assert_eq!(Scalar::from_u64(0).pow(0).to_limbs(), small(1));
    assert_eq!(Scalar::from_u64(0).pow(9).to_limbs(), small(0));
}

#[test]
fn power_agrees_with_the_field() {
    let x = Scalar::random();
    let expected = to_ark(&x).pow([1_000_003u64]);
    assert_eq!(to_ark(&x.pow(1_000_003)), expected);
}

#[test]
fn duplicate_is_equal() {
    let x = Scalar::random();
    assert_eq!(x.duplicate(), x);
}

#[test]
fn clear_leaves_zero() {
    let mut x = Scalar::from_u64(123456789);
    x.clear();
    assert_eq!(x.to_limbs(), small(0));
}

#[test]
fn random_scalars_are_canonical_and_differ() {
    let v = random_scalars(5);
    assert_eq!(v.len(), 5);
    for s in v.iter() {
        assert!(Scalar::from_limbs(s.to_limbs()).is_some());
    }
    assert_ne!(v[0], v[1]);
    assert_eq!(random_scalars(0).len(), 0);
}

#[test]
fn sample_follows_the_generator() {
    let mut rng = ChaCha20Rng::from_seed([3u8; 32]);
    let mut reference = ChaCha20Rng::from_seed([3u8; 32]);
    let first = Scalar::sample(&mut rng);
    let second = Scalar::sample(&mut rng);
    assert_eq!(to_ark(&first), Fr::rand(&mut reference));
    assert_eq!(to_ark(&second), Fr::rand(&mut reference));
    assert_ne!(first, second);
}

#[test]
fn powers_from_a_start() {
    let tau = Scalar::from_u64(2);
    let v = powers_from(&tau, 3, 4);
    let values: Vec<[u64; 12]> = v.iter().map(|s| s.to_limbs()).collect();
    assert_eq!(values, vec![small(8), small(16), small(32), small(64)]);
    assert_eq!(powers_from(&tau, 5, 0).len(), 0);
}

#[test]
fn tau_powers_do_not_depend_on_the_workers() {
    let tau = Scalar::random();
    let mut expected = Vec::new();
    let mut acc = Scalar::from_u64(1);
    for _ in 0..63 {
        expected.push(acc.duplicate());
        acc = acc.mul(&tau);
    }
    for workers in [0usize, 1, 2, 3, 4, 7, 62, 63, 64, 1000] {
        assert_eq!(tau_powers(&tau, 63, workers), expected);
    }
    assert_eq!(tau_powers(&tau, 0, 4).len(), 0);
    assert_eq!(tau_powers(&tau, 1, 4), vec![Scalar::from_u64(1)]);
}

#[test]
fn chunks_cover_the_range() {
    assert_eq!(chunk_len(63, 4), 16);
    assert_eq!(chunk_count(63, 16), 4);
    assert_eq!(chunk_len(64, 4), 16);
    assert_eq!(chunk_count(64, 16), 4);
    assert_eq!(chunk_len(63, 64), 1);
    assert_eq!(chunk_count(63, 1), 63);
    assert_eq!(chunk_len(0, 4), 1);
    assert_eq!(chunk_count(0, 1), 0);
    assert_eq!(chunk_len(10, 0), 1);
    assert_eq!(chunk_len(5, 1), 5);
    assert_eq!(chunk_count(5, 5), 1);
    assert_eq!(chunk_len(7, 3), 3);
    assert_eq!(chunk_count(7, 3), 3);
}

#[test]
fn there_is_a_worker() {
    assert!(available_workers() >= 1);
}

#[test]
fn exponents_of_two_keys_compose() {
    let tau1 = Scalar::random();
    let tau2 = Scalar::random();
    let alpha1 = Scalar::random();
    let alpha2 = Scalar::random();
    for i in [0u64, 1, 2, 31, 62] {
        let first = tau1.pow(i).mul(&alpha1);
        let second = tau2.pow(i).mul(&alpha2);
        let combined = tau1.mul(&tau2).pow(i).mul(&alpha1.mul(&alpha2));
        assert_eq!(first.mul(&second), combined);
    }
}
