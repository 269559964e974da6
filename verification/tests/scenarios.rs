use powers_of_tau::{
    keypair, power_pairs, same_ratio, verify_transform, Accumulator, CurvePoint, G1Point, G2Point,
    Scalar,
};
use rand::SeedableRng;
use rand_chacha::ChaCha20Rng;

fn progression(x: &Scalar, len: usize) -> Vec<G1Point> {
    let mut v = Vec::new();
    let mut acc = Scalar::from_u64(1);
    for _ in 0..len {
        v.push(G1Point::generator().scale(&acc));
        acc = acc.mul(x);
    }
    v
}

#[test]
fn same_ratio_holds_for_one_scalar_in_both_groups() {
    let s = Scalar::random();
    let g1 = G1Point::generator();
    let g2 = G2Point::generator();
    let g1_s = g1.scale(&s);
    let g2_s = g2.scale(&s);
    assert!(same_ratio((&g1, &g1_s), (&g2, &g2_s)));
}

#[test]
fn same_ratio_fails_for_swapped_pair() {
    let s = Scalar::from_u64(5);
    let g1 = G1Point::generator();
    let g2 = G2Point::generator();
    let g1_s = g1.scale(&s);
    let g2_s = g2.scale(&s);
    assert!(!same_ratio((&g1_s, &g1), (&g2, &g2_s)));
}

#[test]
fn power_pairs_of_a_progression_have_its_ratio() {
    let x = Scalar::random();
    let v = progression(&x, 33);
    let gx = G2Point::generator().scale(&x);
    let (p, q) = power_pairs(&v);
    assert!(same_ratio((&p, &q), (&G2Point::generator(), &gx)));
}

#[test]
fn power_pairs_of_a_tampered_progression_lose_the_ratio() {
    let x = Scalar::random();
    let mut v = progression(&x, 33);
    let gx = G2Point::generator().scale(&x);
    v[1] = v[1].scale(&Scalar::from_u64(3));
    let (p, q) = power_pairs(&v);
    assert!(!same_ratio((&p, &q), (&G2Point::generator(), &gx)));
}

#[test]
fn transform_of_the_initial_accumulator_verifies() {
    let digest = [9u8; 64];
    let mut rng = ChaCha20Rng::from_seed([7u8; 32]);
    let before = Accumulator::new();
    let (pk, sk) = keypair(&mut rng, &digest).unwrap();
    let mut after = Accumulator::new();
    let start = std::time::Instant::now();
    after.transform(&sk);
    println!("transform {:?}", start.elapsed());
    let start = std::time::Instant::now();
    assert!(verify_transform(&before, &after, &pk, &digest));
    println!("verify {:?}", start.elapsed());
}

#[test]
fn transform_is_rejected_under_another_digest() {
    let digest_a = [9u8; 64];
    let digest_b = [10u8; 64];
    let mut rng = ChaCha20Rng::from_seed([7u8; 32]);
    let before = Accumulator::new();
    let (pk, sk) = keypair(&mut rng, &digest_a).unwrap();
    let mut after = Accumulator::new();
    after.transform(&sk);
    assert!(!verify_transform(&before, &after, &pk, &digest_b));
}
