use powers_of_tau::ratio::{merge_pairs_with, power_pairs_with, weighted_sum_of};
use powers_of_tau::{merge_pairs, power_pairs, same_ratio, CurvePoint, G1Point, G2Point, Scalar};

fn multiples(of: &[u64]) -> Vec<G1Point> {
    of.iter().map(|k| G1Point::generator().scale(&Scalar::from_u64(*k))).collect()
}

fn scalars(of: &[u64]) -> Vec<Scalar> {
    of.iter().map(|k| Scalar::from_u64(*k)).collect()
}

#[test]
fn same_ratio_of_equal_pairs() {
    let g1 = G1Point::generator();
    let g2 = G2Point::generator();
    assert!(same_ratio((&g1, &g1), (&g2, &g2)));
    let three = Scalar::from_u64(3);
    let four = Scalar::from_u64(4);
    assert!(!same_ratio((&g1, &g1.scale(&three)), (&g2, &g2.scale(&four))));
    assert!(same_ratio((&g1, &g1.scale(&three)), (&g2.scale(&four), &g2.scale(&Scalar::from_u64(12)))));
}

#[test]
fn same_ratio_with_the_neutral_element() {
    let g1 = G1Point::generator();
    let g2 = G2Point::generator();
    let zero1 = G1Point::identity();
    let zero2 = G2Point::identity();
    // both pairings are the neutral element of the target group
    assert!(same_ratio((&zero1, &zero1), (&g2, &g2.scale(&Scalar::from_u64(2)))));
    assert!(same_ratio((&zero1, &zero1), (&g2, &g2.scale(&Scalar::from_u64(7)))));
    assert!(same_ratio((&g1, &g1.scale(&Scalar::from_u64(3))), (&zero2, &zero2)));
    assert!(same_ratio((&g1, &zero1), (&g2, &zero2)));
    assert!(same_ratio((&zero1, &zero1), (&zero2, &zero2)));
    assert!(same_ratio((&zero1, &g1), (&zero2, &g2)));
    // one pairing is the neutral element, the other is not
    assert!(!same_ratio((&g1, &zero1), (&g2, &g2)));
    assert!(!same_ratio((&zero1, &g1), (&g2, &g2)));
    assert!(!same_ratio((&g1, &g1), (&zero2, &g2)));
    assert!(!same_ratio((&g1, &g1), (&g2, &zero2)));
}

#[test]
fn weighted_sum_of_a_range() {
    let v = multiples(&[1, 2, 3, 4]);
    let rho = scalars(&[10, 20, 30, 40]);
    // 2*20 + 3*30 = 130
    assert_eq!(weighted_sum_of(&v, &rho, 1, 3), G1Point::generator().scale(&Scalar::from_u64(130)));
    assert_eq!(weighted_sum_of(&v, &rho, 2, 2), G1Point::identity());
    assert_eq!(weighted_sum_of(&v, &rho, 0, 4), G1Point::generator().scale(&Scalar::from_u64(300)));
}

#[test]
fn merge_pairs_with_given_coefficients() {
    let v1 = multiples(&[1, 2, 3, 4, 5]);
    let v2 = multiples(&[7, 14, 21, 28, 35]);
    let rho = scalars(&[2, 3, 5, 7, 11]);
    // 1*2 + 2*3 + 3*5 + 4*7 + 5*11 = 106
    let s = G1Point::generator().scale(&Scalar::from_u64(106));
    let sx = G1Point::generator().scale(&Scalar::from_u64(742));
    for workers in [0usize, 1, 2, 3, 5, 8] {
        let (a, b) = merge_pairs_with(&v1, &v2, &rho, workers);
        assert_eq!(a, s);
        assert_eq!(b, sx);
    }
}

#[test]
fn merge_pairs_of_nothing_is_the_pair_of_neutral_elements() {
    let none: Vec<G1Point> = Vec::new();
    let (a, b) = merge_pairs(&none, &none);
    assert_eq!(a, G1Point::identity());
    assert_eq!(b, G1Point::identity());
    let none: Vec<G2Point> = Vec::new();
    let (a, b) = merge_pairs(&none, &none);
    assert_eq!(a, G2Point::identity());
    assert_eq!(b, G2Point::identity());
    let (a, b) = merge_pairs_with(&none, &none, &[], 4);
    assert_eq!(a, G2Point::identity());
    assert_eq!(b, G2Point::identity());
}

#[test]
fn merge_pairs_keeps_a_common_ratio() {
    let v1 = multiples(&[1, 5, 9, 4]);
    let v2 = multiples(&[3, 15, 27, 12]);
    let (a, b) = merge_pairs(&v1, &v2);
    let g2 = G2Point::generator();
    assert!(same_ratio((&a, &b), (&g2, &g2.scale(&Scalar::from_u64(3)))));
    assert_ne!(a, G1Point::identity());
}

#[test]
fn merge_pairs_draws_fresh_coefficients() {
    let v1 = multiples(&[1, 5, 9, 4]);
    let v2 = multiples(&[3, 15, 27, 12]);
    let (a, _) = merge_pairs(&v1, &v2);
    let (c, _) = merge_pairs(&v1, &v2);
    assert_ne!(a, c);
}

#[test]
fn merge_pairs_detects_one_pair_of_another_ratio() {
    let v1 = multiples(&[1, 5, 9, 4]);
    let v2 = multiples(&[3, 15, 28, 12]);
    let (a, b) = merge_pairs(&v1, &v2);
    let g2 = G2Point::generator();
    assert!(!same_ratio((&a, &b), (&g2, &g2.scale(&Scalar::from_u64(3)))));
}

#[test]
fn power_pairs_with_given_coefficients() {
    let v = multiples(&[1, 2, 4, 8]);
    let rho = scalars(&[3, 5, 7]);
    // heads 1*3 + 2*5 + 4*7 = 41, tails 2*3 + 4*5 + 8*7 = 82
    let (a, b) = power_pairs_with(&v, &rho, 2);
    assert_eq!(a, G1Point::generator().scale(&Scalar::from_u64(41)));
    assert_eq!(b, G1Point::generator().scale(&Scalar::from_u64(82)));
}

#[test]
fn power_pairs_of_fewer_than_two_points() {
    let none: Vec<G1Point> = Vec::new();
    let (a, b) = power_pairs(&none);
    assert_eq!(a, G1Point::identity());
    assert_eq!(b, G1Point::identity());
    let one = multiples(&[6]);
    let (a, b) = power_pairs(&one);
    assert_eq!(a, G1Point::identity());
    assert_eq!(b, G1Point::identity());
    let (a, b) = power_pairs_with(&one, &[], 3);
    assert_eq!(a, G1Point::identity());
    assert_eq!(b, G1Point::identity());
}

#[test]
fn power_pairs_in_the_second_group() {
    let x = Scalar::from_u64(3);
    let mut v = Vec::new();
    let mut p = G2Point::generator();
    for _ in 0..5 {
        v.push(p.duplicate());
        p = p.scale(&x);
    }
    let (a, b) = power_pairs(&v);
    let g1 = G1Point::generator();
    assert!(same_ratio((&g1, &g1.scale(&x)), (&a, &b)));
}
