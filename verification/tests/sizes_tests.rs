use powers_of_tau::{Sizes, TAU_POWERS_G1_LENGTH, TAU_POWERS_LENGTH};

#[test]
fn lengths_of_the_ceremony() {
    assert_eq!(TAU_POWERS_LENGTH, 1 << 5);
    assert_eq!(TAU_POWERS_G1_LENGTH, (TAU_POWERS_LENGTH << 1) - 1);
    assert!(TAU_POWERS_LENGTH >= 2);
}

#[test]
fn size_of_the_accumulator_on_disk() {
    let sizes = Sizes::new();
    assert_eq!(
        sizes.accumulator_byte_size_with_hash(),
        63 * 190 + 32 * 570 + 32 * 190 + 32 * 190 + 32 + 570 + 64
    );
    assert_eq!(sizes.accumulator_byte_size_with_hash(), 43036);
}

#[test]
fn size_of_the_public_key() {
    assert_eq!(Sizes::new().public_key_size(), 6 * 190 + 3 * 570);
    assert_eq!(Sizes::new().public_key_size(), 2850);
}

#[test]
fn size_of_the_contribution_on_disk() {
    let sizes = Sizes::new();
    assert_eq!(
        sizes.contribution_byte_size(),
        63 * 95 + 32 * 285 + 32 * 95 + 32 * 95 + 285 + 64 + 2850
    );
    assert_eq!(sizes.contribution_byte_size(), 24384);
    assert_eq!(Sizes::default().contribution_byte_size(), 24384);
}
