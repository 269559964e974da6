use ark_mnt6_753::{G1Affine, G2Affine};
use ark_serialize::{CanonicalDeserialize, CanonicalSerialize};
use powers_of_tau::format::{
    read_accumulator, read_challenge, read_points, read_public_key, read_response,
    write_accumulator, write_challenge, write_point, write_points, write_public_key,
    write_response, FormatError, CHALLENGE_BYTES, PUBLIC_KEY_BYTES, RESPONSE_BYTES,
};
use powers_of_tau::keys::keypair_from;
use powers_of_tau::{
    blank_hash, Accumulator, CurvePoint, G1Point, G2Point, PrivateKey, PublicKey, Scalar, Sizes,
};

fn some_key() -> PrivateKey {
    PrivateKey::new(Scalar::from_u64(3), Scalar::from_u64(5), Scalar::from_u64(7))
}

fn some_accumulator() -> Accumulator {
    let mut acc = Accumulator::new();
    acc.transform(&some_key());
    acc
}

fn some_public_key() -> PublicKey {
    let s = G1Point::generator();
    keypair_from(
        Scalar::from_u64(3),
        Scalar::from_u64(5),
        Scalar::from_u64(7),
        s.scale(&Scalar::from_u64(2)),
        s.scale(&Scalar::from_u64(4)),
        s.scale(&Scalar::from_u64(6)),
        &[1u8; 64],
    )
    .unwrap()
    .0
}

fn written(acc: &Accumulator, compressed: bool) -> Vec<u8> {
    let mut out = Vec::new();
    write_accumulator(&mut out, acc, compressed);
    out
}

fn ark_g1(v: &[G1Point]) -> Vec<G1Affine> {
    v.iter().map(|p| G1Affine::deserialize_uncompressed(p.as_bytes().as_slice()).unwrap()).collect()
}

fn ark_g2(v: &[G2Point]) -> Vec<G2Affine> {
    v.iter().map(|p| G2Affine::deserialize_uncompressed(p.as_bytes().as_slice()).unwrap()).collect()
}

#[test]
fn a_vector_is_its_count_and_its_points() {
    let v = vec![G1Point::generator(), G1Point::identity()];
    let mut out = vec![0xaau8];
    write_points(&mut out, &v, false);
    let mut expected = vec![0xaau8, 2, 0, 0, 0, 0, 0, 0, 0];
    expected.extend_from_slice(v[0].as_bytes());
    expected.extend_from_slice(v[1].as_bytes());
    assert_eq!(out, expected);
    let mut out = Vec::new();
    write_points(&mut out, &v, true);
    assert_eq!(out.len(), 8 + 2 * 95);
    assert_eq!(&out[8..103], &v[0].to_compressed()[..]);
    let none: Vec<G2Point> = Vec::new();
    let mut out = Vec::new();
    write_points(&mut out, &none, false);
    assert_eq!(out, vec![0u8; 8]);
}

#[test]
fn a_point_is_appended() {
    let mut out = vec![1u8, 2];
    write_point(&mut out, &G2Point::generator(), false);
    assert_eq!(out.len(), 572);
    assert_eq!(&out[2..], &G2Point::generator().as_bytes()[..]);
    let mut out = Vec::new();
    write_point(&mut out, &G2Point::generator(), true);
    assert_eq!(out, G2Point::generator().to_compressed());
}

#[test]
fn points_are_read_where_they_stand() {
    let v = vec![
        G1Point::generator(),
        G1Point::generator().scale(&Scalar::from_u64(2)),
        G1Point::generator().scale(&Scalar::from_u64(3)),
    ];
    let mut bytes = vec![0u8; 5];
    for p in v.iter() {
        bytes.extend_from_slice(p.as_bytes());
    }
    bytes.push(0xff);
    assert_eq!(read_points::<G1Point>(&bytes, 5, 190, 3, false), Some(v.clone()));
    assert_eq!(read_points::<G1Point>(&bytes, 195, 190, 2, false), Some(v[1..].to_vec()));
    assert_eq!(read_points::<G1Point>(&bytes, 5, 190, 0, false), Some(Vec::new()));
    assert_eq!(read_points::<G1Point>(&bytes, 6, 190, 3, false), None);
    assert_eq!(read_points::<G2Point>(&bytes, 5, 190, 3, false), None);
}

#[test]
fn the_layout_is_that_of_the_curve_library() {
    let acc = some_accumulator();
    let mut expected = Vec::new();
    ark_g1(&acc.tau_powers_g1).serialize_uncompressed(&mut expected).unwrap();
    ark_g2(&acc.tau_powers_g2).serialize_uncompressed(&mut expected).unwrap();
    ark_g1(&acc.alpha_tau_powers_g1).serialize_uncompressed(&mut expected).unwrap();
    ark_g1(&acc.beta_tau_powers_g1).serialize_uncompressed(&mut expected).unwrap();
    ark_g2(&[acc.beta_g2.clone()])[0].serialize_uncompressed(&mut expected).unwrap();
    assert_eq!(written(&acc, false), expected);
    let mut expected = Vec::new();
    ark_g1(&acc.tau_powers_g1).serialize_compressed(&mut expected).unwrap();
    ark_g2(&acc.tau_powers_g2).serialize_compressed(&mut expected).unwrap();
    ark_g1(&acc.alpha_tau_powers_g1).serialize_compressed(&mut expected).unwrap();
    ark_g1(&acc.beta_tau_powers_g1).serialize_compressed(&mut expected).unwrap();
    ark_g2(&[acc.beta_g2.clone()])[0].serialize_compressed(&mut expected).unwrap();
    assert_eq!(written(&acc, true), expected);
}

#[test]
fn uncompressed_accumulator_is_read_back() {
    for acc in [Accumulator::new(), some_accumulator()] {
        let bytes = written(&acc, false);
        assert_eq!(bytes.len(), 43036 - 64);
        assert_eq!(read_accumulator(&bytes, false), Ok(acc));
    }
}

#[test]
fn compressed_accumulator_is_read_back_and_written_the_same() {
    for acc in [Accumulator::new(), some_accumulator()] {
        let bytes = written(&acc, true);
        assert_eq!(bytes.len(), 21502);
        let read = read_accumulator(&bytes, true).unwrap();
        assert_eq!(read, acc);
        assert_eq!(written(&read, true), bytes);
    }
}

#[test]
fn accumulator_of_another_length_is_a_size_mismatch() {
    let bytes = written(&Accumulator::new(), false);
    assert_eq!(read_accumulator(&bytes[1..], false), Err(FormatError::SizeMismatch));
    assert_eq!(read_accumulator(&[], false), Err(FormatError::SizeMismatch));
    let mut longer = bytes.clone();
    longer.push(0);
    assert_eq!(read_accumulator(&longer, false), Err(FormatError::SizeMismatch));
    assert_eq!(read_accumulator(&bytes, true), Err(FormatError::SizeMismatch));
    assert_eq!(
        read_accumulator(&written(&Accumulator::new(), true), false),
        Err(FormatError::SizeMismatch)
    );
}

#[test]
fn accumulator_with_another_count_is_refused() {
    let bytes = written(&Accumulator::new(), false);
    for at in [0usize, 7, 8 + 63 * 190, 16 + 63 * 190 + 32 * 570, 24 + 95 * 190 + 32 * 570] {
        let mut wrong = bytes.clone();
        wrong[at] ^= 1;
        assert_eq!(read_accumulator(&wrong, false), Err(FormatError::WrongCount));
    }
    let compressed = written(&Accumulator::new(), true);
    let mut wrong = compressed.clone();
    wrong[8 + 63 * 95] = 31;
    assert_eq!(read_accumulator(&wrong, true), Err(FormatError::WrongCount));
}

#[test]
fn accumulator_with_a_malformed_point_is_refused() {
    let bytes = written(&Accumulator::new(), false);
    for at in [8usize, 8 + 62 * 190 + 5, 16 + 63 * 190, 43036 - 64 - 570, 43036 - 64 - 1] {
        let mut wrong = bytes.clone();
        wrong[at] ^= 1;
        assert_eq!(read_accumulator(&wrong, false), Err(FormatError::MalformedPoint));
    }
    let compressed = written(&Accumulator::new(), true);
    let mut wrong = compressed.clone();
    for b in wrong[8..8 + 95].iter_mut() {
        *b = 0xff;
    }
    assert_eq!(read_accumulator(&wrong, true), Err(FormatError::MalformedPoint));
}

#[test]
fn the_first_fault_is_reported() {
    let bytes = written(&Accumulator::new(), false);
    let mut wrong = bytes.clone();
    wrong[0] ^= 1;
    wrong[8] ^= 1;
    assert_eq!(read_accumulator(&wrong, false), Err(FormatError::WrongCount));
    assert_eq!(read_accumulator(&wrong[2..], false), Err(FormatError::SizeMismatch));
}

#[test]
fn public_key_is_read_back() {
    let key = some_public_key();
    let mut bytes = Vec::new();
    write_public_key(&mut bytes, &key);
    assert_eq!(bytes.len(), PUBLIC_KEY_BYTES);
    assert_eq!(bytes.len(), Sizes::new().public_key_size());
    assert_eq!(&bytes[..190], &key.tau_g1().0.as_bytes()[..]);
    assert_eq!(&bytes[190..380], &key.tau_g1().1.as_bytes()[..]);
    assert_eq!(&bytes[380..570], &key.alpha_g1().0.as_bytes()[..]);
    assert_eq!(&bytes[950..1140], &key.beta_g1().1.as_bytes()[..]);
    assert_eq!(&bytes[1140..1710], &key.tau_g2().as_bytes()[..]);
    assert_eq!(&bytes[1710..2280], &key.alpha_g2().as_bytes()[..]);
    assert_eq!(&bytes[2280..], &key.beta_g2().as_bytes()[..]);
    assert_eq!(read_public_key(&bytes), Ok(key));
}

#[test]
fn public_key_faults() {
    let key = some_public_key();
    let mut bytes = Vec::new();
    write_public_key(&mut bytes, &key);
    assert_eq!(read_public_key(&bytes[..2849]), Err(FormatError::SizeMismatch));
    let mut wrong = bytes.clone();
    wrong[200] ^= 1;
    assert_eq!(read_public_key(&wrong), Err(FormatError::MalformedPoint));
    let mut wrong = bytes.clone();
    wrong[2849] ^= 0x80;
    assert_eq!(read_public_key(&wrong), Err(FormatError::MalformedPoint));
    let mut with_identity = bytes.clone();
    with_identity[190..380].copy_from_slice(G1Point::identity().as_bytes());
    assert_eq!(read_public_key(&with_identity), Err(FormatError::IdentityInKey));
    let mut with_identity = bytes.clone();
    with_identity[2280..].copy_from_slice(G2Point::identity().as_bytes());
    assert_eq!(read_public_key(&with_identity), Err(FormatError::IdentityInKey));
    let mut both = with_identity.clone();
    both[0] ^= 1;
    assert_eq!(read_public_key(&both), Err(FormatError::MalformedPoint));
}

#[test]
fn challenge_is_read_back() {
    let acc = some_accumulator();
    let hash = [0x5au8; 64];
    let bytes = write_challenge(&hash, &acc);
    assert_eq!(bytes.len(), CHALLENGE_BYTES);
    assert_eq!(bytes.len(), Sizes::new().accumulator_byte_size_with_hash());
    assert_eq!(&bytes[..64], &hash[..]);
    assert_eq!(&bytes[64..], &written(&acc, false)[..]);
    assert_eq!(read_challenge(&bytes), Ok((hash, acc)));
}

#[test]
fn challenge_faults() {
    let bytes = write_challenge(&blank_hash(), &Accumulator::new());
    assert_eq!(read_challenge(&bytes[..43035]), Err(FormatError::SizeMismatch));
    assert_eq!(read_challenge(&[]), Err(FormatError::SizeMismatch));
    let mut wrong = bytes.clone();
    wrong[64] = 62;
    assert_eq!(read_challenge(&wrong), Err(FormatError::WrongCount));
    let mut wrong = bytes.clone();
    wrong[72] ^= 1;
    assert_eq!(read_challenge(&wrong), Err(FormatError::MalformedPoint));
    let mut other_hash = bytes.clone();
    other_hash[0] ^= 1;
    assert!(read_challenge(&other_hash).is_ok());
}

#[test]
fn response_is_read_back() {
    let acc = some_accumulator();
    let key = some_public_key();
    let hash = [0xa5u8; 64];
    let bytes = write_response(&hash, &acc, &key);
    assert_eq!(bytes.len(), RESPONSE_BYTES);
    assert_eq!(bytes.len(), Sizes::new().contribution_byte_size() + 32);
    assert_eq!(&bytes[..64], &hash[..]);
    assert_eq!(&bytes[64..64 + 21502], &written(&acc, true)[..]);
    let mut key_bytes = Vec::new();
    write_public_key(&mut key_bytes, &key);
    assert_eq!(&bytes[64 + 21502..], &key_bytes[..]);
    assert_eq!(read_response(&bytes), Ok((hash, acc, key)));
}

#[test]
fn response_faults() {
    let bytes = write_response(&[0u8; 64], &Accumulator::new(), &some_public_key());
    assert_eq!(read_response(&bytes[1..]), Err(FormatError::SizeMismatch));
    let mut wrong = bytes.clone();
    wrong[64] = 0;
    assert_eq!(read_response(&wrong), Err(FormatError::WrongCount));
    let mut wrong = bytes.clone();
    for b in wrong[72..72 + 95].iter_mut() {
        *b = 0xff;
    }
    assert_eq!(read_response(&wrong), Err(FormatError::MalformedPoint));
    let mut wrong = bytes.clone();
    wrong[24416 - 2850 + 3] ^= 1;
    assert_eq!(read_response(&wrong), Err(FormatError::MalformedPoint));
    let mut wrong = bytes.clone();
    wrong[24416 - 570..].copy_from_slice(G2Point::identity().as_bytes());
    assert_eq!(read_response(&wrong), Err(FormatError::IdentityInKey));
}
