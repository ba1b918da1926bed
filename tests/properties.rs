use dhkem::kdf::{derive_secret, labeled_ikm_bytes, labeled_info_bytes};
use dhkem::{
    random_keypair, BignP256, DhKem, Error, Group, NistP192, NistP224, NistP256, NistP384,
    NistP521, PrivateKey, PublicKey, Secp256k1, Sm2, X25519,
};
use rand::thread_rng;

fn hex(s: &str) -> Vec<u8> {
    (0..s.len())
        .step_by(2)
        .map(|i| u8::from_str_radix(&s[i..i + 2], 16).unwrap())
        .collect()
}

fn check_many_round_trips<K: DhKem>(rounds: usize) {
    let mut rng = thread_rng();
    for _ in 0..rounds {
        let (sk, pk) = random_keypair::<K>(&mut rng);
        let (ek, ss1) = pk.encapsulate(&mut rng).unwrap();
        let ss2 = sk.decapsulate(&ek).unwrap();
        assert!(ss1.ct_eq(&ss2));
        assert_eq!(ss1.as_slice(), ss2.as_slice());
    }
}

#[test]
fn round_trip_holds_over_many_keys() {
    check_many_round_trips::<X25519>(20);
    check_many_round_trips::<NistP256>(20);
    check_many_round_trips::<NistP521>(5);
}

#[test]
fn x25519_known_answer() {
    let sk_r = PrivateKey::<X25519>::from_bytes(&hex(
        "4612c550263fc8ad58375df3f557aac531d26850903e55a9f23f21d8534e8ac8",
    ))
    .unwrap();
    let sk_e = PrivateKey::<X25519>::from_bytes(&hex(
        "52c4a758a802cd8b936eceea314432798d5baf2d7e9235dc084ab1b9cfa2f736",
    ))
    .unwrap();
    let pk_r = sk_r.public_key();
    assert_eq!(
        pk_r.as_bytes(),
        &hex("3948cfe0ad1ddb695d780e59077195da6c56506b027329794ab02bca80815c4d")[..]
    );
    let (enc, ss) = pk_r.encapsulate_with(&sk_e).unwrap();
    assert_eq!(
        enc.as_bytes(),
        &hex("37fda3567bdbd628e88668c3c8d7e97d1d1253b6d4ea6d44c150f741f1bf4431")[..]
    );
    assert_eq!(
        ss.as_slice(),
        &hex("fe0e18c9f024ce43799ae393c7e8fe8fce9d218875e8227b0187c04e7d2ea1fc")[..]
    );
    let ss2 = sk_r.decapsulate(&enc).unwrap();
    assert_eq!(ss2.as_slice(), ss.as_slice());
}

#[test]
fn degenerate_x25519_point_is_rejected() {
    let mut rng = thread_rng();
    let zero = PublicKey::<X25519>::from_bytes(&[0u8; 32]).unwrap();
    assert_eq!(zero.encapsulate(&mut rng).err(), Some(Error::DegenerateDhResult));
    let (sk, _) = random_keypair::<X25519>(&mut rng);
    assert_eq!(sk.decapsulate(&zero).err(), Some(Error::DegenerateDhResult));
}

#[test]
fn public_key_decode_rejects_bad_lengths_and_points() {
    let mut rng = thread_rng();
    let (_, pk) = random_keypair::<NistP256>(&mut rng);
    let good = pk.as_bytes().to_vec();
    assert_eq!(good.len(), 65);
    assert!(PublicKey::<NistP256>::from_bytes(&good).is_ok());
    assert_eq!(
        PublicKey::<NistP256>::from_bytes(&good[..64]).err(),
        Some(Error::InvalidPublicKeyEncoding)
    );
    let mut long = good.clone();
    long.push(0);
    assert_eq!(PublicKey::<NistP256>::from_bytes(&long).err(), Some(Error::InvalidPublicKeyEncoding));
    let mut off_curve = good.clone();
    off_curve[64] ^= 1;
    assert_eq!(
        PublicKey::<NistP256>::from_bytes(&off_curve).err(),
        Some(Error::InvalidPublicKeyEncoding)
    );
    let out_of_range = vec![0xffu8; 65];
    assert_eq!(
        PublicKey::<NistP256>::from_bytes(&out_of_range).err(),
        Some(Error::InvalidPublicKeyEncoding)
    );
    assert!(PublicKey::<X25519>::from_bytes(&[7u8; 31]).is_err());
    assert!(PublicKey::<X25519>::from_bytes(&[7u8; 33]).is_err());
    assert!(PublicKey::<X25519>::from_bytes(&[7u8; 32]).is_ok());
}

#[test]
fn private_key_decode_rejects_bad_lengths_and_scalars() {
    assert_eq!(
        PrivateKey::<NistP256>::from_bytes(&[1u8; 31]).err(),
        Some(Error::InvalidPrivateKeyEncoding)
    );
    assert_eq!(
        PrivateKey::<NistP256>::from_bytes(&[1u8; 33]).err(),
        Some(Error::InvalidPrivateKeyEncoding)
    );
    assert_eq!(
        PrivateKey::<NistP256>::from_bytes(&[0xffu8; 32]).err(),
        Some(Error::InvalidPrivateKeyEncoding)
    );
    assert_eq!(
        PrivateKey::<Secp256k1>::from_bytes(&[0u8; 32]).err(),
        Some(Error::InvalidPrivateKeyEncoding)
    );
    assert!(PrivateKey::<NistP192>::from_bytes(&[1u8; 24]).is_ok());
    assert!(PrivateKey::<X25519>::from_bytes(&[1u8; 31]).is_err());
    assert!(PrivateKey::<X25519>::from_bytes(&[1u8; 32]).is_ok());
    let sk = PrivateKey::<NistP256>::from_bytes(&[1u8; 32]).unwrap();
    assert_eq!(sk.to_bytes(), vec![1u8; 32]);
    assert_eq!(sk.public_key().as_bytes().len(), 65);
}

#[test]
fn secret_depends_on_both_public_keys() {
    let sk_e = PrivateKey::<X25519>::from_bytes(&[3u8; 32]).unwrap();
    let pk_a = PrivateKey::<X25519>::from_bytes(&[5u8; 32]).unwrap().public_key();
    let pk_b = PrivateKey::<X25519>::from_bytes(&[6u8; 32]).unwrap().public_key();
    let (_, ss_a) = pk_a.encapsulate_with(&sk_e).unwrap();
    let (_, ss_b) = pk_b.encapsulate_with(&sk_e).unwrap();
    assert!(!ss_a.ct_eq(&ss_b));

    let dh = [9u8; 32];
    let enc = [1u8; 32];
    let base = derive_secret(Group::X25519, &dh, &enc, &[2u8; 32]);
    assert_ne!(base, derive_secret(Group::X25519, &dh, &[4u8; 32], &[2u8; 32]));
    assert_ne!(base, derive_secret(Group::X25519, &dh, &enc, &[8u8; 32]));
    assert_eq!(base, derive_secret(Group::X25519, &dh, &enc, &[2u8; 32]));
    assert_eq!(base.len(), 32);
    assert_eq!(derive_secret(Group::NistP521, &dh, &enc, &[2u8; 32]).len(), 64);
}

#[test]
fn kdf_inputs_are_labeled() {
    let ikm = labeled_ikm_bytes(Group::X25519, &[0xaa, 0xbb]);
    let mut expected = b"HPKE-v1KEM".to_vec();
    expected.extend_from_slice(&[0x00, 0x20]);
    expected.extend_from_slice(b"eae_prk");
    expected.extend_from_slice(&[0xaa, 0xbb]);
    assert_eq!(ikm, expected);

    let info = labeled_info_bytes(Group::NistP384, &[1], &[2]);
    let mut expected = vec![0x00, 48];
    expected.extend_from_slice(b"HPKE-v1KEM");
    expected.extend_from_slice(&[0x00, 0x11]);
    expected.extend_from_slice(b"shared_secret");
    expected.extend_from_slice(&[1, 2]);
    assert_eq!(info, expected);
}

#[test]
fn shared_secret_lengths_follow_the_group() {
    assert_eq!(Group::X25519.secret_len(), 32);
    assert_eq!(Group::NistP192.secret_len(), 24);
    assert_eq!(Group::NistP521.scalar_len(), 66);
    assert_eq!(Group::NistP521.public_len(), 133);
    assert_eq!(Group::X25519.public_len(), 32);
    let mut rng = thread_rng();
    let (sk, pk) = random_keypair::<NistP192>(&mut rng);
    let (ek, ss) = pk.encapsulate(&mut rng).unwrap();
    assert_eq!(ss.as_slice().len(), 24);
    assert_eq!(ek.as_bytes().len(), 49);
    assert_eq!(sk.decapsulate(&ek).unwrap().as_slice(), ss.as_slice());
}

#[test]
fn ct_eq_tells_secrets_apart() {
    let mut rng = thread_rng();
    let (_, pk) = random_keypair::<X25519>(&mut rng);
    let (_, ss1) = pk.encapsulate(&mut rng).unwrap();
    let (_, ss2) = pk.encapsulate(&mut rng).unwrap();
    assert!(ss1.ct_eq(&ss1));
    assert!(!ss1.ct_eq(&ss2));
}

fn check_decode_rejection<K: DhKem>() {
    let g = K::group();
    let mut rng = thread_rng();
    let (sk, pk) = random_keypair::<K>(&mut rng);
    let pk_bytes = pk.as_bytes().to_vec();
    let sk_bytes = sk.to_bytes();
    assert_eq!(pk_bytes.len(), g.public_len());
    assert_eq!(sk_bytes.len(), g.scalar_len());
    assert!(PublicKey::<K>::from_bytes(&pk_bytes).is_ok());
    assert!(PrivateKey::<K>::from_bytes(&sk_bytes).is_ok());
    let mut long_pk = pk_bytes.clone();
    long_pk.push(0);
    let mut long_sk = sk_bytes.clone();
    long_sk.push(0);
    assert_eq!(
        PublicKey::<K>::from_bytes(&pk_bytes[1..]).err(),
        Some(Error::InvalidPublicKeyEncoding)
    );
    assert_eq!(PublicKey::<K>::from_bytes(&long_pk).err(), Some(Error::InvalidPublicKeyEncoding));
    assert_eq!(
        PrivateKey::<K>::from_bytes(&sk_bytes[1..]).err(),
        Some(Error::InvalidPrivateKeyEncoding)
    );
    assert_eq!(PrivateKey::<K>::from_bytes(&long_sk).err(), Some(Error::InvalidPrivateKeyEncoding));
    if g != Group::X25519 {
        let zero = vec![0u8; g.scalar_len()];
        assert_eq!(PrivateKey::<K>::from_bytes(&zero).err(), Some(Error::InvalidPrivateKeyEncoding));
        let too_big = vec![0xffu8; g.scalar_len()];
        assert_eq!(PrivateKey::<K>::from_bytes(&too_big).err(), Some(Error::InvalidPrivateKeyEncoding));
        let off_range = vec![0xffu8; g.public_len()];
        assert_eq!(PublicKey::<K>::from_bytes(&off_range).err(), Some(Error::InvalidPublicKeyEncoding));
    }
}

#[test]
fn decode_rejection_for_every_group() {
    check_decode_rejection::<X25519>();
    check_decode_rejection::<BignP256>();
    check_decode_rejection::<Secp256k1>();
    check_decode_rejection::<NistP192>();
    check_decode_rejection::<NistP224>();
    check_decode_rejection::<NistP256>();
    check_decode_rejection::<NistP384>();
    check_decode_rejection::<NistP521>();
    check_decode_rejection::<Sm2>();
}

#[test]
fn groups_derive_from_different_inputs() {
    let dh = [5u8; 32];
    let groups = [
        Group::X25519,
        Group::BignP256,
        Group::Secp256k1,
        Group::NistP192,
        Group::NistP224,
        Group::NistP256,
        Group::NistP384,
        Group::NistP521,
        Group::Sm2,
    ];
    for (i, a) in groups.iter().enumerate() {
        for b in groups[i + 1..].iter() {
            assert_ne!(labeled_ikm_bytes(*a, &dh), labeled_ikm_bytes(*b, &dh));
        }
    }
    assert_ne!(
        derive_secret(Group::X25519, &dh, &[1u8; 32], &[2u8; 32]),
        derive_secret(Group::NistP256, &dh, &[1u8; 32], &[2u8; 32])
    );
}
