use dhkem::{
    random_keypair, BignP256, DhKem, NistP192, NistP224, NistP256, NistP384, NistP521, Secp256k1,
    Sm2, X25519,
};
use rand::thread_rng;

fn test_kem<K: DhKem>() {
    let mut rng = thread_rng();
    let (sk, pk) = random_keypair::<K>(&mut rng);
    let (ek, ss1) = pk.encapsulate(&mut rng).expect("never fails");
    let ss2 = sk.decapsulate(&ek).expect("never fails");

    assert_eq!(ss1.as_slice(), ss2.as_slice());
}

#[test]
fn test_x25519() {
    test_kem::<X25519>();
}

#[test]
fn test_bign256() {
    test_kem::<BignP256>();
}

#[test]
fn test_k256() {
    test_kem::<Secp256k1>();
}

#[test]
fn test_p192() {
    test_kem::<NistP192>();
}

#[test]
fn test_p224() {
    test_kem::<NistP224>();
}

#[test]
fn test_p256() {
    test_kem::<NistP256>();
}

#[test]
fn test_p384() {
    test_kem::<NistP384>();
}

#[test]
fn test_p521() {
    test_kem::<NistP521>();
}

#[test]
fn test_sm2() {
    test_kem::<Sm2>();
}
