use crate::group::{public_len, scalar_len, Group};
use elliptic_curve::sec1::ToEncodedPoint;
use vstd::prelude::*;

verus! {

/// Declares the thread-local random generator of `rand`, the randomness
/// source handed to key generation and encapsulation.
#[verifier::external_type_specification]
#[verifier::external_body]
pub struct ExThreadRng(rand::rngs::ThreadRng);

/// Result of `x25519_dalek::x25519(k, u)`: the u-coordinate of the clamped
/// scalar `k` times the Montgomery point with u-coordinate `u`.
pub uninterp spec fn x25519_of(k: Seq<u8>, u: Seq<u8>) -> Seq<u8>;

/// Uncompressed SEC1 encoding of the public key of the secret scalar `sk`
/// (big-endian, of the field's length) on group `g`, or `None` where `sk`
/// is zero or not below the group order.
pub uninterp spec fn ec_public_of(g: Group, sk: Seq<u8>) -> Option<Seq<u8>>;

/// Whether `pk` decodes as a SEC1 encoding of a point of group `g` other
/// than the identity.
pub uninterp spec fn ec_point_valid(g: Group, pk: Seq<u8>) -> bool;

/// Big-endian x-coordinate of `sk * pk` on group `g`, or `None` where
/// either key does not decode.
pub uninterp spec fn ec_dh_of(g: Group, sk: Seq<u8>, pk: Seq<u8>) -> Option<Seq<u8>>;

/// Output of HKDF-SHA256 with an empty salt: `len` bytes expanded with
/// `info` from the key extracted from `ikm`.
pub uninterp spec fn hkdf_sha256_of(ikm: Seq<u8>, info: Seq<u8>, len: nat) -> Seq<u8>;

/// Output of HKDF-SHA384 with an empty salt, as `hkdf_sha256_of`.
pub uninterp spec fn hkdf_sha384_of(ikm: Seq<u8>, info: Seq<u8>, len: nat) -> Seq<u8>;

/// Output of HKDF-SHA512 with an empty salt, as `hkdf_sha256_of`.
pub uninterp spec fn hkdf_sha512_of(ikm: Seq<u8>, info: Seq<u8>, len: nat) -> Seq<u8>;

pub open spec fn opt_view(r: Option<Vec<u8>>) -> Option<Seq<u8>> {
    match r {
        Some(v) => Some(v@),
        None => None,
    }
}

/// Relies on x25519-dalek's `StaticSecret::random_from_rng`, which fills a
/// 32-byte secret from `rng`; every 32-byte string is an X25519 secret.
#[verifier::external_body]
pub(crate) fn x25519_random_secret(rng: &mut rand::rngs::ThreadRng) -> (r: Vec<u8>)
    ensures
        r@.len() == 32,
{
    x25519_dalek::StaticSecret::random_from_rng(rng).to_bytes().to_vec()
}

/// Relies on `x25519_dalek::x25519`, the X25519 function on 32-byte strings.
#[verifier::external_body]
pub(crate) fn x25519(k: &[u8], u: &[u8]) -> (r: Vec<u8>)
    requires
        k@.len() == 32,
        u@.len() == 32,
    ensures
        r@ == x25519_of(k@, u@),
        r@.len() == 32,
{
    let k: [u8; 32] = k.try_into().unwrap();
    let u: [u8; 32] = u.try_into().unwrap();
    x25519_dalek::x25519(k, u).to_vec()
}

/// Relies on `hkdf::Hkdf::<sha2::Sha256>::new` with no salt, then `expand`,
/// which fills an output of `len` bytes when `len` is at most 255 * 32.
#[verifier::external_body]
pub(crate) fn hkdf_sha256(ikm: &[u8], info: &[u8], len: usize) -> (r: Vec<u8>)
    requires
        len <= 8160,
    ensures
        r@ == hkdf_sha256_of(ikm@, info@, len as nat),
        r@.len() == len,
{
    let mut okm = vec![0u8; len];
    hkdf::Hkdf::<sha2::Sha256>::new(None, ikm).expand(info, &mut okm).unwrap();
    okm
}

/// Relies on `hkdf::Hkdf::<sha2::Sha384>::new` with no salt, then `expand`,
/// which fills an output of `len` bytes when `len` is at most 255 * 48.
#[verifier::external_body]
pub(crate) fn hkdf_sha384(ikm: &[u8], info: &[u8], len: usize) -> (r: Vec<u8>)
    requires
        len <= 12240,
    ensures
        r@ == hkdf_sha384_of(ikm@, info@, len as nat),
        r@.len() == len,
{
    let mut okm = vec![0u8; len];
    hkdf::Hkdf::<sha2::Sha384>::new(None, ikm).expand(info, &mut okm).unwrap();
    okm
}

/// Relies on `hkdf::Hkdf::<sha2::Sha512>::new` with no salt, then `expand`,
/// which fills an output of `len` bytes when `len` is at most 255 * 64.
#[verifier::external_body]
pub(crate) fn hkdf_sha512(ikm: &[u8], info: &[u8], len: usize) -> (r: Vec<u8>)
    requires
        len <= 16320,
    ensures
        r@ == hkdf_sha512_of(ikm@, info@, len as nat),
        r@.len() == len,
{
    let mut okm = vec![0u8; len];
    hkdf::Hkdf::<sha2::Sha512>::new(None, ikm).expand(info, &mut okm).unwrap();
    okm
}

/// Relies on elliptic-curve's `SecretKey::<bign256::BignP256>::from_slice` (given a
/// slice of the field's length), `public_key` and the uncompressed SEC1
/// encoding of BIGN P-256, which never encodes the identity.
#[verifier::external_body]
pub(crate) fn bign256_public(sk: &[u8]) -> (r: Option<Vec<u8>>)
    requires
        sk@.len() == scalar_len(Group::BignP256),
    ensures
        opt_view(r) == ec_public_of(Group::BignP256, sk@),
        (forall|i: int| 0 <= i < sk@.len() ==> sk@[i] == 0) ==> r is None,
        r is Some ==> r->0@.len() == public_len(Group::BignP256),
{
    match elliptic_curve::SecretKey::<bign256::BignP256>::from_slice(sk) {
        Ok(k) => Some(k.public_key().to_encoded_point(false).as_bytes().to_vec()),
        Err(_) => None,
    }
}

/// Relies on elliptic-curve's `SecretKey::<bign256::BignP256>::random`, which draws a
/// nonzero scalar below the group order from `rng`; `to_bytes` gives its
/// big-endian encoding of the field's length, which `from_slice` accepts.
#[verifier::external_body]
pub(crate) fn bign256_random_secret(rng: &mut rand::rngs::ThreadRng) -> (r: Vec<u8>)
    ensures
        r@.len() == scalar_len(Group::BignP256),
        ec_public_of(Group::BignP256, r@) is Some,
{
    elliptic_curve::SecretKey::<bign256::BignP256>::random(rng).to_bytes().to_vec()
}

/// Relies on elliptic-curve's `PublicKey::<bign256::BignP256>::from_sec1_bytes`, which
/// accepts the encodings of the points of BIGN P-256 but the identity.
#[verifier::external_body]
pub(crate) fn bign256_point_valid(pk: &[u8]) -> (r: bool)
    ensures
        r == ec_point_valid(Group::BignP256, pk@),
{
    elliptic_curve::PublicKey::<bign256::BignP256>::from_sec1_bytes(pk).is_ok()
}

/// Relies on elliptic-curve's `ecdh::diffie_hellman` on BIGN P-256, after
/// `SecretKey::from_slice` and `PublicKey::from_sec1_bytes`; the shared
/// x-coordinate has the field's length.
#[verifier::external_body]
pub(crate) fn bign256_dh(sk: &[u8], pk: &[u8]) -> (r: Option<Vec<u8>>)
    requires
        sk@.len() == scalar_len(Group::BignP256),
    ensures
        opt_view(r) == ec_dh_of(Group::BignP256, sk@, pk@),
        r is Some ==> r->0@.len() == scalar_len(Group::BignP256),
{
    match (elliptic_curve::SecretKey::<bign256::BignP256>::from_slice(sk), elliptic_curve::PublicKey::<bign256::BignP256>::from_sec1_bytes(pk)) {
        (Ok(k), Ok(p)) => Some(elliptic_curve::ecdh::diffie_hellman(k.to_nonzero_scalar(), p.as_affine()).raw_secret_bytes().to_vec()),
        _ => None,
    }
}

/// Relies on elliptic-curve's `SecretKey::<k256::Secp256k1>::from_slice` (given a
/// slice of the field's length), `public_key` and the uncompressed SEC1
/// encoding of secp256k1, which never encodes the identity.
#[verifier::external_body]
pub(crate) fn k256_public(sk: &[u8]) -> (r: Option<Vec<u8>>)
    requires
        sk@.len() == scalar_len(Group::Secp256k1),
    ensures
        opt_view(r) == ec_public_of(Group::Secp256k1, sk@),
        (forall|i: int| 0 <= i < sk@.len() ==> sk@[i] == 0) ==> r is None,
        r is Some ==> r->0@.len() == public_len(Group::Secp256k1),
{
    match elliptic_curve::SecretKey::<k256::Secp256k1>::from_slice(sk) {
        Ok(k) => Some(k.public_key().to_encoded_point(false).as_bytes().to_vec()),
        Err(_) => None,
    }
}

/// Relies on elliptic-curve's `SecretKey::<k256::Secp256k1>::random`, which draws a
/// nonzero scalar below the group order from `rng`; `to_bytes` gives its
/// big-endian encoding of the field's length, which `from_slice` accepts.
#[verifier::external_body]
pub(crate) fn k256_random_secret(rng: &mut rand::rngs::ThreadRng) -> (r: Vec<u8>)
    ensures
        r@.len() == scalar_len(Group::Secp256k1),
        ec_public_of(Group::Secp256k1, r@) is Some,
{
    elliptic_curve::SecretKey::<k256::Secp256k1>::random(rng).to_bytes().to_vec()
}

/// Relies on elliptic-curve's `PublicKey::<k256::Secp256k1>::from_sec1_bytes`, which
/// accepts the encodings of the points of secp256k1 but the identity.
#[verifier::external_body]
pub(crate) fn k256_point_valid(pk: &[u8]) -> (r: bool)
    ensures
        r == ec_point_valid(Group::Secp256k1, pk@),
{
    elliptic_curve::PublicKey::<k256::Secp256k1>::from_sec1_bytes(pk).is_ok()
}

/// Relies on elliptic-curve's `ecdh::diffie_hellman` on secp256k1, after
/// `SecretKey::from_slice` and `PublicKey::from_sec1_bytes`; the shared
/// x-coordinate has the field's length.
#[verifier::external_body]
pub(crate) fn k256_dh(sk: &[u8], pk: &[u8]) -> (r: Option<Vec<u8>>)
    requires
        sk@.len() == scalar_len(Group::Secp256k1),
    ensures
        opt_view(r) == ec_dh_of(Group::Secp256k1, sk@, pk@),
        r is Some ==> r->0@.len() == scalar_len(Group::Secp256k1),
{
    match (elliptic_curve::SecretKey::<k256::Secp256k1>::from_slice(sk), elliptic_curve::PublicKey::<k256::Secp256k1>::from_sec1_bytes(pk)) {
        (Ok(k), Ok(p)) => Some(elliptic_curve::ecdh::diffie_hellman(k.to_nonzero_scalar(), p.as_affine()).raw_secret_bytes().to_vec()),
        _ => None,
    }
}

/// Relies on elliptic-curve's `SecretKey::<p192::NistP192>::from_slice` (given a
/// slice of the field's length), `public_key` and the uncompressed SEC1
/// encoding of NIST P-192, which never encodes the identity.
#[verifier::external_body]
pub(crate) fn p192_public(sk: &[u8]) -> (r: Option<Vec<u8>>)
    requires
        sk@.len() == scalar_len(Group::NistP192),
    ensures
        opt_view(r) == ec_public_of(Group::NistP192, sk@),
        (forall|i: int| 0 <= i < sk@.len() ==> sk@[i] == 0) ==> r is None,
        r is Some ==> r->0@.len() == public_len(Group::NistP192),
{
    match elliptic_curve::SecretKey::<p192::NistP192>::from_slice(sk) {
        Ok(k) => Some(k.public_key().to_encoded_point(false).as_bytes().to_vec()),
        Err(_) => None,
    }
}

/// Relies on elliptic-curve's `SecretKey::<p192::NistP192>::random`, which draws a
/// nonzero scalar below the group order from `rng`; `to_bytes` gives its
/// big-endian encoding of the field's length, which `from_slice` accepts.
#[verifier::external_body]
pub(crate) fn p192_random_secret(rng: &mut rand::rngs::ThreadRng) -> (r: Vec<u8>)
    ensures
        r@.len() == scalar_len(Group::NistP192),
        ec_public_of(Group::NistP192, r@) is Some,
{
    elliptic_curve::SecretKey::<p192::NistP192>::random(rng).to_bytes().to_vec()
}

/// Relies on elliptic-curve's `PublicKey::<p192::NistP192>::from_sec1_bytes`, which
/// accepts the encodings of the points of NIST P-192 but the identity.
#[verifier::external_body]
pub(crate) fn p192_point_valid(pk: &[u8]) -> (r: bool)
    ensures
        r == ec_point_valid(Group::NistP192, pk@),
{
    elliptic_curve::PublicKey::<p192::NistP192>::from_sec1_bytes(pk).is_ok()
}

/// Relies on elliptic-curve's `ecdh::diffie_hellman` on NIST P-192, after
/// `SecretKey::from_slice` and `PublicKey::from_sec1_bytes`; the shared
/// x-coordinate has the field's length.
#[verifier::external_body]
pub(crate) fn p192_dh(sk: &[u8], pk: &[u8]) -> (r: Option<Vec<u8>>)
    requires
        sk@.len() == scalar_len(Group::NistP192),
    ensures
        opt_view(r) == ec_dh_of(Group::NistP192, sk@, pk@),
        r is Some ==> r->0@.len() == scalar_len(Group::NistP192),
{
    match (elliptic_curve::SecretKey::<p192::NistP192>::from_slice(sk), elliptic_curve::PublicKey::<p192::NistP192>::from_sec1_bytes(pk)) {
        (Ok(k), Ok(p)) => Some(elliptic_curve::ecdh::diffie_hellman(k.to_nonzero_scalar(), p.as_affine()).raw_secret_bytes().to_vec()),
        _ => None,
    }
}

/// Relies on elliptic-curve's `SecretKey::<p224::NistP224>::from_slice` (given a
/// slice of the field's length), `public_key` and the uncompressed SEC1
/// encoding of NIST P-224, which never encodes the identity.
#[verifier::external_body]
pub(crate) fn p224_public(sk: &[u8]) -> (r: Option<Vec<u8>>)
    requires
        sk@.len() == scalar_len(Group::NistP224),
    ensures
        opt_view(r) == ec_public_of(Group::NistP224, sk@),
        (forall|i: int| 0 <= i < sk@.len() ==> sk@[i] == 0) ==> r is None,
        r is Some ==> r->0@.len() == public_len(Group::NistP224),
{
    match elliptic_curve::SecretKey::<p224::NistP224>::from_slice(sk) {
        Ok(k) => Some(k.public_key().to_encoded_point(false).as_bytes().to_vec()),
        Err(_) => None,
    }
}

/// Relies on elliptic-curve's `SecretKey::<p224::NistP224>::random`, which draws a
/// nonzero scalar below the group order from `rng`; `to_bytes` gives its
/// big-endian encoding of the field's length, which `from_slice` accepts.
#[verifier::external_body]
pub(crate) fn p224_random_secret(rng: &mut rand::rngs::ThreadRng) -> (r: Vec<u8>)
    ensures
        r@.len() == scalar_len(Group::NistP224),
        ec_public_of(Group::NistP224, r@) is Some,
{
    elliptic_curve::SecretKey::<p224::NistP224>::random(rng).to_bytes().to_vec()
}

/// Relies on elliptic-curve's `PublicKey::<p224::NistP224>::from_sec1_bytes`, which
/// accepts the encodings of the points of NIST P-224 but the identity.
#[verifier::external_body]
pub(crate) fn p224_point_valid(pk: &[u8]) -> (r: bool)
    ensures
        r == ec_point_valid(Group::NistP224, pk@),
{
    elliptic_curve::PublicKey::<p224::NistP224>::from_sec1_bytes(pk).is_ok()
}

/// Relies on elliptic-curve's `ecdh::diffie_hellman` on NIST P-224, after
/// `SecretKey::from_slice` and `PublicKey::from_sec1_bytes`; the shared
/// x-coordinate has the field's length.
#[verifier::external_body]
pub(crate) fn p224_dh(sk: &[u8], pk: &[u8]) -> (r: Option<Vec<u8>>)
    requires
        sk@.len() == scalar_len(Group::NistP224),
    ensures
        opt_view(r) == ec_dh_of(Group::NistP224, sk@, pk@),
        r is Some ==> r->0@.len() == scalar_len(Group::NistP224),
{
    match (elliptic_curve::SecretKey::<p224::NistP224>::from_slice(sk), elliptic_curve::PublicKey::<p224::NistP224>::from_sec1_bytes(pk)) {
        (Ok(k), Ok(p)) => Some(elliptic_curve::ecdh::diffie_hellman(k.to_nonzero_scalar(), p.as_affine()).raw_secret_bytes().to_vec()),
        _ => None,
    }
}

/// Relies on elliptic-curve's `SecretKey::<p256::NistP256>::from_slice` (given a
/// slice of the field's length), `public_key` and the uncompressed SEC1
/// encoding of NIST P-256, which never encodes the identity.
#[verifier::external_body]
pub(crate) fn p256_public(sk: &[u8]) -> (r: Option<Vec<u8>>)
    requires
        sk@.len() == scalar_len(Group::NistP256),
    ensures
        opt_view(r) == ec_public_of(Group::NistP256, sk@),
        (forall|i: int| 0 <= i < sk@.len() ==> sk@[i] == 0) ==> r is None,
        r is Some ==> r->0@.len() == public_len(Group::NistP256),
{
    match elliptic_curve::SecretKey::<p256::NistP256>::from_slice(sk) {
        Ok(k) => Some(k.public_key().to_encoded_point(false).as_bytes().to_vec()),
        Err(_) => None,
    }
}

/// Relies on elliptic-curve's `SecretKey::<p256::NistP256>::random`, which draws a
/// nonzero scalar below the group order from `rng`; `to_bytes` gives its
/// big-endian encoding of the field's length, which `from_slice` accepts.
#[verifier::external_body]
pub(crate) fn p256_random_secret(rng: &mut rand::rngs::ThreadRng) -> (r: Vec<u8>)
    ensures
        r@.len() == scalar_len(Group::NistP256),
        ec_public_of(Group::NistP256, r@) is Some,
{
    elliptic_curve::SecretKey::<p256::NistP256>::random(rng).to_bytes().to_vec()
}

/// Relies on elliptic-curve's `PublicKey::<p256::NistP256>::from_sec1_bytes`, which
/// accepts the encodings of the points of NIST P-256 but the identity.
#[verifier::external_body]
pub(crate) fn p256_point_valid(pk: &[u8]) -> (r: bool)
    ensures
        r == ec_point_valid(Group::NistP256, pk@),
{
    elliptic_curve::PublicKey::<p256::NistP256>::from_sec1_bytes(pk).is_ok()
}

/// Relies on elliptic-curve's `ecdh::diffie_hellman` on NIST P-256, after
/// `SecretKey::from_slice` and `PublicKey::from_sec1_bytes`; the shared
/// x-coordinate has the field's length.
#[verifier::external_body]
pub(crate) fn p256_dh(sk: &[u8], pk: &[u8]) -> (r: Option<Vec<u8>>)
    requires
        sk@.len() == scalar_len(Group::NistP256),
    ensures
        opt_view(r) == ec_dh_of(Group::NistP256, sk@, pk@),
        r is Some ==> r->0@.len() == scalar_len(Group::NistP256),
{
    match (elliptic_curve::SecretKey::<p256::NistP256>::from_slice(sk), elliptic_curve::PublicKey::<p256::NistP256>::from_sec1_bytes(pk)) {
        (Ok(k), Ok(p)) => Some(elliptic_curve::ecdh::diffie_hellman(k.to_nonzero_scalar(), p.as_affine()).raw_secret_bytes().to_vec()),
        _ => None,
    }
}

/// Relies on elliptic-curve's `SecretKey::<p384::NistP384>::from_slice` (given a
/// slice of the field's length), `public_key` and the uncompressed SEC1
/// encoding of NIST P-384, which never encodes the identity.
#[verifier::external_body]
pub(crate) fn p384_public(sk: &[u8]) -> (r: Option<Vec<u8>>)
    requires
        sk@.len() == scalar_len(Group::NistP384),
    ensures
        opt_view(r) == ec_public_of(Group::NistP384, sk@),
        (forall|i: int| 0 <= i < sk@.len() ==> sk@[i] == 0) ==> r is None,
        r is Some ==> r->0@.len() == public_len(Group::NistP384),
{
    match elliptic_curve::SecretKey::<p384::NistP384>::from_slice(sk) {
        Ok(k) => Some(k.public_key().to_encoded_point(false).as_bytes().to_vec()),
        Err(_) => None,
    }
}

/// Relies on elliptic-curve's `SecretKey::<p384::NistP384>::random`, which draws a
/// nonzero scalar below the group order from `rng`; `to_bytes` gives its
/// big-endian encoding of the field's length, which `from_slice` accepts.
#[verifier::external_body]
pub(crate) fn p384_random_secret(rng: &mut rand::rngs::ThreadRng) -> (r: Vec<u8>)
    ensures
        r@.len() == scalar_len(Group::NistP384),
        ec_public_of(Group::NistP384, r@) is Some,
{
    elliptic_curve::SecretKey::<p384::NistP384>::random(rng).to_bytes().to_vec()
}

/// Relies on elliptic-curve's `PublicKey::<p384::NistP384>::from_sec1_bytes`, which
/// accepts the encodings of the points of NIST P-384 but the identity.
#[verifier::external_body]
pub(crate) fn p384_point_valid(pk: &[u8]) -> (r: bool)
    ensures
        r == ec_point_valid(Group::NistP384, pk@),
{
    elliptic_curve::PublicKey::<p384::NistP384>::from_sec1_bytes(pk).is_ok()
}

/// Relies on elliptic-curve's `ecdh::diffie_hellman` on NIST P-384, after
/// `SecretKey::from_slice` and `PublicKey::from_sec1_bytes`; the shared
/// x-coordinate has the field's length.
#[verifier::external_body]
pub(crate) fn p384_dh(sk: &[u8], pk: &[u8]) -> (r: Option<Vec<u8>>)
    requires
        sk@.len() == scalar_len(Group::NistP384),
    ensures
        opt_view(r) == ec_dh_of(Group::NistP384, sk@, pk@),
        r is Some ==> r->0@.len() == scalar_len(Group::NistP384),
{
    match (elliptic_curve::SecretKey::<p384::NistP384>::from_slice(sk), elliptic_curve::PublicKey::<p384::NistP384>::from_sec1_bytes(pk)) {
        (Ok(k), Ok(p)) => Some(elliptic_curve::ecdh::diffie_hellman(k.to_nonzero_scalar(), p.as_affine()).raw_secret_bytes().to_vec()),
        _ => None,
    }
}

/// Relies on elliptic-curve's `SecretKey::<p521::NistP521>::from_slice` (given a
/// slice of the field's length), `public_key` and the uncompressed SEC1
/// encoding of NIST P-521, which never encodes the identity.
#[verifier::external_body]
pub(crate) fn p521_public(sk: &[u8]) -> (r: Option<Vec<u8>>)
    requires
        sk@.len() == scalar_len(Group::NistP521),
    ensures
        opt_view(r) == ec_public_of(Group::NistP521, sk@),
        (forall|i: int| 0 <= i < sk@.len() ==> sk@[i] == 0) ==> r is None,
        r is Some ==> r->0@.len() == public_len(Group::NistP521),
{
    match elliptic_curve::SecretKey::<p521::NistP521>::from_slice(sk) {
        Ok(k) => Some(k.public_key().to_encoded_point(false).as_bytes().to_vec()),
        Err(_) => None,
    }
}

/// Relies on elliptic-curve's `SecretKey::<p521::NistP521>::random`, which draws a
/// nonzero scalar below the group order from `rng`; `to_bytes` gives its
/// big-endian encoding of the field's length, which `from_slice` accepts.
#[verifier::external_body]
pub(crate) fn p521_random_secret(rng: &mut rand::rngs::ThreadRng) -> (r: Vec<u8>)
    ensures
        r@.len() == scalar_len(Group::NistP521),
        ec_public_of(Group::NistP521, r@) is Some,
{
    elliptic_curve::SecretKey::<p521::NistP521>::random(rng).to_bytes().to_vec()
}

/// Relies on elliptic-curve's `PublicKey::<p521::NistP521>::from_sec1_bytes`, which
/// accepts the encodings of the points of NIST P-521 but the identity.
#[verifier::external_body]
pub(crate) fn p521_point_valid(pk: &[u8]) -> (r: bool)
    ensures
        r == ec_point_valid(Group::NistP521, pk@),
{
    elliptic_curve::PublicKey::<p521::NistP521>::from_sec1_bytes(pk).is_ok()
}

/// Relies on elliptic-curve's `ecdh::diffie_hellman` on NIST P-521, after
/// `SecretKey::from_slice` and `PublicKey::from_sec1_bytes`; the shared
/// x-coordinate has the field's length.
#[verifier::external_body]
pub(crate) fn p521_dh(sk: &[u8], pk: &[u8]) -> (r: Option<Vec<u8>>)
    requires
        sk@.len() == scalar_len(Group::NistP521),
    ensures
        opt_view(r) == ec_dh_of(Group::NistP521, sk@, pk@),
        r is Some ==> r->0@.len() == scalar_len(Group::NistP521),
{
    match (elliptic_curve::SecretKey::<p521::NistP521>::from_slice(sk), elliptic_curve::PublicKey::<p521::NistP521>::from_sec1_bytes(pk)) {
        (Ok(k), Ok(p)) => Some(elliptic_curve::ecdh::diffie_hellman(k.to_nonzero_scalar(), p.as_affine()).raw_secret_bytes().to_vec()),
        _ => None,
    }
}

/// Relies on elliptic-curve's `SecretKey::<sm2::Sm2>::from_slice` (given a
/// slice of the field's length), `public_key` and the uncompressed SEC1
/// encoding of SM2, which never encodes the identity.
#[verifier::external_body]
pub(crate) fn sm2_public(sk: &[u8]) -> (r: Option<Vec<u8>>)
    requires
        sk@.len() == scalar_len(Group::Sm2),
    ensures
        opt_view(r) == ec_public_of(Group::Sm2, sk@),
        (forall|i: int| 0 <= i < sk@.len() ==> sk@[i] == 0) ==> r is None,
        r is Some ==> r->0@.len() == public_len(Group::Sm2),
{
    match elliptic_curve::SecretKey::<sm2::Sm2>::from_slice(sk) {
        Ok(k) => Some(k.public_key().to_encoded_point(false).as_bytes().to_vec()),
        Err(_) => None,
    }
}

/// Relies on elliptic-curve's `SecretKey::<sm2::Sm2>::random`, which draws a
/// nonzero scalar below the group order from `rng`; `to_bytes` gives its
/// big-endian encoding of the field's length, which `from_slice` accepts.
#[verifier::external_body]
pub(crate) fn sm2_random_secret(rng: &mut rand::rngs::ThreadRng) -> (r: Vec<u8>)
    ensures
        r@.len() == scalar_len(Group::Sm2),
        ec_public_of(Group::Sm2, r@) is Some,
{
    elliptic_curve::SecretKey::<sm2::Sm2>::random(rng).to_bytes().to_vec()
}

/// Relies on elliptic-curve's `PublicKey::<sm2::Sm2>::from_sec1_bytes`, which
/// accepts the encodings of the points of SM2 but the identity.
#[verifier::external_body]
pub(crate) fn sm2_point_valid(pk: &[u8]) -> (r: bool)
    ensures
        r == ec_point_valid(Group::Sm2, pk@),
{
    elliptic_curve::PublicKey::<sm2::Sm2>::from_sec1_bytes(pk).is_ok()
}

/// Relies on elliptic-curve's `ecdh::diffie_hellman` on SM2, after
/// `SecretKey::from_slice` and `PublicKey::from_sec1_bytes`; the shared
/// x-coordinate has the field's length.
#[verifier::external_body]
pub(crate) fn sm2_dh(sk: &[u8], pk: &[u8]) -> (r: Option<Vec<u8>>)
    requires
        sk@.len() == scalar_len(Group::Sm2),
    ensures
        opt_view(r) == ec_dh_of(Group::Sm2, sk@, pk@),
        r is Some ==> r->0@.len() == scalar_len(Group::Sm2),
{
    match (elliptic_curve::SecretKey::<sm2::Sm2>::from_slice(sk), elliptic_curve::PublicKey::<sm2::Sm2>::from_sec1_bytes(pk)) {
        (Ok(k), Ok(p)) => Some(elliptic_curve::ecdh::diffie_hellman(k.to_nonzero_scalar(), p.as_affine()).raw_secret_bytes().to_vec()),
        _ => None,
    }
}

} // verus!
