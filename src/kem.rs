use crate::backend::{
    x25519_random_secret, x25519, x25519_of, ec_public_of, ec_point_valid, ec_dh_of, opt_view,
    bign256_public, bign256_point_valid, bign256_dh, bign256_random_secret, k256_public, k256_point_valid, k256_dh, k256_random_secret,
    p192_public, p192_point_valid, p192_dh, p192_random_secret, p224_public, p224_point_valid, p224_dh, p224_random_secret, p256_public,
    p256_point_valid, p256_dh, p256_random_secret, p384_public, p384_point_valid, p384_dh, p384_random_secret, p521_public,
    p521_point_valid, p521_dh, p521_random_secret, sm2_public, sm2_point_valid, sm2_dh, sm2_random_secret,
};
use crate::group::{public_len, scalar_len, Group};
use crate::kdf::derive_secret_spec;
use vstd::prelude::*;

verus! {

/// Why a key operation failed.
#[derive(Clone, Copy, Debug, PartialEq, Eq, Structural)]
pub enum Error {
    /// Bytes that are not the encoding of a public key of the group.
    InvalidPublicKeyEncoding,
    /// Bytes that are not the encoding of a secret key of the group.
    InvalidPrivateKeyEncoding,
    /// The Diffie-Hellman value is the identity or could not be formed.
    DegenerateDhResult,
}

/// The u-coordinate of the X25519 base point.
pub open spec fn x25519_base() -> Seq<u8> {
    seq![9u8] + Seq::new(31, |i: int| 0u8)
}

/// Public key of the secret scalar `sk`, or `None` where `sk` is no valid scalar.
pub open spec fn public_of(g: Group, sk: Seq<u8>) -> Option<Seq<u8>> {
    match g {
        Group::X25519 => Some(x25519_of(sk, x25519_base())),
        _ => ec_public_of(g, sk),
    }
}

/// Whether `sk` encodes a secret key of group `g`.
pub open spec fn secret_valid(g: Group, sk: Seq<u8>) -> bool {
    sk.len() == scalar_len(g) && public_of(g, sk) is Some
}

/// Whether `pk` encodes a public key of group `g`.
pub open spec fn point_valid(g: Group, pk: Seq<u8>) -> bool {
    pk.len() == public_len(g) && match g {
        Group::X25519 => true,
        _ => ec_point_valid(g, pk),
    }
}

/// The Diffie-Hellman value of secret `sk` and public key `pk`.
pub open spec fn dh_of(g: Group, sk: Seq<u8>, pk: Seq<u8>) -> Option<Seq<u8>> {
    match g {
        Group::X25519 => Some(x25519_of(sk, pk)),
        _ => ec_dh_of(g, sk, pk),
    }
}

pub open spec fn all_zero(s: Seq<u8>) -> bool {
    forall|i: int| 0 <= i < s.len() ==> s[i] == 0
}

/// The Diffie-Hellman value of `sk` and `pk` when it is usable: it exists
/// and is not all zero bytes (the identity's encoding).
pub open spec fn usable_dh(g: Group, sk: Seq<u8>, pk: Seq<u8>) -> Option<Seq<u8>> {
    match dh_of(g, sk, pk) {
        Some(d) => if all_zero(d) { None } else { Some(d) },
        None => None,
    }
}

/// Encapsulation to public key `pk` with ephemeral secret `esk`: the
/// encapsulated key and the shared secret.
pub open spec fn encap_spec(g: Group, esk: Seq<u8>, pk: Seq<u8>) -> Result<(Seq<u8>, Seq<u8>), Error> {
    let epk = public_of(g, esk)->0;
    match usable_dh(g, esk, pk) {
        Some(d) => Ok((epk, derive_secret_spec(g, d, epk, pk))),
        None => Err(Error::DegenerateDhResult),
    }
}

/// Decapsulation of encapsulated key `ek` with secret `sk`.
pub open spec fn decap_spec(g: Group, sk: Seq<u8>, ek: Seq<u8>) -> Result<Seq<u8>, Error> {
    match usable_dh(g, sk, ek) {
        Some(d) => Ok(derive_secret_spec(g, d, ek, public_of(g, sk)->0)),
        None => Err(Error::DegenerateDhResult),
    }
}

/// Public key of `sk` in group `g`.
pub fn public_key_of(g: Group, sk: &[u8]) -> (r: Option<Vec<u8>>)
    requires
        sk@.len() == scalar_len(g),
    ensures
        opt_view(r) == public_of(g, sk@),
        r is Some ==> r->0@.len() == public_len(g),
        g != Group::X25519 && all_zero(sk@) ==> r is None,
{
    match g {
        Group::X25519 => {
            let mut base: Vec<u8> = vec![0u8; 32];
            base.set(0, 9);
            assert(base@ =~= x25519_base());
            Some(x25519(sk, &base))
        },
        Group::BignP256 => bign256_public(sk),
        Group::Secp256k1 => k256_public(sk),
        Group::NistP192 => p192_public(sk),
        Group::NistP224 => p224_public(sk),
        Group::NistP256 => p256_public(sk),
        Group::NistP384 => p384_public(sk),
        Group::NistP521 => p521_public(sk),
        Group::Sm2 => sm2_public(sk),
    }
}

/// Whether `pk` encodes a public key of group `g`.
pub fn is_valid_point(g: Group, pk: &[u8]) -> (r: bool)
    ensures
        r == point_valid(g, pk@),
{
    if pk.len() != g.public_len() {
        return false;
    }
    match g {
        Group::X25519 => true,
        Group::BignP256 => bign256_point_valid(pk),
        Group::Secp256k1 => k256_point_valid(pk),
        Group::NistP192 => p192_point_valid(pk),
        Group::NistP224 => p224_point_valid(pk),
        Group::NistP256 => p256_point_valid(pk),
        Group::NistP384 => p384_point_valid(pk),
        Group::NistP521 => p521_point_valid(pk),
        Group::Sm2 => sm2_point_valid(pk),
    }
}

/// Diffie-Hellman value of secret `sk` and public key `pk` in group `g`.
pub fn diffie_hellman(g: Group, sk: &[u8], pk: &[u8]) -> (r: Option<Vec<u8>>)
    requires
        sk@.len() == scalar_len(g),
        pk@.len() == public_len(g),
    ensures
        opt_view(r) == dh_of(g, sk@, pk@),
{
    match g {
        Group::X25519 => Some(x25519(sk, pk)),
        Group::BignP256 => bign256_dh(sk, pk),
        Group::Secp256k1 => k256_dh(sk, pk),
        Group::NistP192 => p192_dh(sk, pk),
        Group::NistP224 => p224_dh(sk, pk),
        Group::NistP256 => p256_dh(sk, pk),
        Group::NistP384 => p384_dh(sk, pk),
        Group::NistP521 => p521_dh(sk, pk),
        Group::Sm2 => sm2_dh(sk, pk),
    }
}

/// Whether every byte of `s` is zero. Reads every byte whatever it holds.
pub fn is_all_zero(s: &[u8]) -> (r: bool)
    ensures
        r == all_zero(s@),
{
    let mut acc: u8 = 0;
    let mut i: usize = 0;
    while i < s.len()
        invariant
            i <= s@.len(),
            (acc == 0) == (forall|j: int| 0 <= j < i ==> s@[j] == 0),
        decreases s@.len() - i,
    {
        let b = s[i];
        assert((acc | b) == 0 <==> (acc == 0 && b == 0)) by (bit_vector);
        acc = acc | b;
        i = i + 1;
    }
    acc == 0
}

/// The Diffie-Hellman value of `sk` and `pk`, when usable.
pub fn usable_diffie_hellman(g: Group, sk: &[u8], pk: &[u8]) -> (r: Option<Vec<u8>>)
    requires
        sk@.len() == scalar_len(g),
        pk@.len() == public_len(g),
    ensures
        opt_view(r) == usable_dh(g, sk@, pk@),
{
    match diffie_hellman(g, sk, pk) {
        Some(d) => if is_all_zero(&d) { None } else { Some(d) },
        None => None,
    }
}

/// Draws a secret scalar of group `g` from `rng`, uniform over the valid
/// secrets, with its public key.
pub fn random_secret(g: Group, rng: &mut rand::rngs::ThreadRng) -> (r: (Vec<u8>, Vec<u8>))
    ensures
        secret_valid(g, r.0@),
        public_of(g, r.0@) == Some(r.1@),
        r.1@.len() == public_len(g),
{
    let sk = match g {
        Group::X25519 => x25519_random_secret(rng),
        Group::BignP256 => bign256_random_secret(rng),
        Group::Secp256k1 => k256_random_secret(rng),
        Group::NistP192 => p192_random_secret(rng),
        Group::NistP224 => p224_random_secret(rng),
        Group::NistP256 => p256_random_secret(rng),
        Group::NistP384 => p384_random_secret(rng),
        Group::NistP521 => p521_random_secret(rng),
        Group::Sm2 => sm2_random_secret(rng),
    };
    match public_key_of(g, &sk) {
        Some(pk) => (sk, pk),
        None => {
            assert(false);
            (sk, Vec::new())
        },
    }
}

} // verus!
