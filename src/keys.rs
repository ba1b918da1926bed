use crate::group::{public_len, scalar_len, secret_len, Group};
use crate::kem::{
    all_zero,    decap_spec, encap_spec, is_valid_point, point_valid, public_key_of, public_of, random_secret,
    secret_valid, usable_diffie_hellman, Error,
};
use crate::kdf::{copy_bytes, derive_secret};
use core::marker::PhantomData;
use vstd::prelude::*;

verus! {

/// A Diffie-Hellman group the KEM can be instantiated over. Keys and
/// secrets are typed by it, so those of two groups never mix.
pub trait DhKem: Sized {
    spec fn group_spec() -> Group;

    fn group() -> (r: Group)
        ensures
            r == Self::group_spec(),
    ;
}

/// X25519 (Curve25519 in Montgomery form).
pub struct X25519;

/// BIGN P-256.
pub struct BignP256;

/// secp256k1.
pub struct Secp256k1;

/// NIST P-192.
pub struct NistP192;

/// NIST P-224.
pub struct NistP224;

/// NIST P-256.
pub struct NistP256;

/// NIST P-384.
pub struct NistP384;

/// NIST P-521.
pub struct NistP521;

/// SM2.
pub struct Sm2;

impl DhKem for X25519 {
    open spec fn group_spec() -> Group {
        Group::X25519
    }

    fn group() -> (r: Group) {
        Group::X25519
    }
}

impl DhKem for BignP256 {
    open spec fn group_spec() -> Group {
        Group::BignP256
    }

    fn group() -> (r: Group) {
        Group::BignP256
    }
}

impl DhKem for Secp256k1 {
    open spec fn group_spec() -> Group {
        Group::Secp256k1
    }

    fn group() -> (r: Group) {
        Group::Secp256k1
    }
}

impl DhKem for NistP192 {
    open spec fn group_spec() -> Group {
        Group::NistP192
    }

    fn group() -> (r: Group) {
        Group::NistP192
    }
}

impl DhKem for NistP224 {
    open spec fn group_spec() -> Group {
        Group::NistP224
    }

    fn group() -> (r: Group) {
        Group::NistP224
    }
}

impl DhKem for NistP256 {
    open spec fn group_spec() -> Group {
        Group::NistP256
    }

    fn group() -> (r: Group) {
        Group::NistP256
    }
}

impl DhKem for NistP384 {
    open spec fn group_spec() -> Group {
        Group::NistP384
    }

    fn group() -> (r: Group) {
        Group::NistP384
    }
}

impl DhKem for NistP521 {
    open spec fn group_spec() -> Group {
        Group::NistP521
    }

    fn group() -> (r: Group) {
        Group::NistP521
    }
}

impl DhKem for Sm2 {
    open spec fn group_spec() -> Group {
        Group::Sm2
    }

    fn group() -> (r: Group) {
        Group::Sm2
    }
}

/// A public key of group `K`, held in its encoding.
pub struct PublicKey<K: DhKem> {
    bytes: Vec<u8>,
    group: PhantomData<K>,
}

/// The ephemeral public key that an encapsulation sends.
pub type EncapsulatedKey<K> = PublicKey<K>;

/// A secret key of group `K`, with its public key.
pub struct PrivateKey<K: DhKem> {
    secret: Vec<u8>,
    public: Vec<u8>,
    group: PhantomData<K>,
}

/// A secret shared by the two sides of an encapsulation.
pub struct SharedSecret<K: DhKem> {
    bytes: Vec<u8>,
    group: PhantomData<K>,
}

impl<K: DhKem> View for PublicKey<K> {
    type V = Seq<u8>;

    closed spec fn view(&self) -> Seq<u8> {
        self.bytes@
    }
}

impl<K: DhKem> View for PrivateKey<K> {
    type V = Seq<u8>;

    closed spec fn view(&self) -> Seq<u8> {
        self.secret@
    }
}

impl<K: DhKem> View for SharedSecret<K> {
    type V = Seq<u8>;

    closed spec fn view(&self) -> Seq<u8> {
        self.bytes@
    }
}

impl<K: DhKem> PublicKey<K> {
    #[verifier::type_invariant]
    spec fn inv(&self) -> bool {
        self.bytes@.len() == public_len(K::group_spec())
    }

    /// Decodes a public key; fails on anything but a valid encoding of the
    /// group's length.
    pub fn from_bytes(b: &[u8]) -> (r: Result<Self, Error>)
        ensures
            match r {
                Ok(pk) => point_valid(K::group_spec(), b@) && pk@ == b@,
                Err(e) => !point_valid(K::group_spec(), b@) && e == Error::InvalidPublicKeyEncoding,
            },
    {
        if is_valid_point(K::group(), b) {
            Ok(PublicKey { bytes: copy_bytes(b), group: PhantomData })
        } else {
            Err(Error::InvalidPublicKeyEncoding)
        }
    }

    pub fn as_bytes(&self) -> (r: &[u8])
        ensures
            r@ == self@,
            r@.len() == public_len(K::group_spec()),
    {
        proof {
            use_type_invariant(self);
        }
        self.bytes.as_slice()
    }

    /// Encapsulates to this key with the ephemeral secret `esk`.
    pub fn encapsulate_with(&self, esk: &PrivateKey<K>) -> (r: Result<
        (EncapsulatedKey<K>, SharedSecret<K>),
        Error,
    >)
        ensures
            match (r, encap_spec(K::group_spec(), esk@, self@)) {
                (Ok((ek, ss)), Ok((ek2, ss2))) => ek@ == ek2 && ss@ == ss2,
                (Err(e), Err(e2)) => e == e2,
                _ => false,
            },
    {
        proof {
            use_type_invariant(self);
            use_type_invariant(esk);
        }
        let g = K::group();
        match usable_diffie_hellman(g, &esk.secret, &self.bytes) {
            Some(dh) => {
                let ss = derive_secret(g, &dh, &esk.public, &self.bytes);
                let ek = PublicKey { bytes: esk.public.clone(), group: PhantomData };
                Ok((ek, SharedSecret { bytes: ss, group: PhantomData }))
            },
            None => Err(Error::DegenerateDhResult),
        }
    }

    /// Encapsulates to this key with a fresh ephemeral secret drawn from `rng`.
    pub fn encapsulate(&self, rng: &mut rand::rngs::ThreadRng) -> (r: Result<
        (EncapsulatedKey<K>, SharedSecret<K>),
        Error,
    >)
        ensures
            match r {
                Ok((ek, ss)) => exists|esk: Seq<u8>|
                    secret_valid(K::group_spec(), esk) && #[trigger] encap_spec(
                        K::group_spec(),
                        esk,
                        self@,
                    ) == Ok::<(Seq<u8>, Seq<u8>), Error>((ek@, ss@)),
                Err(e) => e == Error::DegenerateDhResult && exists|esk: Seq<u8>|
                    secret_valid(K::group_spec(), esk) && #[trigger] encap_spec(
                        K::group_spec(),
                        esk,
                        self@,
                    ) == Err::<(Seq<u8>, Seq<u8>), Error>(Error::DegenerateDhResult),
            },
    {
        let (esk, _) = random_keypair::<K>(rng);
        self.encapsulate_with(&esk)
    }
}

impl<K: DhKem> PrivateKey<K> {
    #[verifier::type_invariant]
    spec fn inv(&self) -> bool {
        &&& secret_valid(K::group_spec(), self.secret@)
        &&& public_of(K::group_spec(), self.secret@) == Some(self.public@)
        &&& self.public@.len() == public_len(K::group_spec())
    }

    /// Decodes a secret key; fails on anything but a valid scalar of the
    /// group's length.
    pub fn from_bytes(b: &[u8]) -> (r: Result<Self, Error>)
        ensures
            match r {
                Ok(sk) => secret_valid(K::group_spec(), b@) && sk@ == b@,
                Err(e) => !secret_valid(K::group_spec(), b@) && e == Error::InvalidPrivateKeyEncoding,
            },
            K::group_spec() != Group::X25519 && all_zero(b@) ==> r is Err,
    {
        let g = K::group();
        if b.len() != g.scalar_len() {
            return Err(Error::InvalidPrivateKeyEncoding);
        }
        match public_key_of(g, b) {
            Some(pk) => Ok(PrivateKey { secret: copy_bytes(b), public: pk, group: PhantomData }),
            None => Err(Error::InvalidPrivateKeyEncoding),
        }
    }

    pub fn to_bytes(&self) -> (r: Vec<u8>)
        ensures
            r@ == self@,
            r@.len() == scalar_len(K::group_spec()),
    {
        proof {
            use_type_invariant(self);
        }
        self.secret.clone()
    }

    /// The public key of this secret key.
    pub fn public_key(&self) -> (r: PublicKey<K>)
        ensures
            Some(r@) == public_of(K::group_spec(), self@),
            r@.len() == public_len(K::group_spec()),
    {
        proof {
            use_type_invariant(self);
        }
        PublicKey { bytes: self.public.clone(), group: PhantomData }
    }

    /// Recovers the shared secret from the encapsulated key `ek`.
    pub fn decapsulate(&self, ek: &EncapsulatedKey<K>) -> (r: Result<SharedSecret<K>, Error>)
        ensures
            match r {
                Ok(ss) => decap_spec(K::group_spec(), self@, ek@) == Ok::<Seq<u8>, Error>(ss@),
                Err(e) => decap_spec(K::group_spec(), self@, ek@) == Err::<Seq<u8>, Error>(e),
            },
    {
        proof {
            use_type_invariant(self);
            use_type_invariant(ek);
        }
        let g = K::group();
        match usable_diffie_hellman(g, &self.secret, &ek.bytes) {
            Some(dh) => {
                let ss = derive_secret(g, &dh, &ek.bytes, &self.public);
                Ok(SharedSecret { bytes: ss, group: PhantomData })
            },
            None => Err(Error::DegenerateDhResult),
        }
    }
}

impl<K: DhKem> SharedSecret<K> {
    #[verifier::type_invariant]
    spec fn inv(&self) -> bool {
        self.bytes@.len() == secret_len(K::group_spec())
    }

    pub fn as_slice(&self) -> (r: &[u8])
        ensures
            r@ == self@,
            r@.len() == secret_len(K::group_spec()),
    {
        proof {
            use_type_invariant(self);
        }
        self.bytes.as_slice()
    }

    /// Equality that reads every byte whatever the bytes hold.
    pub fn ct_eq(&self, other: &SharedSecret<K>) -> (r: bool)
        ensures
            r == (self@ == other@),
    {
        proof {
            use_type_invariant(self);
            use_type_invariant(other);
        }
        let n = self.bytes.len();
        let mut acc: u8 = 0;
        let mut i: usize = 0;
        while i < n
            invariant
                n == self@.len(),
                n == other@.len(),
                i <= n,
                (acc == 0) == (forall|j: int| 0 <= j < i ==> self@[j] == other@[j]),
            decreases n - i,
        {
            let a = self.bytes[i];
            let b = other.bytes[i];
            assert((acc | (a ^ b)) == 0 <==> (acc == 0 && a == b)) by (bit_vector);
            acc = acc | (a ^ b);
            i = i + 1;
        }
        if acc == 0 {
            assert(self@ =~= other@);
        }
        acc == 0
    }
}

/// Draws a fresh key pair of group `K` from `rng`.
pub fn random_keypair<K: DhKem>(rng: &mut rand::rngs::ThreadRng) -> (r: (PrivateKey<K>, PublicKey<K>))
    ensures
        secret_valid(K::group_spec(), r.0@),
        public_of(K::group_spec(), r.0@) == Some(r.1@),
        r.1@.len() == public_len(K::group_spec()),
{
    let (secret, public) = random_secret(K::group(), rng);
    let pk = PublicKey { bytes: public.clone(), group: PhantomData };
    (PrivateKey { secret, public, group: PhantomData }, pk)
}

} // verus!
