//! A Diffie-Hellman key encapsulation mechanism over several elliptic-curve
//! groups, with the protocol logic verified once for every group.
mod backend;
pub mod group;
pub mod kdf;
pub mod kem;
pub mod keys;
pub mod laws;

pub use group::Group;
pub use kem::Error;
pub use keys::{
    random_keypair, BignP256, DhKem, EncapsulatedKey, NistP192, NistP224, NistP256, NistP384,
    NistP521, PrivateKey, PublicKey, Secp256k1, SharedSecret, Sm2, X25519,
};
