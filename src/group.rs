use vstd::prelude::*;

verus! {

/// The Diffie-Hellman groups this library can run over.
#[derive(Clone, Copy, Debug, PartialEq, Eq, Structural)]
pub enum Group {
    X25519,
    BignP256,
    Secp256k1,
    NistP192,
    NistP224,
    NistP256,
    NistP384,
    NistP521,
    Sm2,
}

/// Length in bytes of a big-endian field element (and secret scalar) of the group.
pub open spec fn scalar_len(g: Group) -> nat {
    match g {
        Group::X25519 => 32,
        Group::BignP256 => 32,
        Group::Secp256k1 => 32,
        Group::NistP192 => 24,
        Group::NistP224 => 28,
        Group::NistP256 => 32,
        Group::NistP384 => 48,
        Group::NistP521 => 66,
        Group::Sm2 => 32,
    }
}

/// Length of an encoded public key: a Montgomery u-coordinate for X25519,
/// an uncompressed SEC1 point (0x04, x, y) for the Weierstrass curves.
pub open spec fn public_len(g: Group) -> nat {
    match g {
        Group::X25519 => 32,
        _ => 1 + 2 * scalar_len(g),
    }
}

/// Length of the shared secret handed to the caller.
pub open spec fn secret_len(g: Group) -> nat {
    match g {
        Group::NistP192 => 24,
        Group::NistP224 => 28,
        Group::NistP384 => 48,
        Group::NistP521 => 64,
        _ => 32,
    }
}

/// The two-byte identifier of the group's KEM, bound into every derived
/// secret. X25519, P-256, P-384 and P-521 carry their HPKE identifiers and
/// derive exactly as HPKE's DHKEM for them does; secp256k1 carries the
/// identifier proposed for it in HPKE's draft. P-192, P-224, BIGN P-256 and
/// SM2 have none in HPKE: 0x0040 to 0x0043 are this library's own.
pub open spec fn kem_id(g: Group) -> u16 {
    match g {
        Group::NistP256 => 0x0010,
        Group::NistP384 => 0x0011,
        Group::NistP521 => 0x0012,
        Group::Secp256k1 => 0x0016,
        Group::X25519 => 0x0020,
        Group::NistP192 => 0x0040,
        Group::NistP224 => 0x0041,
        Group::BignP256 => 0x0042,
        Group::Sm2 => 0x0043,
    }
}

impl Group {
    pub fn scalar_len(self) -> (r: usize)
        ensures
            r == scalar_len(self),
    {
        match self {
            Group::NistP192 => 24,
            Group::NistP224 => 28,
            Group::NistP384 => 48,
            Group::NistP521 => 66,
            _ => 32,
        }
    }

    pub fn public_len(self) -> (r: usize)
        ensures
            r == public_len(self),
    {
        match self {
            Group::X25519 => 32,
            _ => 1 + 2 * self.scalar_len(),
        }
    }

    pub fn secret_len(self) -> (r: usize)
        ensures
            r == secret_len(self),
    {
        match self {
            Group::NistP192 => 24,
            Group::NistP224 => 28,
            Group::NistP384 => 48,
            Group::NistP521 => 64,
            _ => 32,
        }
    }

    pub fn kem_id(self) -> (r: u16)
        ensures
            r == kem_id(self),
    {
        match self {
            Group::NistP256 => 0x0010,
            Group::NistP384 => 0x0011,
            Group::NistP521 => 0x0012,
            Group::Secp256k1 => 0x0016,
            Group::X25519 => 0x0020,
            Group::NistP192 => 0x0040,
            Group::NistP224 => 0x0041,
            Group::BignP256 => 0x0042,
            Group::Sm2 => 0x0043,
        }
    }
}

} // verus!
