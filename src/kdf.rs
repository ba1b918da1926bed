use crate::backend::{
    hkdf_sha256, hkdf_sha256_of, hkdf_sha384, hkdf_sha384_of, hkdf_sha512, hkdf_sha512_of,
};
use crate::group::{kem_id, secret_len, Group};
use vstd::prelude::*;

verus! {

/// Two-byte big-endian encoding of `x`.
pub open spec fn be16(x: u16) -> Seq<u8> {
    seq![(x / 256) as u8, (x % 256) as u8]
}

/// The version label "HPKE-v1" as bytes.
pub open spec fn version_label() -> Seq<u8> {
    seq![0x48u8, 0x50, 0x4b, 0x45, 0x2d, 0x76, 0x31]
}

/// The label "eae_prk" under which the Diffie-Hellman value is extracted.
pub open spec fn extract_label() -> Seq<u8> {
    seq![0x65u8, 0x61, 0x65, 0x5f, 0x70, 0x72, 0x6b]
}

/// The label "shared_secret" under which the secret is expanded.
pub open spec fn expand_label() -> Seq<u8> {
    seq![0x73u8, 0x68, 0x61, 0x72, 0x65, 0x64, 0x5f, 0x73, 0x65, 0x63, 0x72, 0x65, 0x74]
}

/// "KEM" followed by the group's KEM identifier.
pub open spec fn suite_id(g: Group) -> Seq<u8> {
    seq![0x4bu8, 0x45, 0x4d] + be16(kem_id(g))
}

/// Keying material handed to the extraction step.
pub open spec fn labeled_ikm(g: Group, dh: Seq<u8>) -> Seq<u8> {
    version_label() + suite_id(g) + extract_label() + dh
}

/// Context string handed to the expansion step; `ctx` is the encapsulated
/// key followed by the recipient's public key.
pub open spec fn labeled_info(g: Group, ctx: Seq<u8>) -> Seq<u8> {
    be16(secret_len(g) as u16) + version_label() + suite_id(g) + expand_label() + ctx
}

/// HKDF of the group: SHA-384 for P-384, SHA-512 for P-521, SHA-256 for
/// the others.
pub open spec fn hkdf_of(g: Group, ikm: Seq<u8>, info: Seq<u8>, len: nat) -> Seq<u8> {
    match g {
        Group::NistP384 => hkdf_sha384_of(ikm, info, len),
        Group::NistP521 => hkdf_sha512_of(ikm, info, len),
        _ => hkdf_sha256_of(ikm, info, len),
    }
}

/// The shared secret derived from a Diffie-Hellman value and the two public
/// keys of the exchange.
pub open spec fn derive_secret_spec(g: Group, dh: Seq<u8>, enc: Seq<u8>, pk: Seq<u8>) -> Seq<u8> {
    hkdf_of(g, labeled_ikm(g, dh), labeled_info(g, enc + pk), secret_len(g))
}

pub(crate) fn push_all(out: &mut Vec<u8>, src: &[u8])
    ensures
        final(out)@ == old(out)@ + src@,
{
    let mut i: usize = 0;
    while i < src.len()
        invariant
            i <= src@.len(),
            out@ == old(out)@ + src@.subrange(0, i as int),
        decreases src@.len() - i,
    {
        out.push(src[i]);
        i = i + 1;
        assert(out@ =~= old(out)@ + src@.subrange(0, i as int));
    }
    assert(src@.subrange(0, src@.len() as int) =~= src@);
}

/// A fresh vector holding the bytes of `src`.
pub(crate) fn copy_bytes(src: &[u8]) -> (r: Vec<u8>)
    ensures
        r@ == src@,
{
    let mut out: Vec<u8> = Vec::new();
    push_all(&mut out, src);
    assert(out@ =~= src@);
    out
}

fn push_be16(out: &mut Vec<u8>, x: u16)
    ensures
        final(out)@ == old(out)@ + be16(x),
{
    out.push((x / 256) as u8);
    out.push((x % 256) as u8);
    assert(out@ =~= old(out)@ + be16(x));
}

fn push_version_and_suite(out: &mut Vec<u8>, g: Group)
    ensures
        final(out)@ == old(out)@ + version_label() + suite_id(g),
{
    let label: [u8; 10] = [0x48, 0x50, 0x4b, 0x45, 0x2d, 0x76, 0x31, 0x4b, 0x45, 0x4d];
    push_all(out, &label);
    push_be16(out, g.kem_id());
    assert(label@ =~= version_label() + seq![0x4bu8, 0x45, 0x4d]);
    assert(out@ =~= old(out)@ + version_label() + suite_id(g));
}

/// Builds the extraction input for the Diffie-Hellman value `dh`.
pub fn labeled_ikm_bytes(g: Group, dh: &[u8]) -> (r: Vec<u8>)
    ensures
        r@ == labeled_ikm(g, dh@),
{
    let mut out: Vec<u8> = Vec::new();
    push_version_and_suite(&mut out, g);
    let label: [u8; 7] = [0x65, 0x61, 0x65, 0x5f, 0x70, 0x72, 0x6b];
    push_all(&mut out, &label);
    push_all(&mut out, dh);
    assert(label@ =~= extract_label());
    assert(out@ =~= labeled_ikm(g, dh@));
    out
}

/// Builds the expansion context for encapsulated key `enc` sent to public
/// key `pk`.
pub fn labeled_info_bytes(g: Group, enc: &[u8], pk: &[u8]) -> (r: Vec<u8>)
    ensures
        r@ == labeled_info(g, enc@ + pk@),
{
    let mut out: Vec<u8> = Vec::new();
    push_be16(&mut out, g.secret_len() as u16);
    push_version_and_suite(&mut out, g);
    let label: [u8; 13] = [0x73, 0x68, 0x61, 0x72, 0x65, 0x64, 0x5f, 0x73, 0x65, 0x63, 0x72, 0x65, 0x74];
    push_all(&mut out, &label);
    push_all(&mut out, enc);
    push_all(&mut out, pk);
    assert(label@ =~= expand_label());
    assert(out@ =~= labeled_info(g, enc@ + pk@));
    out
}

/// Derives the shared secret from the Diffie-Hellman value `dh`, the
/// encapsulated key `enc` and the recipient's public key `pk`.
pub fn derive_secret(g: Group, dh: &[u8], enc: &[u8], pk: &[u8]) -> (r: Vec<u8>)
    ensures
        r@ == derive_secret_spec(g, dh@, enc@, pk@),
        r@.len() == secret_len(g),
{
    let ikm = labeled_ikm_bytes(g, dh);
    let info = labeled_info_bytes(g, enc, pk);
    match g {
        Group::NistP384 => hkdf_sha384(&ikm, &info, g.secret_len()),
        Group::NistP521 => hkdf_sha512(&ikm, &info, g.secret_len()),
        _ => hkdf_sha256(&ikm, &info, g.secret_len()),
    }
}

} // verus!
