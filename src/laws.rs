use crate::group::{kem_id, public_len, scalar_len, Group};
use crate::kdf::{be16, expand_label, labeled_ikm, labeled_info, suite_id, version_label};
use crate::kem::{
    all_zero, decap_spec, dh_of, encap_spec, point_valid, public_of, secret_valid, Error,
};
use vstd::prelude::*;

verus! {

/// Round trip. Take a recipient secret `sk` and an ephemeral secret `esk`
/// of group `g`, where the group's Diffie-Hellman agreement holds for the
/// pair (`esk` on the public key of `sk` gives the same value as `sk` on
/// the public key of `esk`). Then decapsulating with `sk` the key that an
/// encapsulation to the public key of `sk` sends gives back that
/// encapsulation's shared secret. Where encapsulation fails, decapsulation
/// fails with the same error.
pub proof fn lemma_round_trip(g: Group, sk: Seq<u8>, esk: Seq<u8>)
    requires
        secret_valid(g, sk),
        secret_valid(g, esk),
        dh_of(g, esk, public_of(g, sk)->0) == dh_of(g, sk, public_of(g, esk)->0),
    ensures
        match encap_spec(g, esk, public_of(g, sk)->0) {
            Ok((ek, ss)) => decap_spec(g, sk, ek) == Ok::<Seq<u8>, Error>(ss),
            Err(e) => decap_spec(g, sk, public_of(g, esk)->0) == Err::<Seq<u8>, Error>(e),
        },
{
}

/// Context binding. For one Diffie-Hellman value, two exchanges whose
/// encapsulated keys or recipient keys differ hand different context
/// strings to the key derivation, so the derived secret depends on both
/// public keys.
pub proof fn lemma_context_binding(
    g: Group,
    enc1: Seq<u8>,
    pk1: Seq<u8>,
    enc2: Seq<u8>,
    pk2: Seq<u8>,
)
    requires
        enc1.len() == public_len(g),
        enc2.len() == public_len(g),
        pk1.len() == public_len(g),
        pk2.len() == public_len(g),
        enc1 != enc2 || pk1 != pk2,
    ensures
        labeled_info(g, enc1 + pk1) != labeled_info(g, enc2 + pk2),
{
    let prefix = be16(crate::group::secret_len(g) as u16) + version_label() + suite_id(g)
        + expand_label();
    let n = public_len(g) as int;
    if labeled_info(g, enc1 + pk1) == labeled_info(g, enc2 + pk2) {
        let a = enc1 + pk1;
        let b = enc2 + pk2;
        assert(labeled_info(g, a) == prefix + a);
        assert(labeled_info(g, b) == prefix + b);
        assert((prefix + a).subrange(prefix.len() as int, (prefix + a).len() as int) =~= a);
        assert((prefix + b).subrange(prefix.len() as int, (prefix + b).len() as int) =~= b);
        assert(a == b);
        assert(a.subrange(0, n) =~= enc1);
        assert(b.subrange(0, n) =~= enc2);
        assert(a.subrange(n, 2 * n) =~= pk1);
        assert(b.subrange(n, 2 * n) =~= pk2);
    }
}

/// An encapsulation whose Diffie-Hellman value is all zero bytes (the
/// identity) fails with `DegenerateDhResult` and yields no secret; so does
/// the matching decapsulation.
pub proof fn lemma_degenerate_rejected(g: Group, sk: Seq<u8>, pk: Seq<u8>)
    requires
        dh_of(g, sk, pk) is Some,
        all_zero(dh_of(g, sk, pk)->0),
    ensures
        encap_spec(g, sk, pk) == Err::<(Seq<u8>, Seq<u8>), Error>(Error::DegenerateDhResult),
        decap_spec(g, sk, pk) == Err::<Seq<u8>, Error>(Error::DegenerateDhResult),
{
}

/// Byte strings one byte short or one byte long decode neither as a public
/// key nor as a secret key of the group.
pub proof fn lemma_decode_rejects_length(g: Group, b: Seq<u8>)
    ensures
        b.len() + 1 == public_len(g) || b.len() == public_len(g) + 1 ==> !point_valid(g, b),
        b.len() + 1 == scalar_len(g) || b.len() == scalar_len(g) + 1 ==> !secret_valid(g, b),
{
}

/// Groups are kept apart in the key derivation: two different groups hand
/// different extraction inputs to the key derivation for the same
/// Diffie-Hellman bytes, so no secret of one group is derived as a secret
/// of another.
pub proof fn lemma_groups_separated(g1: Group, g2: Group, dh: Seq<u8>)
    requires
        g1 != g2,
    ensures
        labeled_ikm(g1, dh) != labeled_ikm(g2, dh),
{
    let a = labeled_ikm(g1, dh);
    let b = labeled_ikm(g2, dh);
    assert(a[10] == (kem_id(g1) / 256) as u8 && a[11] == (kem_id(g1) % 256) as u8);
    assert(b[10] == (kem_id(g2) / 256) as u8 && b[11] == (kem_id(g2) % 256) as u8);
}

} // verus!
