//! The calls into the signing primitive, the constant-time comparison and the
//! memory wiper, each behind a small item whose contract states what it relies on.
use fips204::ml_dsa_65;
use fips204::traits::{KeyGen, SerDes, Signer, Verifier};
use vstd::prelude::*;
use zeroize::Zeroize;

verus! {

use crate::params::{PUBLICKEYBYTES, SECRETKEYBYTES, SEEDBYTES, SIGNBYTES};

/// The encoded (public, secret) pair that key generation derives from a seed.
pub uninterp spec fn keypair_of_seed(seed: Seq<u8>) -> (Seq<u8>, Seq<u8>);

/// The deterministic signature of a message under an encoded secret key, or
/// `None` where those bytes are not a secret key.
pub uninterp spec fn signature_of(secret: Seq<u8>, msg: Seq<u8>) -> Option<Seq<u8>>;

/// Whether the primitive accepts a signature of a message under an encoded public key.
pub uninterp spec fn accepts(sig: Seq<u8>, msg: Seq<u8>, public: Seq<u8>) -> bool;

/// Relies on `ml_dsa_65::KG::keygen_from_seed` and `SerDes::into_bytes`: the encoded
/// pair depends on the seed alone.
#[verifier::external_body]
pub(crate) fn derive_keypair(seed: &[u8; SEEDBYTES]) -> (r: (
    [u8; PUBLICKEYBYTES],
    [u8; SECRETKEYBYTES],
))
    ensures
        (r.0@, r.1@) == keypair_of_seed(seed@),
{
    let (pk, sk) = ml_dsa_65::KG::keygen_from_seed(seed);
    (pk.into_bytes(), sk.into_bytes())
}

/// Relies on `ml_dsa_65::try_keygen`: it draws one seed from the operating
/// system's generator and derives the pair from it as `keygen_from_seed` does; it
/// fails only where the generator fails.
#[verifier::external_body]
pub(crate) fn random_keypair() -> (r: Option<([u8; PUBLICKEYBYTES], [u8; SECRETKEYBYTES])>)
    ensures
        r matches Some(p) ==> exists|seed: Seq<u8>|
            seed.len() == SEEDBYTES && #[trigger] keypair_of_seed(seed) == (p.0@, p.1@),
{
    match ml_dsa_65::try_keygen() {
        Ok((pk, sk)) => Some((pk.into_bytes(), sk.into_bytes())),
        Err(_) => None,
    }
}

/// Relies on `PrivateKey::try_from_bytes` and `Signer::try_sign_with_seed`, with
/// the all-zero randomness of the deterministic variant and an empty context: the
/// outcome depends on the secret bytes and the message alone.
#[verifier::external_body]
pub(crate) fn sign_detached(secret: &[u8; SECRETKEYBYTES], msg: &[u8]) -> (r: Option<
    [u8; SIGNBYTES],
>)
    ensures
        match r {
            Some(s) => signature_of(secret@, msg@) == Some(s@),
            None => signature_of(secret@, msg@) is None,
        },
{
    match ml_dsa_65::PrivateKey::try_from_bytes(*secret) {
        Ok(sk) => sk.try_sign_with_seed(&[0u8; 32], msg, &[]).ok(),
        Err(_) => None,
    }
}

/// Relies on `PublicKey::try_from_bytes` and `Verifier::verify` with an empty
/// context: a key that does not decode accepts nothing, and the verdict depends on
/// the three arguments alone.
#[verifier::external_body]
pub(crate) fn check_signature(
    sig: &[u8; SIGNBYTES],
    msg: &[u8],
    public: &[u8; PUBLICKEYBYTES],
) -> (r: bool)
    ensures
        r == accepts(sig@, msg@, public@),
{
    match ml_dsa_65::PublicKey::try_from_bytes(*public) {
        Ok(pk) => pk.verify(msg, sig, &[]),
        Err(_) => false,
    }
}

/// Relies on `constant_time_eq::constant_time_eq`: true exactly where both slices
/// hold the same bytes, in time that does not depend on where they differ.
#[verifier::external_body]
pub(crate) fn equal_in_constant_time(a: &[u8], b: &[u8]) -> (r: bool)
    ensures
        r == (a@ == b@),
{
    constant_time_eq::constant_time_eq(a, b)
}

/// Relies on `Zeroize::zeroize` for arrays: every byte is set to zero through a
/// volatile write that the optimiser keeps.
#[verifier::external_body]
pub(crate) fn wipe<const N: usize>(bytes: &mut [u8; N])
    ensures
        final(bytes)@ == Seq::new(N as nat, |i: int| 0u8),
    opens_invariants none
    no_unwind
{
    bytes.zeroize();
}

} // verus!
