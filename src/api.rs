//! The keypair type and the public entry points.
use vstd::prelude::*;

verus! {

use crate::params::{PUBLICKEYBYTES, SECRETKEYBYTES, SEEDBYTES, SIGNBYTES};
use crate::render::{keypair_text, render_keypair};
use crate::primitive::{
    accepts,
    check_signature,
    derive_keypair,
    equal_in_constant_time,
    keypair_of_seed,
    random_keypair,
    sign_detached,
    signature_of,
    wipe,
};

/// A public key together with the secret key generated with it.
///
/// The secret is private: `expose_secret` is the one way to read it. Both fields
/// are wiped when the value is released.
#[derive(Clone)]
pub struct Keypair {
    pub public: [u8; PUBLICKEYBYTES],
    secret: [u8; SECRETKEYBYTES],
}

/// Why a signature was turned down.
#[derive(Clone, Copy, Debug, PartialEq, Eq, Structural)]
pub enum SignError {
    /// The caller's input is malformed: the signature has the wrong length.
    Input,
    /// The primitive rejected the signature for this message and key.
    Verify,
}

impl Keypair {
    /// The public bytes, as the spec side sees them.
    pub closed spec fn public_view(&self) -> Seq<u8> {
        self.public@
    }

    /// The secret bytes, as the spec side sees them.
    pub closed spec fn secret_view(&self) -> Seq<u8> {
        self.secret@
    }

    /// Both halves are the pair that key generation derives from `seed`.
    pub closed spec fn derived_from(&self, seed: Seq<u8>) -> bool {
        (self.public_view(), self.secret_view()) == keypair_of_seed(seed)
    }

    /// Both halves come from one generation call, on some seed.
    pub closed spec fn generated(&self) -> bool {
        exists|seed: Seq<u8>| seed.len() == SEEDBYTES && #[trigger] self.derived_from(seed)
    }

    /// Explicitly expose the secret key: the one place where it leaves the keypair.
    pub fn expose_secret(&self) -> (r: &[u8])
        ensures
            r@ == self.secret_view(),
            r@.len() == SECRETKEYBYTES,
    {
        self.secret.as_slice()
    }

    /// Both keypairs hold the same secret bytes.
    pub open spec fn same_secret(&self, other: &Keypair) -> bool {
        self.secret_view() == other.secret_view()
    }

    /// Whether the two keypairs hold the same secret, compared in constant time.
    pub fn compare_secrets(&self, keys: &Keypair) -> (r: bool)
        ensures
            r == self.same_secret(keys),
    {
        equal_in_constant_time(self.secret.as_slice(), keys.secret.as_slice())
    }

    /// Derive a keypair from a seed; the same seed always gives the same keypair.
    pub fn generate_with_seed(seed: [u8; SEEDBYTES]) -> (r: Keypair)
        ensures
            r.derived_from(seed@),
            r.generated(),
    {
        let (public, secret) = derive_keypair(&seed);
        let r = Keypair { public, secret };
        assert(r.derived_from(seed@));
        r
    }

    /// Generate a keypair from fresh operating-system randomness, or `None` where
    /// that source fails.
    pub fn generate() -> (r: Option<Keypair>)
        ensures
            r matches Some(k) ==> k.generated(),
    {
        match random_keypair() {
            Some((public, secret)) => {
                let r = Keypair { public, secret };
                let ghost seed = choose|seed: Seq<u8>|
                    seed.len() == SEEDBYTES && #[trigger] keypair_of_seed(seed) == (public@, secret@);
                assert(r.derived_from(seed));
                Some(r)
            },
            None => None,
        }
    }

    /// Sign a message of any length with the secret key; `None` only where the
    /// primitive cannot read the secret bytes.
    pub fn sign(&self, msg: &[u8]) -> (r: Option<[u8; SIGNBYTES]>)
        ensures
            match r {
                Some(s) => signature_of(self.secret_view(), msg@) == Some(s@),
                None => signature_of(self.secret_view(), msg@) is None,
            },
    {
        sign_detached(&self.secret, msg)
    }

    /// Diagnostic text: the public key in full and a fixed marker in place of the secret.
    pub fn debug_text(&self) -> (r: String)
        ensures
            r@ == keypair_text(self.public_view()),
    {
        render_keypair(self.public.as_slice())
    }
}

impl Keypair {
    /// Overwrite every byte of both halves with zero.
    fn wipe_all(&mut self)
        ensures
            final(self).public_view() == Seq::new(PUBLICKEYBYTES as nat, |i: int| 0u8),
            final(self).secret_view() == Seq::new(SECRETKEYBYTES as nat, |i: int| 0u8),
        opens_invariants none
        no_unwind
    {
        wipe(&mut self.public);
        wipe(&mut self.secret);
    }
}

/// Each keypair, clones included, is wiped when its storage is released.
impl Drop for Keypair {
    fn drop(&mut self)
        opens_invariants none
        no_unwind
    {
        self.wipe_all();
    }
}

/// What `verify` returns for these bytes: the length of the signature is checked
/// first, then the primitive decides.
pub open spec fn verify_outcome(sig: Seq<u8>, msg: Seq<u8>, public: Seq<u8>) -> Result<(), SignError> {
    if sig.len() != SIGNBYTES {
        Err(SignError::Input)
    } else if public.len() == PUBLICKEYBYTES && accepts(sig, msg, public) {
        Ok(())
    } else {
        Err(SignError::Verify)
    }
}

/// Verify a signature of a message under a public key.
///
/// A signature of the wrong length is turned down with `Input` before the
/// primitive sees it; a key of the wrong length accepts nothing.
pub fn verify(sig: &[u8], msg: &[u8], public_key: &[u8]) -> (r: Result<(), SignError>)
    ensures
        r == verify_outcome(sig@, msg@, public_key@),
        sig@.len() != SIGNBYTES ==> r == Err::<(), SignError>(SignError::Input),
{
    if sig.len() != SIGNBYTES {
        return Err(SignError::Input);
    }
    if public_key.len() != PUBLICKEYBYTES {
        return Err(SignError::Verify);
    }
    let mut sig_bytes = [0u8; SIGNBYTES];
    let mut i: usize = 0;
    while i < SIGNBYTES
        invariant
            i <= SIGNBYTES,
            sig@.len() == SIGNBYTES,
            forall|j: int| 0 <= j < i ==> sig_bytes[j] == sig@[j],
        decreases SIGNBYTES - i,
    {
        sig_bytes[i] = sig[i];
        i = i + 1;
    }
    let mut key_bytes = [0u8; PUBLICKEYBYTES];
    let mut k: usize = 0;
    while k < PUBLICKEYBYTES
        invariant
            k <= PUBLICKEYBYTES,
            public_key@.len() == PUBLICKEYBYTES,
            forall|j: int| 0 <= j < k ==> key_bytes[j] == public_key@[j],
        decreases PUBLICKEYBYTES - k,
    {
        key_bytes[k] = public_key[k];
        k = k + 1;
    }
    assert(sig_bytes@ =~= sig@);
    assert(key_bytes@ =~= public_key@);
    if check_signature(&sig_bytes, msg, &key_bytes) {
        Ok(())
    } else {
        Err(SignError::Verify)
    }
}

/// Seeded generation is deterministic: two keypairs derived from the same seed
/// have the same public key and the same secret key.
pub proof fn lemma_seeded_generation_deterministic(seed: Seq<u8>, k1: Keypair, k2: Keypair)
    requires
        seed.len() == SEEDBYTES,
        k1.derived_from(seed),
        k2.derived_from(seed),
    ensures
        k1.public_view() == k2.public_view(),
        k1.same_secret(&k2),
{
}

/// Every keypair's secret compares equal to itself.
pub proof fn lemma_compare_secrets_reflexive(k: Keypair)
    ensures
        k.same_secret(&k),
{
}

/// A signature that `sign` returns for a keypair passes `verify` under that
/// keypair's public key whenever the primitive accepts it: the length check and
/// the key's length never turn it down.
pub proof fn lemma_sign_then_verify(k: Keypair, msg: Seq<u8>, sig: [u8; SIGNBYTES])
    requires
        signature_of(k.secret_view(), msg) == Some(sig@),
        accepts(sig@, msg, k.public_view()),
    ensures
        verify_outcome(sig@, msg, k.public_view()) == Ok::<(), SignError>(()),
{
}

/// A signature of any length other than `SIGNBYTES` is turned down with `Input`,
/// whatever the message and key.
pub proof fn lemma_wrong_length_rejected(sig: Seq<u8>, msg: Seq<u8>, public: Seq<u8>)
    requires
        sig.len() != SIGNBYTES,
    ensures
        verify_outcome(sig, msg, public) == Err::<(), SignError>(SignError::Input),
{
}

/// The diagnostic text depends on the public key alone: keypairs with the same
/// public key render the same text whatever their secrets, so no secret byte can
/// reach it.
pub proof fn lemma_debug_text_ignores_secret(k1: Keypair, k2: Keypair)
    requires
        k1.public_view() == k2.public_view(),
    ensures
        keypair_text(k1.public_view()) == keypair_text(k2.public_view()),
{
}

} // verus!
