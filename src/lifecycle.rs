//! Laws of the key lifecycle, stated over the outcomes that the operations
//! of `custody` are specified by.
use vstd::prelude::*;
use crate::custody::{
    hex_import_outcome, import_outcome, nsec_import_outcome, pubkey_outcome, sign_outcome,
    signature_outcome, state_after_clear, state_after_hex_import, state_after_import,
    state_after_nsec_import,
};
use crate::encoding::{hex_text_of, lemma_hex_round_trip, nsec_prefix};
use crate::error::KeyError;
use crate::primitives::{bech32_decoded, public_key_of};
use crate::scalar::{be_value, secret_accepted};
use crate::store::valid_state;

verus! {

/// Importing an accepted key succeeds and loads exactly that key; from then
/// on the store is loaded and every derivation of the public key returns the
/// same value, the scheme's public key of those bytes.
pub proof fn lemma_import_accepted(prev: Option<Seq<u8>>, b: Seq<u8>)
    requires
        valid_state(prev),
        secret_accepted(b),
    ensures
        import_outcome(b) == Ok::<(), KeyError>(()),
        state_after_import(prev, b) == Some(b),
        valid_state(state_after_import(prev, b)),
        pubkey_outcome(state_after_import(prev, b)) == Ok::<Seq<u8>, KeyError>(public_key_of(b)),
{
}

/// Importing 32 bytes that the scheme rejects fails with `InvalidKey` and
/// leaves the store as it was.
pub proof fn lemma_import_rejected(prev: Option<Seq<u8>>, b: Seq<u8>)
    requires
        b.len() == 32,
        !secret_accepted(b),
    ensures
        import_outcome(b) == Err::<(), KeyError>(KeyError::InvalidKey),
        state_after_import(prev, b) == prev,
{
}

/// Zero bytes spell the value zero.
proof fn lemma_zero_bytes_value(n: nat)
    ensures
        be_value(Seq::new(n, |i: int| 0u8)) == 0,
    decreases n,
{
    if n > 0 {
        let z = Seq::new(n, |i: int| 0u8);
        assert(z.drop_last() =~= Seq::new((n - 1) as nat, |i: int| 0u8));
        lemma_zero_bytes_value((n - 1) as nat);
    }
}

/// The all-zero key is not a valid secret key.
pub proof fn lemma_zero_key_rejected()
    ensures
        !secret_accepted(Seq::new(32, |i: int| 0u8)),
{
    lemma_zero_bytes_value(32);
}

/// A string that bech32-decodes to the `nsec` prefix and payload `b`
/// imports exactly as the raw bytes `b` do.
pub proof fn lemma_nsec_import_is_raw_import(prev: Option<Seq<u8>>, text: Seq<char>, b: Seq<u8>)
    requires
        bech32_decoded(text) == Some((nsec_prefix(), b)),
    ensures
        nsec_import_outcome(text) == import_outcome(b),
        state_after_nsec_import(prev, text) == state_after_import(prev, b),
{
}

/// Importing the hexadecimal text of 32 bytes behaves exactly as importing
/// the bytes themselves.
pub proof fn lemma_hex_import_is_raw_import(prev: Option<Seq<u8>>, b: Seq<u8>)
    requires
        b.len() == 32,
    ensures
        hex_import_outcome(hex_text_of(b)) == import_outcome(b),
        state_after_hex_import(prev, hex_text_of(b)) == state_after_import(prev, b),
{
    lemma_hex_round_trip(b);
}

/// With a key loaded, signing a 32-byte digest yields the scheme's outcome
/// for that key and digest, which depends on nothing else: signing the same
/// digest again gives the same result.
pub proof fn lemma_sign_loaded(secret: Seq<u8>, digest: Seq<u8>)
    requires
        digest.len() == 32,
    ensures
        sign_outcome(Some(secret), digest) == signature_outcome(secret, digest),
{
}

/// Signing a digest whose length is not 32 fails with `InvalidLength`,
/// whether or not a key is loaded.
pub proof fn lemma_sign_wrong_length(s: Option<Seq<u8>>, digest: Seq<u8>)
    requires
        digest.len() != 32,
    ensures
        sign_outcome(s, digest) == Err::<Seq<u8>, KeyError>(KeyError::InvalidLength),
{
}

/// After clearing, no key is loaded, and deriving the public key or signing
/// any 32-byte digest fails with `NoKeyLoaded`.
pub proof fn lemma_cleared(s: Option<Seq<u8>>, digest: Seq<u8>)
    requires
        digest.len() == 32,
    ensures
        state_after_clear(s) is None,
        pubkey_outcome(state_after_clear(s)) == Err::<Seq<u8>, KeyError>(KeyError::NoKeyLoaded),
        sign_outcome(state_after_clear(s), digest) == Err::<Seq<u8>, KeyError>(KeyError::NoKeyLoaded),
{
}

/// Clearing twice is the same as clearing once: the store stays empty.
pub proof fn lemma_clear_twice(s: Option<Seq<u8>>)
    ensures
        state_after_clear(state_after_clear(s)) == state_after_clear(s),
        state_after_clear(state_after_clear(s)) is None,
{
}

} // verus!
