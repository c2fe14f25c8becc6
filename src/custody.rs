//! The operations offered to the host: importing a key in one of three
//! encodings, deriving the public key, signing digests, clearing, hashing.
use vstd::prelude::*;
use crate::encoding::{hex_decoded, is_hex_text, nsec_prefix};
use crate::error::KeyError;
use crate::primitives::{
    TransientKey, bech32_decode, bech32_decoded, hex_decode_into, public_key_of,
    schnorr_signature, sha256_digest, sha256_of, sign_prehash, signing_key_from_bytes,
    verifying_key_bytes, wipe_array, wipe_vec,
};
use crate::scalar::secret_accepted;
use crate::store::{KeyStore, valid_state};

verus! {

/// What importing raw bytes as a secret key returns.
pub open spec fn import_outcome(b: Seq<u8>) -> Result<(), KeyError> {
    if b.len() != 32 {
        Err(KeyError::InvalidLength)
    } else if !secret_accepted(b) {
        Err(KeyError::InvalidKey)
    } else {
        Ok(())
    }
}

/// The slot after importing raw bytes: the bytes on success, else unchanged.
pub open spec fn state_after_import(s: Option<Seq<u8>>, b: Seq<u8>) -> Option<Seq<u8>> {
    if import_outcome(b) is Ok {
        Some(b)
    } else {
        s
    }
}

/// What importing a bech32 `nsec` string returns.
pub open spec fn nsec_import_outcome(text: Seq<char>) -> Result<(), KeyError> {
    match bech32_decoded(text) {
        None => Err(KeyError::InvalidEncoding),
        Some((hrp, data)) => if hrp != nsec_prefix() {
            Err(KeyError::InvalidPrefix)
        } else {
            import_outcome(data)
        },
    }
}

/// The slot after importing a bech32 `nsec` string.
pub open spec fn state_after_nsec_import(s: Option<Seq<u8>>, text: Seq<char>) -> Option<Seq<u8>> {
    match bech32_decoded(text) {
        Some((hrp, data)) => if hrp == nsec_prefix() {
            state_after_import(s, data)
        } else {
            s
        },
        None => s,
    }
}

/// What importing hexadecimal text returns.
pub open spec fn hex_import_outcome(text: Seq<char>) -> Result<(), KeyError> {
    if is_hex_text(text, 32) {
        import_outcome(hex_decoded(text))
    } else {
        Err(KeyError::InvalidEncoding)
    }
}

/// The slot after importing hexadecimal text.
pub open spec fn state_after_hex_import(s: Option<Seq<u8>>, text: Seq<char>) -> Option<Seq<u8>> {
    if is_hex_text(text, 32) {
        state_after_import(s, hex_decoded(text))
    } else {
        s
    }
}

/// The slot after clearing: empty, whatever it held.
pub open spec fn state_after_clear(s: Option<Seq<u8>>) -> Option<Seq<u8>> {
    None
}

/// What deriving the public key returns in slot state `s`.
pub open spec fn pubkey_outcome(s: Option<Seq<u8>>) -> Result<Seq<u8>, KeyError> {
    match s {
        None => Err(KeyError::NoKeyLoaded),
        Some(secret) => Ok(public_key_of(secret)),
    }
}

/// What signing `digest` returns in slot state `s`.
pub open spec fn sign_outcome(s: Option<Seq<u8>>, digest: Seq<u8>) -> Result<Seq<u8>, KeyError> {
    if digest.len() != 32 {
        Err(KeyError::InvalidLength)
    } else {
        match s {
            None => Err(KeyError::NoKeyLoaded),
            Some(secret) => signature_outcome(secret, digest),
        }
    }
}

/// What signing `digest` with `secret` returns: the signature, or
/// `SigningFailure` where the primitive reports an error.
pub open spec fn signature_outcome(secret: Seq<u8>, digest: Seq<u8>) -> Result<Seq<u8>, KeyError> {
    match schnorr_signature(secret, digest) {
        Some(sig) => Ok(sig),
        None => Err(KeyError::SigningFailure),
    }
}

/// A byte-vector result seen through the view of its vector.
pub open spec fn bytes_result(r: Result<Vec<u8>, KeyError>) -> Result<Seq<u8>, KeyError> {
    match r {
        Ok(v) => Ok(v@),
        Err(e) => Err(e),
    }
}

/// Validates `key_bytes` fully and only then stores them, so that a failed
/// import leaves the store as it was. The scratch copy is wiped.
fn import_key_bytes(store: &mut KeyStore, key_bytes: &[u8]) -> (r: Result<(), KeyError>)
    ensures
        r == import_outcome(key_bytes@),
        final(store)@ == state_after_import(old(store)@, key_bytes@),
{
    if key_bytes.len() != 32 {
        return Err(KeyError::InvalidLength);
    }
    match signing_key_from_bytes(key_bytes) {
        Err(_) => Err(KeyError::InvalidKey),
        Ok(_) => {
            let mut buf: [u8; 32] = [0u8; 32];
            let mut i: usize = 0;
            while i < 32
                invariant
                    key_bytes@.len() == 32,
                    i <= 32,
                    forall|j: int| 0 <= j < i ==> buf@[j] == key_bytes@[j],
                decreases 32 - i,
            {
                buf[i] = key_bytes[i];
                i = i + 1;
            }
            assert(buf@ =~= key_bytes@);
            store.store(&buf);
            wipe_array(&mut buf);
            Ok(())
        },
    }
}

/// Imports a raw 32-byte secret key.
pub fn import_key(store: &mut KeyStore, key_bytes: &[u8]) -> (r: Result<(), KeyError>)
    ensures
        r == import_outcome(key_bytes@),
        final(store)@ == state_after_import(old(store)@, key_bytes@),
        valid_state(final(store)@),
{
    let r = import_key_bytes(store, key_bytes);
    proof {
        use_type_invariant(&*store);
        store.lemma_view_valid();
    }
    r
}

/// Whether `hrp` is the `nsec` prefix.
fn is_nsec_prefix(hrp: &Vec<u8>) -> (r: bool)
    ensures
        r == (hrp@ == nsec_prefix()),
{
    let r = hrp.len() == 4 && hrp[0] == 0x6e && hrp[1] == 0x73 && hrp[2] == 0x65 && hrp[3] == 0x63;
    proof {
        if hrp@.len() == 4 {
            if r {
                assert(hrp@ =~= nsec_prefix());
            } else {
                assert(hrp@ != nsec_prefix()) by {
                    if hrp@ == nsec_prefix() {
                        assert(hrp@[0] == 0x6e && hrp@[1] == 0x73 && hrp@[2] == 0x65 && hrp@[3] == 0x63);
                    }
                }
            }
        }
    }
    r
}

/// Imports a secret key from a bech32 string with the `nsec` prefix. The
/// decoded payload is wiped before returning.
pub fn import_nsec(store: &mut KeyStore, nsec_str: &str) -> (r: Result<(), KeyError>)
    ensures
        r == nsec_import_outcome(nsec_str@),
        final(store)@ == state_after_nsec_import(old(store)@, nsec_str@),
        valid_state(final(store)@),
{
    let r = match bech32_decode(nsec_str) {
        Err(_) => Err(KeyError::InvalidEncoding),
        Ok((hrp, data)) => {
            let mut data = data;
            let r = if !is_nsec_prefix(&hrp) {
                Err(KeyError::InvalidPrefix)
            } else {
                import_key_bytes(store, data.as_slice())
            };
            wipe_vec(&mut data);
            r
        },
    };
    proof {
        use_type_invariant(&*store);
        store.lemma_view_valid();
    }
    r
}

/// Imports a secret key from 64 hexadecimal digits. The decoded bytes are
/// wiped before returning.
pub fn import_hex(store: &mut KeyStore, hex_str: &str) -> (r: Result<(), KeyError>)
    ensures
        r == hex_import_outcome(hex_str@),
        final(store)@ == state_after_hex_import(old(store)@, hex_str@),
        valid_state(final(store)@),
{
    let mut decoded: [u8; 32] = [0u8; 32];
    let r = match hex_decode_into(hex_str, &mut decoded) {
        Err(_) => Err(KeyError::InvalidEncoding),
        Ok(()) => import_key_bytes(store, decoded.as_slice()),
    };
    wipe_array(&mut decoded);
    proof {
        use_type_invariant(&*store);
        store.lemma_view_valid();
    }
    r
}

/// The 32-byte x-only public key of the resident secret key.
pub fn derive_pubkey(store: &KeyStore) -> (r: Result<Vec<u8>, KeyError>)
    ensures
        bytes_result(r) == pubkey_outcome(store@),
        r is Ok ==> r->Ok_0@.len() == 32,
        valid_state(store@),
{
    let r = store.with_signing_key(
        (|k: &TransientKey| -> (r: Result<Vec<u8>, KeyError>)
            ensures
                bytes_result(r) == Ok::<Seq<u8>, KeyError>(public_key_of(k.secret())),
                r->Ok_0@.len() == 32,
        {
            Ok(verifying_key_bytes(k))
        }),
    );
    r
}

/// Signs a 32-byte digest with the resident key. The digest is signed as
/// given, not hashed again.
pub fn sign_hash(store: &KeyStore, hash_bytes: &[u8]) -> (r: Result<Vec<u8>, KeyError>)
    ensures
        bytes_result(r) == sign_outcome(store@, hash_bytes@),
        r is Ok ==> r->Ok_0@.len() == 64,
        valid_state(store@),
{
    proof {
        use_type_invariant(store);
        store.lemma_view_valid();
    }
    if hash_bytes.len() != 32 {
        return Err(KeyError::InvalidLength);
    }
    store.with_signing_key(
        (|k: &TransientKey| -> (r: Result<Vec<u8>, KeyError>)
            requires
                hash_bytes@.len() == 32,
            ensures
                bytes_result(r) == signature_outcome(k.secret(), hash_bytes@),
                r is Ok ==> r->Ok_0@.len() == 64,
        {
            match sign_prehash(k, hash_bytes) {
                Ok(sig) => Ok(sig),
                Err(_) => Err(KeyError::SigningFailure),
            }
        }),
    )
}

/// Wipes the resident key, if any. Clearing an empty store does nothing.
pub fn clear_key(store: &mut KeyStore)
    ensures
        final(store)@ == state_after_clear(old(store)@),
{
    store.clear();
}

/// Whether a key is resident.
pub fn is_key_loaded(store: &KeyStore) -> (r: bool)
    ensures
        r == store@ is Some,
        valid_state(store@),
{
    store.is_loaded()
}

/// The SHA-256 digest of `data`, for preparing inputs to `sign_hash`.
pub fn sha256_hash(data: &[u8]) -> (r: Vec<u8>)
    ensures
        r@ == sha256_of(data@),
        r@.len() == 32,
{
    sha256_digest(data)
}

} // verus!
