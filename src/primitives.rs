//! The outside code this library relies on, each item with the contract the
//! library assumes of it.
use vstd::prelude::*;
use crate::scalar::secret_accepted;
use crate::encoding::{hex_decoded, is_hex_text};
use k256::schnorr::signature::hazmat::PrehashSigner;
use sha2::Digest;
use zeroize::Zeroize;

verus! {

#[verifier::external_type_specification]
#[verifier::external_body]
pub struct ExSigningKey(k256::schnorr::SigningKey);

#[verifier::external_type_specification]
#[verifier::external_body]
pub struct ExSignatureError(k256::schnorr::Error);

/// A signing key rebuilt from secret bytes for the span of one operation.
/// It is never handed out of the library.
pub struct TransientKey {
    key: k256::schnorr::SigningKey,
    secret: Ghost<Seq<u8>>,
}

impl TransientKey {
    /// The bytes this key was built from.
    pub closed spec fn secret(&self) -> Seq<u8> {
        self.secret@
    }
}

/// The 32-byte x-only public key that the scheme derives from an accepted secret.
pub uninterp spec fn public_key_of(secret: Seq<u8>) -> Seq<u8>;

/// Relies on k256's `schnorr::SigningKey::from_bytes`: it succeeds exactly on
/// 32 bytes whose big-endian value is a nonzero scalar below the group order.
#[verifier::external_body]
pub(crate) fn signing_key_from_bytes(bytes: &[u8]) -> (r: Result<TransientKey, k256::schnorr::Error>)
    ensures
        r is Ok <==> secret_accepted(bytes@),
        r is Ok ==> r->Ok_0.secret() == bytes@,
{
    k256::schnorr::SigningKey::from_bytes(bytes).map(|key| TransientKey { key, secret: Ghost(bytes@) })
}

/// Relies on k256's `SigningKey::verifying_key` and `VerifyingKey::to_bytes`:
/// the 32-byte x coordinate of the public point, a function of the secret alone.
#[verifier::external_body]
pub(crate) fn verifying_key_bytes(k: &TransientKey) -> (r: Vec<u8>)
    ensures
        r@ == public_key_of(k.secret()),
        r@.len() == 32,
{
    k.key.verifying_key().to_bytes().to_vec()
}

/// The outcome of BIP-340 signing of a 32-byte digest with a secret key and
/// all-zero auxiliary randomness: a 64-byte signature, or none where the
/// derived nonce or the resulting scalar is zero.
pub uninterp spec fn schnorr_signature(secret: Seq<u8>, digest: Seq<u8>) -> Option<Seq<u8>>;

/// Relies on k256's `PrehashSigner::sign_prehash` for `schnorr::SigningKey`,
/// which signs with zero auxiliary randomness, so that its outcome depends on
/// the key and the digest alone; and on `Signature::to_bytes`, 64 bytes.
#[verifier::external_body]
pub(crate) fn sign_prehash(k: &TransientKey, digest: &[u8]) -> (r: Result<Vec<u8>, k256::schnorr::Error>)
    requires
        digest@.len() == 32,
    ensures
        match r {
            Ok(sig) => schnorr_signature(k.secret(), digest@) == Some(sig@),
            Err(_) => schnorr_signature(k.secret(), digest@) is None,
        },
        r is Ok ==> r->Ok_0@.len() == 64,
{
    k.key.sign_prehash(digest).map(|sig| sig.to_bytes().to_vec())
}

/// The SHA-256 digest of a byte string.
pub uninterp spec fn sha256_of(data: Seq<u8>) -> Seq<u8>;

/// Relies on sha2's `Sha256::digest`: the 32-byte SHA-256 digest of `data`.
#[verifier::external_body]
pub(crate) fn sha256_digest(data: &[u8]) -> (r: Vec<u8>)
    ensures
        r@ == sha256_of(data@),
        r@.len() == 32,
{
    sha2::Sha256::digest(data).to_vec()
}

/// Relies on zeroize's `Zeroize` for `[u8; N]`: every byte is overwritten with zero.
#[verifier::external_body]
pub(crate) fn wipe_array(b: &mut [u8; 32])
    ensures
        final(b)@ == Seq::new(32, |i: int| 0u8),
{
    b.zeroize()
}

/// Relies on zeroize's `Zeroize` for `Vec<u8>`: the contents and spare
/// capacity are overwritten with zero and the vector is left empty.
#[verifier::external_body]
pub(crate) fn wipe_vec(v: &mut Vec<u8>)
    ensures
        final(v)@.len() == 0,
{
    v.zeroize()
}

/// 32 secret bytes in zeroize's `Zeroizing` container, which overwrites them
/// with zero when it is dropped (Verus does not accept a declaration of
/// `Zeroizing` itself, whose parameter is bound by an outside trait).
#[verifier::external_body]
pub struct SealedKey {
    inner: zeroize::Zeroizing<[u8; 32]>,
}

/// The bytes held inside a wiping container.
pub uninterp spec fn sealed_bytes(z: SealedKey) -> Seq<u8>;

/// Relies on zeroize's `Zeroizing::new`: the container holds a copy of the
/// bytes and overwrites them with zero when it is dropped.
#[verifier::external_body]
pub(crate) fn seal(b: &[u8; 32]) -> (r: SealedKey)
    ensures
        sealed_bytes(r) == b@,
{
    SealedKey { inner: zeroize::Zeroizing::new(*b) }
}

/// Relies on zeroize's `Deref` for `Zeroizing`: it borrows the bytes held.
#[verifier::external_body]
pub(crate) fn unseal(z: &SealedKey) -> (r: &[u8; 32])
    ensures
        r@ == sealed_bytes(*z),
{
    &*z.inner
}

#[verifier::external_type_specification]
#[verifier::external_body]
pub struct ExFromHexError(hex::FromHexError);

/// Relies on hex's `decode_to_slice`: it succeeds exactly on 64 hex digits of
/// either case, and then writes the 32 bytes they spell, high digit first.
#[verifier::external_body]
pub(crate) fn hex_decode_into(text: &str, out: &mut [u8; 32]) -> (r: Result<(), hex::FromHexError>)
    ensures
        r is Ok <==> is_hex_text(text@, 32),
        r is Ok ==> final(out)@ == hex_decoded(text@),
{
    hex::decode_to_slice(text, out)
}

#[verifier::external_type_specification]
#[verifier::external_body]
pub struct ExDecodeError(bech32::DecodeError);

/// What bech32 decoding makes of a string: the human-readable part in lower
/// case, as bytes, and the payload; none where the string is malformed or its
/// checksum (bech32 or bech32m) does not match.
pub uninterp spec fn bech32_decoded(s: Seq<char>) -> Option<(Seq<u8>, Seq<u8>)>;

/// Relies on bech32's `decode`, with `Hrp::lowercase_byte_iter` to read the
/// human-readable part; the outcome depends on the string alone.
#[verifier::external_body]
pub(crate) fn bech32_decode(s: &str) -> (r: Result<(Vec<u8>, Vec<u8>), bech32::DecodeError>)
    ensures
        match r {
            Ok((hrp, data)) => bech32_decoded(s@) == Some((hrp@, data@)),
            Err(_) => bech32_decoded(s@) is None,
        },
{
    bech32::decode(s).map(|(hrp, data)| (hrp.lowercase_byte_iter().collect(), data))
}

} // verus!
