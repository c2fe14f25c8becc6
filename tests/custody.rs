use k256::schnorr::signature::hazmat::PrehashVerifier;
use k256::schnorr::{Signature, SigningKey, VerifyingKey};
use nostr_signer::{
    clear_key, derive_pubkey, import_hex, import_key, import_nsec, is_key_loaded, sha256_hash,
    sign_hash, KeyError, KeyStore,
};

fn unhex(s: &str) -> Vec<u8> {
    hex::decode(s).unwrap()
}

fn nsec_of(data: &[u8]) -> String {
    bech32::encode::<bech32::Bech32>(bech32::Hrp::parse("nsec").unwrap(), data).unwrap()
}

fn expected_pubkey(secret: &[u8]) -> Vec<u8> {
    SigningKey::from_bytes(secret).unwrap().verifying_key().to_bytes().to_vec()
}

fn verifies(pubkey: &[u8], digest: &[u8], sig: &[u8]) -> bool {
    let vk = VerifyingKey::from_bytes(pubkey).unwrap();
    let sig = Signature::try_from(sig).unwrap();
    vk.verify_prehash(digest, &sig).is_ok()
}

const BIP340_SECRET: &str = "0000000000000000000000000000000000000000000000000000000000000003";
const BIP340_PUBKEY: &str = "f9308a019258c31049344f85f89d5229b531c845836f99b08601f113bce036f9";
const BIP340_SIG: &str = "e907831f80848d1069a5371b402410364bdf1c5f8307b0084c55f1ce2dca821525f66a4a85ea8b71e482a74f382d2ce5ebeee8fdb2172f477df4900d310536c0";

#[test]
fn new_store_is_empty() {
    let store = KeyStore::new();
    assert!(!is_key_loaded(&store));
    assert_eq!(derive_pubkey(&store), Err(KeyError::NoKeyLoaded));
    assert_eq!(sign_hash(&store, &[0u8; 32]), Err(KeyError::NoKeyLoaded));
}

#[test]
fn import_accepted_key_loads_and_pubkey_is_stable() {
    let mut store = KeyStore::new();
    let key = [0x01u8; 32];
    assert_eq!(import_key(&mut store, &key), Ok(()));
    assert!(is_key_loaded(&store));
    let a = derive_pubkey(&store).unwrap();
    let b = derive_pubkey(&store).unwrap();
    assert_eq!(a, b);
    assert_eq!(a.len(), 32);
    assert_eq!(a, expected_pubkey(&key));
}

#[test]
fn bip340_vector_pubkey_and_signature() {
    let mut store = KeyStore::new();
    assert_eq!(import_key(&mut store, &unhex(BIP340_SECRET)), Ok(()));
    assert_eq!(derive_pubkey(&store).unwrap(), unhex(BIP340_PUBKEY));
    assert_eq!(sign_hash(&store, &[0u8; 32]).unwrap(), unhex(BIP340_SIG));
}

#[test]
fn zero_key_is_rejected_and_prior_key_kept() {
    let mut store = KeyStore::new();
    assert_eq!(import_key(&mut store, &[0u8; 32]), Err(KeyError::InvalidKey));
    assert!(!is_key_loaded(&store));
    let key = [0x42u8; 32];
    import_key(&mut store, &key).unwrap();
    let before = derive_pubkey(&store).unwrap();
    assert_eq!(import_key(&mut store, &[0u8; 32]), Err(KeyError::InvalidKey));
    assert!(is_key_loaded(&store));
    assert_eq!(derive_pubkey(&store).unwrap(), before);
}

#[test]
fn key_at_or_above_group_order_is_rejected() {
    let mut store = KeyStore::new();
    let order = unhex("fffffffffffffffffffffffffffffffebaaedce6af48a03bbfd25e8cd0364141");
    assert_eq!(import_key(&mut store, &order), Err(KeyError::InvalidKey));
    assert_eq!(import_key(&mut store, &[0xffu8; 32]), Err(KeyError::InvalidKey));
    let below = unhex("fffffffffffffffffffffffffffffffebaaedce6af48a03bbfd25e8cd0364140");
    assert_eq!(import_key(&mut store, &below), Ok(()));
}

#[test]
fn import_key_wrong_length() {
    let mut store = KeyStore::new();
    assert_eq!(import_key(&mut store, &[]), Err(KeyError::InvalidLength));
    assert_eq!(import_key(&mut store, &[1u8; 31]), Err(KeyError::InvalidLength));
    assert_eq!(import_key(&mut store, &[1u8; 33]), Err(KeyError::InvalidLength));
    assert!(!is_key_loaded(&store));
}

#[test]
fn new_import_replaces_previous_key() {
    let mut store = KeyStore::new();
    import_key(&mut store, &[0x01u8; 32]).unwrap();
    import_key(&mut store, &[0x02u8; 32]).unwrap();
    assert_eq!(derive_pubkey(&store).unwrap(), expected_pubkey(&[0x02u8; 32]));
}

#[test]
fn nsec_round_trip_loads_same_key() {
    let key = [0x5au8; 32];
    let digest = sha256_hash(b"hello");
    let mut raw = KeyStore::new();
    import_key(&mut raw, &key).unwrap();
    let mut text = KeyStore::new();
    assert_eq!(import_nsec(&mut text, &nsec_of(&key)), Ok(()));
    assert_eq!(derive_pubkey(&text), derive_pubkey(&raw));
    assert_eq!(sign_hash(&text, &digest), sign_hash(&raw, &digest));
}

#[test]
fn nsec_upper_case_is_accepted() {
    let key = [0x5au8; 32];
    let mut store = KeyStore::new();
    assert_eq!(import_nsec(&mut store, &nsec_of(&key).to_uppercase()), Ok(()));
    assert_eq!(derive_pubkey(&store).unwrap(), expected_pubkey(&key));
}

#[test]
fn nsec_wrong_prefix() {
    let key = [0x5au8; 32];
    let npub = bech32::encode::<bech32::Bech32>(bech32::Hrp::parse("npub").unwrap(), &key).unwrap();
    let mut store = KeyStore::new();
    assert_eq!(import_nsec(&mut store, &npub), Err(KeyError::InvalidPrefix));
    assert!(!is_key_loaded(&store));
}

#[test]
fn nsec_malformed() {
    let mut store = KeyStore::new();
    assert_eq!(import_nsec(&mut store, "not a bech32 string"), Err(KeyError::InvalidEncoding));
    let mut s = nsec_of(&[0x5au8; 32]);
    let last = s.pop().unwrap();
    s.push(if last == 'q' { 'p' } else { 'q' });
    assert_eq!(import_nsec(&mut store, &s), Err(KeyError::InvalidEncoding));
    assert_eq!(import_nsec(&mut store, ""), Err(KeyError::InvalidEncoding));
}

#[test]
fn nsec_wrong_payload_length_and_zero_key() {
    let mut store = KeyStore::new();
    assert_eq!(import_nsec(&mut store, &nsec_of(&[1u8; 31])), Err(KeyError::InvalidLength));
    assert_eq!(import_nsec(&mut store, &nsec_of(&[0u8; 32])), Err(KeyError::InvalidKey));
    assert!(!is_key_loaded(&store));
}

#[test]
fn nsec_failure_keeps_prior_key() {
    let mut store = KeyStore::new();
    import_key(&mut store, &[0x07u8; 32]).unwrap();
    assert_eq!(import_nsec(&mut store, "nsec1garbage"), Err(KeyError::InvalidEncoding));
    assert_eq!(derive_pubkey(&store).unwrap(), expected_pubkey(&[0x07u8; 32]));
}

#[test]
fn hex_round_trip_matches_raw_import() {
    let key = [0x3cu8; 32];
    let digest = [0x99u8; 32];
    let mut raw = KeyStore::new();
    import_key(&mut raw, &key).unwrap();
    let mut text = KeyStore::new();
    assert_eq!(import_hex(&mut text, &hex::encode(key)), Ok(()));
    assert_eq!(derive_pubkey(&text), derive_pubkey(&raw));
    assert_eq!(sign_hash(&text, &digest), sign_hash(&raw, &digest));
    let mut upper = KeyStore::new();
    assert_eq!(import_hex(&mut upper, &hex::encode_upper(key)), Ok(()));
    assert_eq!(derive_pubkey(&upper), derive_pubkey(&raw));
}

#[test]
fn hex_malformed() {
    let mut store = KeyStore::new();
    let good = hex::encode([0x3cu8; 32]);
    assert_eq!(import_hex(&mut store, &good[..63]), Err(KeyError::InvalidEncoding));
    assert_eq!(import_hex(&mut store, &format!("{}00", good)), Err(KeyError::InvalidEncoding));
    assert_eq!(import_hex(&mut store, &format!("{}g", &good[..63])), Err(KeyError::InvalidEncoding));
    assert_eq!(import_hex(&mut store, ""), Err(KeyError::InvalidEncoding));
    assert!(!is_key_loaded(&store));
}

#[test]
fn hex_zero_key_is_invalid_key() {
    let mut store = KeyStore::new();
    assert_eq!(import_hex(&mut store, &"0".repeat(64)), Err(KeyError::InvalidKey));
}

#[test]
fn hex_of_ones_scenario() {
    let mut store = KeyStore::new();
    assert_eq!(import_hex(&mut store, &"1".repeat(64)), Ok(()));
    let a = derive_pubkey(&store).unwrap();
    let b = derive_pubkey(&store).unwrap();
    assert_eq!(a.len(), 32);
    assert_eq!(a, b);
    assert_eq!(a, expected_pubkey(&[0x11u8; 32]));
}

#[test]
fn signing_twice_gives_verifying_signatures() {
    let mut store = KeyStore::new();
    import_key(&mut store, &[0x21u8; 32]).unwrap();
    let pk = derive_pubkey(&store).unwrap();
    let digest = sha256_hash(b"a message");
    let s1 = sign_hash(&store, &digest).unwrap();
    let s2 = sign_hash(&store, &digest).unwrap();
    assert_eq!(s1.len(), 64);
    assert!(verifies(&pk, &digest, &s1));
    assert!(verifies(&pk, &digest, &s2));
    assert_eq!(s1, s2);
    assert!(!verifies(&pk, &sha256_hash(b"another"), &s1));
}

#[test]
fn sign_wrong_digest_length() {
    let mut store = KeyStore::new();
    for n in [0usize, 31, 33, 64] {
        assert_eq!(sign_hash(&store, &vec![7u8; n]), Err(KeyError::InvalidLength));
    }
    import_key(&mut store, &[0x21u8; 32]).unwrap();
    for n in [0usize, 31, 33, 64] {
        assert_eq!(sign_hash(&store, &vec![7u8; n]), Err(KeyError::InvalidLength));
    }
}

#[test]
fn clear_unloads_key() {
    let mut store = KeyStore::new();
    import_key(&mut store, &[0x21u8; 32]).unwrap();
    clear_key(&mut store);
    assert!(!is_key_loaded(&store));
    assert_eq!(derive_pubkey(&store), Err(KeyError::NoKeyLoaded));
    assert_eq!(sign_hash(&store, &[1u8; 32]), Err(KeyError::NoKeyLoaded));
}

#[test]
fn clear_twice_is_noop() {
    let mut store = KeyStore::new();
    import_key(&mut store, &[0x21u8; 32]).unwrap();
    clear_key(&mut store);
    clear_key(&mut store);
    assert!(!is_key_loaded(&store));
    let mut empty = KeyStore::new();
    clear_key(&mut empty);
    assert!(!is_key_loaded(&empty));
}

#[test]
fn sha256_known_values() {
    assert_eq!(
        sha256_hash(b""),
        unhex("e3b0c44298fc1c149afbf4c8996fb92427ae41e4649b934ca495991b7852b855")
    );
    assert_eq!(
        sha256_hash(b"abc"),
        unhex("ba7816bf8f01cfea414140de5dae2223b00361a396177a9cb410ff61f20015ad")
    );
}

#[test]
fn error_messages() {
    assert_eq!(KeyError::NoKeyLoaded.message(), "no key loaded");
    assert_eq!(KeyError::InvalidPrefix.message(), "wrong bech32 prefix (expected nsec)");
    assert_ne!(KeyError::InvalidKey.message(), KeyError::InvalidLength.message());
}
