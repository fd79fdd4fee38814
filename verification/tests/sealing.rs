use base64ct::{Base64, Encoding};
use taceo_proof_client::keys::EncryptionKey;
use taceo_proof_client::sealing::{seal_input_share, seal_input_shares, seal_shares_with_keys, Shares};
use taceo_proof_client::wasm::{self, KeyDecodeError, SealShareError};

fn secret(seed: u8) -> crypto_box::SecretKey {
    crypto_box::SecretKey::from_bytes([seed; 32])
}

fn key_of(secret: &crypto_box::SecretKey) -> EncryptionKey {
    EncryptionKey::from_bytes(secret.public_key().to_bytes().to_vec()).unwrap()
}

fn read_u64(bytes: &[u8], at: &mut usize) -> usize {
    let value = u64::from_le_bytes(bytes[*at..*at + 8].try_into().unwrap()) as usize;
    *at += 8;
    value
}

/// Splits a framed map into its names and values.
fn unframe(bytes: &[u8]) -> Vec<(String, Vec<u8>)> {
    let mut at = 0;
    let count = read_u64(bytes, &mut at);
    let mut entries = Vec::new();
    for _ in 0..count {
        let name_len = read_u64(bytes, &mut at);
        let name = String::from_utf8(bytes[at..at + name_len].to_vec()).unwrap();
        at += name_len;
        let value_len = read_u64(bytes, &mut at);
        let value = bytes[at..at + value_len].to_vec();
        at += value_len;
        entries.push((name, value));
    }
    assert_eq!(at, bytes.len());
    entries
}

#[test]
fn witness_shares_are_sealed_to_their_own_party() {
    let secrets = [secret(1), secret(2), secret(3)];
    let shares = Shares { share0: vec![10; 5], share1: vec![11; 6], share2: vec![12; 7] };
    let sealed = seal_shares_with_keys(&key_of(&secrets[0]), &key_of(&secrets[1]), &key_of(&secrets[2]), &shares).unwrap();
    assert_eq!(secrets[0].unseal(&sealed.share0).unwrap(), shares.share0);
    assert_eq!(secrets[1].unseal(&sealed.share1).unwrap(), shares.share1);
    assert_eq!(secrets[2].unseal(&sealed.share2).unwrap(), shares.share2);
    assert!(secrets[1].unseal(&sealed.share0).is_err());
    assert_eq!(sealed.share2.len(), 7 + 48);
}

#[test]
fn input_share_is_a_map_of_sealed_entries() {
    let owner = secret(5);
    let entries = vec![("a".to_string(), vec![1u8, 2, 3]), ("b.c".to_string(), vec![])];
    let framed = seal_input_share(&key_of(&owner), &entries).unwrap();
    let decoded = unframe(&framed);
    assert_eq!(decoded.len(), 2);
    assert_eq!(decoded[0].0, "a");
    assert_eq!(decoded[1].0, "b.c");
    assert_eq!(decoded[0].1.len(), 3 + 48);
    assert_eq!(owner.unseal(&decoded[0].1).unwrap(), vec![1u8, 2, 3]);
    assert_eq!(owner.unseal(&decoded[1].1).unwrap(), Vec::<u8>::new());
}

#[test]
fn framing_matches_bincode_of_a_map() {
    let owner = secret(6);
    let entries = vec![("x".to_string(), vec![9u8])];
    let framed = seal_input_share(&key_of(&owner), &entries).unwrap();
    let decoded: std::collections::BTreeMap<String, Vec<u8>> = bincode::deserialize(&framed).unwrap();
    assert_eq!(decoded.len(), 1);
    assert_eq!(owner.unseal(&decoded["x"]).unwrap(), vec![9u8]);
}

#[test]
fn empty_input_share_frames_as_empty_map() {
    let framed = seal_input_share(&key_of(&secret(7)), &vec![]).unwrap();
    assert_eq!(framed, vec![0u8; 8]);
}

#[test]
fn input_shares_go_to_their_own_party() {
    let secrets = [secret(1), secret(2), secret(3)];
    let share = |v: u8| vec![("in".to_string(), vec![v; 4])];
    let sealed = seal_input_shares(
        &key_of(&secrets[0]), &key_of(&secrets[1]), &key_of(&secrets[2]),
        &share(0), &share(1), &share(2),
    ).unwrap();
    for (i, framed) in [sealed.share0, sealed.share1, sealed.share2].iter().enumerate() {
        let decoded = unframe(framed);
        assert_eq!(decoded[0].0, "in");
        assert_eq!(secrets[i].unseal(&decoded[0].1).unwrap(), vec![i as u8; 4]);
    }
}

#[test]
fn seal_share_opens_with_the_key_owner() {
    let owner = secret(9);
    let pk = Base64::encode_string(owner.public_key().as_bytes());
    let sealed = wasm::seal_share(&pk, vec![4, 5, 6]).unwrap();
    assert_eq!(owner.unseal(&sealed).unwrap(), vec![4, 5, 6]);
}

#[test]
fn seal_share_refuses_bad_base64() {
    assert_eq!(wasm::seal_share("#", vec![1]), Err(SealShareError::Base64));
}

#[test]
fn seal_share_refuses_wrong_key_size() {
    let pk = Base64::encode_string(&[1u8; 16]);
    assert_eq!(wasm::seal_share(&pk, vec![1]), Err(SealShareError::InvalidKeySize));
}

fn keys_b64(n: u8) -> Vec<String> {
    (0..n).map(|i| Base64::encode_string(secret(i + 1).public_key().as_bytes())).collect()
}

#[test]
fn three_keys_decode_in_order() {
    let keys = wasm::base64_decode_keys(&keys_b64(3)).unwrap();
    for (i, key) in keys.iter().enumerate() {
        assert_eq!(key.as_bytes(), &secret(i as u8 + 1).public_key().to_bytes().to_vec());
    }
}

#[test]
fn first_bad_key_is_reported() {
    let mut keys = keys_b64(3);
    keys[1] = Base64::encode_string(&[0u8; 12]);
    keys[2] = "~".to_string();
    assert_eq!(wasm::base64_decode_keys(&keys).err(), Some(KeyDecodeError::InvalidKeySize));
}

#[test]
fn two_good_keys_are_not_a_key_set() {
    assert!(wasm::try_base64_decode_keys(&keys_b64(2)).is_none());
    assert!(wasm::try_base64_decode_keys(&keys_b64(4)).is_none());
}

#[test]
fn bad_key_is_reported_whatever_the_count() {
    let mut keys = keys_b64(2);
    keys[0] = "~".to_string();
    assert_eq!(wasm::try_base64_decode_keys(&keys).unwrap().err(), Some(KeyDecodeError::Base64));
}

#[test]
fn three_good_keys_pass_the_checked_decoder() {
    assert!(wasm::try_base64_decode_keys(&keys_b64(3)).unwrap().is_ok());
}
