use base64ct::{Base64, Encoding};
use ed25519_dalek::{Digest, Sha512, SigningKey};
use taceo_proof_client::keys::{ProofSignature, VerificationKey};
use taceo_proof_client::signature::{result_message, verify_proof_result_signature};
use taceo_proof_client::wasm;
use taceo_proof_client::wasm::VerifyError;

const JOB: [u8; 16] = [0x9c, 0x28, 0x14, 0xd7, 0x25, 0xd3, 0x4d, 0xe5, 0xb6, 0x1f, 0x0a, 0x6e, 0x3b, 0xac, 0xbe, 0x99];
const JOB_TEXT: &str = "9c2814d7-25d3-4de5-b61f-0a6e3bacbe99";

fn signer() -> SigningKey {
    SigningKey::from_bytes(&[42u8; 32])
}

fn sign(job: &[u8], proof: &str, public_inputs: &str) -> Vec<u8> {
    let mut digest = Sha512::new();
    digest.update(job);
    digest.update(proof);
    digest.update(public_inputs);
    signer().sign_prehashed(digest, Some(b"taceo-proof-nps-reporting")).unwrap().to_bytes().to_vec()
}

fn vk() -> VerificationKey {
    VerificationKey::from_bytes(signer().verifying_key().to_bytes().to_vec()).unwrap()
}

#[test]
fn result_message_is_job_then_proof_then_public_inputs() {
    let message = result_message(&JOB, "{\"pi_a\":1}", "[\"7\"]");
    let mut expected = JOB.to_vec();
    expected.extend_from_slice(b"{\"pi_a\":1}");
    expected.extend_from_slice(b"[\"7\"]");
    assert_eq!(message, expected);
}

#[test]
fn valid_result_signature_is_accepted() {
    let sig = ProofSignature::from_bytes(sign(&JOB, "proof", "public")).unwrap();
    assert!(verify_proof_result_signature(&JOB, "proof", "public", &sig, &vk()).is_ok());
}

#[test]
fn signature_for_another_job_is_refused() {
    let mut other = JOB;
    other[15] ^= 1;
    let sig = ProofSignature::from_bytes(sign(&other, "proof", "public")).unwrap();
    assert!(verify_proof_result_signature(&JOB, "proof", "public", &sig, &vk()).is_err());
}

#[test]
fn tampered_public_inputs_are_refused() {
    let sig = ProofSignature::from_bytes(sign(&JOB, "proof", "public")).unwrap();
    assert!(verify_proof_result_signature(&JOB, "proof", "publiC", &sig, &vk()).is_err());
}

#[test]
fn signature_without_context_is_refused() {
    let mut digest = Sha512::new();
    digest.update(JOB);
    digest.update("proof");
    digest.update("public");
    let plain = signer().sign_prehashed(digest, None).unwrap().to_bytes().to_vec();
    let sig = ProofSignature::from_bytes(plain).unwrap();
    assert!(verify_proof_result_signature(&JOB, "proof", "public", &sig, &vk()).is_err());
}

fn vk_b64() -> String {
    Base64::encode_string(&signer().verifying_key().to_bytes())
}

#[test]
fn text_form_accepts_valid_signature() {
    let sig = Base64::encode_string(&sign(&JOB, "p", "q"));
    assert_eq!(wasm::verify_proof_result_signature(JOB_TEXT, "p", "q", &vk_b64(), &sig), Ok(()));
}

#[test]
fn text_form_refuses_bad_uuid() {
    let sig = Base64::encode_string(&sign(&JOB, "p", "q"));
    assert_eq!(wasm::verify_proof_result_signature("not-a-uuid", "p", "q", &vk_b64(), &sig), Err(VerifyError::InvalidUuid));
}

#[test]
fn text_form_refuses_bad_key_base64() {
    assert_eq!(wasm::verify_proof_result_signature(JOB_TEXT, "p", "q", "!!", "AAAA"), Err(VerifyError::KeyBase64));
}

#[test]
fn text_form_refuses_short_key() {
    let key = Base64::encode_string(&[1u8; 31]);
    assert_eq!(wasm::verify_proof_result_signature(JOB_TEXT, "p", "q", &key, "AAAA"), Err(VerifyError::InvalidKeySize));
}

#[test]
fn text_form_refuses_key_off_the_curve() {
    let mut bytes = [0u8; 32];
    bytes[0] = 2;
    let key = Base64::encode_string(&bytes);
    assert_eq!(wasm::verify_proof_result_signature(JOB_TEXT, "p", "q", &key, "AAAA"), Err(VerifyError::InvalidKey));
}

#[test]
fn text_form_refuses_bad_signature_base64() {
    assert_eq!(wasm::verify_proof_result_signature(JOB_TEXT, "p", "q", &vk_b64(), "*"), Err(VerifyError::SignatureBase64));
}

#[test]
fn text_form_refuses_short_signature() {
    let sig = Base64::encode_string(&[0u8; 32]);
    assert_eq!(wasm::verify_proof_result_signature(JOB_TEXT, "p", "q", &vk_b64(), &sig), Err(VerifyError::InvalidSignatureSize));
}

#[test]
fn text_form_refuses_wrong_signature() {
    let sig = Base64::encode_string(&sign(&JOB, "p", "other"));
    assert_eq!(wasm::verify_proof_result_signature(JOB_TEXT, "p", "q", &vk_b64(), &sig), Err(VerifyError::VerificationFailed));
}

#[test]
fn text_form_agrees_with_typed_form() {
    let raw = sign(&JOB, "p", "q");
    let typed = verify_proof_result_signature(&JOB, "p", "q", &ProofSignature::from_bytes(raw.clone()).unwrap(), &vk());
    let text = wasm::verify_proof_result_signature(JOB_TEXT, "p", "q", &vk_b64(), &Base64::encode_string(&raw));
    assert_eq!(typed.is_ok(), text.is_ok());
}
