use base64ct::{Base64, Encoding};
use taceo_proof_client::models::{JobType, ScheduleJobRequest};
use taceo_proof_client::ppd::{
    decode_public_inputs, job_result, seal_for_key_material, try_seal_for_key_material, JobResult, JobResultError, JobStatus,
    KeyMaterialError, ProofResult,
};
use taceo_proof_client::sealing::Shares;

fn payload(proof: &str, public_inputs: &str) -> Option<Option<ProofResult>> {
    Some(Some(ProofResult { proof: proof.to_string(), public_inputs: public_inputs.to_string() }))
}

#[test]
fn successful_job_decodes_its_proof() {
    let public_b64 = Base64::encode_string(&[3]);
    let res = job_result(JobStatus::Success, payload(&Base64::encode_string(&[1, 2]), &public_b64), None);
    match res.unwrap() {
        JobResult::Proven { proof, public_inputs } => {
            assert_eq!(proof, vec![1, 2]);
            assert_eq!(public_inputs, public_b64);
            assert_eq!(decode_public_inputs(&public_inputs).unwrap(), vec![3]);
        },
        other => panic!("unexpected {other:?}"),
    }
}

#[test]
fn undecodable_proof_is_refused_first() {
    let res = job_result(JobStatus::Success, payload("?", "?"), None);
    assert_eq!(res.unwrap_err(), JobResultError::ProofBase64);
}

#[test]
fn public_inputs_are_decoded_after_the_proof() {
    match job_result(JobStatus::Success, payload("AAAA", "?"), None).unwrap() {
        JobResult::Proven { proof, public_inputs } => {
            assert_eq!(proof, vec![0, 0, 0]);
            assert_eq!(decode_public_inputs(&public_inputs).unwrap_err(), JobResultError::PublicInputsBase64);
        },
        other => panic!("unexpected {other:?}"),
    }
}

#[test]
fn failed_job_reports_its_error() {
    match job_result(JobStatus::Failed, None, Some(Some("witness error".to_string()))).unwrap() {
        JobResult::Failed(text) => assert_eq!(text, "witness error"),
        other => panic!("unexpected {other:?}"),
    }
}

#[test]
fn other_status_means_still_running() {
    match job_result(JobStatus::Pending, None, None).unwrap() {
        JobResult::Running(status) => assert_eq!(status, JobStatus::Pending),
        other => panic!("unexpected {other:?}"),
    }
}

fn secret(seed: u8) -> crypto_box::SecretKey {
    crypto_box::SecretKey::from_bytes([seed; 32])
}

fn key_material() -> Vec<String> {
    (1..=3).map(|i| Base64::encode_string(secret(i).public_key().as_bytes())).collect()
}

#[test]
fn shares_are_sealed_to_key_material_in_order() {
    let shares = Shares { share0: vec![0; 3], share1: vec![1; 3], share2: vec![2; 3] };
    let sealed = seal_for_key_material(&key_material(), &shares).unwrap();
    assert_eq!(secret(1).unseal(&sealed.share0).unwrap(), vec![0; 3]);
    assert_eq!(secret(2).unseal(&sealed.share1).unwrap(), vec![1; 3]);
    assert_eq!(secret(3).unseal(&sealed.share2).unwrap(), vec![2; 3]);
}

#[test]
fn bad_key_material_base64_is_refused() {
    let mut keys = key_material();
    keys[1] = "*".to_string();
    let shares = Shares { share0: vec![], share1: vec![], share2: vec![] };
    assert_eq!(seal_for_key_material(&keys, &shares).unwrap_err(), KeyMaterialError::Base64);
}

#[test]
fn key_material_of_wrong_length_is_not_accepted() {
    let mut keys = key_material();
    keys[2] = Base64::encode_string(&[0u8; 10]);
    let shares = Shares { share0: vec![], share1: vec![], share2: vec![] };
    assert!(try_seal_for_key_material(&keys, &shares).is_none());
    assert!(try_seal_for_key_material(&key_material()[..2].to_vec(), &shares).is_none());
    assert!(try_seal_for_key_material(&key_material(), &shares).unwrap().is_ok());
}

#[test]
fn schedule_request_keeps_its_fields() {
    let request = ScheduleJobRequest::new(vec![1u8; 16], "code".to_string(), JobType::Rep3Prove);
    assert_eq!(request.blueprint_id, vec![1u8; 16]);
    assert_eq!(request.code, "code");
    assert_eq!(request.job_type, JobType::Rep3Prove);
}
