//! The logic of the private-proof-delegation client: sealing the three
//! shares to the key material a scheduled job comes with, and reading the
//! result of a job.

use vstd::prelude::*;
use crate::codec::{base64_decode, base64_decoded};
use crate::keys::{EncryptionKey, KEY_LEN};
use crate::sealing::{seal_shares_with_keys, sealed_to, Shares};

verus! {

/// The status of a delegated job.
#[derive(Debug, Clone, Copy, PartialEq, Eq, Structural)]
pub enum JobStatus {
    Pending,
    Running,
    Success,
    Failed,
}

/// A finished proof as the service reports it: both parts in base64.
#[derive(Debug, Clone)]
pub struct ProofResult {
    /// The uncompressed serialized proof, base64.
    pub proof: String,
    /// The uncompressed serialized public inputs, base64.
    pub public_inputs: String,
}

/// The result of a scheduled job: the serialized proof with the still
/// base64-encoded public inputs, the status of a job still under way, or the
/// error a failed job reports. The public inputs are decoded with
/// `decode_public_inputs` once the proof has been read, the order in which a
/// successful result is taken apart.
#[derive(Debug, Clone)]
pub enum JobResult {
    Proven { proof: Vec<u8>, public_inputs: String },
    Running(JobStatus),
    Failed(String),
}

/// Why the result of a successful job does not decode.
#[derive(Debug, Clone, Copy, PartialEq, Eq, Structural)]
pub enum JobResultError {
    /// The proof is not valid base64.
    ProofBase64,
    /// The public inputs are not valid base64.
    PublicInputsBase64,
}

/// Reads the answer of the result endpoint. A successful job must come with
/// its proof and a failed one with its error. Of a successful job the proof
/// is decoded from base64; its public inputs are handed on as they came.
pub fn job_result(
    status: JobStatus,
    ok: Option<Option<ProofResult>>,
    error: Option<Option<String>>,
) -> (res: Result<JobResult, JobResultError>)
    requires
        status == JobStatus::Success ==> ok matches Some(Some(_)),
        status == JobStatus::Failed ==> error matches Some(Some(_)),
    ensures
        status == JobStatus::Success ==> ({
            let payload = ok->Some_0->Some_0;
            match base64_decoded(payload.proof@) {
                None => res == Err::<JobResult, JobResultError>(JobResultError::ProofBase64),
                Some(proof) => res matches Ok(JobResult::Proven { proof: p, public_inputs: i })
                    && p@ == proof && i@ == payload.public_inputs@,
            }
        }),
        status == JobStatus::Failed ==> (res matches Ok(JobResult::Failed(text)) && text == error->Some_0->Some_0),
        status != JobStatus::Success && status != JobStatus::Failed ==> (res matches Ok(JobResult::Running(s)) && s == status),
{
    match status {
        JobStatus::Success => {
            let payload = match ok {
                Some(Some(payload)) => payload,
                _ => unreached(),
            };
            let proof = match base64_decode(payload.proof.as_str()) {
                Some(bytes) => bytes,
                None => return Err(JobResultError::ProofBase64),
            };
            Ok(JobResult::Proven { proof, public_inputs: payload.public_inputs })
        },
        JobStatus::Failed => {
            let text = match error {
                Some(Some(text)) => text,
                _ => unreached(),
            };
            Ok(JobResult::Failed(text))
        },
        other => Ok(JobResult::Running(other)),
    }
}

/// Decodes the base64 public inputs of a successful job.
pub fn decode_public_inputs(public_inputs: &str) -> (res: Result<Vec<u8>, JobResultError>)
    ensures
        base64_decoded(public_inputs@) matches Some(bytes) ==> (res matches Ok(b) && b@ == bytes),
        base64_decoded(public_inputs@) is None
            ==> res == Err::<Vec<u8>, JobResultError>(JobResultError::PublicInputsBase64),
{
    match base64_decode(public_inputs) {
        Some(bytes) => Ok(bytes),
        None => Err(JobResultError::PublicInputsBase64),
    }
}

/// The base64 text decodes to something other than a 32-byte key.
pub open spec fn misfit_key(text: Seq<char>) -> bool {
    base64_decoded(text) matches Some(bytes) && bytes.len() != KEY_LEN
}

/// The base64 text decodes to a 32-byte key.
pub open spec fn fitting_key(text: Seq<char>) -> bool {
    base64_decoded(text) matches Some(bytes) && bytes.len() == KEY_LEN
}

/// The first three keys, decoded in order until one is not base64, all
/// have 32 bytes.
pub open spec fn key_material_fits(keys: Seq<Seq<char>>) -> bool {
    &&& !misfit_key(keys[0])
    &&& fitting_key(keys[0]) ==> !misfit_key(keys[1])
    &&& fitting_key(keys[0]) && fitting_key(keys[1]) ==> !misfit_key(keys[2])
}

/// The first three keys all decode to 32 bytes.
pub open spec fn key_material_decodes(keys: Seq<Seq<char>>) -> bool {
    fitting_key(keys[0]) && fitting_key(keys[1]) && fitting_key(keys[2])
}

/// Why sealing to a job's key material failed.
#[derive(Debug, Clone, Copy, PartialEq, Eq, Structural)]
pub enum KeyMaterialError {
    /// One of the keys is not valid base64.
    Base64,
    /// The sealed-box implementation failed (the contracts here state that it
    /// does not).
    Seal,
}

/// Decodes a base64 key that is known not to decode to a wrong length.
fn decode_fitting_key(text: &str) -> (res: Option<EncryptionKey>)
    requires
        !misfit_key(text@),
    ensures
        res is None <==> base64_decoded(text@) is None,
        res matches Some(key) ==> Some(key@) == base64_decoded(text@) && fitting_key(text@),
{
    match base64_decode(text) {
        Some(bytes) => EncryptionKey::from_bytes(bytes),
        None => None,
    }
}

/// Seals the three shares to the first three keys of a job's key material,
/// share `i` to key `i`, after decoding the keys in order.
pub fn seal_for_key_material(key_material: &Vec<String>, shares: &Shares) -> (res: Result<Shares, KeyMaterialError>)
    requires
        key_material@.len() >= 3,
        key_material_fits(key_material.deep_view()),
    ensures
        !key_material_decodes(key_material.deep_view())
            ==> res == Err::<Shares, KeyMaterialError>(KeyMaterialError::Base64),
        key_material_decodes(key_material.deep_view()) ==> res is Ok,
        res matches Ok(sealed) ==> {
            &&& sealed_to(base64_decoded(key_material@[0]@)->Some_0, shares.share0@, sealed.share0@)
            &&& sealed_to(base64_decoded(key_material@[1]@)->Some_0, shares.share1@, sealed.share1@)
            &&& sealed_to(base64_decoded(key_material@[2]@)->Some_0, shares.share2@, sealed.share2@)
        },
{
    assert(key_material.deep_view()[0] == key_material@[0]@);
    assert(key_material.deep_view()[1] == key_material@[1]@);
    assert(key_material.deep_view()[2] == key_material@[2]@);
    let key0 = match decode_fitting_key(key_material[0].as_str()) {
        Some(key) => key,
        None => return Err(KeyMaterialError::Base64),
    };
    let key1 = match decode_fitting_key(key_material[1].as_str()) {
        Some(key) => key,
        None => return Err(KeyMaterialError::Base64),
    };
    let key2 = match decode_fitting_key(key_material[2].as_str()) {
        Some(key) => key,
        None => return Err(KeyMaterialError::Base64),
    };
    match seal_shares_with_keys(&key0, &key1, &key2, shares) {
        Ok(sealed) => Ok(sealed),
        Err(_) => Err(KeyMaterialError::Seal),
    }
}

/// Whether a base64 key decodes to exactly 32 bytes.
fn key_fits(text: &str) -> (fits: bool)
    ensures
        fits == fitting_key(text@),
{
    match base64_decode(text) {
        Some(bytes) => bytes.len() == KEY_LEN,
        None => false,
    }
}

/// Whether a base64 key decodes to a length other than 32 bytes.
fn key_misfits(text: &str) -> (misfits: bool)
    ensures
        misfits == misfit_key(text@),
{
    match base64_decode(text) {
        Some(bytes) => bytes.len() != KEY_LEN,
        None => false,
    }
}

/// Seals the shares to a job's key material where `seal_for_key_material`
/// accepts it; `None` where there are fewer than three keys or one of them,
/// reached in order, decodes to a length other than 32 bytes.
pub fn try_seal_for_key_material(key_material: &Vec<String>, shares: &Shares) -> (res: Option<Result<Shares, KeyMaterialError>>)
    ensures
        res is None <==> key_material@.len() < 3 || !key_material_fits(key_material.deep_view()),
        res matches Some(r) ==> {
            &&& !key_material_decodes(key_material.deep_view())
                ==> r == Err::<Shares, KeyMaterialError>(KeyMaterialError::Base64)
            &&& key_material_decodes(key_material.deep_view()) ==> r is Ok
            &&& r matches Ok(sealed) ==> {
                &&& sealed_to(base64_decoded(key_material@[0]@)->Some_0, shares.share0@, sealed.share0@)
                &&& sealed_to(base64_decoded(key_material@[1]@)->Some_0, shares.share1@, sealed.share1@)
                &&& sealed_to(base64_decoded(key_material@[2]@)->Some_0, shares.share2@, sealed.share2@)
            }
        },
{
    if key_material.len() < 3 {
        return None;
    }
    assert(key_material.deep_view()[0] == key_material@[0]@);
    assert(key_material.deep_view()[1] == key_material@[1]@);
    assert(key_material.deep_view()[2] == key_material@[2]@);
    let fits = !key_misfits(key_material[0].as_str())
        && (!key_fits(key_material[0].as_str()) || !key_misfits(key_material[1].as_str()))
        && (!key_fits(key_material[0].as_str()) || !key_fits(key_material[1].as_str())
            || !key_misfits(key_material[2].as_str()));
    if fits {
        Some(seal_for_key_material(key_material, shares))
    } else {
        None
    }
}

} // verus!
