//! The operations offered to JavaScript: keys and signatures arrive as
//! base64 text and the job id as UUID text.

use vstd::prelude::*;
use crate::codec::{base64_decode, base64_decoded, parse_uuid, uuid_parsed};
use crate::keys::{ed25519_key_accepted, EncryptionKey, ProofSignature, VerificationKey, VerificationKeyError, KEY_LEN, SIGNATURE_LEN};
use crate::sealing::sealed_to;
use crate::signature::{result_signature_valid, verify_proof_result_signature as verify_typed};

pub use crate::models::MpcProtocol;
pub use crate::sealing::Shares;

verus! {

/// Why a base64 encryption key is refused.
#[derive(Debug, Clone, Copy, PartialEq, Eq, Structural)]
pub enum KeyDecodeError {
    /// The text is not valid base64.
    Base64,
    /// The text does not decode to 32 bytes.
    InvalidKeySize,
}

/// The problem with one base64 encryption key, `None` where it decodes to
/// 32 bytes.
pub open spec fn key_error(text: Seq<char>) -> Option<KeyDecodeError> {
    match base64_decoded(text) {
        None => Some(KeyDecodeError::Base64),
        Some(bytes) => if bytes.len() != KEY_LEN {
            Some(KeyDecodeError::InvalidKeySize)
        } else {
            None
        },
    }
}

/// The first problem among the first `n` base64 keys.
pub open spec fn first_key_error(keys: Seq<Seq<char>>, n: nat) -> Option<KeyDecodeError>
    decreases n,
{
    if n == 0 {
        None
    } else {
        match first_key_error(keys, (n - 1) as nat) {
            Some(e) => Some(e),
            None => key_error(keys[n - 1]),
        }
    }
}

/// Once a problem is found among the first `m` keys, it stays the first
/// problem among more keys.
proof fn lemma_first_key_error_persists(keys: Seq<Seq<char>>, m: nat, n: nat)
    requires
        m <= n,
        first_key_error(keys, m) is Some,
    ensures
        first_key_error(keys, n) == first_key_error(keys, m),
    decreases n - m,
{
    if m < n {
        lemma_first_key_error_persists(keys, m, (n - 1) as nat);
    }
}

/// Decodes one base64 encryption key.
pub fn decode_encryption_key(text: &str) -> (res: Result<EncryptionKey, KeyDecodeError>)
    ensures
        key_error(text@) matches Some(e) ==> res == Err::<EncryptionKey, KeyDecodeError>(e),
        key_error(text@) is None ==> (res matches Ok(key) && Some(key@) == base64_decoded(text@)),
{
    let bytes = match base64_decode(text) {
        Some(bytes) => bytes,
        None => return Err(KeyDecodeError::Base64),
    };
    match EncryptionKey::from_bytes(bytes) {
        Some(key) => Ok(key),
        None => Err(KeyDecodeError::InvalidKeySize),
    }
}

/// Decodes the base64 keys in order, stopping at the first one refused.
fn decode_key_list(keys: &Vec<String>) -> (res: Result<Vec<EncryptionKey>, KeyDecodeError>)
    ensures
        first_key_error(keys.deep_view(), keys@.len()) matches Some(e) ==> res == Err::<Vec<EncryptionKey>, KeyDecodeError>(e),
        first_key_error(keys.deep_view(), keys@.len()) is None ==> (res matches Ok(decoded)
            && decoded@.len() == keys@.len()
            && forall|i: int| 0 <= i < keys@.len() ==> Some((#[trigger] decoded@[i])@) == base64_decoded(keys@[i]@)),
{
    let mut decoded: Vec<EncryptionKey> = Vec::new();
    let mut i: usize = 0;
    while i < keys.len()
        invariant
            i <= keys@.len(),
            first_key_error(keys.deep_view(), i as nat) is None,
            decoded@.len() == i,
            forall|k: int| 0 <= k < i ==> Some((#[trigger] decoded@[k])@) == base64_decoded(keys@[k]@),
        decreases keys@.len() - i,
    {
        assert(keys.deep_view()[i as int] == keys@[i as int]@);
        let key = match decode_encryption_key(keys[i].as_str()) {
            Ok(key) => key,
            Err(e) => {
                proof {
                    lemma_first_key_error_persists(keys.deep_view(), (i + 1) as nat, keys@.len());
                }
                return Err(e);
            },
        };
        decoded.push(key);
        i = i + 1;
    }
    Ok(decoded)
}

/// Decodes the three base64 encryption keys of a job's parties. The keys
/// are decoded in order and the first refusal is the result; there must be
/// exactly three when all decode.
pub fn base64_decode_keys(keys: &Vec<String>) -> (res: Result<[EncryptionKey; 3], KeyDecodeError>)
    requires
        first_key_error(keys.deep_view(), keys@.len()) is None ==> keys@.len() == 3,
    ensures
        first_key_error(keys.deep_view(), keys@.len()) matches Some(e) ==> res == Err::<[EncryptionKey; 3], KeyDecodeError>(e),
        first_key_error(keys.deep_view(), keys@.len()) is None ==> (res matches Ok(decoded)
            && forall|i: int| 0 <= i < 3 ==> Some((#[trigger] decoded@[i])@) == base64_decoded(keys@[i]@)),
{
    let mut decoded = decode_key_list(keys)?;
    let ghost all = decoded@;
    let key2 = decoded.pop().unwrap();
    let key1 = decoded.pop().unwrap();
    let key0 = decoded.pop().unwrap();
    let res = [key0, key1, key2];
    assert(res@[0] == all[0] && res@[1] == all[1] && res@[2] == all[2]);
    Ok(res)
}

/// Decodes the three base64 encryption keys of a job's parties where there
/// are three of them. `None` stands for a list whose keys all decode but
/// whose length is not three, which `base64_decode_keys` does not accept.
pub fn try_base64_decode_keys(keys: &Vec<String>) -> (res: Option<Result<[EncryptionKey; 3], KeyDecodeError>>)
    ensures
        res is None <==> first_key_error(keys.deep_view(), keys@.len()) is None && keys@.len() != 3,
        first_key_error(keys.deep_view(), keys@.len()) matches Some(e)
            ==> res == Some(Err::<[EncryptionKey; 3], KeyDecodeError>(e)),
        first_key_error(keys.deep_view(), keys@.len()) is None && keys@.len() == 3 ==> (res matches Some(Ok(decoded))
            && forall|i: int| 0 <= i < 3 ==> Some((#[trigger] decoded@[i])@) == base64_decoded(keys@[i]@)),
        res matches Some(Ok(decoded))
            ==> forall|i: int| 0 <= i < 3 ==> Some((#[trigger] decoded@[i])@) == base64_decoded(keys@[i]@),
{
    match decode_key_list(keys) {
        Err(e) => Some(Err(e)),
        Ok(_) => {
            if keys.len() == 3 {
                Some(base64_decode_keys(keys))
            } else {
                None
            }
        },
    }
}

/// Why sealing a share to a base64 key failed.
#[derive(Debug, Clone, Copy, PartialEq, Eq, Structural)]
pub enum SealShareError {
    /// The key is not valid base64.
    Base64,
    /// The key does not decode to 32 bytes.
    InvalidKeySize,
    /// The sealed-box implementation failed (the contracts here state that it
    /// does not).
    Encryption,
}

/// Seals a share to the base64 public key of a node.
pub fn seal_share(pk_b64: &str, share: Vec<u8>) -> (res: Result<Vec<u8>, SealShareError>)
    ensures
        base64_decoded(pk_b64@) is None ==> res == Err::<Vec<u8>, SealShareError>(SealShareError::Base64),
        base64_decoded(pk_b64@) matches Some(key) && key.len() != KEY_LEN
            ==> res == Err::<Vec<u8>, SealShareError>(SealShareError::InvalidKeySize),
        base64_decoded(pk_b64@) matches Some(key) && key.len() == KEY_LEN ==> res is Ok,
        res matches Ok(sealed) ==> sealed_to(base64_decoded(pk_b64@)->Some_0, share@, sealed@),
{
    let key = match decode_encryption_key(pk_b64) {
        Ok(key) => key,
        Err(KeyDecodeError::Base64) => return Err(SealShareError::Base64),
        Err(KeyDecodeError::InvalidKeySize) => return Err(SealShareError::InvalidKeySize),
    };
    match key.seal(share.as_slice()) {
        Some(sealed) => Ok(sealed),
        None => Err(SealShareError::Encryption),
    }
}

/// Why the signature of a result, given as text, is refused.
#[derive(Debug, Clone, Copy, PartialEq, Eq, Structural)]
pub enum VerifyError {
    /// The job id is not a UUID.
    InvalidUuid,
    /// The verifying key is not valid base64.
    KeyBase64,
    /// The verifying key does not decode to 32 bytes.
    InvalidKeySize,
    /// The verifying key's bytes are not an Ed25519 point.
    InvalidKey,
    /// The signature is not valid base64.
    SignatureBase64,
    /// The signature does not decode to 64 bytes.
    InvalidSignatureSize,
    /// The signature does not check out.
    VerificationFailed,
}

/// The outcome of checking a result signature given as text: the first
/// problem in the order job id, key, signature, check; `None` where the
/// signature is valid.
pub open spec fn text_signature_error(
    job_id: Seq<char>,
    proof: Seq<char>,
    public_inputs: Seq<char>,
    vk_b64: Seq<char>,
    signature_b64: Seq<char>,
) -> Option<VerifyError> {
    match uuid_parsed(job_id) {
        None => Some(VerifyError::InvalidUuid),
        Some(id) => match base64_decoded(vk_b64) {
            None => Some(VerifyError::KeyBase64),
            Some(vk) => if vk.len() != KEY_LEN {
                Some(VerifyError::InvalidKeySize)
            } else if !ed25519_key_accepted(vk) {
                Some(VerifyError::InvalidKey)
            } else {
                match base64_decoded(signature_b64) {
                    None => Some(VerifyError::SignatureBase64),
                    Some(signature) => if signature.len() != SIGNATURE_LEN {
                        Some(VerifyError::InvalidSignatureSize)
                    } else if !result_signature_valid(id, proof, public_inputs, signature, vk) {
                        Some(VerifyError::VerificationFailed)
                    } else {
                        None
                    }
                }
            }
        },
    }
}

/// Verifies the signature of a proof result, with the job id as UUID text
/// and the key and signature as base64 text.
pub fn verify_proof_result_signature(
    job_id: &str,
    proof: &str,
    public_inputs: &str,
    vk_b64: &str,
    signature_b64: &str,
) -> (res: Result<(), VerifyError>)
    ensures
        res is Ok <==> text_signature_error(job_id@, proof@, public_inputs@, vk_b64@, signature_b64@) is None,
        text_signature_error(job_id@, proof@, public_inputs@, vk_b64@, signature_b64@) matches Some(e)
            ==> res == Err::<(), VerifyError>(e),
{
    let id_bytes = match parse_uuid(job_id) {
        Some(bytes) => bytes,
        None => return Err(VerifyError::InvalidUuid),
    };
    let vk_bytes = match base64_decode(vk_b64) {
        Some(bytes) => bytes,
        None => return Err(VerifyError::KeyBase64),
    };
    let vk = match VerificationKey::from_bytes(vk_bytes) {
        Ok(vk) => vk,
        Err(VerificationKeyError::WrongLength) => return Err(VerifyError::InvalidKeySize),
        Err(VerificationKeyError::NotAPoint) => return Err(VerifyError::InvalidKey),
    };
    let signature_bytes = match base64_decode(signature_b64) {
        Some(bytes) => bytes,
        None => return Err(VerifyError::SignatureBase64),
    };
    let signature = match ProofSignature::from_bytes(signature_bytes) {
        Some(signature) => signature,
        None => return Err(VerifyError::InvalidSignatureSize),
    };
    let mut id_array: [u8; 16] = [0u8; 16];
    let mut i: usize = 0;
    while i < 16
        invariant
            i <= 16,
            id_bytes@.len() == 16,
            forall|k: int| 0 <= k < i ==> id_array@[k] == id_bytes@[k],
        decreases 16 - i,
    {
        id_array.set(i, id_bytes[i]);
        i = i + 1;
    }
    assert(id_array@ =~= id_bytes@);
    match verify_typed(&id_array, proof, public_inputs, &signature, &vk) {
        Ok(()) => Ok(()),
        Err(_) => Err(VerifyError::VerificationFailed),
    }
}

/// Where the job id, key and signature texts decode, the text form of the
/// check accepts exactly the signatures the typed form accepts.
pub proof fn lemma_text_check_agrees_with_typed_check(
    job_id: Seq<char>,
    proof: Seq<char>,
    public_inputs: Seq<char>,
    vk_b64: Seq<char>,
    signature_b64: Seq<char>,
    id: Seq<u8>,
    vk: Seq<u8>,
    signature: Seq<u8>,
)
    requires
        uuid_parsed(job_id) == Some(id),
        base64_decoded(vk_b64) == Some(vk),
        vk.len() == KEY_LEN,
        ed25519_key_accepted(vk),
        base64_decoded(signature_b64) == Some(signature),
        signature.len() == SIGNATURE_LEN,
    ensures
        text_signature_error(job_id, proof, public_inputs, vk_b64, signature_b64) is None
            <==> result_signature_valid(id, proof, public_inputs, signature, vk),
{
}

} // verus!
