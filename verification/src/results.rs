//! Decoding the parts of a signed job result that the client checks before
//! it hands the result out.

use vstd::prelude::*;
use std::collections::HashMap;
use crate::codec::{base64_decode, base64_decoded, json_string_array, parse_json_string_array};
use crate::keys::{ProofSignature, SIGNATURE_LEN};

verus! {

broadcast use vstd::std_specs::hash::group_hash_axioms;

/// The public inputs of a result are not a JSON array of strings.
#[derive(Debug, Clone, Copy, PartialEq, Eq, Structural)]
pub struct PublicInputsError;

/// Reads the public inputs of a result, a JSON array of decimal strings.
pub fn parse_public_input_strings(public_inputs: &str) -> (res: Result<Vec<String>, PublicInputsError>)
    ensures
        res matches Ok(items) ==> json_string_array(public_inputs@) == Some(items.deep_view()),
        res is Err <==> json_string_array(public_inputs@) is None,
{
    match parse_json_string_array(public_inputs) {
        Some(items) => Ok(items),
        None => Err(PublicInputsError),
    }
}

/// Why a node's signature in a result is refused.
#[derive(Debug, Clone, Copy, PartialEq, Eq, Structural)]
pub enum SignatureDecodeError {
    /// The signature is not valid base64.
    Base64,
    /// The signature does not decode to 64 bytes.
    Size,
}

/// The problem with one base64 signature, `None` where it decodes to 64 bytes.
pub open spec fn signature_error(text: Seq<char>) -> Option<SignatureDecodeError> {
    match base64_decoded(text) {
        None => Some(SignatureDecodeError::Base64),
        Some(bytes) => if bytes.len() != SIGNATURE_LEN {
            Some(SignatureDecodeError::Size)
        } else {
            None
        },
    }
}

/// Whether every signature of the list decodes.
pub open spec fn all_signatures_decode(entries: Seq<(i32, String)>) -> bool {
    forall|j: int| 0 <= j < entries.len() ==> (#[trigger] signature_error(entries[j].1@)) is None
}

/// Whether entry `j` is the last one of the list for its node.
pub open spec fn last_for_node(entries: Seq<(i32, String)>, j: int) -> bool {
    forall|k: int| j < k < entries.len() ==> #[trigger] entries[k].0 != entries[j].0
}

/// Decodes the base64 signature of each node, in the order given. The first
/// signature that does not decode to 64 bytes refuses the whole list; else
/// each node listed maps to its signature (the last one, if listed twice).
pub fn decode_signatures(entries: &Vec<(i32, String)>) -> (res: Result<HashMap<i32, ProofSignature>, SignatureDecodeError>)
    ensures
        res matches Err(e) ==> exists|j: int| {
            &&& 0 <= j < entries@.len()
            &&& #[trigger] signature_error(entries@[j].1@) == Some(e)
            &&& forall|k: int| 0 <= k < j ==> (#[trigger] signature_error(entries@[k].1@)) is None
        },
        res is Ok <==> all_signatures_decode(entries@),
        res matches Ok(signatures) ==> {
            &&& forall|id: i32| signatures@.contains_key(id)
                <==> exists|j: int| 0 <= j < entries@.len() && (#[trigger] entries@[j]).0 == id
            &&& forall|j: int| 0 <= j < entries@.len() && last_for_node(entries@, j)
                ==> Some((#[trigger] signatures@[entries@[j].0])@) == base64_decoded(entries@[j].1@)
        },
{
    let mut signatures: HashMap<i32, ProofSignature> = HashMap::new();
    let mut j: usize = 0;
    while j < entries.len()
        invariant
            j <= entries@.len(),
            forall|k: int| 0 <= k < j ==> (#[trigger] signature_error(entries@[k].1@)) is None,
            forall|id: i32| signatures@.contains_key(id)
                <==> exists|k: int| 0 <= k < j && (#[trigger] entries@[k]).0 == id,
            forall|k: int| 0 <= k < j && (forall|m: int| k < m < j ==> #[trigger] entries@[m].0 != entries@[k].0)
                ==> Some((#[trigger] signatures@[entries@[k].0])@) == base64_decoded(entries@[k].1@),
        decreases entries@.len() - j,
    {
        let id = entries[j].0;
        let bytes = match base64_decode(entries[j].1.as_str()) {
            Some(bytes) => bytes,
            None => {
                assert(signature_error(entries@[j as int].1@) == Some(SignatureDecodeError::Base64));
                return Err(SignatureDecodeError::Base64);
            },
        };
        let signature = match ProofSignature::from_bytes(bytes) {
            Some(signature) => signature,
            None => {
                assert(signature_error(entries@[j as int].1@) == Some(SignatureDecodeError::Size));
                return Err(SignatureDecodeError::Size);
            },
        };
        let ghost before = signatures@;
        signatures.insert(id, signature);
        proof {
            assert forall|key: i32| signatures@.contains_key(key)
                <==> exists|k: int| 0 <= k < j + 1 && (#[trigger] entries@[k]).0 == key by {
                if before.contains_key(key) {
                    let k = choose|k: int| 0 <= k < j && (#[trigger] entries@[k]).0 == key;
                    assert(0 <= k < j + 1 && entries@[k].0 == key);
                }
                if key == id {
                    assert(entries@[j as int].0 == key);
                }
            }
        }
        j = j + 1;
    }
    Ok(signatures)
}

} // verus!
