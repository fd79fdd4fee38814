//! Node providers with their keys decoded and checked.

use vstd::prelude::*;
use crate::codec::{base64_decode, base64_decoded};
use crate::keys::{ed25519_key_accepted, EncryptionKey, VerificationKey, VerificationKeyError, KEY_LEN};
use crate::models;

verus! {

/// A node provider of the network, with the keys it is addressed and
/// checked with.
#[derive(Debug, Clone)]
pub struct NodeProvider {
    /// A unique identifier for the node provider.
    pub id: i32,
    /// The name of the node provider.
    pub name: String,
    /// The key that shares for this node are sealed to.
    pub enc_key: EncryptionKey,
    /// The key that this node's signatures are checked with.
    pub verify_key: VerificationKey,
    /// Whether the node provider is currently online.
    pub online: bool,
}

/// The three node providers that run one job.
#[derive(Debug, Clone)]
pub struct NodeProviders {
    pub node0: NodeProvider,
    pub node1: NodeProvider,
    pub node2: NodeProvider,
}

/// Why the keys of a node provider record are refused.
#[derive(Debug, Clone, Copy, PartialEq, Eq, Structural)]
pub enum NodeProviderError {
    /// The encryption key is not valid base64.
    EncKeyBase64,
    /// The encryption key does not decode to 32 bytes.
    EncKeyLength,
    /// The verifying key is not valid base64.
    VerifyKeyBase64,
    /// The verifying key does not decode to 32 bytes.
    VerifyKeyLength,
    /// The verifying key's 32 bytes are not an Ed25519 point.
    VerifyKeyInvalid,
}

/// The first problem with a node provider's two base64 keys, checked in
/// the order encryption key, then verifying key; `None` where both are fine.
pub open spec fn node_keys_error(enc_key: Seq<char>, verify_key: Seq<char>) -> Option<NodeProviderError> {
    match base64_decoded(enc_key) {
        None => Some(NodeProviderError::EncKeyBase64),
        Some(enc) => if enc.len() != KEY_LEN {
            Some(NodeProviderError::EncKeyLength)
        } else {
            match base64_decoded(verify_key) {
                None => Some(NodeProviderError::VerifyKeyBase64),
                Some(vk) => if vk.len() != KEY_LEN {
                    Some(NodeProviderError::VerifyKeyLength)
                } else if !ed25519_key_accepted(vk) {
                    Some(NodeProviderError::VerifyKeyInvalid)
                } else {
                    None
                },
            }
        },
    }
}

/// The first problem with the keys of three records, taken in order.
pub open spec fn nodes_keys_error(value: models::NodeProviders) -> Option<NodeProviderError> {
    let first = node_keys_error(value.node0.enc_key@, value.node0.verify_key@);
    let second = node_keys_error(value.node1.enc_key@, value.node1.verify_key@);
    let third = node_keys_error(value.node2.enc_key@, value.node2.verify_key@);
    if first is Some {
        first
    } else if second is Some {
        second
    } else {
        third
    }
}

/// `converted` is `record` with its keys decoded.
pub open spec fn decodes_to(record: models::NodeProvider, converted: NodeProvider) -> bool {
    &&& converted.id == record.id
    &&& converted.name@ == record.name@
    &&& converted.online == record.online
    &&& Some(converted.enc_key@) == base64_decoded(record.enc_key@)
    &&& Some(converted.verify_key@) == base64_decoded(record.verify_key@)
}

impl NodeProvider {
    /// Decodes and checks the keys of an API record.
    pub fn try_from(value: models::NodeProvider) -> (res: Result<NodeProvider, NodeProviderError>)
        ensures
            node_keys_error(value.enc_key@, value.verify_key@) matches Some(e)
                ==> res == Err::<NodeProvider, NodeProviderError>(e),
            node_keys_error(value.enc_key@, value.verify_key@) is None
                ==> (res matches Ok(node) && decodes_to(value, node)),
    {
        let enc_bytes = match base64_decode(value.enc_key.as_str()) {
            Some(bytes) => bytes,
            None => return Err(NodeProviderError::EncKeyBase64),
        };
        let ghost enc_view = enc_bytes@;
        let enc_key = match EncryptionKey::from_bytes(enc_bytes) {
            Some(key) => key,
            None => return Err(NodeProviderError::EncKeyLength),
        };
        let vk_bytes = match base64_decode(value.verify_key.as_str()) {
            Some(bytes) => bytes,
            None => return Err(NodeProviderError::VerifyKeyBase64),
        };
        let verify_key = match VerificationKey::from_bytes(vk_bytes) {
            Ok(key) => key,
            Err(VerificationKeyError::WrongLength) => return Err(NodeProviderError::VerifyKeyLength),
            Err(VerificationKeyError::NotAPoint) => return Err(NodeProviderError::VerifyKeyInvalid),
        };
        Ok(NodeProvider { id: value.id, name: value.name, enc_key, verify_key, online: value.online })
    }
}

impl NodeProviders {
    /// Decodes and checks the keys of all three records, in order; the first
    /// refusal is the result.
    pub fn try_from(value: models::NodeProviders) -> (res: Result<NodeProviders, NodeProviderError>)
        ensures
            nodes_keys_error(value) matches Some(e) ==> res == Err::<NodeProviders, NodeProviderError>(e),
            nodes_keys_error(value) is None ==> (res matches Ok(nodes)
                && decodes_to(value.node0, nodes.node0)
                && decodes_to(value.node1, nodes.node1)
                && decodes_to(value.node2, nodes.node2)),
    {
        let node0 = NodeProvider::try_from(value.node0)?;
        let node1 = NodeProvider::try_from(value.node1)?;
        let node2 = NodeProvider::try_from(value.node2)?;
        Ok(NodeProviders { node0, node1, node2 })
    }
}

} // verus!
