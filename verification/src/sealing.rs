//! Sealing the secret shares of a job for its three parties: share `i` is
//! sealed to the encryption key of node `i`, so that only that node can
//! open it.

use vstd::prelude::*;
use crate::codec::{frame_map, framed_map, names_in_map_order};
use crate::keys::{is_sealed_box, EncryptionKey, SEAL_OVERHEAD};
use crate::node::NodeProviders;

verus! {

/// The serialized (or sealed) shares of the three parties.
#[derive(Debug, Clone)]
pub struct Shares {
    pub share0: Vec<u8>,
    pub share1: Vec<u8>,
    pub share2: Vec<u8>,
}

/// Sealing a share failed in the sealed-box implementation. The sealing
/// functions of this module state that it does not happen: the error stays
/// in their signatures as the error channel of the sealed-box call.
#[derive(Debug, Clone, Copy, PartialEq, Eq, Structural)]
pub struct SealError;

/// `sealed` is a sealed box of `plaintext` to `key`, 48 bytes longer.
pub open spec fn sealed_to(key: Seq<u8>, plaintext: Seq<u8>, sealed: Seq<u8>) -> bool {
    sealed.len() == plaintext.len() + SEAL_OVERHEAD && is_sealed_box(key, plaintext, sealed)
}

/// `sealed` holds, entry for entry, the names of `plain` with a sealed box
/// to `key` in place of each plaintext.
pub open spec fn entries_sealed(key: Seq<u8>, plain: Seq<(Seq<char>, Seq<u8>)>, sealed: Seq<(Seq<char>, Seq<u8>)>) -> bool {
    &&& sealed.len() == plain.len()
    &&& forall|j: int| 0 <= j < plain.len() ==> {
        &&& (#[trigger] sealed[j]).0 == plain[j].0
        &&& sealed_to(key, plain[j].1, sealed[j].1)
    }
}

/// `framed` is the bincode map of some sealing of the named plaintexts to
/// `key`.
pub open spec fn framed_sealing_of(key: Seq<u8>, plain: Seq<(Seq<char>, Seq<u8>)>, framed: Seq<u8>) -> bool {
    exists|sealed: Seq<(Seq<char>, Seq<u8>)>| entries_sealed(key, plain, sealed) && framed == framed_map(sealed)
}

/// Seals every value of a name-to-share list to `key`, keeping names and
/// order. Sealing succeeds for every list.
pub fn seal_entries(key: &EncryptionKey, entries: &Vec<(String, Vec<u8>)>) -> (res: Result<Vec<(String, Vec<u8>)>, SealError>)
    ensures
        res is Ok,
        res matches Ok(sealed) ==> entries_sealed(key@, entries.deep_view(), sealed.deep_view()),
{
    let mut sealed: Vec<(String, Vec<u8>)> = Vec::new();
    let mut j: usize = 0;
    while j < entries.len()
        invariant
            j <= entries@.len(),
            sealed@.len() == j,
            forall|k: int| 0 <= k < j ==> {
                &&& (#[trigger] sealed@[k]).0@ == entries@[k].0@
                &&& sealed_to(key@, entries@[k].1@, sealed@[k].1@)
            },
        decreases entries@.len() - j,
    {
        let ciphertext = match key.seal(entries[j].1.as_slice()) {
            Some(c) => c,
            None => return Err(SealError),
        };
        let name = entries[j].0.clone();
        sealed.push((name, ciphertext));
        j = j + 1;
    }
    proof {
        assert forall|k: int| 0 <= k < entries@.len() implies {
            &&& (#[trigger] sealed.deep_view()[k]).0 == entries.deep_view()[k].0
            &&& sealed_to(key@, entries.deep_view()[k].1, sealed.deep_view()[k].1)
        } by {
            assert(sealed@[k].0@ == entries@[k].0@);
            assert(sealed.deep_view()[k].1 == sealed@[k].1@);
            assert(entries.deep_view()[k].1 == entries@[k].1@);
            assert(sealed_to(key@, entries@[k].1@, sealed@[k].1@));
        }
    }
    Ok(sealed)
}

/// Seals one party's named input shares to its key and frames them as the
/// bincode map of names to ciphertexts. The entries are those of a map keyed
/// by the names, in its order; sealing succeeds for every such list.
pub fn seal_input_share(key: &EncryptionKey, entries: &Vec<(String, Vec<u8>)>) -> (res: Result<Vec<u8>, SealError>)
    requires
        names_in_map_order(entries.deep_view()),
    ensures
        res is Ok,
        res matches Ok(framed) ==> framed_sealing_of(key@, entries.deep_view(), framed@),
{
    let sealed = seal_entries(key, entries)?;
    let framed = frame_map(&sealed);
    proof {
        assert(entries_sealed(key@, entries.deep_view(), sealed.deep_view()));
    }
    Ok(framed)
}

/// Seals the named input shares of the three parties, party `i` to `key_i`,
/// each framed as a bincode map of names to ciphertexts. Each party's
/// entries are those of a map keyed by the names, in its order; sealing
/// succeeds for every such input.
pub fn seal_input_shares(
    key0: &EncryptionKey,
    key1: &EncryptionKey,
    key2: &EncryptionKey,
    share0: &Vec<(String, Vec<u8>)>,
    share1: &Vec<(String, Vec<u8>)>,
    share2: &Vec<(String, Vec<u8>)>,
) -> (res: Result<Shares, SealError>)
    requires
        names_in_map_order(share0.deep_view()),
        names_in_map_order(share1.deep_view()),
        names_in_map_order(share2.deep_view()),
    ensures
        res is Ok,
        res matches Ok(sealed) ==> {
            &&& framed_sealing_of(key0@, share0.deep_view(), sealed.share0@)
            &&& framed_sealing_of(key1@, share1.deep_view(), sealed.share1@)
            &&& framed_sealing_of(key2@, share2.deep_view(), sealed.share2@)
        },
{
    let sealed0 = seal_input_share(key0, share0)?;
    let sealed1 = seal_input_share(key1, share1)?;
    let sealed2 = seal_input_share(key2, share2)?;
    Ok(Shares { share0: sealed0, share1: sealed1, share2: sealed2 })
}

/// Seals the three serialized shares, share `i` to `key_i`. Sealing
/// succeeds for every input.
pub fn seal_shares_with_keys(
    key0: &EncryptionKey,
    key1: &EncryptionKey,
    key2: &EncryptionKey,
    shares: &Shares,
) -> (res: Result<Shares, SealError>)
    ensures
        res is Ok,
        res matches Ok(sealed) ==> {
            &&& sealed_to(key0@, shares.share0@, sealed.share0@)
            &&& sealed_to(key1@, shares.share1@, sealed.share1@)
            &&& sealed_to(key2@, shares.share2@, sealed.share2@)
        },
{
    let sealed0 = match key0.seal(shares.share0.as_slice()) {
        Some(c) => c,
        None => return Err(SealError),
    };
    let sealed1 = match key1.seal(shares.share1.as_slice()) {
        Some(c) => c,
        None => return Err(SealError),
    };
    let sealed2 = match key2.seal(shares.share2.as_slice()) {
        Some(c) => c,
        None => return Err(SealError),
    };
    Ok(Shares { share0: sealed0, share1: sealed1, share2: sealed2 })
}

/// Seals the three serialized shares to the three node providers of a job,
/// share `i` to node `i`. Sealing succeeds for every input.
pub fn seal_shares(nodes: &NodeProviders, shares: &Shares) -> (res: Result<Shares, SealError>)
    ensures
        res is Ok,
        res matches Ok(sealed) ==> {
            &&& sealed_to(nodes.node0.enc_key@, shares.share0@, sealed.share0@)
            &&& sealed_to(nodes.node1.enc_key@, shares.share1@, sealed.share1@)
            &&& sealed_to(nodes.node2.enc_key@, shares.share2@, sealed.share2@)
        },
{
    seal_shares_with_keys(&nodes.node0.enc_key, &nodes.node1.enc_key, &nodes.node2.enc_key, shares)
}

} // verus!
