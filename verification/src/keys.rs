//! Key material of node providers and the two primitives applied with it:
//! sealing a share to a node's encryption key (libsodium sealed boxes, via
//! `crypto_box`) and checking an Ed25519ph signature (via `ed25519_dalek`).

use vstd::prelude::*;
use sha2::Digest;

verus! {

/// Number of bytes of an encryption key and of an Ed25519 verifying key.
pub const KEY_LEN: usize = 32;

/// Number of bytes of an Ed25519 signature.
pub const SIGNATURE_LEN: usize = 64;

/// Bytes a sealed box adds to its plaintext: the ephemeral public key and
/// the Poly1305 tag.
pub const SEAL_OVERHEAD: usize = 48;

/// Whether `ed25519_dalek::VerifyingKey::from_bytes` accepts the 32 bytes
/// (they decompress to a curve point).
pub uninterp spec fn ed25519_key_accepted(bytes: Seq<u8>) -> bool;

/// Whether the strict Ed25519ph check accepts `signature` for the SHA-512
/// prehash of `message` under the verifying key `key` and the domain
/// separation `context`.
pub uninterp spec fn ed25519ph_strict_accepts(
    key: Seq<u8>,
    message: Seq<u8>,
    context: Seq<u8>,
    signature: Seq<u8>,
) -> bool;

/// Whether `sealed` is one of the sealed boxes `crypto_box::PublicKey::seal`
/// can produce for `plaintext` and the X25519 public key `recipient`: an
/// ephemeral public key followed by the XSalsa20-Poly1305 encryption of the
/// plaintext under the key shared between the ephemeral secret and the
/// recipient, with the nonce derived from both public keys. Which one is
/// produced rests on the ephemeral secret drawn at random.
pub uninterp spec fn is_sealed_box(recipient: Seq<u8>, plaintext: Seq<u8>, sealed: Seq<u8>) -> bool;

/// The public encryption key of a node provider: the 32 bytes of an X25519
/// public key. Shares are sealed to it.
#[derive(Debug)]
pub struct EncryptionKey {
    bytes: Vec<u8>,
}

/// The verifying key of a node provider: 32 bytes that decode to an Ed25519
/// point.
#[derive(Debug)]
pub struct VerificationKey {
    bytes: Vec<u8>,
}

/// A 64-byte Ed25519 signature.
#[derive(Debug)]
pub struct ProofSignature {
    bytes: Vec<u8>,
}

impl EncryptionKey {
    #[verifier::type_invariant]
    spec fn well_formed(self) -> bool {
        self.bytes@.len() == KEY_LEN
    }
}

impl VerificationKey {
    #[verifier::type_invariant]
    spec fn well_formed(self) -> bool {
        &&& self.bytes@.len() == KEY_LEN
        &&& ed25519_key_accepted(self.bytes@)
    }
}

impl ProofSignature {
    #[verifier::type_invariant]
    spec fn well_formed(self) -> bool {
        self.bytes@.len() == SIGNATURE_LEN
    }
}

impl View for EncryptionKey {
    type V = Seq<u8>;

    closed spec fn view(&self) -> Seq<u8> {
        self.bytes@
    }
}

impl View for VerificationKey {
    type V = Seq<u8>;

    closed spec fn view(&self) -> Seq<u8> {
        self.bytes@
    }
}

impl View for ProofSignature {
    type V = Seq<u8>;

    closed spec fn view(&self) -> Seq<u8> {
        self.bytes@
    }
}

impl Clone for EncryptionKey {
    fn clone(&self) -> (copy: Self)
        ensures
            copy@ == self@,
    {
        proof {
            use_type_invariant(self);
        }
        let bytes = self.bytes.clone();
        proof {
            assert(bytes@ =~= self.bytes@);
        }
        EncryptionKey { bytes }
    }
}

impl Clone for VerificationKey {
    fn clone(&self) -> (copy: Self)
        ensures
            copy@ == self@,
    {
        proof {
            use_type_invariant(self);
        }
        let bytes = self.bytes.clone();
        proof {
            assert(bytes@ =~= self.bytes@);
        }
        VerificationKey { bytes }
    }
}

impl Clone for ProofSignature {
    fn clone(&self) -> (copy: Self)
        ensures
            copy@ == self@,
    {
        proof {
            use_type_invariant(self);
        }
        let bytes = self.bytes.clone();
        proof {
            assert(bytes@ =~= self.bytes@);
        }
        ProofSignature { bytes }
    }
}

/// Checks a candidate verifying key with `ed25519_dalek::VerifyingKey::from_bytes`.
/// Trusted: the answer is the one `ed25519_key_accepted` names for the bytes.
#[verifier::external_body]
fn ed25519_key_check(bytes: &Vec<u8>) -> (accepted: bool)
    requires
        bytes@.len() == KEY_LEN,
    ensures
        accepted == ed25519_key_accepted(bytes@),
{
    let array: [u8; 32] = bytes.as_slice().try_into().unwrap();
    ed25519_dalek::VerifyingKey::from_bytes(&array).is_ok()
}

/// Feeds `message` into a `sha2::Sha512` hasher and checks the signature with
/// `ed25519_dalek::VerifyingKey::verify_prehashed_strict`, with `context` as
/// the Ed25519ph context. Trusted: the answer is the one
/// `ed25519ph_strict_accepts` names for the key, message, context and
/// signature bytes.
#[verifier::external_body]
fn ed25519ph_verify_strict(
    key: &VerificationKey,
    message: &[u8],
    context: &[u8],
    signature: &ProofSignature,
) -> (accepted: bool)
    requires
        key@.len() == KEY_LEN,
        ed25519_key_accepted(key@),
        signature@.len() == SIGNATURE_LEN,
        context@.len() <= 255,
    ensures
        accepted == ed25519ph_strict_accepts(key@, message@, context@, signature@),
{
    let key_array: [u8; 32] = key.bytes.as_slice().try_into().unwrap();
    let signature_array: [u8; 64] = signature.bytes.as_slice().try_into().unwrap();
    match ed25519_dalek::VerifyingKey::from_bytes(&key_array) {
        Ok(vk) => vk.verify_prehashed_strict(
            sha2::Sha512::new().chain_update(message),
            Some(context),
            &ed25519_dalek::Signature::from_bytes(&signature_array),
        ).is_ok(),
        Err(_) => false,
    }
}

/// Seals `plaintext` to the key with `crypto_box::PublicKey::seal`, drawing
/// the ephemeral key from the operating system's generator. The ciphertext is
/// random; the trusted contract states what holds of every outcome the
/// crate's source produces: it is a sealed box of the plaintext to this key,
/// and the ephemeral public key and the tag add 48 bytes. The call succeeds:
/// in crypto_box 0.9.1 the only error paths of the XSalsa20-Poly1305
/// encryption are non-empty associated data and a buffer that cannot grow,
/// and `seal` passes no associated data and encrypts into a `Vec`. Which
/// ciphertext comes back is not stated. (Where the operating system's
/// generator fails, `OsRng` panics instead of returning; that rests on the
/// machine, not on the arguments.)
#[verifier::external_body]
fn sealed_box(key: &EncryptionKey, plaintext: &[u8]) -> (sealed: Option<Vec<u8>>)
    requires
        key@.len() == KEY_LEN,
    ensures
        sealed is Some,
        sealed matches Some(c) ==> c@.len() == plaintext@.len() + SEAL_OVERHEAD
            && is_sealed_box(key@, plaintext@, c@),
{
    let key_array: [u8; 32] = key.bytes.as_slice().try_into().unwrap();
    crypto_box::PublicKey::from_bytes(key_array).seal(&mut crypto_box::aead::OsRng, plaintext).ok()
}

impl EncryptionKey {
    /// The key of the given bytes, `None` where they are not exactly 32.
    pub fn from_bytes(bytes: Vec<u8>) -> (key: Option<EncryptionKey>)
        ensures
            key is Some <==> bytes@.len() == KEY_LEN,
            key matches Some(k) ==> k@ == bytes@,
    {
        if bytes.len() == KEY_LEN {
            Some(EncryptionKey { bytes })
        } else {
            None
        }
    }

    /// The 32 bytes of the key.
    pub fn as_bytes(&self) -> (bytes: &Vec<u8>)
        ensures
            bytes@ == self@,
            bytes@.len() == KEY_LEN,
    {
        proof {
            use_type_invariant(self);
        }
        &self.bytes
    }

    /// Seals `plaintext` for the holder of this key. Sealing succeeds, and
    /// the ciphertext is a sealed box of the plaintext to this key, 48 bytes
    /// longer.
    pub fn seal(&self, plaintext: &[u8]) -> (sealed: Option<Vec<u8>>)
        ensures
            sealed is Some,
            sealed matches Some(c) ==> c@.len() == plaintext@.len() + SEAL_OVERHEAD
                && is_sealed_box(self@, plaintext@, c@),
    {
        proof {
            use_type_invariant(self);
        }
        sealed_box(self, plaintext)
    }
}

/// Why 32 bytes are refused as a verifying key.
#[derive(Debug, Clone, Copy, PartialEq, Eq, Structural)]
pub enum VerificationKeyError {
    /// The input is not 32 bytes long.
    WrongLength,
    /// The 32 bytes do not decode to a curve point.
    NotAPoint,
}

impl VerificationKey {
    /// The verifying key of the given bytes: refused where they are not 32
    /// bytes, or do not decode to a point.
    pub fn from_bytes(bytes: Vec<u8>) -> (key: Result<VerificationKey, VerificationKeyError>)
        ensures
            bytes@.len() != KEY_LEN ==> key == Err::<VerificationKey, _>(VerificationKeyError::WrongLength),
            bytes@.len() == KEY_LEN && !ed25519_key_accepted(bytes@)
                ==> key == Err::<VerificationKey, _>(VerificationKeyError::NotAPoint),
            bytes@.len() == KEY_LEN && ed25519_key_accepted(bytes@) ==> (key matches Ok(k) && k@ == bytes@),
    {
        if bytes.len() != KEY_LEN {
            Err(VerificationKeyError::WrongLength)
        } else if !ed25519_key_check(&bytes) {
            Err(VerificationKeyError::NotAPoint)
        } else {
            Ok(VerificationKey { bytes })
        }
    }

    /// The 32 bytes of the key.
    pub fn as_bytes(&self) -> (bytes: &Vec<u8>)
        ensures
            bytes@ == self@,
            bytes@.len() == KEY_LEN,
            ed25519_key_accepted(bytes@),
    {
        proof {
            use_type_invariant(self);
        }
        &self.bytes
    }

    /// Whether `signature` is a valid strict Ed25519ph signature by this key
    /// on the SHA-512 prehash of `message`, with the given context.
    pub fn verify_prehashed_strict(&self, message: &[u8], context: &[u8], signature: &ProofSignature) -> (accepted: bool)
        requires
            context@.len() <= 255,
        ensures
            accepted == ed25519ph_strict_accepts(self@, message@, context@, signature@),
    {
        proof {
            use_type_invariant(self);
            use_type_invariant(signature);
        }
        ed25519ph_verify_strict(self, message, context, signature)
    }
}

impl ProofSignature {
    /// The signature of the given bytes, `None` where they are not exactly 64.
    pub fn from_bytes(bytes: Vec<u8>) -> (signature: Option<ProofSignature>)
        ensures
            signature is Some <==> bytes@.len() == SIGNATURE_LEN,
            signature matches Some(s) ==> s@ == bytes@,
    {
        if bytes.len() == SIGNATURE_LEN {
            Some(ProofSignature { bytes })
        } else {
            None
        }
    }

    /// The 64 bytes of the signature.
    pub fn as_bytes(&self) -> (bytes: &Vec<u8>)
        ensures
            bytes@ == self@,
            bytes@.len() == SIGNATURE_LEN,
    {
        proof {
            use_type_invariant(self);
        }
        &self.bytes
    }
}

} // verus!
