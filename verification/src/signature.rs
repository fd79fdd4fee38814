//! Checking the signatures that node providers put on proof results.

use vstd::prelude::*;
use vstd::utf8::encode_utf8;
use crate::keys::{ed25519ph_strict_accepts, ProofSignature, VerificationKey};

verus! {

/// The Ed25519ph context that node providers sign proof results under.
pub open spec fn nps_reporting_context() -> Seq<u8> {
    encode_utf8("taceo-proof-nps-reporting"@)
}

/// The message whose SHA-512 prehash a node provider signs for a result:
/// the 16 bytes of the job's UUID, then the UTF-8 bytes of the proof, then
/// those of the public inputs.
pub open spec fn signed_message(job_id: Seq<u8>, proof: Seq<char>, public_inputs: Seq<char>) -> Seq<u8> {
    job_id + encode_utf8(proof) + encode_utf8(public_inputs)
}

/// Whether `signature` is the node's valid signature, under `key`, on the
/// result of job `job_id`.
pub open spec fn result_signature_valid(
    job_id: Seq<u8>,
    proof: Seq<char>,
    public_inputs: Seq<char>,
    signature: Seq<u8>,
    key: Seq<u8>,
) -> bool {
    ed25519ph_strict_accepts(key, signed_message(job_id, proof, public_inputs), nps_reporting_context(), signature)
}

/// The signed message binds the job: messages for two jobs with 16-byte
/// ids can only coincide when the ids do, so a signature on the result of
/// one job is never checked against the message of another.
pub proof fn lemma_signed_message_binds_job(
    job_a: Seq<u8>,
    proof_a: Seq<char>,
    public_a: Seq<char>,
    job_b: Seq<u8>,
    proof_b: Seq<char>,
    public_b: Seq<char>,
)
    requires
        job_a.len() == 16,
        job_b.len() == 16,
        signed_message(job_a, proof_a, public_a) == signed_message(job_b, proof_b, public_b),
    ensures
        job_a == job_b,
{
    let m = signed_message(job_a, proof_a, public_a);
    assert(m.subrange(0, 16) =~= job_a);
    assert(signed_message(job_b, proof_b, public_b).subrange(0, 16) =~= job_b);
}

/// The layout of the signed message, for proofs and public inputs of any
/// length: the 16 job-id bytes, then the complete UTF-8 bytes of the proof,
/// then the complete UTF-8 bytes of the public inputs, nothing cut and
/// nothing added.
pub proof fn lemma_signed_message_layout(job_id: Seq<u8>, proof: Seq<char>, public_inputs: Seq<char>)
    requires
        job_id.len() == 16,
    ensures
        signed_message(job_id, proof, public_inputs).len()
            == 16 + encode_utf8(proof).len() + encode_utf8(public_inputs).len(),
        signed_message(job_id, proof, public_inputs).subrange(0, 16) == job_id,
        signed_message(job_id, proof, public_inputs).subrange(16, 16 + encode_utf8(proof).len() as int) == encode_utf8(proof),
        signed_message(job_id, proof, public_inputs).subrange(
            16 + encode_utf8(proof).len() as int,
            16 + encode_utf8(proof).len() as int + encode_utf8(public_inputs).len() as int,
        ) == encode_utf8(public_inputs),
{
    let m = signed_message(job_id, proof, public_inputs);
    let lp = encode_utf8(proof).len() as int;
    let li = encode_utf8(public_inputs).len() as int;
    assert(m.subrange(0, 16) =~= job_id);
    assert(m.subrange(16, 16 + lp) =~= encode_utf8(proof));
    assert(m.subrange(16 + lp, 16 + lp + li) =~= encode_utf8(public_inputs));
}

/// A signature that does not check out.
#[derive(Debug, Clone, Copy, PartialEq, Eq, Structural)]
pub struct InvalidSignature;

/// Appends the bytes of `tail` to `bytes`.
fn append_bytes(bytes: &mut Vec<u8>, tail: &[u8])
    ensures
        final(bytes)@ == old(bytes)@ + tail@,
{
    let ghost start = bytes@;
    let mut i: usize = 0;
    while i < tail.len()
        invariant
            i <= tail@.len(),
            bytes@ == start + tail@.subrange(0, i as int),
        decreases tail@.len() - i,
    {
        bytes.push(tail[i]);
        i = i + 1;
        assert(bytes@ =~= start + tail@.subrange(0, i as int));
    }
    assert(tail@.subrange(0, i as int) =~= tail@);
}

/// The message a node signs for the result of a job.
pub fn result_message(job_id: &[u8; 16], proof: &str, public_inputs: &str) -> (message: Vec<u8>)
    ensures
        message@ == signed_message(job_id@, proof@, public_inputs@),
        message@.len() == 16 + encode_utf8(proof@).len() + encode_utf8(public_inputs@).len(),
        message@.subrange(0, 16) == job_id@,
        message@.subrange(16, 16 + encode_utf8(proof@).len() as int) == encode_utf8(proof@),
        message@.subrange(16 + encode_utf8(proof@).len() as int, message@.len() as int) == encode_utf8(public_inputs@),
{
    let mut message: Vec<u8> = Vec::new();
    append_bytes(&mut message, job_id.as_slice());
    append_bytes(&mut message, proof.as_bytes());
    append_bytes(&mut message, public_inputs.as_bytes());
    proof {
        assert(message@ =~= signed_message(job_id@, proof@, public_inputs@));
        lemma_signed_message_layout(job_id@, proof@, public_inputs@);
    }
    message
}

/// Verifies the signature of a proof result: the node provider's key `vk`
/// must accept `signature` for the SHA-512 prehash of the job id, the proof
/// and the public inputs, under the context `taceo-proof-nps-reporting`,
/// with the strict checks (no small-order points).
pub fn verify_proof_result_signature(
    job_id: &[u8; 16],
    proof: &str,
    public_inputs: &str,
    signature: &ProofSignature,
    vk: &VerificationKey,
) -> (res: Result<(), InvalidSignature>)
    ensures
        res is Ok <==> result_signature_valid(job_id@, proof@, public_inputs@, signature@, vk@),
{
    let message = result_message(job_id, proof, public_inputs);
    let context = "taceo-proof-nps-reporting";
    proof {
        reveal_strlit("taceo-proof-nps-reporting");
        assert(vstd::utf8::is_ascii_chars(context@));
        vstd::utf8::is_ascii_chars_encode_utf8(context@);
    }
    let context_bytes = context.as_bytes();
    if vk.verify_prehashed_strict(message.as_slice(), context_bytes, signature) {
        Ok(())
    } else {
        Err(InvalidSignature)
    }
}

} // verus!
