//! The records the proof service's HTTP API hands out and takes, as plain
//! values. JSON and form encoding of them is done around the library.

use vstd::prelude::*;

verus! {

/// A node provider as the API reports it: keys are base64 text.
#[derive(Debug, Clone)]
pub struct NodeProvider {
    pub id: i32,
    pub name: String,
    /// The X25519 public key, standard base64.
    pub enc_key: String,
    /// The Ed25519 verifying key, standard base64.
    pub verify_key: String,
    pub online: bool,
}

/// Three node providers as the API hands them out for one job.
#[derive(Debug, Clone)]
pub struct NodeProviders {
    pub node0: NodeProvider,
    pub node1: NodeProvider,
    pub node2: NodeProvider,
}

/// The kind of a coSNARK job.
#[derive(Debug, Clone, Copy, PartialEq, Eq, Structural)]
pub enum JobType {
    /// Witness extension and proof with REP3 shares.
    Rep3Full,
    /// Proof from a REP3-shared extended witness.
    Rep3Prove,
    /// Proof from a Shamir-shared extended witness.
    ShamirProve,
}

/// The secret-sharing scheme of a prove job.
#[derive(Debug, Clone, Copy, PartialEq, Eq, Structural)]
pub enum MpcProtocol {
    Rep3,
    Shamir,
}

/// The body of a request that schedules a job.
#[derive(Debug, Clone)]
pub struct ScheduleJobRequest {
    /// The 16 bytes of the blueprint's UUID.
    pub blueprint_id: Vec<u8>,
    pub code: String,
    pub job_type: JobType,
}

impl ScheduleJobRequest {
    pub fn new(blueprint_id: Vec<u8>, code: String, job_type: JobType) -> (request: ScheduleJobRequest)
        ensures
            request.blueprint_id@ == blueprint_id@,
            request.code@ == code@,
            request.job_type == job_type,
    {
        ScheduleJobRequest { blueprint_id, code, job_type }
    }
}

} // verus!
