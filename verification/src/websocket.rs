//! The result stream of a job: what the client subscribes with, and how the
//! first reply of the server decides the outcome.

use vstd::prelude::*;

verus! {

/// The status of a job.
#[derive(Debug, Clone, Copy, PartialEq, Eq, Structural)]
pub enum JobStatus {
    Pending,
    Running,
    Finished,
    Cancelled,
}

/// When the server stops waiting for node reports before it answers.
#[derive(Debug, Clone, Copy, PartialEq, Eq, Structural)]
pub enum StopStrategy {
    /// Stop once one node responded with a result.
    First,
    /// Stop once the majority of nodes responded with a result.
    Majority,
    /// Stop once all nodes responded with a result.
    All,
}

impl Default for StopStrategy {
    /// Waiting for the first node is the default.
    fn default() -> (strategy: StopStrategy)
        ensures
            strategy == StopStrategy::First,
    {
        StopStrategy::First
    }
}

/// The result of a job with the signatures of the nodes that computed it.
#[derive(Clone)]
pub struct SignedResults {
    /// Each reporting node's id with its base64 signature.
    pub signatures: Vec<(i32, String)>,
    /// The proof, as the server sent it.
    pub proof: String,
    /// The public inputs, as the server sent them.
    pub public_inputs: String,
}

impl SignedResults {
    /// The ids of the nodes whose signatures the result carries, in order.
    pub fn reporting_nodes(&self) -> (ids: Vec<i32>)
        ensures
            ids@ == self.signatures@.map_values(|entry: (i32, String)| entry.0),
    {
        let mut ids: Vec<i32> = Vec::new();
        let mut j: usize = 0;
        while j < self.signatures.len()
            invariant
                j <= self.signatures@.len(),
                ids@ == self.signatures@.subrange(0, j as int).map_values(|entry: (i32, String)| entry.0),
            decreases self.signatures@.len() - j,
        {
            ids.push(self.signatures[j].0);
            j = j + 1;
            assert(ids@ =~= self.signatures@.subrange(0, j as int).map_values(|entry: (i32, String)| entry.0));
        }
        assert(self.signatures@.subrange(0, j as int) =~= self.signatures@);
        ids
    }
}

/// A node's report that the job failed.
#[derive(Debug, Clone)]
pub struct FailedReason {
    /// The node provider that encountered the error.
    pub node_provider: i32,
    /// The error text.
    pub error: String,
    /// The node's signature of the error.
    pub signature: String,
}

/// The messages the server sends on the result stream.
#[derive(Clone)]
pub enum WebSocketMessage {
    Success(SignedResults),
    Update(JobStatus),
    Failed(FailedReason),
    Cancelled,
    Error(String),
}

/// The subscription request for the result of a job.
#[derive(Debug, Clone)]
pub struct SubscribeExecutionRequest {
    /// The 16 bytes of the job's UUID.
    pub execution_id: Vec<u8>,
    pub stop_on_finished_reports: StopStrategy,
    pub with_status_updates: Option<bool>,
}

/// The request that subscribes to the result of job `job_id`, without
/// status updates in between.
pub fn subscribe_request(job_id: Vec<u8>, stop_strategy: StopStrategy) -> (request: SubscribeExecutionRequest)
    ensures
        request.execution_id@ == job_id@,
        request.stop_on_finished_reports == stop_strategy,
        request.with_status_updates == Some(false),
{
    SubscribeExecutionRequest {
        execution_id: job_id,
        stop_on_finished_reports: stop_strategy,
        with_status_updates: Some(false),
    }
}

/// What the first read from the result stream gave.
#[derive(Clone)]
pub enum ServerReply {
    /// A text frame that reads as a message.
    Message(WebSocketMessage),
    /// A text frame that does not read as a message; the parser's complaint.
    Unreadable(String),
    /// A close frame.
    Close,
    /// A binary, ping, pong or raw frame.
    OtherFrame,
    /// The transport failed; its complaint.
    TransportError(String),
    /// The stream ended without a frame.
    StreamEnded,
}

/// Why no result came from the stream.
#[derive(Debug, Clone, PartialEq, Eq)]
pub enum FetchError {
    /// A node reported that the job failed.
    NodeFailed { node_provider: i32, error: String },
    /// The job was cancelled.
    Cancelled,
    /// The server reported an error.
    Server(String),
    /// The server sent a status update, which was not asked for.
    UnexpectedUpdate,
    /// The server closed the stream.
    ServerClosed,
    /// The server sent a frame other than text.
    InvalidData,
    /// A text frame did not read as a message.
    Unreadable(String),
    /// The transport failed.
    Transport(String),
}

/// The outcome of a job as the first reply of the stream decides it: only
/// a success message yields the signed results; every other reply is the
/// matching error.
pub fn job_result_from_reply(reply: ServerReply) -> (res: Result<SignedResults, FetchError>)
    ensures
        reply matches ServerReply::Message(WebSocketMessage::Success(results)) ==> res matches Ok(r) && r == results,
        reply matches ServerReply::Message(WebSocketMessage::Failed(reason))
            ==> res matches Err(FetchError::NodeFailed { node_provider, error })
                && node_provider == reason.node_provider && error == reason.error,
        reply matches ServerReply::Message(WebSocketMessage::Cancelled) ==> res matches Err(FetchError::Cancelled),
        reply matches ServerReply::Message(WebSocketMessage::Error(text)) ==> res matches Err(FetchError::Server(t)) && t == text,
        reply matches ServerReply::Message(WebSocketMessage::Update(_)) ==> res matches Err(FetchError::UnexpectedUpdate),
        reply matches ServerReply::Unreadable(text) ==> res matches Err(FetchError::Unreadable(t)) && t == text,
        reply matches ServerReply::Close ==> res matches Err(FetchError::ServerClosed),
        reply matches ServerReply::OtherFrame ==> res matches Err(FetchError::InvalidData),
        reply matches ServerReply::TransportError(text) ==> res matches Err(FetchError::Transport(t)) && t == text,
        reply matches ServerReply::StreamEnded ==> res matches Err(FetchError::ServerClosed),
{
    match reply {
        ServerReply::Message(message) => match message {
            WebSocketMessage::Success(results) => Ok(results),
            WebSocketMessage::Failed(reason) => Err(
                FetchError::NodeFailed { node_provider: reason.node_provider, error: reason.error },
            ),
            WebSocketMessage::Cancelled => Err(FetchError::Cancelled),
            WebSocketMessage::Error(text) => Err(FetchError::Server(text)),
            WebSocketMessage::Update(_) => Err(FetchError::UnexpectedUpdate),
        },
        ServerReply::Unreadable(text) => Err(FetchError::Unreadable(text)),
        ServerReply::Close => Err(FetchError::ServerClosed),
        ServerReply::OtherFrame => Err(FetchError::InvalidData),
        ServerReply::TransportError(text) => Err(FetchError::Transport(text)),
        ServerReply::StreamEnded => Err(FetchError::ServerClosed),
    }
}

} // verus!
