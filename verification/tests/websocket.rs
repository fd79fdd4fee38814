use taceo_proof_client::websocket::{
    job_result_from_reply, subscribe_request, FailedReason, FetchError, JobStatus, ServerReply, SignedResults,
    StopStrategy, WebSocketMessage,
};

fn results() -> SignedResults {
    SignedResults {
        signatures: vec![(2, "c2ln".to_string()), (0, "c2lnMA==".to_string())],
        proof: "{}".to_string(),
        public_inputs: "[]".to_string(),
    }
}

#[test]
fn default_stop_strategy_is_first() {
    assert_eq!(StopStrategy::default(), StopStrategy::First);
}

#[test]
fn subscription_asks_for_no_updates() {
    let request = subscribe_request(vec![7u8; 16], StopStrategy::Majority);
    assert_eq!(request.execution_id, vec![7u8; 16]);
    assert_eq!(request.stop_on_finished_reports, StopStrategy::Majority);
    assert_eq!(request.with_status_updates, Some(false));
}

#[test]
fn success_message_yields_results() {
    let got = job_result_from_reply(ServerReply::Message(WebSocketMessage::Success(results()))).unwrap();
    assert_eq!(got.proof, "{}");
    assert_eq!(got.reporting_nodes(), vec![2, 0]);
}

#[test]
fn failed_message_names_the_node() {
    let reason = FailedReason { node_provider: 1, error: "oom".to_string(), signature: "s".to_string() };
    let got = job_result_from_reply(ServerReply::Message(WebSocketMessage::Failed(reason)));
    assert_eq!(got.err().unwrap(), FetchError::NodeFailed { node_provider: 1, error: "oom".to_string() });
}

#[test]
fn cancelled_message_is_an_error() {
    let got = job_result_from_reply(ServerReply::Message(WebSocketMessage::Cancelled));
    assert_eq!(got.err().unwrap(), FetchError::Cancelled);
}

#[test]
fn server_error_message_is_passed_on() {
    let got = job_result_from_reply(ServerReply::Message(WebSocketMessage::Error("bad job".to_string())));
    assert_eq!(got.err().unwrap(), FetchError::Server("bad job".to_string()));
}

#[test]
fn status_update_is_unexpected() {
    let got = job_result_from_reply(ServerReply::Message(WebSocketMessage::Update(JobStatus::Running)));
    assert_eq!(got.err().unwrap(), FetchError::UnexpectedUpdate);
}

#[test]
fn unreadable_text_is_an_error() {
    let got = job_result_from_reply(ServerReply::Unreadable("expected value".to_string()));
    assert_eq!(got.err().unwrap(), FetchError::Unreadable("expected value".to_string()));
}

#[test]
fn close_and_end_mean_the_server_closed() {
    assert_eq!(job_result_from_reply(ServerReply::Close).err().unwrap(), FetchError::ServerClosed);
    assert_eq!(job_result_from_reply(ServerReply::StreamEnded).err().unwrap(), FetchError::ServerClosed);
}

#[test]
fn other_frames_are_invalid_data() {
    assert_eq!(job_result_from_reply(ServerReply::OtherFrame).err().unwrap(), FetchError::InvalidData);
}

#[test]
fn transport_failure_is_passed_on() {
    let got = job_result_from_reply(ServerReply::TransportError("reset".to_string()));
    assert_eq!(got.err().unwrap(), FetchError::Transport("reset".to_string()));
}
