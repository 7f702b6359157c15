use rustweaved::matcher::contains_str;
use rustweaved::rustweaved_request::{self, GetBlockRequestMessage, RustweavedRequest};
use rustweaved::rustweaved_response::{
    self, GetBlockResponseMessage, RpcBlock, RpcBlockVerboseData, RpcErrorKind, RpcErrorMessage,
    RustweavedResponse,
};

#[test]
fn substring_search_finds_needles() {
    assert!(contains_str("not found: abc", "abc"));
    assert!(contains_str("abc", "abc"));
    assert!(contains_str("abc", ""));
    assert!(contains_str("", ""));
    assert!(contains_str("aaab", "aab"));
    assert!(!contains_str("", "a"));
    assert!(!contains_str("abd", "abc"));
    assert!(!contains_str("ab", "abc"));
}

fn get_block_payload(hash: &str) -> rustweaved_request::Payload {
    rustweaved_request::Payload::GetBlockRequest(GetBlockRequestMessage { hash: hash.to_string() })
}

#[test]
fn block_response_matches_only_the_requested_hash() {
    let request = get_block_payload("abc");
    let matching = rustweaved_response::Payload::GetBlockResponse(GetBlockResponseMessage {
        block: Some(RpcBlock { verbose_data: Some(RpcBlockVerboseData { hash: "abc".to_string() }) }),
        error: None,
    });
    let mismatching = rustweaved_response::Payload::GetBlockResponse(GetBlockResponseMessage {
        block: Some(RpcBlock { verbose_data: Some(RpcBlockVerboseData { hash: "xyz".to_string() }) }),
        error: None,
    });
    let anonymous = rustweaved_response::Payload::GetBlockResponse(GetBlockResponseMessage {
        block: Some(RpcBlock { verbose_data: None }),
        error: None,
    });
    assert!(request.is_matching(&matching));
    assert!(!request.is_matching(&mismatching));
    // A block without verbose data cannot be checked and is accepted.
    assert!(request.is_matching(&anonymous));
}

#[test]
fn block_error_matches_when_the_message_mentions_the_hash() {
    let request = get_block_payload("abc");
    let mentioning = rustweaved_response::Payload::GetBlockResponse(GetBlockResponseMessage {
        block: None,
        error: Some(RpcErrorMessage {
            kind: RpcErrorKind::Application,
            message: "not found: abc".to_string(),
        }),
    });
    let silent = rustweaved_response::Payload::GetBlockResponse(GetBlockResponseMessage {
        block: None,
        error: Some(RpcErrorMessage {
            kind: RpcErrorKind::Application,
            message: "not found".to_string(),
        }),
    });
    let empty = rustweaved_response::Payload::GetBlockResponse(GetBlockResponseMessage {
        block: None,
        error: None,
    });
    assert!(request.is_matching(&mentioning));
    assert!(!request.is_matching(&silent));
    assert!(!request.is_matching(&empty));
}

#[test]
fn block_request_rejects_responses_of_other_kinds() {
    let request = get_block_payload("abc");
    assert!(!request.is_matching(&rustweaved_response::Payload::PingResponse(None)));
}

#[test]
fn default_kinds_match_any_response() {
    let request = rustweaved_request::Payload::GetInfoRequest;
    assert!(request.is_matching(&rustweaved_response::Payload::PingResponse(None)));
    assert!(request.is_matching(&rustweaved_response::Payload::GetInfoResponse(None)));
}

#[test]
fn envelopes_match_only_when_both_carry_payloads() {
    let request = RustweavedRequest { id: 4, payload: Some(get_block_payload("abc")) };
    let response = RustweavedResponse {
        id: 4,
        payload: Some(rustweaved_response::Payload::GetBlockResponse(GetBlockResponseMessage {
            block: Some(RpcBlock {
                verbose_data: Some(RpcBlockVerboseData { hash: "abc".to_string() }),
            }),
            error: None,
        })),
    };
    assert!(request.is_matching(&response));

    let empty_response = RustweavedResponse { id: 4, payload: None };
    assert!(!request.is_matching(&empty_response));

    let empty_request = RustweavedRequest { id: 4, payload: None };
    assert!(!empty_request.is_matching(&response));
}
