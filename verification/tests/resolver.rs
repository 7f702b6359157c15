use rustweaved::ops::RustweavedPayloadOps;
use rustweaved::resolver::{Resolver, ResolverError};
use rustweaved::rustweaved_request::{self, GetBlockRequestMessage, RustweavedRequest};
use rustweaved::rustweaved_response::{
    self, GetBlockResponseMessage, RpcBlock, RpcBlockVerboseData, RpcErrorKind, RpcErrorMessage,
    RustweavedResponse,
};

fn get_block_request(id: u64, hash: &str) -> RustweavedRequest {
    RustweavedRequest {
        id,
        payload: Some(rustweaved_request::Payload::GetBlockRequest(GetBlockRequestMessage {
            hash: hash.to_string(),
        })),
    }
}

fn get_block_error_response(id: u64, message: &str) -> RustweavedResponse {
    RustweavedResponse {
        id,
        payload: Some(rustweaved_response::Payload::GetBlockResponse(GetBlockResponseMessage {
            block: None,
            error: Some(RpcErrorMessage {
                kind: RpcErrorKind::Application,
                message: message.to_string(),
            }),
        })),
    }
}

fn get_block_block_response(id: u64, hash: &str) -> RustweavedResponse {
    RustweavedResponse {
        id,
        payload: Some(rustweaved_response::Payload::GetBlockResponse(GetBlockResponseMessage {
            block: Some(RpcBlock {
                verbose_data: Some(RpcBlockVerboseData { hash: hash.to_string() }),
            }),
            error: None,
        })),
    }
}

#[test]
fn matching_response_fulfils_receiver_and_removes_entry() {
    let mut resolver = Resolver::new();
    let mut receiver = resolver
        .register_request(RustweavedPayloadOps::GetBlock, get_block_request(7, "abc"), 0)
        .unwrap();
    assert_eq!(resolver.len(), 1);

    let resolved = resolver.handle_response(get_block_block_response(7, "abc"));
    assert!(resolved);
    assert_eq!(resolver.len(), 0);

    let outcome = receiver.try_recv().expect("receiver must be fulfilled");
    let response = outcome.expect("fulfilled with a response, not an error");
    assert_eq!(response.id, 7);

    // The entry is gone: the same response delivered again resolves nothing.
    let resolved_again = resolver.handle_response(get_block_block_response(7, "abc"));
    assert!(!resolved_again);
}

#[test]
fn error_response_mentioning_hash_resolves_to_that_error() {
    let mut resolver = Resolver::new();
    let mut receiver = resolver
        .register_request(RustweavedPayloadOps::GetBlock, get_block_request(7, "abc"), 0)
        .unwrap();

    let resolved = resolver.handle_response(get_block_error_response(7, "not found: abc"));
    assert!(resolved);
    assert_eq!(resolver.len(), 0);

    let response = receiver.try_recv().unwrap().unwrap();
    match response.payload {
        Some(rustweaved_response::Payload::GetBlockResponse(message)) => {
            let error = message.error.expect("the error payload is passed through");
            assert_eq!(error.kind, RpcErrorKind::Application);
            assert_eq!(error.message, "not found: abc");
        }
        _ => panic!("expected a block query response"),
    }
}

#[test]
fn error_response_without_hash_does_not_resolve() {
    let mut resolver = Resolver::new();
    let mut receiver = resolver
        .register_request(RustweavedPayloadOps::GetBlock, get_block_request(7, "abc"), 0)
        .unwrap();

    let resolved = resolver.handle_response(get_block_error_response(7, "not found: xyz"));
    assert!(!resolved);
    assert_eq!(resolver.len(), 1);
    assert!(receiver.try_recv().is_err());
}

#[test]
fn wrong_hash_leaves_entry_pending_until_sweep() {
    let mut resolver = Resolver::new();
    let mut receiver = resolver
        .register_request(RustweavedPayloadOps::GetBlock, get_block_request(7, "abc"), 0)
        .unwrap();

    // A response carrying a different hash is not a match: the entry stays.
    let resolved = resolver.handle_response(get_block_block_response(7, "xyz"));
    assert!(!resolved);
    assert_eq!(resolver.len(), 1);
    assert!(receiver.try_recv().is_err());

    // The sweep at the timeout fulfils the receiver with a timeout error.
    resolver.remove_expired_requests(1001, 1000);
    assert_eq!(resolver.len(), 0);
    let outcome = receiver.try_recv().expect("receiver must be fulfilled by the sweep");
    assert_eq!(outcome.unwrap_err(), ResolverError::Timeout);
}

#[test]
fn sweep_expires_only_old_entries_and_is_idempotent() {
    let mut resolver = Resolver::new();
    let mut old_receiver = resolver
        .register_request(RustweavedPayloadOps::GetBlock, get_block_request(1, "aa"), 0)
        .unwrap();
    let mut fresh_receiver = resolver
        .register_request(RustweavedPayloadOps::GetBlock, get_block_request(2, "bb"), 900)
        .unwrap();

    resolver.remove_expired_requests(1001, 1000);
    assert_eq!(resolver.len(), 1);
    assert_eq!(old_receiver.try_recv().unwrap().unwrap_err(), ResolverError::Timeout);
    assert!(fresh_receiver.try_recv().is_err());

    // Sweeping again with the same clock is a no-op for the expired id.
    resolver.remove_expired_requests(1001, 1000);
    assert_eq!(resolver.len(), 1);

    // An entry exactly at the timeout boundary is not yet expired.
    resolver.remove_expired_requests(1900, 1000);
    assert_eq!(resolver.len(), 1);
    resolver.remove_expired_requests(1901, 1000);
    assert_eq!(resolver.len(), 0);
    assert_eq!(fresh_receiver.try_recv().unwrap().unwrap_err(), ResolverError::Timeout);
}

#[test]
fn resolve_with_unknown_id_has_no_side_effects() {
    let mut resolver = Resolver::new();
    assert!(!resolver.handle_response(get_block_block_response(5, "abc")));
    assert_eq!(resolver.len(), 0);

    let _receiver = resolver
        .register_request(RustweavedPayloadOps::GetBlock, get_block_request(1, "aa"), 0)
        .unwrap();
    assert!(!resolver.handle_response(get_block_block_response(5, "aa")));
    assert_eq!(resolver.len(), 1);
}

#[test]
fn duplicate_correlation_id_is_rejected() {
    let mut resolver = Resolver::new();
    let _receiver = resolver
        .register_request(RustweavedPayloadOps::GetBlock, get_block_request(7, "abc"), 0)
        .unwrap();
    let second = resolver.register_request(RustweavedPayloadOps::GetBlock, get_block_request(7, "def"), 1);
    assert!(matches!(second, Err(ResolverError::DuplicateRequestId)));
    assert_eq!(resolver.len(), 1);

    // The id becomes reusable once the prior holder resolved.
    assert!(resolver.handle_response(get_block_block_response(7, "abc")));
    let reused = resolver.register_request(RustweavedPayloadOps::GetBlock, get_block_request(7, "def"), 2);
    assert!(reused.is_ok());
}

#[test]
fn close_fulfils_every_pending_entry_with_connection_closed() {
    let mut resolver = Resolver::new();
    let mut r1 = resolver
        .register_request(RustweavedPayloadOps::GetBlock, get_block_request(1, "aa"), 0)
        .unwrap();
    let mut r2 = resolver
        .register_request(RustweavedPayloadOps::Ping, RustweavedRequest {
            id: 2,
            payload: Some(rustweaved_request::Payload::PingRequest),
        }, 0)
        .unwrap();

    resolver.close();
    assert_eq!(resolver.len(), 0);
    assert_eq!(r1.try_recv().unwrap().unwrap_err(), ResolverError::ConnectionClosed);
    assert_eq!(r2.try_recv().unwrap().unwrap_err(), ResolverError::ConnectionClosed);
}

#[test]
fn default_policy_accepts_any_response_of_the_expected_id() {
    let mut resolver = Resolver::new();
    let mut receiver = resolver
        .register_request(RustweavedPayloadOps::Ping, RustweavedRequest {
            id: 3,
            payload: Some(rustweaved_request::Payload::PingRequest),
        }, 0)
        .unwrap();

    let resolved = resolver.handle_response(RustweavedResponse {
        id: 3,
        payload: Some(rustweaved_response::Payload::PingResponse(None)),
    });
    assert!(resolved);
    assert_eq!(receiver.try_recv().unwrap().unwrap().id, 3);
}
