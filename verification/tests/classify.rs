use rustweaved::notify::{Command, Scope, UtxosChangedScope, VirtualChainChangedScope};
use rustweaved::ops::RustweavedPayloadOps;
use rustweaved::payload_type::{RustweavedMessagePayload, RustweavedMessagePayloadType};
use rustweaved::rustweaved_request::{self, GetBlockRequestMessage, RustweavedRequest};
use rustweaved::rustweaved_response::{self, RpcErrorKind, RpcErrorMessage, RustweavedResponse};

#[test]
fn p2p_payload_classifies_to_its_own_kind() {
    assert_eq!(
        RustweavedMessagePayloadType::from_payload(&RustweavedMessagePayload::Addresses),
        RustweavedMessagePayloadType::Addresses
    );
    assert_eq!(
        RustweavedMessagePayloadType::from(&RustweavedMessagePayload::Block),
        RustweavedMessagePayloadType::Block
    );
    assert_eq!(
        RustweavedMessagePayloadType::from(&RustweavedMessagePayload::Ping),
        RustweavedMessagePayloadType::Ping
    );
    assert_eq!(
        RustweavedMessagePayloadType::from(
            &RustweavedMessagePayload::RequestNextPruningPointAndItsAnticoneBlocks
        ),
        RustweavedMessagePayloadType::RequestNextPruningPointAndItsAnticoneBlocks
    );
    assert_ne!(
        RustweavedMessagePayloadType::from(&RustweavedMessagePayload::Pong),
        RustweavedMessagePayloadType::Ping
    );
}

#[test]
fn request_payload_classifies_to_its_operation_kind() {
    let get_block = rustweaved_request::Payload::GetBlockRequest(GetBlockRequestMessage {
        hash: "abc".to_string(),
    });
    assert_eq!(RustweavedPayloadOps::from_request(&get_block), RustweavedPayloadOps::GetBlock);
    assert_eq!(
        RustweavedPayloadOps::from_request(&rustweaved_request::Payload::PingRequest),
        RustweavedPayloadOps::Ping
    );
    assert_eq!(
        RustweavedPayloadOps::from_request(
            &rustweaved_request::Payload::StopNotifyingPruningPointUtxoSetOverrideRequest
        ),
        RustweavedPayloadOps::StopNotifyingPruningPointUtxoSetOverride
    );
}

#[test]
fn error_response_keeps_the_kind_and_the_error() {
    let error = RpcErrorMessage { kind: RpcErrorKind::Application, message: "boom".to_string() };
    match RustweavedPayloadOps::GetInfo.to_error_response(error) {
        rustweaved_response::Payload::GetInfoResponse(Some(e)) => {
            assert_eq!(e.message, "boom");
        }
        _ => panic!("expected an error response of the same kind"),
    }
    let error = RpcErrorMessage { kind: RpcErrorKind::Application, message: "gone".to_string() };
    match RustweavedPayloadOps::GetBlock.to_error_response(error) {
        rustweaved_response::Payload::GetBlockResponse(message) => {
            assert!(message.block.is_none());
            assert_eq!(message.error.unwrap().message, "gone");
        }
        _ => panic!("expected a block query error response"),
    }
}

#[test]
fn kind_names_match_the_variants() {
    assert_eq!(RustweavedPayloadOps::SubmitBlock.name(), "SubmitBlock");
    assert_eq!(RustweavedPayloadOps::NotifyUtxosChanged.name(), "NotifyUtxosChanged");
}

#[test]
fn subscription_requests_are_classified_as_subscriptions() {
    let sub = RustweavedRequest::from_notification_type(Scope::BlockAdded, Command::Start);
    assert_eq!(sub.id, 0);
    assert!(sub.is_subscription());

    let plain = RustweavedRequest {
        id: 1,
        payload: Some(rustweaved_request::Payload::PingRequest),
    };
    assert!(!plain.is_subscription());

    let empty = RustweavedRequest { id: 1, payload: None };
    assert!(!empty.is_subscription());
}

#[test]
fn notification_scopes_build_their_request_payloads() {
    let p = rustweaved_request::Payload::from_notification_type(
        Scope::VirtualChainChanged(VirtualChainChangedScope {
            include_accepted_transaction_ids: true,
        }),
        Command::Start,
    );
    match p {
        rustweaved_request::Payload::NotifyVirtualChainChangedRequest(message) => {
            assert!(message.include_accepted_transaction_ids);
            assert_eq!(message.command, Command::Start);
        }
        _ => panic!("expected a virtual-chain-changed subscription request"),
    }

    let p = rustweaved_request::Payload::from_notification_type(
        Scope::UtxosChanged(UtxosChangedScope { addresses: vec!["addr1".to_string()] }),
        Command::Stop,
    );
    match p {
        rustweaved_request::Payload::NotifyUtxosChangedRequest(message) => {
            assert_eq!(message.addresses, vec!["addr1".to_string()]);
            assert_eq!(message.command, Command::Stop);
        }
        _ => panic!("expected a UTXO-changed subscription request"),
    }

    // Both finality-conflict scopes map to the same request kind.
    let a = rustweaved_request::Payload::from_notification_type(
        Scope::FinalityConflict,
        Command::Start,
    );
    let b = rustweaved_request::Payload::from_notification_type(
        Scope::FinalityConflictResolved,
        Command::Start,
    );
    assert!(matches!(a, rustweaved_request::Payload::NotifyFinalityConflictRequest(_)));
    assert!(matches!(b, rustweaved_request::Payload::NotifyFinalityConflictRequest(_)));

    assert!(rustweaved_request::Payload::from_notification_type(
        Scope::NewBlockTemplate,
        Command::Start
    )
    .is_subscription());
}

#[test]
fn notifications_are_classified_as_notifications() {
    let notification = RustweavedResponse {
        id: 0,
        payload: Some(rustweaved_response::Payload::BlockAddedNotification),
    };
    assert!(notification.is_notification());

    let response = RustweavedResponse {
        id: 1,
        payload: Some(rustweaved_response::Payload::PingResponse(None)),
    };
    assert!(!response.is_notification());

    let empty = RustweavedResponse { id: 1, payload: None };
    assert!(!empty.is_notification());

    let template = RustweavedResponse {
        id: 0,
        payload: Some(rustweaved_response::Payload::NewBlockTemplateNotification),
    };
    assert!(template.is_notification());
}
