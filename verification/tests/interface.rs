use rustweaved::interface::{
    not_implemented_call, Interface, Method, MethodTrait, RoutingPolicy, ServerError, ServerResult,
};
use rustweaved::ops::RustweavedPayloadOps;
use rustweaved::rustweaved_request::{self, RustweavedRequest};
use rustweaved::rustweaved_response::{self, RpcErrorKind, RustweavedResponse};

struct ServerContext;

struct Connection;

/// A handler that answers with an empty-payload response carrying its tag
/// as the id, so tests can tell which handler ran.
struct TagHandler(u64);

impl MethodTrait<ServerContext, Connection> for TagHandler {
    fn call(
        &self,
        _ctx: &ServerContext,
        _connection: &Connection,
        _request: &RustweavedRequest,
    ) -> ServerResult {
        Ok(RustweavedResponse { id: self.0, payload: None })
    }
}

fn ping_request(id: u64) -> RustweavedRequest {
    RustweavedRequest { id, payload: Some(rustweaved_request::Payload::PingRequest) }
}

#[test]
fn call_on_unregistered_kind_returns_not_implemented_with_request_id() {
    let iface = Interface::<ServerContext, TagHandler>::new(ServerContext);
    let response = iface
        .call(RustweavedPayloadOps::Ping, &Connection, &ping_request(42))
        .expect("the fallback synthesizes a response");
    assert_eq!(response.id, 42);
    match response.payload {
        Some(rustweaved_response::Payload::PingResponse(error)) => {
            let error = error.expect("the fallback carries an error");
            assert_eq!(error.kind, RpcErrorKind::NotImplemented);
            assert_eq!(error.message, "Ping");
        }
        _ => panic!("expected an error response of the request's kind"),
    }
}

#[test]
fn call_without_payload_is_invalid() {
    let iface = Interface::<ServerContext, TagHandler>::new(ServerContext);
    let request = RustweavedRequest { id: 1, payload: None };
    let result = iface.call(RustweavedPayloadOps::Ping, &Connection, &request);
    assert!(matches!(result, Err(ServerError::InvalidRequestPayload)));
    assert!(matches!(
        not_implemented_call(&request),
        Err(ServerError::InvalidRequestPayload)
    ));
}

#[test]
fn registered_method_is_invoked() {
    let mut iface = Interface::<ServerContext, TagHandler>::new(ServerContext);
    iface.method(RustweavedPayloadOps::Ping, Method::new(TagHandler(11)));
    let response = iface
        .call(RustweavedPayloadOps::Ping, &Connection, &ping_request(1))
        .unwrap();
    assert_eq!(response.id, 11);
    // Other kinds still fall back.
    let other = iface
        .call(RustweavedPayloadOps::GetInfo, &Connection, &ping_request(1))
        .unwrap();
    assert_eq!(other.id, 1);
}

#[test]
fn duplicate_registration_is_a_fatal_wiring_error() {
    let mut iface = Interface::<ServerContext, TagHandler>::new(ServerContext);
    assert!(!iface.has_method(RustweavedPayloadOps::Ping));
    iface.method(RustweavedPayloadOps::Ping, Method::new(TagHandler(1)));
    // Registering the same kind again is forbidden by the precondition:
    // startup wiring must test `has_method` and abort when it fires, as on
    // any fatal misconfiguration — never overwrite silently.
    assert!(iface.has_method(RustweavedPayloadOps::Ping));
    // The first handler stays in place...
    let response = iface
        .call(RustweavedPayloadOps::Ping, &Connection, &ping_request(9))
        .unwrap();
    assert_eq!(response.id, 1);
    // ...and the intentional override path is `replace_method`.
    iface.replace_method(RustweavedPayloadOps::Ping, Method::new(TagHandler(2)));
    let response = iface
        .call(RustweavedPayloadOps::Ping, &Connection, &ping_request(9))
        .unwrap();
    assert_eq!(response.id, 2);
}

#[test]
fn replace_method_twice_keeps_the_second_handler() {
    let mut iface = Interface::<ServerContext, TagHandler>::new(ServerContext);
    iface.replace_method(RustweavedPayloadOps::Ping, Method::new(TagHandler(1)));
    iface.replace_method(RustweavedPayloadOps::Ping, Method::new(TagHandler(2)));
    let response = iface
        .call(RustweavedPayloadOps::Ping, &Connection, &ping_request(9))
        .unwrap();
    assert_eq!(response.id, 2);
}

#[test]
fn set_method_properties_rewraps_without_changing_the_handler() {
    let mut iface = Interface::<ServerContext, TagHandler>::new(ServerContext);
    iface.method(
        RustweavedPayloadOps::SubmitBlock,
        Method::with_properties(TagHandler(5), 2, 8, RoutingPolicy::DropOldest),
    );
    iface.set_method_properties(RustweavedPayloadOps::SubmitBlock, 4, 16, RoutingPolicy::RejectNew);

    let method = iface.get_method(RustweavedPayloadOps::SubmitBlock).unwrap();
    assert_eq!(method.tasks, 4);
    assert_eq!(method.queue_size, 16);
    assert_eq!(method.routing_policy, RoutingPolicy::RejectNew);
    assert_eq!(method.handler.0, 5);

    // A kind with no registered method is left untouched.
    iface.set_method_properties(RustweavedPayloadOps::GetInfo, 1, 1, RoutingPolicy::BlockCaller);
    assert!(iface.get_method(RustweavedPayloadOps::GetInfo).is_none());
}

#[test]
fn get_method_returns_the_registered_handle() {
    let mut iface = Interface::<ServerContext, TagHandler>::new(ServerContext);
    assert!(iface.get_method(RustweavedPayloadOps::Ping).is_none());
    assert!(!iface.has_method(RustweavedPayloadOps::Ping));
    iface.method(RustweavedPayloadOps::Ping, Method::new(TagHandler(3)));
    assert!(iface.has_method(RustweavedPayloadOps::Ping));
    let method = iface.get_method(RustweavedPayloadOps::Ping).unwrap();
    assert_eq!(method.handler.0, 3);
    assert_eq!(method.tasks, 1);
    assert_eq!(method.queue_size, 1);
    assert_eq!(method.routing_policy, RoutingPolicy::BlockCaller);
}
