//! Correlation and dispatch core for the RPC subsystem of a Rustweave node.
//!
//! A single multiplexed connection carries many concurrent outstanding
//! requests. This crate provides the verified machinery that routes each
//! arriving response back to the caller that issued the matching request
//! (correlation), and routes each arriving request on the server side to the
//! handler registered for its operation kind, with a uniform "not
//! implemented" fallback (dispatch).
//!
//! The transport itself (framing, TLS, the async runtime) is a collaborator:
//! it hands envelopes in and takes envelopes out, and is not part of this
//! crate.

pub mod interface;
pub mod matcher;
pub mod notify;
pub mod ops;
pub mod payload_type;
pub mod pow;
pub mod resolver;
pub mod rustweaved_request;
pub mod rustweaved_response;
