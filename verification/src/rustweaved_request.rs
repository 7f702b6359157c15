//! Request envelopes and their payload variants.
//!
//! Every request on the wire is an envelope carrying a numeric correlation id
//! and exactly one payload variant from a closed tagged union. The id is
//! caller-assigned and unique among currently outstanding requests; the value
//! `0` is a reserved sentinel meaning "no caller-assigned id". Payload fields
//! are limited to the data the correlation and dispatch logic reads: the
//! requested block hash for content matching, and the subscription scope
//! parameters.

use vstd::prelude::*;

use crate::notify::{Command, Scope};

verus! {

/// Payload of a block query: the hash of the requested block, used as the
/// secondary, content-based correlation key.
#[derive(Clone, Debug)]
pub struct GetBlockRequestMessage {
    pub hash: String,
}

/// Payload of a block-added subscription request.
#[derive(Clone, Copy, Debug)]
pub struct NotifyBlockAddedRequestMessage {
    pub command: Command,
}

/// Payload of a new-block-template subscription request.
#[derive(Clone, Copy, Debug)]
pub struct NotifyNewBlockTemplateRequestMessage {
    pub command: Command,
}

/// Payload of a virtual-chain-changed subscription request.
#[derive(Clone, Copy, Debug)]
pub struct NotifyVirtualChainChangedRequestMessage {
    pub command: Command,
    pub include_accepted_transaction_ids: bool,
}

/// Payload of a finality-conflict subscription request.
#[derive(Clone, Copy, Debug)]
pub struct NotifyFinalityConflictRequestMessage {
    pub command: Command,
}

/// Payload of a UTXO-changed subscription request.
#[derive(Clone, Debug)]
pub struct NotifyUtxosChangedRequestMessage {
    pub addresses: Vec<String>,
    pub command: Command,
}

/// Payload of a sink-blue-score-changed subscription request.
#[derive(Clone, Copy, Debug)]
pub struct NotifySinkBlueScoreChangedRequestMessage {
    pub command: Command,
}

/// Payload of a virtual-DAA-score-changed subscription request.
#[derive(Clone, Copy, Debug)]
pub struct NotifyVirtualDaaScoreChangedRequestMessage {
    pub command: Command,
}

/// Payload of a pruning-point-UTXO-set-override subscription request.
#[derive(Clone, Copy, Debug)]
pub struct NotifyPruningPointUtxoSetOverrideRequestMessage {
    pub command: Command,
}

/// Payload of a legacy request that stops UTXO-changed notifications.
#[derive(Clone, Debug)]
pub struct StopNotifyingUtxosChangedRequestMessage {
    pub addresses: Vec<String>,
}

/// The closed tagged union of request payloads: one variant per operation
/// kind. Variants whose wire message carries no data the correlation or
/// dispatch logic reads are plain tags.
#[derive(Clone, Debug)]
pub enum Payload {
    ShutdownRequest,
    SubmitBlockRequest,
    GetBlockTemplateRequest,
    GetBlockRequest(GetBlockRequestMessage),
    GetInfoRequest,
    GetCurrentNetworkRequest,
    GetPeerAddressesRequest,
    GetSinkRequest,
    GetMempoolEntryRequest,
    GetMempoolEntriesRequest,
    GetConnectedPeerInfoRequest,
    AddPeerRequest,
    SubmitTransactionRequest,
    GetSubnetworkRequest,
    GetVirtualChainFromBlockRequest,
    GetBlocksRequest,
    GetBlockCountRequest,
    GetBlockDagInfoRequest,
    ResolveFinalityConflictRequest,
    GetHeadersRequest,
    GetUtxosByAddressesRequest,
    GetBalanceByAddressRequest,
    GetBalancesByAddressesRequest,
    GetSinkBlueScoreRequest,
    BanRequest,
    UnbanRequest,
    EstimateNetworkHashesPerSecondRequest,
    GetMempoolEntriesByAddressesRequest,
    GetCoinSupplyRequest,
    PingRequest,
    GetMetricsRequest,
    GetServerInfoRequest,
    GetSyncStatusRequest,
    GetDaaScoreTimestampEstimateRequest,
    NotifyBlockAddedRequest(NotifyBlockAddedRequestMessage),
    NotifyNewBlockTemplateRequest(NotifyNewBlockTemplateRequestMessage),
    NotifyVirtualChainChangedRequest(NotifyVirtualChainChangedRequestMessage),
    NotifyFinalityConflictRequest(NotifyFinalityConflictRequestMessage),
    NotifyUtxosChangedRequest(NotifyUtxosChangedRequestMessage),
    NotifySinkBlueScoreChangedRequest(NotifySinkBlueScoreChangedRequestMessage),
    NotifyVirtualDaaScoreChangedRequest(NotifyVirtualDaaScoreChangedRequestMessage),
    NotifyPruningPointUtxoSetOverrideRequest(NotifyPruningPointUtxoSetOverrideRequestMessage),
    StopNotifyingUtxosChangedRequest(StopNotifyingUtxosChangedRequestMessage),
    StopNotifyingPruningPointUtxoSetOverrideRequest,
}

impl Payload {
    /// Whether this payload takes part in the publish/subscribe sub-protocol:
    /// true exactly for the subscription request variants.
    pub open spec fn spec_is_subscription(&self) -> bool {
        ||| *self is NotifyBlockAddedRequest
        ||| *self is NotifyVirtualChainChangedRequest
        ||| *self is NotifyFinalityConflictRequest
        ||| *self is NotifyUtxosChangedRequest
        ||| *self is NotifySinkBlueScoreChangedRequest
        ||| *self is NotifyVirtualDaaScoreChangedRequest
        ||| *self is NotifyPruningPointUtxoSetOverrideRequest
        ||| *self is NotifyNewBlockTemplateRequest
        ||| *self is StopNotifyingUtxosChangedRequest
        ||| *self is StopNotifyingPruningPointUtxoSetOverrideRequest
    }

    /// True exactly when the payload is one of the subscription request kinds.
    pub fn is_subscription(&self) -> (r: bool)
        ensures
            r == self.spec_is_subscription(),
    {
        matches!(
            self,
            Payload::NotifyBlockAddedRequest(_)
                | Payload::NotifyVirtualChainChangedRequest(_)
                | Payload::NotifyFinalityConflictRequest(_)
                | Payload::NotifyUtxosChangedRequest(_)
                | Payload::NotifySinkBlueScoreChangedRequest(_)
                | Payload::NotifyVirtualDaaScoreChangedRequest(_)
                | Payload::NotifyPruningPointUtxoSetOverrideRequest(_)
                | Payload::NotifyNewBlockTemplateRequest(_)
                | Payload::StopNotifyingUtxosChangedRequest(_)
                | Payload::StopNotifyingPruningPointUtxoSetOverrideRequest
        )
    }

    /// The subscription request payload for a notification scope and command.
    pub open spec fn spec_from_notification_type(scope: Scope, command: Command) -> Payload {
        match scope {
            Scope::BlockAdded => Payload::NotifyBlockAddedRequest(
                NotifyBlockAddedRequestMessage { command },
            ),
            Scope::NewBlockTemplate => Payload::NotifyNewBlockTemplateRequest(
                NotifyNewBlockTemplateRequestMessage { command },
            ),
            Scope::VirtualChainChanged(scope) => Payload::NotifyVirtualChainChangedRequest(
                NotifyVirtualChainChangedRequestMessage {
                    command,
                    include_accepted_transaction_ids: scope.include_accepted_transaction_ids,
                },
            ),
            Scope::FinalityConflict => Payload::NotifyFinalityConflictRequest(
                NotifyFinalityConflictRequestMessage { command },
            ),
            Scope::FinalityConflictResolved => Payload::NotifyFinalityConflictRequest(
                NotifyFinalityConflictRequestMessage { command },
            ),
            Scope::UtxosChanged(scope) => Payload::NotifyUtxosChangedRequest(
                NotifyUtxosChangedRequestMessage { addresses: scope.addresses, command },
            ),
            Scope::SinkBlueScoreChanged => Payload::NotifySinkBlueScoreChangedRequest(
                NotifySinkBlueScoreChangedRequestMessage { command },
            ),
            Scope::VirtualDaaScoreChanged => Payload::NotifyVirtualDaaScoreChangedRequest(
                NotifyVirtualDaaScoreChangedRequestMessage { command },
            ),
            Scope::PruningPointUtxoSetOverride => Payload::NotifyPruningPointUtxoSetOverrideRequest(
                NotifyPruningPointUtxoSetOverrideRequestMessage { command },
            ),
        }
    }

    /// Builds the subscription request payload for a notification scope.
    /// Both finality-conflict scopes map to the same request kind.
    pub fn from_notification_type(scope: Scope, command: Command) -> (r: Payload)
        ensures
            r == Payload::spec_from_notification_type(scope, command),
    {
        match scope {
            Scope::BlockAdded => Payload::NotifyBlockAddedRequest(
                NotifyBlockAddedRequestMessage { command },
            ),
            Scope::NewBlockTemplate => Payload::NotifyNewBlockTemplateRequest(
                NotifyNewBlockTemplateRequestMessage { command },
            ),
            Scope::VirtualChainChanged(scope) => Payload::NotifyVirtualChainChangedRequest(
                NotifyVirtualChainChangedRequestMessage {
                    command,
                    include_accepted_transaction_ids: scope.include_accepted_transaction_ids,
                },
            ),
            Scope::FinalityConflict => Payload::NotifyFinalityConflictRequest(
                NotifyFinalityConflictRequestMessage { command },
            ),
            Scope::FinalityConflictResolved => Payload::NotifyFinalityConflictRequest(
                NotifyFinalityConflictRequestMessage { command },
            ),
            Scope::UtxosChanged(scope) => Payload::NotifyUtxosChangedRequest(
                NotifyUtxosChangedRequestMessage { addresses: scope.addresses, command },
            ),
            Scope::SinkBlueScoreChanged => Payload::NotifySinkBlueScoreChangedRequest(
                NotifySinkBlueScoreChangedRequestMessage { command },
            ),
            Scope::VirtualDaaScoreChanged => Payload::NotifyVirtualDaaScoreChangedRequest(
                NotifyVirtualDaaScoreChangedRequestMessage { command },
            ),
            Scope::PruningPointUtxoSetOverride => Payload::NotifyPruningPointUtxoSetOverrideRequest(
                NotifyPruningPointUtxoSetOverrideRequestMessage { command },
            ),
        }
    }
}

/// A request envelope: the caller-assigned correlation id and the payload.
/// A missing payload is representable because the wire allows it; such an
/// envelope is rejected wherever a payload is needed.
#[derive(Clone, Debug)]
pub struct RustweavedRequest {
    pub id: u64,
    pub payload: Option<Payload>,
}

impl RustweavedRequest {
    /// Whether the envelope carries a subscription request payload.
    pub open spec fn spec_is_subscription(&self) -> bool {
        match self.payload {
            Some(p) => p.spec_is_subscription(),
            None => false,
        }
    }

    /// True exactly when the envelope carries a subscription request payload.
    pub fn is_subscription(&self) -> (r: bool)
        ensures
            r == self.spec_is_subscription(),
    {
        match &self.payload {
            Some(p) => p.is_subscription(),
            None => false,
        }
    }

    /// Wraps a subscription payload in an envelope with the sentinel id `0`:
    /// subscription requests are fire-and-forget and carry no caller id.
    pub fn from_notification_type(scope: Scope, command: Command) -> (r: RustweavedRequest)
        ensures
            r.id == 0,
            r.payload == Some(Payload::spec_from_notification_type(scope, command)),
    {
        RustweavedRequest { id: 0, payload: Some(Payload::from_notification_type(scope, command)) }
    }
}

impl core::convert::From<Payload> for RustweavedRequest {
    /// Wraps a bare payload in an envelope with the sentinel id `0`.
    fn from(item: Payload) -> (r: Self) {
        RustweavedRequest { id: 0, payload: Some(item) }
    }
}

impl vstd::std_specs::convert::FromSpecImpl<Payload> for RustweavedRequest {
    open spec fn obeys_from_spec() -> bool {
        true
    }

    open spec fn from_spec(item: Payload) -> Self {
        RustweavedRequest { id: 0, payload: Some(item) }
    }
}

} // verus!
