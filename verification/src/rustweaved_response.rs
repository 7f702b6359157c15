//! Response envelopes and their payload variants.
//!
//! A response envelope mirrors the request envelope: a correlation id and one
//! payload variant from a closed tagged union. Each response payload carries
//! the optional error reported for the operation; the block query response
//! additionally carries the block data the content matcher reads. The
//! notification variants are pushed by the server outside any
//! request/response exchange.

use vstd::prelude::*;

verus! {

/// How a response error arose: reported by the remote application, or
/// synthesized locally because no handler is registered for the operation.
#[derive(Clone, Copy, Debug, PartialEq, Eq, Structural)]
pub enum RpcErrorKind {
    Application,
    NotImplemented,
}

/// An error payload: its kind and a human-readable message. For
/// content-addressed operations the message is expected to mention the
/// requested identifier, and the matcher relies on that.
#[derive(Clone, Debug)]
pub struct RpcErrorMessage {
    pub kind: RpcErrorKind,
    pub message: String,
}

/// The block data echoed in a block query response that the matcher reads:
/// the hash under which the block is addressed.
#[derive(Clone, Debug)]
pub struct RpcBlockVerboseData {
    pub hash: String,
}

/// A block as carried in a block query response. The verbose data is
/// optional on the wire.
#[derive(Clone, Debug)]
pub struct RpcBlock {
    pub verbose_data: Option<RpcBlockVerboseData>,
}

/// Payload of a block query response: either the block or an error.
#[derive(Clone, Debug)]
pub struct GetBlockResponseMessage {
    pub block: Option<RpcBlock>,
    pub error: Option<RpcErrorMessage>,
}

/// The closed tagged union of response payloads: one variant per operation
/// kind, plus one variant per notification kind. Response variants carry the
/// optional error for the operation; notification variants are plain tags.
#[derive(Clone, Debug)]
pub enum Payload {
    ShutdownResponse(Option<RpcErrorMessage>),
    SubmitBlockResponse(Option<RpcErrorMessage>),
    GetBlockTemplateResponse(Option<RpcErrorMessage>),
    GetBlockResponse(GetBlockResponseMessage),
    GetInfoResponse(Option<RpcErrorMessage>),
    GetCurrentNetworkResponse(Option<RpcErrorMessage>),
    GetPeerAddressesResponse(Option<RpcErrorMessage>),
    GetSinkResponse(Option<RpcErrorMessage>),
    GetMempoolEntryResponse(Option<RpcErrorMessage>),
    GetMempoolEntriesResponse(Option<RpcErrorMessage>),
    GetConnectedPeerInfoResponse(Option<RpcErrorMessage>),
    AddPeerResponse(Option<RpcErrorMessage>),
    SubmitTransactionResponse(Option<RpcErrorMessage>),
    GetSubnetworkResponse(Option<RpcErrorMessage>),
    GetVirtualChainFromBlockResponse(Option<RpcErrorMessage>),
    GetBlocksResponse(Option<RpcErrorMessage>),
    GetBlockCountResponse(Option<RpcErrorMessage>),
    GetBlockDagInfoResponse(Option<RpcErrorMessage>),
    ResolveFinalityConflictResponse(Option<RpcErrorMessage>),
    GetHeadersResponse(Option<RpcErrorMessage>),
    GetUtxosByAddressesResponse(Option<RpcErrorMessage>),
    GetBalanceByAddressResponse(Option<RpcErrorMessage>),
    GetBalancesByAddressesResponse(Option<RpcErrorMessage>),
    GetSinkBlueScoreResponse(Option<RpcErrorMessage>),
    BanResponse(Option<RpcErrorMessage>),
    UnbanResponse(Option<RpcErrorMessage>),
    EstimateNetworkHashesPerSecondResponse(Option<RpcErrorMessage>),
    GetMempoolEntriesByAddressesResponse(Option<RpcErrorMessage>),
    GetCoinSupplyResponse(Option<RpcErrorMessage>),
    PingResponse(Option<RpcErrorMessage>),
    GetMetricsResponse(Option<RpcErrorMessage>),
    GetServerInfoResponse(Option<RpcErrorMessage>),
    GetSyncStatusResponse(Option<RpcErrorMessage>),
    GetDaaScoreTimestampEstimateResponse(Option<RpcErrorMessage>),
    NotifyBlockAddedResponse(Option<RpcErrorMessage>),
    NotifyNewBlockTemplateResponse(Option<RpcErrorMessage>),
    NotifyVirtualChainChangedResponse(Option<RpcErrorMessage>),
    NotifyFinalityConflictResponse(Option<RpcErrorMessage>),
    NotifyUtxosChangedResponse(Option<RpcErrorMessage>),
    NotifySinkBlueScoreChangedResponse(Option<RpcErrorMessage>),
    NotifyVirtualDaaScoreChangedResponse(Option<RpcErrorMessage>),
    NotifyPruningPointUtxoSetOverrideResponse(Option<RpcErrorMessage>),
    StopNotifyingUtxosChangedResponse(Option<RpcErrorMessage>),
    StopNotifyingPruningPointUtxoSetOverrideResponse(Option<RpcErrorMessage>),
    BlockAddedNotification,
    VirtualChainChangedNotification,
    FinalityConflictNotification,
    FinalityConflictResolvedNotification,
    UtxosChangedNotification,
    SinkBlueScoreChangedNotification,
    VirtualDaaScoreChangedNotification,
    PruningPointUtxoSetOverrideNotification,
    NewBlockTemplateNotification,
}

impl Payload {
    /// Whether this payload is a server-pushed notification rather than the
    /// answer to a request: true exactly for the notification variants.
    pub open spec fn spec_is_notification(&self) -> bool {
        ||| *self is BlockAddedNotification
        ||| *self is VirtualChainChangedNotification
        ||| *self is FinalityConflictNotification
        ||| *self is FinalityConflictResolvedNotification
        ||| *self is UtxosChangedNotification
        ||| *self is SinkBlueScoreChangedNotification
        ||| *self is VirtualDaaScoreChangedNotification
        ||| *self is PruningPointUtxoSetOverrideNotification
        ||| *self is NewBlockTemplateNotification
    }

    /// True exactly when the payload is one of the notification kinds.
    pub fn is_notification(&self) -> (r: bool)
        ensures
            r == self.spec_is_notification(),
    {
        match self {
            Payload::BlockAddedNotification => true,
            Payload::VirtualChainChangedNotification => true,
            Payload::FinalityConflictNotification => true,
            Payload::FinalityConflictResolvedNotification => true,
            Payload::UtxosChangedNotification => true,
            Payload::SinkBlueScoreChangedNotification => true,
            Payload::VirtualDaaScoreChangedNotification => true,
            Payload::PruningPointUtxoSetOverrideNotification => true,
            Payload::NewBlockTemplateNotification => true,
            _ => false,
        }
    }
}

/// A response envelope: the correlation id echoed from the request (or the
/// sentinel `0` for notifications and content-addressed flows) and the
/// payload. A missing payload is representable because the wire allows it.
#[derive(Clone, Debug)]
pub struct RustweavedResponse {
    pub id: u64,
    pub payload: Option<Payload>,
}

impl RustweavedResponse {
    /// Whether the envelope carries a notification payload.
    pub open spec fn spec_is_notification(&self) -> bool {
        match self.payload {
            Some(p) => p.spec_is_notification(),
            None => false,
        }
    }

    /// True exactly when the envelope carries a notification payload.
    pub fn is_notification(&self) -> (r: bool)
        ensures
            r == self.spec_is_notification(),
    {
        match &self.payload {
            Some(p) => p.is_notification(),
            None => false,
        }
    }
}

} // verus!
