//! Operation kinds: the dispatch and bookkeeping key.
//!
//! Every request payload variant maps to exactly one [`RustweavedPayloadOps`]
//! value. The classification is total and exhaustively matched, so adding a
//! payload variant without adding its classification arm fails to compile.
//! The kind also knows how to synthesize the error response payload of its
//! own kind, which the dispatch fallback uses.

use vstd::prelude::*;

use crate::rustweaved_request;
use crate::rustweaved_response;
use crate::rustweaved_response::{GetBlockResponseMessage, RpcErrorMessage};

verus! {

/// One value per request payload variant: the operation kind under which a
/// request is routed and a pending request is booked.
#[derive(Clone, Copy, Debug, PartialEq, Eq, Hash, Structural)]
pub enum RustweavedPayloadOps {
    Shutdown,
    SubmitBlock,
    GetBlockTemplate,
    GetBlock,
    GetInfo,
    GetCurrentNetwork,
    GetPeerAddresses,
    GetSink,
    GetMempoolEntry,
    GetMempoolEntries,
    GetConnectedPeerInfo,
    AddPeer,
    SubmitTransaction,
    GetSubnetwork,
    GetVirtualChainFromBlock,
    GetBlocks,
    GetBlockCount,
    GetBlockDagInfo,
    ResolveFinalityConflict,
    GetHeaders,
    GetUtxosByAddresses,
    GetBalanceByAddress,
    GetBalancesByAddresses,
    GetSinkBlueScore,
    Ban,
    Unban,
    EstimateNetworkHashesPerSecond,
    GetMempoolEntriesByAddresses,
    GetCoinSupply,
    Ping,
    GetMetrics,
    GetServerInfo,
    GetSyncStatus,
    GetDaaScoreTimestampEstimate,
    NotifyBlockAdded,
    NotifyNewBlockTemplate,
    NotifyVirtualChainChanged,
    NotifyFinalityConflict,
    NotifyUtxosChanged,
    NotifySinkBlueScoreChanged,
    NotifyVirtualDaaScoreChanged,
    NotifyPruningPointUtxoSetOverride,
    StopNotifyingUtxosChanged,
    StopNotifyingPruningPointUtxoSetOverride,
}

impl RustweavedPayloadOps {
    /// The operation kind of a request payload.
    pub open spec fn spec_from_request(payload: rustweaved_request::Payload) -> RustweavedPayloadOps {
        match payload {
            rustweaved_request::Payload::ShutdownRequest => RustweavedPayloadOps::Shutdown,
            rustweaved_request::Payload::SubmitBlockRequest => RustweavedPayloadOps::SubmitBlock,
            rustweaved_request::Payload::GetBlockTemplateRequest => RustweavedPayloadOps::GetBlockTemplate,
            rustweaved_request::Payload::GetBlockRequest(_) => RustweavedPayloadOps::GetBlock,
            rustweaved_request::Payload::GetInfoRequest => RustweavedPayloadOps::GetInfo,
            rustweaved_request::Payload::GetCurrentNetworkRequest => RustweavedPayloadOps::GetCurrentNetwork,
            rustweaved_request::Payload::GetPeerAddressesRequest => RustweavedPayloadOps::GetPeerAddresses,
            rustweaved_request::Payload::GetSinkRequest => RustweavedPayloadOps::GetSink,
            rustweaved_request::Payload::GetMempoolEntryRequest => RustweavedPayloadOps::GetMempoolEntry,
            rustweaved_request::Payload::GetMempoolEntriesRequest => RustweavedPayloadOps::GetMempoolEntries,
            rustweaved_request::Payload::GetConnectedPeerInfoRequest => RustweavedPayloadOps::GetConnectedPeerInfo,
            rustweaved_request::Payload::AddPeerRequest => RustweavedPayloadOps::AddPeer,
            rustweaved_request::Payload::SubmitTransactionRequest => RustweavedPayloadOps::SubmitTransaction,
            rustweaved_request::Payload::GetSubnetworkRequest => RustweavedPayloadOps::GetSubnetwork,
            rustweaved_request::Payload::GetVirtualChainFromBlockRequest => RustweavedPayloadOps::GetVirtualChainFromBlock,
            rustweaved_request::Payload::GetBlocksRequest => RustweavedPayloadOps::GetBlocks,
            rustweaved_request::Payload::GetBlockCountRequest => RustweavedPayloadOps::GetBlockCount,
            rustweaved_request::Payload::GetBlockDagInfoRequest => RustweavedPayloadOps::GetBlockDagInfo,
            rustweaved_request::Payload::ResolveFinalityConflictRequest => RustweavedPayloadOps::ResolveFinalityConflict,
            rustweaved_request::Payload::GetHeadersRequest => RustweavedPayloadOps::GetHeaders,
            rustweaved_request::Payload::GetUtxosByAddressesRequest => RustweavedPayloadOps::GetUtxosByAddresses,
            rustweaved_request::Payload::GetBalanceByAddressRequest => RustweavedPayloadOps::GetBalanceByAddress,
            rustweaved_request::Payload::GetBalancesByAddressesRequest => RustweavedPayloadOps::GetBalancesByAddresses,
            rustweaved_request::Payload::GetSinkBlueScoreRequest => RustweavedPayloadOps::GetSinkBlueScore,
            rustweaved_request::Payload::BanRequest => RustweavedPayloadOps::Ban,
            rustweaved_request::Payload::UnbanRequest => RustweavedPayloadOps::Unban,
            rustweaved_request::Payload::EstimateNetworkHashesPerSecondRequest => RustweavedPayloadOps::EstimateNetworkHashesPerSecond,
            rustweaved_request::Payload::GetMempoolEntriesByAddressesRequest => RustweavedPayloadOps::GetMempoolEntriesByAddresses,
            rustweaved_request::Payload::GetCoinSupplyRequest => RustweavedPayloadOps::GetCoinSupply,
            rustweaved_request::Payload::PingRequest => RustweavedPayloadOps::Ping,
            rustweaved_request::Payload::GetMetricsRequest => RustweavedPayloadOps::GetMetrics,
            rustweaved_request::Payload::GetServerInfoRequest => RustweavedPayloadOps::GetServerInfo,
            rustweaved_request::Payload::GetSyncStatusRequest => RustweavedPayloadOps::GetSyncStatus,
            rustweaved_request::Payload::GetDaaScoreTimestampEstimateRequest => RustweavedPayloadOps::GetDaaScoreTimestampEstimate,
            rustweaved_request::Payload::NotifyBlockAddedRequest(_) => RustweavedPayloadOps::NotifyBlockAdded,
            rustweaved_request::Payload::NotifyNewBlockTemplateRequest(_) => RustweavedPayloadOps::NotifyNewBlockTemplate,
            rustweaved_request::Payload::NotifyVirtualChainChangedRequest(_) => RustweavedPayloadOps::NotifyVirtualChainChanged,
            rustweaved_request::Payload::NotifyFinalityConflictRequest(_) => RustweavedPayloadOps::NotifyFinalityConflict,
            rustweaved_request::Payload::NotifyUtxosChangedRequest(_) => RustweavedPayloadOps::NotifyUtxosChanged,
            rustweaved_request::Payload::NotifySinkBlueScoreChangedRequest(_) => RustweavedPayloadOps::NotifySinkBlueScoreChanged,
            rustweaved_request::Payload::NotifyVirtualDaaScoreChangedRequest(_) => RustweavedPayloadOps::NotifyVirtualDaaScoreChanged,
            rustweaved_request::Payload::NotifyPruningPointUtxoSetOverrideRequest(_) => RustweavedPayloadOps::NotifyPruningPointUtxoSetOverride,
            rustweaved_request::Payload::StopNotifyingUtxosChangedRequest(_) => RustweavedPayloadOps::StopNotifyingUtxosChanged,
            rustweaved_request::Payload::StopNotifyingPruningPointUtxoSetOverrideRequest => RustweavedPayloadOps::StopNotifyingPruningPointUtxoSetOverride,
        }
    }

    /// Classifies a request payload: total, pure, and exhaustive over the
    /// tagged union, so every payload has exactly one kind.
    pub fn from_request(payload: &rustweaved_request::Payload) -> (r: RustweavedPayloadOps)
        ensures
            r == RustweavedPayloadOps::spec_from_request(*payload),
    {
        match payload {
            rustweaved_request::Payload::ShutdownRequest => RustweavedPayloadOps::Shutdown,
            rustweaved_request::Payload::SubmitBlockRequest => RustweavedPayloadOps::SubmitBlock,
            rustweaved_request::Payload::GetBlockTemplateRequest => RustweavedPayloadOps::GetBlockTemplate,
            rustweaved_request::Payload::GetBlockRequest(_) => RustweavedPayloadOps::GetBlock,
            rustweaved_request::Payload::GetInfoRequest => RustweavedPayloadOps::GetInfo,
            rustweaved_request::Payload::GetCurrentNetworkRequest => RustweavedPayloadOps::GetCurrentNetwork,
            rustweaved_request::Payload::GetPeerAddressesRequest => RustweavedPayloadOps::GetPeerAddresses,
            rustweaved_request::Payload::GetSinkRequest => RustweavedPayloadOps::GetSink,
            rustweaved_request::Payload::GetMempoolEntryRequest => RustweavedPayloadOps::GetMempoolEntry,
            rustweaved_request::Payload::GetMempoolEntriesRequest => RustweavedPayloadOps::GetMempoolEntries,
            rustweaved_request::Payload::GetConnectedPeerInfoRequest => RustweavedPayloadOps::GetConnectedPeerInfo,
            rustweaved_request::Payload::AddPeerRequest => RustweavedPayloadOps::AddPeer,
            rustweaved_request::Payload::SubmitTransactionRequest => RustweavedPayloadOps::SubmitTransaction,
            rustweaved_request::Payload::GetSubnetworkRequest => RustweavedPayloadOps::GetSubnetwork,
            rustweaved_request::Payload::GetVirtualChainFromBlockRequest => RustweavedPayloadOps::GetVirtualChainFromBlock,
            rustweaved_request::Payload::GetBlocksRequest => RustweavedPayloadOps::GetBlocks,
            rustweaved_request::Payload::GetBlockCountRequest => RustweavedPayloadOps::GetBlockCount,
            rustweaved_request::Payload::GetBlockDagInfoRequest => RustweavedPayloadOps::GetBlockDagInfo,
            rustweaved_request::Payload::ResolveFinalityConflictRequest => RustweavedPayloadOps::ResolveFinalityConflict,
            rustweaved_request::Payload::GetHeadersRequest => RustweavedPayloadOps::GetHeaders,
            rustweaved_request::Payload::GetUtxosByAddressesRequest => RustweavedPayloadOps::GetUtxosByAddresses,
            rustweaved_request::Payload::GetBalanceByAddressRequest => RustweavedPayloadOps::GetBalanceByAddress,
            rustweaved_request::Payload::GetBalancesByAddressesRequest => RustweavedPayloadOps::GetBalancesByAddresses,
            rustweaved_request::Payload::GetSinkBlueScoreRequest => RustweavedPayloadOps::GetSinkBlueScore,
            rustweaved_request::Payload::BanRequest => RustweavedPayloadOps::Ban,
            rustweaved_request::Payload::UnbanRequest => RustweavedPayloadOps::Unban,
            rustweaved_request::Payload::EstimateNetworkHashesPerSecondRequest => RustweavedPayloadOps::EstimateNetworkHashesPerSecond,
            rustweaved_request::Payload::GetMempoolEntriesByAddressesRequest => RustweavedPayloadOps::GetMempoolEntriesByAddresses,
            rustweaved_request::Payload::GetCoinSupplyRequest => RustweavedPayloadOps::GetCoinSupply,
            rustweaved_request::Payload::PingRequest => RustweavedPayloadOps::Ping,
            rustweaved_request::Payload::GetMetricsRequest => RustweavedPayloadOps::GetMetrics,
            rustweaved_request::Payload::GetServerInfoRequest => RustweavedPayloadOps::GetServerInfo,
            rustweaved_request::Payload::GetSyncStatusRequest => RustweavedPayloadOps::GetSyncStatus,
            rustweaved_request::Payload::GetDaaScoreTimestampEstimateRequest => RustweavedPayloadOps::GetDaaScoreTimestampEstimate,
            rustweaved_request::Payload::NotifyBlockAddedRequest(_) => RustweavedPayloadOps::NotifyBlockAdded,
            rustweaved_request::Payload::NotifyNewBlockTemplateRequest(_) => RustweavedPayloadOps::NotifyNewBlockTemplate,
            rustweaved_request::Payload::NotifyVirtualChainChangedRequest(_) => RustweavedPayloadOps::NotifyVirtualChainChanged,
            rustweaved_request::Payload::NotifyFinalityConflictRequest(_) => RustweavedPayloadOps::NotifyFinalityConflict,
            rustweaved_request::Payload::NotifyUtxosChangedRequest(_) => RustweavedPayloadOps::NotifyUtxosChanged,
            rustweaved_request::Payload::NotifySinkBlueScoreChangedRequest(_) => RustweavedPayloadOps::NotifySinkBlueScoreChanged,
            rustweaved_request::Payload::NotifyVirtualDaaScoreChangedRequest(_) => RustweavedPayloadOps::NotifyVirtualDaaScoreChanged,
            rustweaved_request::Payload::NotifyPruningPointUtxoSetOverrideRequest(_) => RustweavedPayloadOps::NotifyPruningPointUtxoSetOverride,
            rustweaved_request::Payload::StopNotifyingUtxosChangedRequest(_) => RustweavedPayloadOps::StopNotifyingUtxosChanged,
            rustweaved_request::Payload::StopNotifyingPruningPointUtxoSetOverrideRequest => RustweavedPayloadOps::StopNotifyingPruningPointUtxoSetOverride,
        }
    }

    /// The error response payload of this kind carrying the given error.
    pub open spec fn spec_to_error_response(self, error: RpcErrorMessage) -> rustweaved_response::Payload {
        match self {
            RustweavedPayloadOps::Shutdown => rustweaved_response::Payload::ShutdownResponse(Some(error)),
            RustweavedPayloadOps::SubmitBlock => rustweaved_response::Payload::SubmitBlockResponse(Some(error)),
            RustweavedPayloadOps::GetBlockTemplate => rustweaved_response::Payload::GetBlockTemplateResponse(Some(error)),
            RustweavedPayloadOps::GetBlock => rustweaved_response::Payload::GetBlockResponse(
                GetBlockResponseMessage { block: None, error: Some(error) },
            ),
            RustweavedPayloadOps::GetInfo => rustweaved_response::Payload::GetInfoResponse(Some(error)),
            RustweavedPayloadOps::GetCurrentNetwork => rustweaved_response::Payload::GetCurrentNetworkResponse(Some(error)),
            RustweavedPayloadOps::GetPeerAddresses => rustweaved_response::Payload::GetPeerAddressesResponse(Some(error)),
            RustweavedPayloadOps::GetSink => rustweaved_response::Payload::GetSinkResponse(Some(error)),
            RustweavedPayloadOps::GetMempoolEntry => rustweaved_response::Payload::GetMempoolEntryResponse(Some(error)),
            RustweavedPayloadOps::GetMempoolEntries => rustweaved_response::Payload::GetMempoolEntriesResponse(Some(error)),
            RustweavedPayloadOps::GetConnectedPeerInfo => rustweaved_response::Payload::GetConnectedPeerInfoResponse(Some(error)),
            RustweavedPayloadOps::AddPeer => rustweaved_response::Payload::AddPeerResponse(Some(error)),
            RustweavedPayloadOps::SubmitTransaction => rustweaved_response::Payload::SubmitTransactionResponse(Some(error)),
            RustweavedPayloadOps::GetSubnetwork => rustweaved_response::Payload::GetSubnetworkResponse(Some(error)),
            RustweavedPayloadOps::GetVirtualChainFromBlock => rustweaved_response::Payload::GetVirtualChainFromBlockResponse(Some(error)),
            RustweavedPayloadOps::GetBlocks => rustweaved_response::Payload::GetBlocksResponse(Some(error)),
            RustweavedPayloadOps::GetBlockCount => rustweaved_response::Payload::GetBlockCountResponse(Some(error)),
            RustweavedPayloadOps::GetBlockDagInfo => rustweaved_response::Payload::GetBlockDagInfoResponse(Some(error)),
            RustweavedPayloadOps::ResolveFinalityConflict => rustweaved_response::Payload::ResolveFinalityConflictResponse(Some(error)),
            RustweavedPayloadOps::GetHeaders => rustweaved_response::Payload::GetHeadersResponse(Some(error)),
            RustweavedPayloadOps::GetUtxosByAddresses => rustweaved_response::Payload::GetUtxosByAddressesResponse(Some(error)),
            RustweavedPayloadOps::GetBalanceByAddress => rustweaved_response::Payload::GetBalanceByAddressResponse(Some(error)),
            RustweavedPayloadOps::GetBalancesByAddresses => rustweaved_response::Payload::GetBalancesByAddressesResponse(Some(error)),
            RustweavedPayloadOps::GetSinkBlueScore => rustweaved_response::Payload::GetSinkBlueScoreResponse(Some(error)),
            RustweavedPayloadOps::Ban => rustweaved_response::Payload::BanResponse(Some(error)),
            RustweavedPayloadOps::Unban => rustweaved_response::Payload::UnbanResponse(Some(error)),
            RustweavedPayloadOps::EstimateNetworkHashesPerSecond => rustweaved_response::Payload::EstimateNetworkHashesPerSecondResponse(Some(error)),
            RustweavedPayloadOps::GetMempoolEntriesByAddresses => rustweaved_response::Payload::GetMempoolEntriesByAddressesResponse(Some(error)),
            RustweavedPayloadOps::GetCoinSupply => rustweaved_response::Payload::GetCoinSupplyResponse(Some(error)),
            RustweavedPayloadOps::Ping => rustweaved_response::Payload::PingResponse(Some(error)),
            RustweavedPayloadOps::GetMetrics => rustweaved_response::Payload::GetMetricsResponse(Some(error)),
            RustweavedPayloadOps::GetServerInfo => rustweaved_response::Payload::GetServerInfoResponse(Some(error)),
            RustweavedPayloadOps::GetSyncStatus => rustweaved_response::Payload::GetSyncStatusResponse(Some(error)),
            RustweavedPayloadOps::GetDaaScoreTimestampEstimate => rustweaved_response::Payload::GetDaaScoreTimestampEstimateResponse(Some(error)),
            RustweavedPayloadOps::NotifyBlockAdded => rustweaved_response::Payload::NotifyBlockAddedResponse(Some(error)),
            RustweavedPayloadOps::NotifyNewBlockTemplate => rustweaved_response::Payload::NotifyNewBlockTemplateResponse(Some(error)),
            RustweavedPayloadOps::NotifyVirtualChainChanged => rustweaved_response::Payload::NotifyVirtualChainChangedResponse(Some(error)),
            RustweavedPayloadOps::NotifyFinalityConflict => rustweaved_response::Payload::NotifyFinalityConflictResponse(Some(error)),
            RustweavedPayloadOps::NotifyUtxosChanged => rustweaved_response::Payload::NotifyUtxosChangedResponse(Some(error)),
            RustweavedPayloadOps::NotifySinkBlueScoreChanged => rustweaved_response::Payload::NotifySinkBlueScoreChangedResponse(Some(error)),
            RustweavedPayloadOps::NotifyVirtualDaaScoreChanged => rustweaved_response::Payload::NotifyVirtualDaaScoreChangedResponse(Some(error)),
            RustweavedPayloadOps::NotifyPruningPointUtxoSetOverride => rustweaved_response::Payload::NotifyPruningPointUtxoSetOverrideResponse(Some(error)),
            RustweavedPayloadOps::StopNotifyingUtxosChanged => rustweaved_response::Payload::StopNotifyingUtxosChangedResponse(Some(error)),
            RustweavedPayloadOps::StopNotifyingPruningPointUtxoSetOverride => rustweaved_response::Payload::StopNotifyingPruningPointUtxoSetOverrideResponse(Some(error)),
        }
    }

    /// Builds the error response payload of this kind carrying the given
    /// error, preserving the kind so the client-side matcher still sees a
    /// response of the expected variant.
    pub fn to_error_response(self, error: RpcErrorMessage) -> (r: rustweaved_response::Payload)
        ensures
            r == self.spec_to_error_response(error),
    {
        match self {
            RustweavedPayloadOps::Shutdown => rustweaved_response::Payload::ShutdownResponse(Some(error)),
            RustweavedPayloadOps::SubmitBlock => rustweaved_response::Payload::SubmitBlockResponse(Some(error)),
            RustweavedPayloadOps::GetBlockTemplate => rustweaved_response::Payload::GetBlockTemplateResponse(Some(error)),
            RustweavedPayloadOps::GetBlock => rustweaved_response::Payload::GetBlockResponse(
                GetBlockResponseMessage { block: None, error: Some(error) },
            ),
            RustweavedPayloadOps::GetInfo => rustweaved_response::Payload::GetInfoResponse(Some(error)),
            RustweavedPayloadOps::GetCurrentNetwork => rustweaved_response::Payload::GetCurrentNetworkResponse(Some(error)),
            RustweavedPayloadOps::GetPeerAddresses => rustweaved_response::Payload::GetPeerAddressesResponse(Some(error)),
            RustweavedPayloadOps::GetSink => rustweaved_response::Payload::GetSinkResponse(Some(error)),
            RustweavedPayloadOps::GetMempoolEntry => rustweaved_response::Payload::GetMempoolEntryResponse(Some(error)),
            RustweavedPayloadOps::GetMempoolEntries => rustweaved_response::Payload::GetMempoolEntriesResponse(Some(error)),
            RustweavedPayloadOps::GetConnectedPeerInfo => rustweaved_response::Payload::GetConnectedPeerInfoResponse(Some(error)),
            RustweavedPayloadOps::AddPeer => rustweaved_response::Payload::AddPeerResponse(Some(error)),
            RustweavedPayloadOps::SubmitTransaction => rustweaved_response::Payload::SubmitTransactionResponse(Some(error)),
            RustweavedPayloadOps::GetSubnetwork => rustweaved_response::Payload::GetSubnetworkResponse(Some(error)),
            RustweavedPayloadOps::GetVirtualChainFromBlock => rustweaved_response::Payload::GetVirtualChainFromBlockResponse(Some(error)),
            RustweavedPayloadOps::GetBlocks => rustweaved_response::Payload::GetBlocksResponse(Some(error)),
            RustweavedPayloadOps::GetBlockCount => rustweaved_response::Payload::GetBlockCountResponse(Some(error)),
            RustweavedPayloadOps::GetBlockDagInfo => rustweaved_response::Payload::GetBlockDagInfoResponse(Some(error)),
            RustweavedPayloadOps::ResolveFinalityConflict => rustweaved_response::Payload::ResolveFinalityConflictResponse(Some(error)),
            RustweavedPayloadOps::GetHeaders => rustweaved_response::Payload::GetHeadersResponse(Some(error)),
            RustweavedPayloadOps::GetUtxosByAddresses => rustweaved_response::Payload::GetUtxosByAddressesResponse(Some(error)),
            RustweavedPayloadOps::GetBalanceByAddress => rustweaved_response::Payload::GetBalanceByAddressResponse(Some(error)),
            RustweavedPayloadOps::GetBalancesByAddresses => rustweaved_response::Payload::GetBalancesByAddressesResponse(Some(error)),
            RustweavedPayloadOps::GetSinkBlueScore => rustweaved_response::Payload::GetSinkBlueScoreResponse(Some(error)),
            RustweavedPayloadOps::Ban => rustweaved_response::Payload::BanResponse(Some(error)),
            RustweavedPayloadOps::Unban => rustweaved_response::Payload::UnbanResponse(Some(error)),
            RustweavedPayloadOps::EstimateNetworkHashesPerSecond => rustweaved_response::Payload::EstimateNetworkHashesPerSecondResponse(Some(error)),
            RustweavedPayloadOps::GetMempoolEntriesByAddresses => rustweaved_response::Payload::GetMempoolEntriesByAddressesResponse(Some(error)),
            RustweavedPayloadOps::GetCoinSupply => rustweaved_response::Payload::GetCoinSupplyResponse(Some(error)),
            RustweavedPayloadOps::Ping => rustweaved_response::Payload::PingResponse(Some(error)),
            RustweavedPayloadOps::GetMetrics => rustweaved_response::Payload::GetMetricsResponse(Some(error)),
            RustweavedPayloadOps::GetServerInfo => rustweaved_response::Payload::GetServerInfoResponse(Some(error)),
            RustweavedPayloadOps::GetSyncStatus => rustweaved_response::Payload::GetSyncStatusResponse(Some(error)),
            RustweavedPayloadOps::GetDaaScoreTimestampEstimate => rustweaved_response::Payload::GetDaaScoreTimestampEstimateResponse(Some(error)),
            RustweavedPayloadOps::NotifyBlockAdded => rustweaved_response::Payload::NotifyBlockAddedResponse(Some(error)),
            RustweavedPayloadOps::NotifyNewBlockTemplate => rustweaved_response::Payload::NotifyNewBlockTemplateResponse(Some(error)),
            RustweavedPayloadOps::NotifyVirtualChainChanged => rustweaved_response::Payload::NotifyVirtualChainChangedResponse(Some(error)),
            RustweavedPayloadOps::NotifyFinalityConflict => rustweaved_response::Payload::NotifyFinalityConflictResponse(Some(error)),
            RustweavedPayloadOps::NotifyUtxosChanged => rustweaved_response::Payload::NotifyUtxosChangedResponse(Some(error)),
            RustweavedPayloadOps::NotifySinkBlueScoreChanged => rustweaved_response::Payload::NotifySinkBlueScoreChangedResponse(Some(error)),
            RustweavedPayloadOps::NotifyVirtualDaaScoreChanged => rustweaved_response::Payload::NotifyVirtualDaaScoreChangedResponse(Some(error)),
            RustweavedPayloadOps::NotifyPruningPointUtxoSetOverride => rustweaved_response::Payload::NotifyPruningPointUtxoSetOverrideResponse(Some(error)),
            RustweavedPayloadOps::StopNotifyingUtxosChanged => rustweaved_response::Payload::StopNotifyingUtxosChangedResponse(Some(error)),
            RustweavedPayloadOps::StopNotifyingPruningPointUtxoSetOverride => rustweaved_response::Payload::StopNotifyingPruningPointUtxoSetOverrideResponse(Some(error)),
        }
    }

    /// The diagnostic name of the kind.
    pub open spec fn spec_name(self) -> Seq<char> {
        match self {
            RustweavedPayloadOps::Shutdown => "Shutdown"@,
            RustweavedPayloadOps::SubmitBlock => "SubmitBlock"@,
            RustweavedPayloadOps::GetBlockTemplate => "GetBlockTemplate"@,
            RustweavedPayloadOps::GetBlock => "GetBlock"@,
            RustweavedPayloadOps::GetInfo => "GetInfo"@,
            RustweavedPayloadOps::GetCurrentNetwork => "GetCurrentNetwork"@,
            RustweavedPayloadOps::GetPeerAddresses => "GetPeerAddresses"@,
            RustweavedPayloadOps::GetSink => "GetSink"@,
            RustweavedPayloadOps::GetMempoolEntry => "GetMempoolEntry"@,
            RustweavedPayloadOps::GetMempoolEntries => "GetMempoolEntries"@,
            RustweavedPayloadOps::GetConnectedPeerInfo => "GetConnectedPeerInfo"@,
            RustweavedPayloadOps::AddPeer => "AddPeer"@,
            RustweavedPayloadOps::SubmitTransaction => "SubmitTransaction"@,
            RustweavedPayloadOps::GetSubnetwork => "GetSubnetwork"@,
            RustweavedPayloadOps::GetVirtualChainFromBlock => "GetVirtualChainFromBlock"@,
            RustweavedPayloadOps::GetBlocks => "GetBlocks"@,
            RustweavedPayloadOps::GetBlockCount => "GetBlockCount"@,
            RustweavedPayloadOps::GetBlockDagInfo => "GetBlockDagInfo"@,
            RustweavedPayloadOps::ResolveFinalityConflict => "ResolveFinalityConflict"@,
            RustweavedPayloadOps::GetHeaders => "GetHeaders"@,
            RustweavedPayloadOps::GetUtxosByAddresses => "GetUtxosByAddresses"@,
            RustweavedPayloadOps::GetBalanceByAddress => "GetBalanceByAddress"@,
            RustweavedPayloadOps::GetBalancesByAddresses => "GetBalancesByAddresses"@,
            RustweavedPayloadOps::GetSinkBlueScore => "GetSinkBlueScore"@,
            RustweavedPayloadOps::Ban => "Ban"@,
            RustweavedPayloadOps::Unban => "Unban"@,
            RustweavedPayloadOps::EstimateNetworkHashesPerSecond => "EstimateNetworkHashesPerSecond"@,
            RustweavedPayloadOps::GetMempoolEntriesByAddresses => "GetMempoolEntriesByAddresses"@,
            RustweavedPayloadOps::GetCoinSupply => "GetCoinSupply"@,
            RustweavedPayloadOps::Ping => "Ping"@,
            RustweavedPayloadOps::GetMetrics => "GetMetrics"@,
            RustweavedPayloadOps::GetServerInfo => "GetServerInfo"@,
            RustweavedPayloadOps::GetSyncStatus => "GetSyncStatus"@,
            RustweavedPayloadOps::GetDaaScoreTimestampEstimate => "GetDaaScoreTimestampEstimate"@,
            RustweavedPayloadOps::NotifyBlockAdded => "NotifyBlockAdded"@,
            RustweavedPayloadOps::NotifyNewBlockTemplate => "NotifyNewBlockTemplate"@,
            RustweavedPayloadOps::NotifyVirtualChainChanged => "NotifyVirtualChainChanged"@,
            RustweavedPayloadOps::NotifyFinalityConflict => "NotifyFinalityConflict"@,
            RustweavedPayloadOps::NotifyUtxosChanged => "NotifyUtxosChanged"@,
            RustweavedPayloadOps::NotifySinkBlueScoreChanged => "NotifySinkBlueScoreChanged"@,
            RustweavedPayloadOps::NotifyVirtualDaaScoreChanged => "NotifyVirtualDaaScoreChanged"@,
            RustweavedPayloadOps::NotifyPruningPointUtxoSetOverride => "NotifyPruningPointUtxoSetOverride"@,
            RustweavedPayloadOps::StopNotifyingUtxosChanged => "StopNotifyingUtxosChanged"@,
            RustweavedPayloadOps::StopNotifyingPruningPointUtxoSetOverride => "StopNotifyingPruningPointUtxoSetOverride"@,
        }
    }

    /// The diagnostic name of the kind, as carried in synthesized error
    /// messages.
    pub fn name(self) -> (r: &'static str)
        ensures
            r@ == self.spec_name(),
    {
        match self {
            RustweavedPayloadOps::Shutdown => "Shutdown",
            RustweavedPayloadOps::SubmitBlock => "SubmitBlock",
            RustweavedPayloadOps::GetBlockTemplate => "GetBlockTemplate",
            RustweavedPayloadOps::GetBlock => "GetBlock",
            RustweavedPayloadOps::GetInfo => "GetInfo",
            RustweavedPayloadOps::GetCurrentNetwork => "GetCurrentNetwork",
            RustweavedPayloadOps::GetPeerAddresses => "GetPeerAddresses",
            RustweavedPayloadOps::GetSink => "GetSink",
            RustweavedPayloadOps::GetMempoolEntry => "GetMempoolEntry",
            RustweavedPayloadOps::GetMempoolEntries => "GetMempoolEntries",
            RustweavedPayloadOps::GetConnectedPeerInfo => "GetConnectedPeerInfo",
            RustweavedPayloadOps::AddPeer => "AddPeer",
            RustweavedPayloadOps::SubmitTransaction => "SubmitTransaction",
            RustweavedPayloadOps::GetSubnetwork => "GetSubnetwork",
            RustweavedPayloadOps::GetVirtualChainFromBlock => "GetVirtualChainFromBlock",
            RustweavedPayloadOps::GetBlocks => "GetBlocks",
            RustweavedPayloadOps::GetBlockCount => "GetBlockCount",
            RustweavedPayloadOps::GetBlockDagInfo => "GetBlockDagInfo",
            RustweavedPayloadOps::ResolveFinalityConflict => "ResolveFinalityConflict",
            RustweavedPayloadOps::GetHeaders => "GetHeaders",
            RustweavedPayloadOps::GetUtxosByAddresses => "GetUtxosByAddresses",
            RustweavedPayloadOps::GetBalanceByAddress => "GetBalanceByAddress",
            RustweavedPayloadOps::GetBalancesByAddresses => "GetBalancesByAddresses",
            RustweavedPayloadOps::GetSinkBlueScore => "GetSinkBlueScore",
            RustweavedPayloadOps::Ban => "Ban",
            RustweavedPayloadOps::Unban => "Unban",
            RustweavedPayloadOps::EstimateNetworkHashesPerSecond => "EstimateNetworkHashesPerSecond",
            RustweavedPayloadOps::GetMempoolEntriesByAddresses => "GetMempoolEntriesByAddresses",
            RustweavedPayloadOps::GetCoinSupply => "GetCoinSupply",
            RustweavedPayloadOps::Ping => "Ping",
            RustweavedPayloadOps::GetMetrics => "GetMetrics",
            RustweavedPayloadOps::GetServerInfo => "GetServerInfo",
            RustweavedPayloadOps::GetSyncStatus => "GetSyncStatus",
            RustweavedPayloadOps::GetDaaScoreTimestampEstimate => "GetDaaScoreTimestampEstimate",
            RustweavedPayloadOps::NotifyBlockAdded => "NotifyBlockAdded",
            RustweavedPayloadOps::NotifyNewBlockTemplate => "NotifyNewBlockTemplate",
            RustweavedPayloadOps::NotifyVirtualChainChanged => "NotifyVirtualChainChanged",
            RustweavedPayloadOps::NotifyFinalityConflict => "NotifyFinalityConflict",
            RustweavedPayloadOps::NotifyUtxosChanged => "NotifyUtxosChanged",
            RustweavedPayloadOps::NotifySinkBlueScoreChanged => "NotifySinkBlueScoreChanged",
            RustweavedPayloadOps::NotifyVirtualDaaScoreChanged => "NotifyVirtualDaaScoreChanged",
            RustweavedPayloadOps::NotifyPruningPointUtxoSetOverride => "NotifyPruningPointUtxoSetOverride",
            RustweavedPayloadOps::StopNotifyingUtxosChanged => "StopNotifyingUtxosChanged",
            RustweavedPayloadOps::StopNotifyingPruningPointUtxoSetOverride => "StopNotifyingPruningPointUtxoSetOverride",
        }
    }
}

} // verus!
