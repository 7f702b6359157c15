//! Peer-to-peer message payload kinds.
//!
//! Every peer-to-peer wire message carries exactly one payload variant from
//! a closed tagged union; [`RustweavedMessagePayloadType`] is the stable tag
//! derived from it, used wherever a message must be keyed or counted by
//! kind. The derivation is total and exhaustively matched, so adding a
//! payload variant without classifying it fails to compile.

use vstd::prelude::*;

verus! {

/// The closed tagged union of peer-to-peer message payloads. The message
/// bodies carry no data this crate reads, so each variant is a plain tag
/// standing for its wire message.
#[derive(Clone, Copy, Debug, PartialEq, Eq, Structural)]
pub enum RustweavedMessagePayload {
    Addresses,
    Block,
    Transaction,
    BlockLocator,
    RequestAddresses,
    RequestRelayBlocks,
    RequestTransactions,
    IbdBlock,
    InvRelayBlock,
    InvTransactions,
    Ping,
    Pong,
    Verack,
    Version,
    TransactionNotFound,
    Reject,
    PruningPointUtxoSetChunk,
    RequestIbdBlocks,
    UnexpectedPruningPoint,
    IbdBlockLocator,
    IbdBlockLocatorHighestHash,
    RequestNextPruningPointUtxoSetChunk,
    DonePruningPointUtxoSetChunks,
    IbdBlockLocatorHighestHashNotFound,
    BlockWithTrustedData,
    DoneBlocksWithTrustedData,
    RequestPruningPointAndItsAnticone,
    BlockHeaders,
    RequestNextHeaders,
    DoneHeaders,
    RequestPruningPointUtxoSet,
    RequestHeaders,
    RequestBlockLocator,
    PruningPoints,
    RequestPruningPointProof,
    PruningPointProof,
    Ready,
    BlockWithTrustedDataV4,
    TrustedData,
    RequestIbdChainBlockLocator,
    IbdChainBlockLocator,
    RequestAntipast,
    RequestNextPruningPointAndItsAnticoneBlocks,
}

/// The stable kind tag of a peer-to-peer message payload: one value per
/// payload variant.
#[derive(Debug, Copy, Clone, Eq, Hash, PartialEq, Structural)]
pub enum RustweavedMessagePayloadType {
    Addresses,
    Block,
    Transaction,
    BlockLocator,
    RequestAddresses,
    RequestRelayBlocks,
    RequestTransactions,
    IbdBlock,
    InvRelayBlock,
    InvTransactions,
    Ping,
    Pong,
    Verack,
    Version,
    TransactionNotFound,
    Reject,
    PruningPointUtxoSetChunk,
    RequestIbdBlocks,
    UnexpectedPruningPoint,
    IbdBlockLocator,
    IbdBlockLocatorHighestHash,
    RequestNextPruningPointUtxoSetChunk,
    DonePruningPointUtxoSetChunks,
    IbdBlockLocatorHighestHashNotFound,
    BlockWithTrustedData,
    DoneBlocksWithTrustedData,
    RequestPruningPointAndItsAnticone,
    BlockHeaders,
    RequestNextHeaders,
    DoneHeaders,
    RequestPruningPointUtxoSet,
    RequestHeaders,
    RequestBlockLocator,
    PruningPoints,
    RequestPruningPointProof,
    PruningPointProof,
    Ready,
    BlockWithTrustedDataV4,
    TrustedData,
    RequestIbdChainBlockLocator,
    IbdChainBlockLocator,
    RequestAntipast,
    RequestNextPruningPointAndItsAnticoneBlocks,
}

impl RustweavedMessagePayloadType {
    /// The kind tag of a payload.
    pub open spec fn spec_classify(payload: RustweavedMessagePayload) -> RustweavedMessagePayloadType {
        match payload {
            RustweavedMessagePayload::Addresses => RustweavedMessagePayloadType::Addresses,
            RustweavedMessagePayload::Block => RustweavedMessagePayloadType::Block,
            RustweavedMessagePayload::Transaction => RustweavedMessagePayloadType::Transaction,
            RustweavedMessagePayload::BlockLocator => RustweavedMessagePayloadType::BlockLocator,
            RustweavedMessagePayload::RequestAddresses => RustweavedMessagePayloadType::RequestAddresses,
            RustweavedMessagePayload::RequestRelayBlocks => RustweavedMessagePayloadType::RequestRelayBlocks,
            RustweavedMessagePayload::RequestTransactions => RustweavedMessagePayloadType::RequestTransactions,
            RustweavedMessagePayload::IbdBlock => RustweavedMessagePayloadType::IbdBlock,
            RustweavedMessagePayload::InvRelayBlock => RustweavedMessagePayloadType::InvRelayBlock,
            RustweavedMessagePayload::InvTransactions => RustweavedMessagePayloadType::InvTransactions,
            RustweavedMessagePayload::Ping => RustweavedMessagePayloadType::Ping,
            RustweavedMessagePayload::Pong => RustweavedMessagePayloadType::Pong,
            RustweavedMessagePayload::Verack => RustweavedMessagePayloadType::Verack,
            RustweavedMessagePayload::Version => RustweavedMessagePayloadType::Version,
            RustweavedMessagePayload::TransactionNotFound => RustweavedMessagePayloadType::TransactionNotFound,
            RustweavedMessagePayload::Reject => RustweavedMessagePayloadType::Reject,
            RustweavedMessagePayload::PruningPointUtxoSetChunk => RustweavedMessagePayloadType::PruningPointUtxoSetChunk,
            RustweavedMessagePayload::RequestIbdBlocks => RustweavedMessagePayloadType::RequestIbdBlocks,
            RustweavedMessagePayload::UnexpectedPruningPoint => RustweavedMessagePayloadType::UnexpectedPruningPoint,
            RustweavedMessagePayload::IbdBlockLocator => RustweavedMessagePayloadType::IbdBlockLocator,
            RustweavedMessagePayload::IbdBlockLocatorHighestHash => RustweavedMessagePayloadType::IbdBlockLocatorHighestHash,
            RustweavedMessagePayload::RequestNextPruningPointUtxoSetChunk => RustweavedMessagePayloadType::RequestNextPruningPointUtxoSetChunk,
            RustweavedMessagePayload::DonePruningPointUtxoSetChunks => RustweavedMessagePayloadType::DonePruningPointUtxoSetChunks,
            RustweavedMessagePayload::IbdBlockLocatorHighestHashNotFound => RustweavedMessagePayloadType::IbdBlockLocatorHighestHashNotFound,
            RustweavedMessagePayload::BlockWithTrustedData => RustweavedMessagePayloadType::BlockWithTrustedData,
            RustweavedMessagePayload::DoneBlocksWithTrustedData => RustweavedMessagePayloadType::DoneBlocksWithTrustedData,
            RustweavedMessagePayload::RequestPruningPointAndItsAnticone => RustweavedMessagePayloadType::RequestPruningPointAndItsAnticone,
            RustweavedMessagePayload::BlockHeaders => RustweavedMessagePayloadType::BlockHeaders,
            RustweavedMessagePayload::RequestNextHeaders => RustweavedMessagePayloadType::RequestNextHeaders,
            RustweavedMessagePayload::DoneHeaders => RustweavedMessagePayloadType::DoneHeaders,
            RustweavedMessagePayload::RequestPruningPointUtxoSet => RustweavedMessagePayloadType::RequestPruningPointUtxoSet,
            RustweavedMessagePayload::RequestHeaders => RustweavedMessagePayloadType::RequestHeaders,
            RustweavedMessagePayload::RequestBlockLocator => RustweavedMessagePayloadType::RequestBlockLocator,
            RustweavedMessagePayload::PruningPoints => RustweavedMessagePayloadType::PruningPoints,
            RustweavedMessagePayload::RequestPruningPointProof => RustweavedMessagePayloadType::RequestPruningPointProof,
            RustweavedMessagePayload::PruningPointProof => RustweavedMessagePayloadType::PruningPointProof,
            RustweavedMessagePayload::Ready => RustweavedMessagePayloadType::Ready,
            RustweavedMessagePayload::BlockWithTrustedDataV4 => RustweavedMessagePayloadType::BlockWithTrustedDataV4,
            RustweavedMessagePayload::TrustedData => RustweavedMessagePayloadType::TrustedData,
            RustweavedMessagePayload::RequestIbdChainBlockLocator => RustweavedMessagePayloadType::RequestIbdChainBlockLocator,
            RustweavedMessagePayload::IbdChainBlockLocator => RustweavedMessagePayloadType::IbdChainBlockLocator,
            RustweavedMessagePayload::RequestAntipast => RustweavedMessagePayloadType::RequestAntipast,
            RustweavedMessagePayload::RequestNextPruningPointAndItsAnticoneBlocks => RustweavedMessagePayloadType::RequestNextPruningPointAndItsAnticoneBlocks,
        }
    }

    /// Classifies a payload: total, pure, and exhaustive over the tagged
    /// union, so every payload has exactly one kind tag.
    pub fn from_payload(payload: &RustweavedMessagePayload) -> (r: RustweavedMessagePayloadType)
        ensures
            r == RustweavedMessagePayloadType::spec_classify(*payload),
    {
        match payload {
            RustweavedMessagePayload::Addresses => RustweavedMessagePayloadType::Addresses,
            RustweavedMessagePayload::Block => RustweavedMessagePayloadType::Block,
            RustweavedMessagePayload::Transaction => RustweavedMessagePayloadType::Transaction,
            RustweavedMessagePayload::BlockLocator => RustweavedMessagePayloadType::BlockLocator,
            RustweavedMessagePayload::RequestAddresses => RustweavedMessagePayloadType::RequestAddresses,
            RustweavedMessagePayload::RequestRelayBlocks => RustweavedMessagePayloadType::RequestRelayBlocks,
            RustweavedMessagePayload::RequestTransactions => RustweavedMessagePayloadType::RequestTransactions,
            RustweavedMessagePayload::IbdBlock => RustweavedMessagePayloadType::IbdBlock,
            RustweavedMessagePayload::InvRelayBlock => RustweavedMessagePayloadType::InvRelayBlock,
            RustweavedMessagePayload::InvTransactions => RustweavedMessagePayloadType::InvTransactions,
            RustweavedMessagePayload::Ping => RustweavedMessagePayloadType::Ping,
            RustweavedMessagePayload::Pong => RustweavedMessagePayloadType::Pong,
            RustweavedMessagePayload::Verack => RustweavedMessagePayloadType::Verack,
            RustweavedMessagePayload::Version => RustweavedMessagePayloadType::Version,
            RustweavedMessagePayload::TransactionNotFound => RustweavedMessagePayloadType::TransactionNotFound,
            RustweavedMessagePayload::Reject => RustweavedMessagePayloadType::Reject,
            RustweavedMessagePayload::PruningPointUtxoSetChunk => RustweavedMessagePayloadType::PruningPointUtxoSetChunk,
            RustweavedMessagePayload::RequestIbdBlocks => RustweavedMessagePayloadType::RequestIbdBlocks,
            RustweavedMessagePayload::UnexpectedPruningPoint => RustweavedMessagePayloadType::UnexpectedPruningPoint,
            RustweavedMessagePayload::IbdBlockLocator => RustweavedMessagePayloadType::IbdBlockLocator,
            RustweavedMessagePayload::IbdBlockLocatorHighestHash => RustweavedMessagePayloadType::IbdBlockLocatorHighestHash,
            RustweavedMessagePayload::RequestNextPruningPointUtxoSetChunk => RustweavedMessagePayloadType::RequestNextPruningPointUtxoSetChunk,
            RustweavedMessagePayload::DonePruningPointUtxoSetChunks => RustweavedMessagePayloadType::DonePruningPointUtxoSetChunks,
            RustweavedMessagePayload::IbdBlockLocatorHighestHashNotFound => RustweavedMessagePayloadType::IbdBlockLocatorHighestHashNotFound,
            RustweavedMessagePayload::BlockWithTrustedData => RustweavedMessagePayloadType::BlockWithTrustedData,
            RustweavedMessagePayload::DoneBlocksWithTrustedData => RustweavedMessagePayloadType::DoneBlocksWithTrustedData,
            RustweavedMessagePayload::RequestPruningPointAndItsAnticone => RustweavedMessagePayloadType::RequestPruningPointAndItsAnticone,
            RustweavedMessagePayload::BlockHeaders => RustweavedMessagePayloadType::BlockHeaders,
            RustweavedMessagePayload::RequestNextHeaders => RustweavedMessagePayloadType::RequestNextHeaders,
            RustweavedMessagePayload::DoneHeaders => RustweavedMessagePayloadType::DoneHeaders,
            RustweavedMessagePayload::RequestPruningPointUtxoSet => RustweavedMessagePayloadType::RequestPruningPointUtxoSet,
            RustweavedMessagePayload::RequestHeaders => RustweavedMessagePayloadType::RequestHeaders,
            RustweavedMessagePayload::RequestBlockLocator => RustweavedMessagePayloadType::RequestBlockLocator,
            RustweavedMessagePayload::PruningPoints => RustweavedMessagePayloadType::PruningPoints,
            RustweavedMessagePayload::RequestPruningPointProof => RustweavedMessagePayloadType::RequestPruningPointProof,
            RustweavedMessagePayload::PruningPointProof => RustweavedMessagePayloadType::PruningPointProof,
            RustweavedMessagePayload::Ready => RustweavedMessagePayloadType::Ready,
            RustweavedMessagePayload::BlockWithTrustedDataV4 => RustweavedMessagePayloadType::BlockWithTrustedDataV4,
            RustweavedMessagePayload::TrustedData => RustweavedMessagePayloadType::TrustedData,
            RustweavedMessagePayload::RequestIbdChainBlockLocator => RustweavedMessagePayloadType::RequestIbdChainBlockLocator,
            RustweavedMessagePayload::IbdChainBlockLocator => RustweavedMessagePayloadType::IbdChainBlockLocator,
            RustweavedMessagePayload::RequestAntipast => RustweavedMessagePayloadType::RequestAntipast,
            RustweavedMessagePayload::RequestNextPruningPointAndItsAnticoneBlocks => RustweavedMessagePayloadType::RequestNextPruningPointAndItsAnticoneBlocks,
        }
    }
}

impl<'a> core::convert::From<&'a RustweavedMessagePayload> for RustweavedMessagePayloadType {
    fn from(payload: &'a RustweavedMessagePayload) -> Self {
        RustweavedMessagePayloadType::from_payload(payload)
    }
}

impl<'a> vstd::std_specs::convert::FromSpecImpl<&'a RustweavedMessagePayload> for RustweavedMessagePayloadType {
    open spec fn obeys_from_spec() -> bool {
        true
    }

    open spec fn from_spec(payload: &'a RustweavedMessagePayload) -> Self {
        RustweavedMessagePayloadType::spec_classify(*payload)
    }
}

} // verus!
