//! Notification scopes and subscription commands.
//!
//! A client subscribes to a notification stream by sending a subscription
//! request built from a [`Scope`] (what to listen to) and a [`Command`]
//! (start or stop listening).

use vstd::prelude::*;

verus! {

/// Whether a subscription request starts or stops the notification stream.
#[derive(Clone, Copy, Debug, PartialEq, Eq, Structural)]
pub enum Command {
    Start,
    Stop,
}

/// Scope parameters for virtual-chain-changed notifications.
#[derive(Clone, Debug)]
pub struct VirtualChainChangedScope {
    pub include_accepted_transaction_ids: bool,
}

/// Scope parameters for UTXO-changed notifications: the watched addresses.
#[derive(Clone, Debug)]
pub struct UtxosChangedScope {
    pub addresses: Vec<String>,
}

/// The notification scopes a client can subscribe to.
#[derive(Clone, Debug)]
pub enum Scope {
    BlockAdded,
    NewBlockTemplate,
    VirtualChainChanged(VirtualChainChangedScope),
    FinalityConflict,
    FinalityConflictResolved,
    UtxosChanged(UtxosChangedScope),
    SinkBlueScoreChanged,
    VirtualDaaScoreChanged,
    PruningPointUtxoSetOverride,
}

} // verus!
