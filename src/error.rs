use vstd::prelude::*;

verus! {

/// Why a node's settings were rejected.
#[derive(Debug, Clone, Copy, PartialEq, Eq, Structural)]
pub enum ConfigIssue {
    /// The identifier still holds the placeholder of a default identity.
    UnconfiguredId,
    /// The connection limit is zero.
    ZeroMaxConnections,
    /// A storage path is set but empty.
    EmptyStoragePath,
}

/// Errors reported by the node and its registries.
#[derive(Debug, Clone, Copy, PartialEq, Eq, Structural)]
pub enum NodeError {
    /// `start` was called while the node was not stopped.
    AlreadyRunning,
    /// `stop` was called while the node was not running.
    AlreadyStopped,
    /// The listening socket could not be bound.
    BindFailure,
    /// An outbound connection could not be established.
    DialFailure,
    /// A connection to that peer is already registered.
    DuplicateConnection,
    /// The connection registry is full.
    CapacityExceeded,
    /// No connection to that peer is registered.
    NotConnected,
    /// No circuit with that identifier exists.
    UnknownCircuit,
    /// A circuit was asked for with no hops.
    EmptyRoute,
    /// Every circuit identifier of this running period has been handed out.
    CircuitIdsExhausted,
    /// A frame was malformed or carried an unknown tag.
    DecodeError,
    /// The node's settings are invalid.
    ConfigInvalid(ConfigIssue),
}

} // verus!
