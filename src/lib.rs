//! Connection and circuit management for one node of a multi-hop overlay
//! network: node settings, the framed control-message protocol, the circuit
//! and connection registries, and the node's lifecycle state machine.
//!
//! Socket work (binding, accepting, dialing, reading and writing frames) is
//! done by the caller; this crate decides what each outcome means.

pub mod error;
pub mod types;
pub mod addr;
pub mod config;
pub mod circuit;
pub mod connection;
pub mod message;
pub mod node;

pub use addr::{HostAddr, NodeAddr};
pub use circuit::{Circuit, CircuitRegistry};
pub use config::NodeConfig;
pub use connection::ConnectionRegistry;
pub use error::{ConfigIssue, NodeError};
pub use message::NetworkMessage;
pub use node::{LightningNode, NodeState, NodeStatus};
pub use types::NodeType;
