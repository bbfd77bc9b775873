use vstd::prelude::*;
use crate::addr::{HostAddr, NodeAddr};
use crate::error::{ConfigIssue, NodeError};
pub use crate::types::NodeType;

verus! {

/// The identifier that a default identity carries until one is assigned.
pub open spec fn unconfigured_id() -> Seq<char> {
    "unconfigured"@
}

/// The lowercase hexadecimal digit for `n < 16`.
pub open spec fn hex_digit(n: u8) -> char {
    if n < 10 {
        ((n + 48) as u8) as char
    } else {
        ((n + 87) as u8) as char
    }
}

/// Two lowercase hexadecimal digits per byte, high nibble first.
pub open spec fn hex_lower(b: Seq<u8>) -> Seq<char>
    decreases b.len(),
{
    if b.len() == 0 {
        Seq::empty()
    } else {
        let last = b.last();
        hex_lower(b.drop_last()) + seq![hex_digit(last / 16), hex_digit(last % 16)]
    }
}

/// Relies on rand 0.8's `thread_rng().gen()`: eight bytes from the thread's
/// generator, of which nothing is known.
#[verifier::external_body]
fn random_bytes() -> (r: [u8; 8]) {
    rand::Rng::gen(&mut rand::thread_rng())
}

/// Relies on `hex::encode`: each byte becomes two lowercase hexadecimal
/// digits, high nibble first.
#[verifier::external_body]
fn encode_hex(b: &[u8]) -> (r: String)
    ensures
        r@ == hex_lower(b@),
{
    hex::encode(b)
}

/// Immutable settings of one node.
#[derive(Debug, Clone)]
pub struct NodeConfig {
    pub node_id: String,
    pub listen_address: NodeAddr,
    pub node_type: NodeType,
    pub max_connections: usize,
    pub public_address: Option<NodeAddr>,
    pub storage_path: Option<String>,
}

/// `127.0.0.1:0`: the loopback host with a port that the system picks.
pub open spec fn loopback_any_port() -> NodeAddr {
    NodeAddr { host: HostAddr::V4(0x7f00_0001), port: 0 }
}

/// The connection limit of a default identity.
pub const DEFAULT_MAX_CONNECTIONS: usize = 100;

impl NodeConfig {
    /// Whether these settings would be accepted by `validate`.
    pub open spec fn is_valid(&self) -> bool {
        self.check_spec() is Ok
    }

    /// What `validate` returns: the first failing rule, in the order
    /// identifier, connection limit, storage path.
    pub open spec fn check_spec(&self) -> Result<(), NodeError> {
        if self.node_id@ == unconfigured_id() {
            Err(NodeError::ConfigInvalid(ConfigIssue::UnconfiguredId))
        } else if self.max_connections == 0 {
            Err(NodeError::ConfigInvalid(ConfigIssue::ZeroMaxConnections))
        } else if self.storage_path is Some && self.storage_path->0@.len() == 0 {
            Err(NodeError::ConfigInvalid(ConfigIssue::EmptyStoragePath))
        } else {
            Ok(())
        }
    }

    /// Settings with the given identifier, address and role, and the
    /// defaults for the rest.
    pub fn new(node_id: String, listen_address: NodeAddr, node_type: NodeType) -> (r: NodeConfig)
        ensures
            r.node_id@ == node_id@,
            r.listen_address == listen_address,
            r.node_type == node_type,
            r.max_connections == DEFAULT_MAX_CONNECTIONS,
            r.public_address is None,
            r.storage_path is Some && r.storage_path->0@ == "./data"@,
    {
        let d = NodeConfig::default();
        NodeConfig { node_id, listen_address, node_type, ..d }
    }

    /// Whether a public address is set.
    pub fn is_public(&self) -> (r: bool)
        ensures
            r == self.public_address is Some,
    {
        self.public_address.is_some()
    }

    /// The port of the listening address.
    pub fn port(&self) -> (r: u16)
        ensures
            r == self.listen_address.port,
    {
        self.listen_address.port
    }

    /// The identifier for eight given bytes: their lowercase hexadecimal
    /// form.
    pub fn id_from_bytes(bytes: &[u8; 8]) -> (r: String)
        ensures
            r@ == hex_lower(bytes@),
    {
        encode_hex(bytes.as_slice())
    }

    /// A fresh identifier: sixteen lowercase hexadecimal digits of eight
    /// random bytes.
    pub fn generate_random_id() -> (r: String)
        ensures
            exists|b: Seq<u8>| b.len() == 8 && r@ == hex_lower(b),
    {
        let bytes = random_bytes();
        let r = Self::id_from_bytes(&bytes);
        assert(bytes@.len() == 8);
        r
    }

    /// Checks the settings: the identifier must have been assigned, the
    /// connection limit must be positive, and a storage path, when set,
    /// must not be empty.
    pub fn validate(&self) -> (r: Result<(), NodeError>)
        ensures
            r == self.check_spec(),
    {
        let placeholder = "unconfigured".to_string();
        proof {
            reveal_strlit("unconfigured");
        }
        if self.node_id == placeholder {
            return Err(NodeError::ConfigInvalid(ConfigIssue::UnconfiguredId));
        }
        if self.max_connections == 0 {
            return Err(NodeError::ConfigInvalid(ConfigIssue::ZeroMaxConnections));
        }
        match &self.storage_path {
            Some(path) => {
                if path.as_str().is_empty() {
                    return Err(NodeError::ConfigInvalid(ConfigIssue::EmptyStoragePath));
                }
            },
            None => {},
        }
        Ok(())
    }
}

impl Default for NodeConfig {
    /// The unconfigured identity: placeholder identifier, `127.0.0.1:0`,
    /// relay role, a limit of a hundred connections, no public address and
    /// storage under `./data`.
    fn default() -> (r: NodeConfig)
        ensures
            r.node_id@ == unconfigured_id(),
            r.listen_address == loopback_any_port(),
            r.node_type == NodeType::Relay,
            r.max_connections == DEFAULT_MAX_CONNECTIONS,
            r.public_address is None,
            r.storage_path is Some && r.storage_path->0@ == "./data"@,
    {
        NodeConfig {
            node_id: "unconfigured".to_string(),
            listen_address: NodeAddr { host: HostAddr::V4(0x7f00_0001), port: 0 },
            node_type: NodeType::Relay,
            max_connections: DEFAULT_MAX_CONNECTIONS,
            public_address: None,
            storage_path: Some("./data".to_string()),
        }
    }
}

/// A default identity is rejected for its placeholder identifier, whatever
/// else it holds.
pub proof fn lemma_unconfigured_is_invalid(c: NodeConfig)
    requires
        c.node_id@ == unconfigured_id(),
    ensures
        c.check_spec() == Err::<(), NodeError>(NodeError::ConfigInvalid(ConfigIssue::UnconfiguredId)),
        !c.is_valid(),
{
}

} // verus!
