use lightning_net::{ConfigIssue, NodeAddr, NodeConfig, NodeError, NodeType};

fn addr(port: u16) -> NodeAddr {
    NodeAddr::v4(127, 0, 0, 1, port)
}

#[test]
fn default_identity_is_unconfigured() {
    let c = NodeConfig::default();
    assert_eq!(c.node_id, "unconfigured");
    assert_eq!(c.listen_address, addr(0));
    assert_eq!(c.node_type, NodeType::Relay);
    assert_eq!(c.max_connections, 100);
    assert!(c.public_address.is_none());
    assert_eq!(c.storage_path.as_deref(), Some("./data"));
    assert_eq!(c.validate(), Err(NodeError::ConfigInvalid(ConfigIssue::UnconfiguredId)));
}

#[test]
fn unconfigured_id_fails_whatever_else_is_set() {
    let mut c = NodeConfig::new("unconfigured".to_string(), addr(9000), NodeType::Exit);
    c.max_connections = 0;
    c.storage_path = Some(String::new());
    c.public_address = Some(addr(9001));
    assert_eq!(c.validate(), Err(NodeError::ConfigInvalid(ConfigIssue::UnconfiguredId)));
}

#[test]
fn new_config_validates() {
    let c = NodeConfig::new("test-node".to_string(), addr(8080), NodeType::Entry);
    assert_eq!(c.validate(), Ok(()));
    assert_eq!(c.port(), 8080);
    assert!(!c.is_public());
    assert_eq!(c.max_connections, 100);
}

#[test]
fn zero_max_connections_rejected() {
    let mut c = NodeConfig::new("n".to_string(), addr(1), NodeType::Middle);
    c.max_connections = 0;
    assert_eq!(c.validate(), Err(NodeError::ConfigInvalid(ConfigIssue::ZeroMaxConnections)));
}

#[test]
fn empty_storage_path_rejected() {
    let mut c = NodeConfig::new("n".to_string(), addr(1), NodeType::Middle);
    c.storage_path = Some(String::new());
    assert_eq!(c.validate(), Err(NodeError::ConfigInvalid(ConfigIssue::EmptyStoragePath)));
    c.storage_path = None;
    assert_eq!(c.validate(), Ok(()));
}

#[test]
fn public_address_makes_node_public() {
    let mut c = NodeConfig::new("n".to_string(), addr(1), NodeType::Middle);
    c.public_address = Some(NodeAddr::v4(8, 8, 8, 8, 443));
    assert!(c.is_public());
}

#[test]
fn id_from_bytes_is_lowercase_hex() {
    let id = NodeConfig::id_from_bytes(&[0x00, 0x01, 0x02, 0xab, 0xcd, 0xef, 0x10, 0xff]);
    assert_eq!(id, "000102abcdef10ff");
}

#[test]
fn random_id_has_sixteen_hex_digits() {
    let id = NodeConfig::generate_random_id();
    assert_eq!(id.len(), 16);
    assert!(id.chars().all(|ch| ch.is_ascii_digit() || ('a'..='f').contains(&ch)));
}

#[test]
fn v4_address_packs_octets() {
    let a = NodeAddr::v4(127, 0, 0, 1, 80);
    assert_eq!(a.host, lightning_net::HostAddr::V4(0x7f00_0001));
    assert_eq!(a.with_port(81).port, 81);
}
