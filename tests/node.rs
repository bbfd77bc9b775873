use lightning_net::{LightningNode, NodeAddr, NodeConfig, NodeError, NodeState, NodeType};

fn node(max: usize) -> LightningNode<u32> {
    let mut c = NodeConfig::new("node-a".to_string(), NodeAddr::v4(127, 0, 0, 1, 0), NodeType::Entry);
    c.max_connections = max;
    LightningNode::new(c)
}

fn running(max: usize) -> LightningNode<u32> {
    let mut n = node(max);
    n.start().unwrap();
    n.finish_start(Some(NodeAddr::v4(127, 0, 0, 1, 40123))).unwrap();
    n
}

#[test]
fn second_start_fails_and_changes_nothing() {
    let mut n = node(10);
    assert_eq!(n.start(), Ok(()));
    assert_eq!(n.start(), Err(NodeError::AlreadyRunning));
    assert_eq!(n.state(), NodeState::Starting);
    n.finish_start(Some(NodeAddr::v4(127, 0, 0, 1, 5000))).unwrap();
    assert_eq!(n.start(), Err(NodeError::AlreadyRunning));
    assert_eq!(n.state(), NodeState::Running);
}

#[test]
fn stop_before_start_fails() {
    let mut n = node(10);
    assert_eq!(n.stop(), Err(NodeError::AlreadyStopped));
    assert_eq!(n.state(), NodeState::Stopped);
}

#[test]
fn port_zero_resolves_to_bound_port() {
    let n = running(10);
    assert_eq!(n.config().port(), 40123);
    assert!(n.get_status().is_running);
    assert_eq!(n.get_status().listen_address.port, 40123);
}

#[test]
fn failed_bind_returns_to_stopped() {
    let mut n = node(10);
    n.start().unwrap();
    assert_eq!(n.finish_start(None), Err(NodeError::BindFailure));
    assert_eq!(n.state(), NodeState::Stopped);
    n.start().unwrap();
    assert_eq!(n.finish_start(Some(NodeAddr::v4(127, 0, 0, 1, 0))), Err(NodeError::BindFailure));
}

#[test]
fn stop_clears_registries() {
    let mut n = running(10);
    n.register_connection(NodeAddr::v4(10, 0, 0, 1, 1), 1).unwrap();
    n.register_connection(NodeAddr::v4(10, 0, 0, 2, 1), 2).unwrap();
    n.create_circuit(vec![NodeAddr::v4(10, 0, 0, 1, 1)], 0).unwrap();
    let s = n.get_status();
    assert_eq!((s.connections, s.circuits), (2, 1));
    assert_eq!(n.stop(), Ok(()));
    assert_eq!(n.state(), NodeState::Stopping);
    n.finish_stop();
    let s = n.get_status();
    assert_eq!((s.connections, s.circuits), (0, 0));
    assert!(!s.is_running);
    assert_eq!(s.node_id, "node-a");
}

#[test]
fn dial_failure_leaves_connections_unchanged() {
    let mut n = running(10);
    let unreachable = NodeAddr::v4(10, 255, 255, 1, 9);
    assert_eq!(n.connect_to_node(&unreachable), Ok(()));
    assert_eq!(n.finish_connect(unreachable, None), Err(NodeError::DialFailure));
    assert_eq!(n.get_status().connections, 0);
    assert_eq!(n.finish_connect(unreachable, Some(3)), Ok(()));
    assert_eq!(n.connect_to_node(&unreachable), Err(NodeError::DuplicateConnection));
    assert_eq!(n.sink_of(&unreachable), Ok(&3));
}

#[test]
fn capacity_exceeded_keeps_count() {
    let mut n = running(2);
    n.register_connection(NodeAddr::v4(10, 0, 0, 1, 1), 1).unwrap();
    n.register_connection(NodeAddr::v4(10, 0, 0, 2, 1), 2).unwrap();
    let extra = NodeAddr::v4(10, 0, 0, 3, 1);
    assert_eq!(n.connect_to_node(&extra), Err(NodeError::CapacityExceeded));
    assert_eq!(n.register_connection(extra, 3), Err(NodeError::CapacityExceeded));
    assert_eq!(n.get_status().connections, 2);
}

#[test]
fn connect_requires_running_node() {
    let mut n = node(4);
    let p = NodeAddr::v4(10, 0, 0, 1, 1);
    assert_eq!(n.connect_to_node(&p), Err(NodeError::AlreadyStopped));
    assert_eq!(n.register_connection(p, 1), Err(NodeError::AlreadyStopped));
    assert_eq!(n.create_circuit(vec![p], 0), Err(NodeError::AlreadyStopped));
}

#[test]
fn connection_closed_drops_entry() {
    let mut n = running(4);
    let p = NodeAddr::v4(10, 0, 0, 1, 1);
    n.register_connection(p, 1).unwrap();
    assert!(n.connection_closed(&p));
    assert!(!n.connection_closed(&p));
    assert_eq!(n.sink_of(&p), Err(NodeError::NotConnected));
}

#[test]
fn circuits_through_node() {
    let mut n = running(4);
    let p = NodeAddr::v4(10, 0, 0, 1, 1);
    let id = n.create_circuit(vec![p], 9).unwrap();
    assert_eq!(n.create_circuit(vec![], 9), Err(NodeError::EmptyRoute));
    assert_eq!(n.mark_circuit_established(id), Ok(()));
    assert_eq!(n.mark_circuit_established(id), Ok(()));
    assert_eq!(n.circuits().is_established(id), Some(true));
    assert_eq!(n.mark_circuit_established(id + 1), Err(NodeError::UnknownCircuit));
}

#[test]
fn closing_one_connection_keeps_the_others() {
    let mut n = running(4);
    let a = NodeAddr::v4(10, 0, 0, 1, 1);
    let b = NodeAddr::v4(10, 0, 0, 2, 1);
    let c = NodeAddr::v4(10, 0, 0, 3, 1);
    n.register_connection(a, 1).unwrap();
    n.register_connection(b, 2).unwrap();
    n.register_connection(c, 3).unwrap();
    assert!(n.connection_closed(&b));
    assert_eq!(n.get_status().connections, 2);
    assert_eq!(n.sink_of(&a), Ok(&1));
    assert_eq!(n.sink_of(&c), Ok(&3));
    assert_eq!(n.get_status().state, NodeState::Running);
}

#[test]
fn successful_start_keeps_other_settings() {
    let mut c = NodeConfig::new("node-b".to_string(), NodeAddr::v4(127, 0, 0, 1, 0), NodeType::Exit);
    c.public_address = Some(NodeAddr::v4(8, 8, 4, 4, 443));
    let mut n: LightningNode<u32> = LightningNode::new(c);
    n.start().unwrap();
    n.finish_start(Some(NodeAddr::v4(127, 0, 0, 1, 41000))).unwrap();
    let cfg = n.config();
    assert_eq!(cfg.node_type, NodeType::Exit);
    assert_eq!(cfg.public_address, Some(NodeAddr::v4(8, 8, 4, 4, 443)));
    assert_eq!(cfg.storage_path.as_deref(), Some("./data"));
    assert_eq!(cfg.listen_address.port, 41000);
}

#[test]
fn failed_registration_on_connect_changes_nothing() {
    let mut n = running(1);
    let a = NodeAddr::v4(10, 0, 0, 1, 1);
    assert_eq!(n.finish_connect(a, Some(7)), Ok(()));
    assert_eq!(n.finish_connect(a, Some(8)), Err(NodeError::DuplicateConnection));
    assert_eq!(n.sink_of(&a), Ok(&7));
    let b = NodeAddr::v4(10, 0, 0, 2, 1);
    assert_eq!(n.finish_connect(b, Some(9)), Err(NodeError::CapacityExceeded));
    assert_eq!(n.get_status().connections, 1);
}

#[test]
fn circuit_ids_run_while_node_runs() {
    let mut n = running(4);
    let p = NodeAddr::v4(10, 0, 0, 1, 1);
    assert_eq!(n.create_circuit(vec![p], 0), Ok(0));
    assert_eq!(n.create_circuit(vec![p, p], 0), Ok(1));
}
