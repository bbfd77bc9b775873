use lightning_net::{ConnectionRegistry, NodeAddr, NodeError};

fn peer(n: u8) -> NodeAddr {
    NodeAddr::v4(192, 168, 1, n, 7000)
}

#[test]
fn full_registry_refuses_one_more() {
    let mut r: ConnectionRegistry<u32> = ConnectionRegistry::new(3);
    for i in 0..3u8 {
        assert_eq!(r.insert(peer(i), i as u32), Ok(()));
    }
    assert_eq!(r.insert(peer(9), 9), Err(NodeError::CapacityExceeded));
    assert_eq!(r.count(), 3);
}

#[test]
fn duplicate_peer_rejected_not_replaced() {
    let mut r: ConnectionRegistry<u32> = ConnectionRegistry::new(4);
    assert_eq!(r.insert(peer(1), 10), Ok(()));
    assert_eq!(r.insert(peer(1), 20), Err(NodeError::DuplicateConnection));
    assert_eq!(r.sink_of(&peer(1)), Ok(&10));
}

#[test]
fn remove_and_not_connected() {
    let mut r: ConnectionRegistry<u32> = ConnectionRegistry::new(4);
    r.insert(peer(1), 1).unwrap();
    r.insert(peer(2), 2).unwrap();
    assert!(r.remove(&peer(1)));
    assert!(!r.remove(&peer(1)));
    assert_eq!(r.sink_of(&peer(1)), Err(NodeError::NotConnected));
    assert_eq!(r.sink_of(&peer(2)), Ok(&2));
    r.clear();
    assert_eq!(r.count(), 0);
    assert_eq!(r.capacity(), 4);
}
