use lightning_net::{CircuitRegistry, NodeAddr, NodeError};

fn hop(n: u8) -> NodeAddr {
    NodeAddr::v4(10, 0, 0, n, 9000)
}

#[test]
fn two_creates_give_distinct_ids() {
    let mut r = CircuitRegistry::new();
    let a = r.create(vec![hop(1), hop(2)], 5).unwrap();
    let b = r.create(vec![hop(3)], 6).unwrap();
    assert_ne!(a, b);
    assert_eq!((a, b), (0, 1));
    assert_eq!(r.count(), 2);
}

#[test]
fn empty_route_rejected() {
    let mut r = CircuitRegistry::new();
    assert_eq!(r.create(vec![], 1), Err(NodeError::EmptyRoute));
    assert_eq!(r.count(), 0);
}

#[test]
fn mark_established_twice_is_idempotent() {
    let mut r = CircuitRegistry::new();
    let id = r.create(vec![hop(1)], 0).unwrap();
    assert_eq!(r.is_established(id), Some(false));
    assert_eq!(r.mark_established(id), Ok(()));
    assert_eq!(r.mark_established(id), Ok(()));
    assert_eq!(r.is_established(id), Some(true));
}

#[test]
fn unknown_circuit_rejected() {
    let mut r = CircuitRegistry::new();
    assert_eq!(r.mark_established(7), Err(NodeError::UnknownCircuit));
    assert_eq!(r.remove(7), Err(NodeError::UnknownCircuit));
    assert_eq!(r.is_established(7), None);
}

#[test]
fn removed_ids_are_not_reused() {
    let mut r = CircuitRegistry::new();
    let a = r.create(vec![hop(1)], 0).unwrap();
    assert_eq!(r.remove(a), Ok(()));
    assert!(!r.contains(a));
    let b = r.create(vec![hop(2)], 0).unwrap();
    assert_ne!(a, b);
    r.clear();
    assert_eq!(r.count(), 0);
    let c = r.create(vec![hop(3)], 0).unwrap();
    assert_eq!(c, 2);
}

#[test]
fn get_returns_tracked_circuit() {
    let mut r = CircuitRegistry::new();
    let id = r.create(vec![hop(1), hop(2)], 77).unwrap();
    let c = r.get(id).unwrap();
    assert_eq!(c.id(), id);
    assert_eq!(c.route(), &vec![hop(1), hop(2)]);
    assert!(!c.is_established());
    assert_eq!(c.created_at(), 77);
    assert!(r.get(id + 1).is_none());
}
