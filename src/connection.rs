use vstd::prelude::*;
use crate::addr::NodeAddr;
use crate::error::NodeError;

verus! {

/// One live peer connection: its address and the sink through which its
/// handler takes outbound messages.
pub struct ConnectionEntry<S> {
    pub peer: NodeAddr,
    pub sink: S,
}

/// The live connections of a node, keyed by peer address, up to a fixed
/// capacity.
pub struct ConnectionRegistry<S> {
    entries: Vec<ConnectionEntry<S>>,
    capacity: usize,
}

impl<S> View for ConnectionRegistry<S> {
    type V = Seq<NodeAddr>;

    /// The peer addresses, in order of registration.
    closed spec fn view(&self) -> Seq<NodeAddr> {
        self.entries@.map_values(|e: ConnectionEntry<S>| e.peer)
    }
}

impl<S> ConnectionRegistry<S> {
    /// The most connections the registry holds.
    pub closed spec fn capacity_spec(&self) -> nat {
        self.capacity as nat
    }

    /// The sink registered at position `i`.
    pub closed spec fn sink_at(&self, i: int) -> S {
        self.entries@[i].sink
    }

    /// Addresses are unique and their number within the capacity.
    pub open spec fn wf(&self) -> bool {
        &&& self@.no_duplicates()
        &&& self@.len() <= self.capacity_spec()
    }

    /// An empty registry that holds at most `capacity` connections.
    pub fn new(capacity: usize) -> (r: ConnectionRegistry<S>)
        ensures
            r.wf(),
            r@.len() == 0,
            r.capacity_spec() == capacity,
    {
        let r = ConnectionRegistry { entries: Vec::new(), capacity };
        assert(r@ =~= Seq::<NodeAddr>::empty());
        r
    }

    /// The most connections the registry holds.
    pub fn capacity(&self) -> (r: usize)
        ensures
            r == self.capacity_spec(),
    {
        self.capacity
    }

    /// Position of the connection to `peer`, if any.
    fn find(&self, peer: &NodeAddr) -> (r: Option<usize>)
        ensures
            r is None ==> !self@.contains(*peer),
            r is Some ==> r->0 < self@.len() && self@[r->0 as int] == *peer,
    {
        let mut i: usize = 0;
        while i < self.entries.len()
            invariant
                i <= self.entries@.len(),
                forall|k: int| 0 <= k < i ==> self@[k] != *peer,
            decreases self.entries@.len() - i,
        {
            if self.entries[i].peer == *peer {
                return Some(i);
            }
            i = i + 1;
        }
        None
    }

    /// Whether a connection to `peer` is registered.
    pub fn contains(&self, peer: &NodeAddr) -> (r: bool)
        ensures
            r == self@.contains(*peer),
    {
        self.find(peer).is_some()
    }

    /// Registers a connection to `peer`. A second connection to the same
    /// peer is rejected, not replaced, and so is any connection once the
    /// registry is full.
    pub fn insert(&mut self, peer: NodeAddr, sink: S) -> (r: Result<(), NodeError>)
        requires
            old(self).wf(),
        ensures
            final(self).wf(),
            final(self).capacity_spec() == old(self).capacity_spec(),
            insert_outcome(*old(self), peer, r, *final(self)),
            r is Err ==> *final(self) == *old(self),
            r is Ok ==> final(self).sink_at(old(self)@.len() as int) == sink,
            r is Ok ==> forall|i: int|
                0 <= i < old(self)@.len() ==> #[trigger] final(self).sink_at(i) == old(self).sink_at(i),
    {
        if self.contains(&peer) {
            return Err(NodeError::DuplicateConnection);
        }
        if self.entries.len() >= self.capacity {
            return Err(NodeError::CapacityExceeded);
        }
        let ghost pre = self@;
        self.entries.push(ConnectionEntry { peer, sink });
        assert(self@ =~= pre.push(peer));
        Ok(())
    }

    /// Drops the connection to `peer`, if registered; otherwise does
    /// nothing. Returns whether an entry was removed.
    pub fn remove(&mut self, peer: &NodeAddr) -> (r: bool)
        requires
            old(self).wf(),
        ensures
            final(self).wf(),
            final(self).capacity_spec() == old(self).capacity_spec(),
            r == old(self)@.contains(*peer),
            !final(self)@.contains(*peer),
            r ==> exists|i: int|
                0 <= i < old(self)@.len() && old(self)@[i] == *peer && final(self)@ == old(
                    self,
                )@.remove(i),
            !r ==> final(self)@ == old(self)@,
    {
        match self.find(peer) {
            None => false,
            Some(i) => {
                let ghost pre = self@;
                self.entries.remove(i);
                assert(self@ =~= pre.remove(i as int));
                assert forall|k: int| 0 <= k < self@.len() implies self@[k] != *peer by {
                    if k < i {
                        assert(pre[k] != pre[i as int]);
                    } else {
                        assert(self@[k] == pre[k + 1]);
                        assert(pre[k + 1] != pre[i as int]);
                    }
                }
                assert(self@.no_duplicates()) by {
                    assert forall|a: int, b: int|
                        0 <= a < self@.len() && 0 <= b < self@.len() && a != b implies self@[a]
                        != self@[b] by {
                        let pa = if a < i { a } else { a + 1 };
                        let pb = if b < i { b } else { b + 1 };
                        assert(self@[a] == pre[pa]);
                        assert(self@[b] == pre[pb]);
                    }
                }
                true
            },
        }
    }

    /// The sink through which a message reaches the handler of `peer`;
    /// `NotConnected` when no such connection is registered.
    pub fn sink_of(&self, peer: &NodeAddr) -> (r: Result<&S, NodeError>)
        requires
            self.wf(),
        ensures
            r is Err <==> !self@.contains(*peer),
            r is Err ==> r == Err::<&S, NodeError>(NodeError::NotConnected),
            r is Ok ==> exists|i: int|
                0 <= i < self@.len() && self@[i] == *peer && *r->Ok_0 == self.sink_at(i),
    {
        match self.find(peer) {
            None => Err(NodeError::NotConnected),
            Some(i) => {
                let r = &self.entries[i].sink;
                assert(self@[i as int] == *peer && *r == self.sink_at(i as int));
                Ok(r)
            },
        }
    }

    /// Drops every connection. Closing the sockets is left to their
    /// handlers.
    pub fn clear(&mut self)
        requires
            old(self).wf(),
        ensures
            final(self).wf(),
            final(self)@.len() == 0,
            final(self).capacity_spec() == old(self).capacity_spec(),
    {
        self.entries.clear();
        assert(self@ =~= Seq::<NodeAddr>::empty());
    }

    /// The number of registered connections.
    pub fn count(&self) -> (r: usize)
        ensures
            r == self@.len(),
    {
        self.entries.len()
    }
}

/// A full registry refuses one more peer and keeps its count.
pub proof fn lemma_full_registry_refuses<S>(
    a: ConnectionRegistry<S>,
    peer: NodeAddr,
    r: Result<(), NodeError>,
    b: ConnectionRegistry<S>,
)
    requires
        a.wf(),
        a@.len() == a.capacity_spec(),
        !a@.contains(peer),
        insert_outcome(a, peer, r, b),
    ensures
        r == Err::<(), NodeError>(NodeError::CapacityExceeded),
        b@.len() == a@.len(),
{
}

/// What `insert` guarantees of a call on `pre` that returned `r` and left
/// `post`.
pub open spec fn insert_outcome<S>(
    pre: ConnectionRegistry<S>,
    peer: NodeAddr,
    r: Result<(), NodeError>,
    post: ConnectionRegistry<S>,
) -> bool {
    &&& pre@.contains(peer) ==> r == Err::<(), NodeError>(NodeError::DuplicateConnection)
    &&& !pre@.contains(peer) && pre@.len() >= pre.capacity_spec() ==> r == Err::<
        (),
        NodeError,
    >(NodeError::CapacityExceeded)
    &&& r is Ok <==> !pre@.contains(peer) && pre@.len() < pre.capacity_spec()
    &&& r is Ok ==> post@ == pre@.push(peer)
    &&& r is Err ==> post@ == pre@
}

} // verus!
