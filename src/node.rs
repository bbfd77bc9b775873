use vstd::prelude::*;
use crate::addr::NodeAddr;
use crate::circuit::{CircuitRegistry, CircuitView, created, marked};
use crate::config::NodeConfig;
use crate::connection::ConnectionRegistry;
use crate::error::NodeError;
use crate::types::NodeType;

verus! {

/// Where a node is in its lifecycle.
#[derive(Debug, Clone, Copy, PartialEq, Eq, Structural)]
pub enum NodeState {
    Stopped,
    Starting,
    Running,
    Stopping,
}

/// A snapshot of a node's state.
#[derive(Debug, Clone)]
pub struct NodeStatus {
    pub node_id: String,
    pub is_running: bool,
    pub state: NodeState,
    pub connections: usize,
    pub circuits: usize,
    pub node_type: NodeType,
    pub listen_address: NodeAddr,
}

/// One overlay node: its settings, its connection and circuit registries
/// and its lifecycle state.
///
/// The node decides; its caller does the socket work. `start` and
/// `finish_start` bracket binding the listener, `stop` and `finish_stop`
/// bracket cancelling the tasks, `connect_to_node` and `finish_connect`
/// bracket dialing a peer.
pub struct LightningNode<S> {
    config: NodeConfig,
    connections: ConnectionRegistry<S>,
    circuits: CircuitRegistry,
    state: NodeState,
}

impl<S> LightningNode<S> {
    pub closed spec fn state_spec(&self) -> NodeState {
        self.state
    }

    pub closed spec fn config_spec(&self) -> NodeConfig {
        self.config
    }

    pub closed spec fn connections_spec(&self) -> ConnectionRegistry<S> {
        self.connections
    }

    pub closed spec fn circuits_spec(&self) -> CircuitRegistry {
        self.circuits
    }

    /// The peers that the node is connected to.
    pub open spec fn peers(&self) -> Seq<NodeAddr> {
        self.connections_spec()@
    }

    /// The circuits that the node tracks.
    pub open spec fn circuit_list(&self) -> Seq<CircuitView> {
        self.circuits_spec()@
    }

    /// Both registries are well formed, the connection limit is the one
    /// configured, and registries hold nothing while the node is stopped.
    pub open spec fn wf(&self) -> bool {
        &&& self.connections_spec().wf()
        &&& self.circuits_spec().wf()
        &&& self.connections_spec().capacity_spec() == self.config_spec().max_connections
        &&& self.state_spec() == NodeState::Stopped ==> self.peers().len() == 0
            && self.circuit_list().len() == 0
    }

    /// A stopped node with empty registries.
    pub fn new(config: NodeConfig) -> (r: LightningNode<S>)
        ensures
            r.wf(),
            r.state_spec() == NodeState::Stopped,
            r.config_spec() == config,
            r.peers().len() == 0,
            r.circuit_list().len() == 0,
    {
        let cap = config.max_connections;
        LightningNode {
            config,
            connections: ConnectionRegistry::new(cap),
            circuits: CircuitRegistry::new(),
            state: NodeState::Stopped,
        }
    }

    /// The node's settings.
    pub fn config(&self) -> (r: &NodeConfig)
        ensures
            *r == self.config_spec(),
    {
        &self.config
    }

    /// The node's lifecycle state.
    pub fn state(&self) -> (r: NodeState)
        ensures
            r == self.state_spec(),
    {
        self.state
    }

    /// Begins starting a stopped node; the caller then binds the listener
    /// and reports the outcome to `finish_start`. Fails with
    /// `AlreadyRunning`, changing nothing, in any other state.
    pub fn start(&mut self) -> (r: Result<(), NodeError>)
        requires
            old(self).wf(),
        ensures
            final(self).wf(),
            start_outcome(*old(self), r, *final(self)),
    {
        if self.state != NodeState::Stopped {
            return Err(NodeError::AlreadyRunning);
        }
        self.state = NodeState::Starting;
        Ok(())
    }

    /// Completes a start with the address that the listener was bound to,
    /// or `None` when binding failed. On success the node runs and listens
    /// on `bound`, whose port is never zero; otherwise it is stopped again
    /// with `BindFailure`. A bound address with port zero, or with another
    /// port than a nonzero one configured, counts as a failed bind.
    pub fn finish_start(&mut self, bound: Option<NodeAddr>) -> (r: Result<(), NodeError>)
        requires
            old(self).wf(),
            old(self).state_spec() == NodeState::Starting,
        ensures
            final(self).wf(),
            r is Ok <==> bound is Some && bound->0.port != 0 && (old(self).config_spec().listen_address.port == 0 || bound->0.port == old(self).config_spec().listen_address.port),
            r is Ok ==> final(self).state_spec() == NodeState::Running && final(self).config_spec()
                == (NodeConfig { listen_address: bound->0, ..old(self).config_spec() }) && final(self).peers() == old(self).peers()
                && final(self).circuit_list() == old(self).circuit_list(),
            r is Err ==> r == Err::<(), NodeError>(NodeError::BindFailure) && final(self).state_spec()
                == NodeState::Stopped && final(self).config_spec() == old(self).config_spec(),
            final(self).config_spec().node_id == old(self).config_spec().node_id,
            final(self).config_spec().max_connections == old(self).config_spec().max_connections,
    {
        match bound {
            Some(addr) => {
                let wanted = self.config.listen_address.port;
                if addr.port != 0 && (wanted == 0 || addr.port == wanted) {
                    self.config.listen_address = addr;
                    self.state = NodeState::Running;
                    Ok(())
                } else {
                    self.abandon_start();
                    Err(NodeError::BindFailure)
                }
            },
            None => {
                self.abandon_start();
                Err(NodeError::BindFailure)
            },
        }
    }

    fn abandon_start(&mut self)
        requires
            old(self).wf(),
        ensures
            final(self).wf(),
            final(self).state_spec() == NodeState::Stopped,
            final(self).config_spec() == old(self).config_spec(),
    {
        self.connections.clear();
        self.circuits.clear();
        self.state = NodeState::Stopped;
    }

    /// Begins stopping a running node; the caller then cancels the accept
    /// task and every handler, waits for them, and calls `finish_stop`.
    /// Fails with `AlreadyStopped`, changing nothing, in any other state.
    pub fn stop(&mut self) -> (r: Result<(), NodeError>)
        requires
            old(self).wf(),
        ensures
            final(self).wf(),
            stop_outcome(*old(self), r, *final(self)),
    {
        if self.state != NodeState::Running {
            return Err(NodeError::AlreadyStopped);
        }
        self.state = NodeState::Stopping;
        Ok(())
    }

    /// Completes a stop once no handler can touch the registries: drops
    /// every connection and circuit and leaves the node stopped.
    pub fn finish_stop(&mut self)
        requires
            old(self).wf(),
            old(self).state_spec() == NodeState::Stopping,
        ensures
            final(self).wf(),
            stopped(*final(self)),
            final(self).config_spec() == old(self).config_spec(),
    {
        self.connections.clear();
        self.circuits.clear();
        self.state = NodeState::Stopped;
    }

    /// Checks that an outbound connection to `address` may be dialed: the
    /// node must be running and not yet connected to that peer, and the
    /// registry must have room. The caller dials only on `Ok` and reports
    /// the outcome to `finish_connect`.
    pub fn connect_to_node(&self, address: &NodeAddr) -> (r: Result<(), NodeError>)
        requires
            self.wf(),
        ensures
            self.state_spec() != NodeState::Running ==> r == Err::<(), NodeError>(
                NodeError::AlreadyStopped,
            ),
            self.state_spec() == NodeState::Running && self.peers().contains(*address) ==> r
                == Err::<(), NodeError>(NodeError::DuplicateConnection),
            self.state_spec() == NodeState::Running && !self.peers().contains(*address)
                && self.peers().len() >= self.config_spec().max_connections ==> r == Err::<
                (),
                NodeError,
            >(NodeError::CapacityExceeded),
            r is Ok <==> self.state_spec() == NodeState::Running && !self.peers().contains(*address) && self.peers().len() < self.config_spec().max_connections,
    {
        if self.state != NodeState::Running {
            return Err(NodeError::AlreadyStopped);
        }
        if self.connections.contains(address) {
            return Err(NodeError::DuplicateConnection);
        }
        if self.connections.count() >= self.connections.capacity() {
            return Err(NodeError::CapacityExceeded);
        }
        Ok(())
    }

    /// Registers a connection that the node accepted or dialed, with the
    /// sink of its handler. Fails with `AlreadyStopped` unless the node is
    /// running, and otherwise as the registry's `insert` does.
    pub fn register_connection(&mut self, peer: NodeAddr, sink: S) -> (r: Result<(), NodeError>)
        requires
            old(self).wf(),
        ensures
            final(self).wf(),
            final(self).state_spec() == old(self).state_spec(),
            final(self).config_spec() == old(self).config_spec(),
            final(self).circuit_list() == old(self).circuit_list(),
            old(self).state_spec() != NodeState::Running ==> r == Err::<(), NodeError>(
                NodeError::AlreadyStopped,
            ),
            old(self).state_spec() == NodeState::Running && old(self).peers().contains(peer) ==> r
                == Err::<(), NodeError>(NodeError::DuplicateConnection),
            old(self).state_spec() == NodeState::Running && !old(self).peers().contains(peer) && old(self).peers().len() >= old(self).config_spec().max_connections ==> r == Err::<
                (),
                NodeError,
            >(NodeError::CapacityExceeded),
            r is Ok <==> old(self).state_spec() == NodeState::Running && !old(self).peers().contains(peer) && old(self).peers().len() < old(self).config_spec().max_connections,
            r is Ok ==> final(self).peers() == old(self).peers().push(peer),
            r is Ok ==> final(self).connections_spec().sink_at(old(self).peers().len() as int)
                == sink,
            r is Ok ==> forall|i: int|
                0 <= i < old(self).peers().len() ==> #[trigger] final(self).connections_spec().sink_at(i)
                    == old(self).connections_spec().sink_at(i),
            r is Err ==> *final(self) == *old(self),
    {
        if self.state != NodeState::Running {
            return Err(NodeError::AlreadyStopped);
        }
        self.connections.insert(peer, sink)
    }

    /// Completes an outbound connect with the handler's sink, or `None`
    /// when the dial failed, which gives `DialFailure` and changes nothing.
    pub fn finish_connect(&mut self, address: NodeAddr, dialed: Option<S>) -> (r: Result<
        (),
        NodeError,
    >)
        requires
            old(self).wf(),
        ensures
            final(self).wf(),
            final(self).state_spec() == old(self).state_spec(),
            final(self).config_spec() == old(self).config_spec(),
            final(self).circuit_list() == old(self).circuit_list(),
            dialed is None ==> r == Err::<(), NodeError>(NodeError::DialFailure) && *final(self)
                == *old(self),
            dialed is Some && old(self).state_spec() != NodeState::Running ==> r == Err::<
                (),
                NodeError,
            >(NodeError::AlreadyStopped),
            dialed is Some && old(self).state_spec() == NodeState::Running && old(self).peers().contains(address) ==> r
                == Err::<(), NodeError>(NodeError::DuplicateConnection),
            dialed is Some && old(self).state_spec() == NodeState::Running && !old(self).peers().contains(address) && old(self).peers().len() >= old(self).config_spec().max_connections ==> r == Err::<
                (),
                NodeError,
            >(NodeError::CapacityExceeded),
            dialed is Some ==> (r is Ok <==> old(self).state_spec() == NodeState::Running && !old(self).peers().contains(address) && old(self).peers().len() < old(self).config_spec().max_connections),
            r is Ok ==> final(self).peers() == old(self).peers().push(address),
            r is Ok ==> dialed is Some && final(self).connections_spec().sink_at(
                old(self).peers().len() as int,
            ) == dialed->0,
            r is Ok ==> forall|i: int|
                0 <= i < old(self).peers().len() ==> #[trigger] final(self).connections_spec().sink_at(i)
                    == old(self).connections_spec().sink_at(i),
            r is Err ==> *final(self) == *old(self),
    {
        match dialed {
            None => Err(NodeError::DialFailure),
            Some(sink) => self.register_connection(address, sink),
        }
    }

    /// Drops the connection to `peer` after its handler ended; does nothing
    /// when it is not registered.
    pub fn connection_closed(&mut self, peer: &NodeAddr) -> (r: bool)
        requires
            old(self).wf(),
        ensures
            final(self).wf(),
            final(self).state_spec() == old(self).state_spec(),
            final(self).config_spec() == old(self).config_spec(),
            final(self).circuit_list() == old(self).circuit_list(),
            r == old(self).peers().contains(*peer),
            !final(self).peers().contains(*peer),
            !r ==> final(self).peers() == old(self).peers(),
            r ==> exists|i: int|
                0 <= i < old(self).peers().len() && old(self).peers()[i] == *peer && final(self).peers() == old(self).peers().remove(i),
            final(self).peers().len() == old(self).peers().len() - (if r { 1int } else { 0int }),
    {
        self.connections.remove(peer)
    }

    /// The sink of the handler of `peer`, through which messages reach it.
    pub fn sink_of(&self, peer: &NodeAddr) -> (r: Result<&S, NodeError>)
        requires
            self.wf(),
        ensures
            r is Err <==> !self.peers().contains(*peer),
            r is Err ==> r == Err::<&S, NodeError>(NodeError::NotConnected),
            r is Ok ==> exists|i: int|
                0 <= i < self.peers().len() && self.peers()[i] == *peer && *r->Ok_0
                    == self.connections_spec().sink_at(i),
    {
        self.connections.sink_of(peer)
    }

    /// Creates a circuit over `route` while the node runs; fails with
    /// `AlreadyStopped` otherwise, and as the registry's `create` does.
    pub fn create_circuit(&mut self, route: Vec<NodeAddr>, created_at: u64) -> (r: Result<
        u32,
        NodeError,
    >)
        requires
            old(self).wf(),
        ensures
            final(self).wf(),
            final(self).state_spec() == old(self).state_spec(),
            final(self).config_spec() == old(self).config_spec(),
            final(self).peers() == old(self).peers(),
            old(self).state_spec() != NodeState::Running ==> r == Err::<u32, NodeError>(
                NodeError::AlreadyStopped,
            ),
            old(self).state_spec() == NodeState::Running && route@.len() == 0 ==> r == Err::<
                u32,
                NodeError,
            >(NodeError::EmptyRoute),
            old(self).state_spec() == NodeState::Running && route@.len() > 0 && old(self).circuits_spec().next_id_spec() == u32::MAX ==> r == Err::<u32, NodeError>(
                NodeError::CircuitIdsExhausted,
            ),
            old(self).state_spec() == NodeState::Running && route@.len() > 0 && old(self).circuits_spec().next_id_spec() < u32::MAX ==> r is Ok,
            r is Ok ==> created(
                old(self).circuits_spec(),
                route@,
                created_at,
                r->Ok_0,
                final(self).circuits_spec(),
            ),
            r is Err ==> final(self).circuits_spec() == old(self).circuits_spec(),
    {
        if self.state != NodeState::Running {
            return Err(NodeError::AlreadyStopped);
        }
        self.circuits.create(route, created_at)
    }

    /// Marks a circuit established; `UnknownCircuit` when it is not
    /// tracked.
    pub fn mark_circuit_established(&mut self, id: u32) -> (r: Result<(), NodeError>)
        requires
            old(self).wf(),
        ensures
            final(self).wf(),
            final(self).state_spec() == old(self).state_spec(),
            final(self).config_spec() == old(self).config_spec(),
            final(self).peers() == old(self).peers(),
            r is Ok <==> old(self).circuits_spec().contains_spec(id),
            r is Ok ==> marked(old(self).circuits_spec(), id, final(self).circuits_spec()),
            r is Err ==> r == Err::<(), NodeError>(NodeError::UnknownCircuit)
                && final(self).circuits_spec() == old(self).circuits_spec(),
    {
        self.circuits.mark_established(id)
    }

    /// The node's circuits.
    pub fn circuits(&self) -> (r: &CircuitRegistry)
        ensures
            *r == self.circuits_spec(),
    {
        &self.circuits
    }

    /// A snapshot of identifier, state, registry sizes, role and address.
    pub fn get_status(&self) -> (r: NodeStatus)
        ensures
            r.node_id@ == self.config_spec().node_id@,
            r.state == self.state_spec(),
            r.is_running == (self.state_spec() == NodeState::Running),
            r.connections == self.peers().len(),
            r.circuits == self.circuit_list().len(),
            r.node_type == self.config_spec().node_type,
            r.listen_address == self.config_spec().listen_address,
    {
        NodeStatus {
            node_id: self.config.node_id.clone(),
            is_running: self.state == NodeState::Running,
            state: self.state,
            connections: self.connections.count(),
            circuits: self.circuits.count(),
            node_type: self.config.node_type,
            listen_address: self.config.listen_address,
        }
    }
}

/// What `start` does: a stopped node starts, any other is left unchanged
/// with `AlreadyRunning`.
pub open spec fn start_outcome<S>(
    pre: LightningNode<S>,
    r: Result<(), NodeError>,
    post: LightningNode<S>,
) -> bool {
    if pre.state_spec() == NodeState::Stopped {
        &&& r is Ok
        &&& post.state_spec() == NodeState::Starting
        &&& post.config_spec() == pre.config_spec()
        &&& post.peers() == pre.peers()
        &&& post.circuit_list() == pre.circuit_list()
    } else {
        r == Err::<(), NodeError>(NodeError::AlreadyRunning) && post == pre
    }
}

/// What `stop` does: a running node begins stopping, any other is left
/// unchanged with `AlreadyStopped`.
pub open spec fn stop_outcome<S>(
    pre: LightningNode<S>,
    r: Result<(), NodeError>,
    post: LightningNode<S>,
) -> bool {
    if pre.state_spec() == NodeState::Running {
        &&& r is Ok
        &&& post.state_spec() == NodeState::Stopping
        &&& post.config_spec() == pre.config_spec()
        &&& post.peers() == pre.peers()
        &&& post.circuit_list() == pre.circuit_list()
    } else {
        r == Err::<(), NodeError>(NodeError::AlreadyStopped) && post == pre
    }
}

/// A node whose stop has completed: stopped, with no connection and no
/// circuit.
pub open spec fn stopped<S>(n: LightningNode<S>) -> bool {
    &&& n.state_spec() == NodeState::Stopped
    &&& n.peers().len() == 0
    &&& n.circuit_list().len() == 0
}

/// A second `start` right after a first fails with `AlreadyRunning` and
/// changes nothing.
pub proof fn lemma_start_twice<S>(
    a: LightningNode<S>,
    r1: Result<(), NodeError>,
    b: LightningNode<S>,
    r2: Result<(), NodeError>,
    c: LightningNode<S>,
)
    requires
        start_outcome(a, r1, b),
        start_outcome(b, r2, c),
    ensures
        r2 == Err::<(), NodeError>(NodeError::AlreadyRunning),
        c == b,
{
}

/// `stop` on a node that was never started fails with `AlreadyStopped`.
pub proof fn lemma_stop_before_start<S>(
    a: LightningNode<S>,
    r: Result<(), NodeError>,
    b: LightningNode<S>,
)
    requires
        a.state_spec() == NodeState::Stopped,
        stop_outcome(a, r, b),
    ensures
        r == Err::<(), NodeError>(NodeError::AlreadyStopped),
        b == a,
{
}

/// Once a stop has completed the node reports no connection and no
/// circuit, whatever it held before.
pub proof fn lemma_status_after_stop<S>(n: LightningNode<S>)
    requires
        stopped(n),
    ensures
        n.connections_spec()@.len() == 0,
        n.circuits_spec()@.len() == 0,
{
}

} // verus!
