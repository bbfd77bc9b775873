use vstd::prelude::*;
use crate::addr::NodeAddr;
use crate::error::NodeError;

verus! {

/// A circuit as the registry's contracts see it.
pub struct CircuitView {
    pub id: u32,
    pub route: Seq<NodeAddr>,
    pub established: bool,
    pub created_at: u64,
}

/// A logical multi-hop route and whether every hop has confirmed it.
#[derive(Debug, Clone)]
pub struct Circuit {
    id: u32,
    route: Vec<NodeAddr>,
    established: bool,
    created_at: u64,
}

impl View for Circuit {
    type V = CircuitView;

    closed spec fn view(&self) -> CircuitView {
        CircuitView {
            id: self.id,
            route: self.route@,
            established: self.established,
            created_at: self.created_at,
        }
    }
}

impl Circuit {
    pub fn id(&self) -> (r: u32)
        ensures
            r == self@.id,
    {
        self.id
    }

    pub fn route(&self) -> (r: &Vec<NodeAddr>)
        ensures
            r@ == self@.route,
    {
        &self.route
    }

    pub fn is_established(&self) -> (r: bool)
        ensures
            r == self@.established,
    {
        self.established
    }

    /// When the circuit was created, in the caller's time unit.
    pub fn created_at(&self) -> (r: u64)
        ensures
            r == self@.created_at,
    {
        self.created_at
    }
}

/// All circuits of one node, in order of creation, with the next identifier
/// to hand out.
pub struct CircuitRegistry {
    circuits: Vec<Circuit>,
    next_id: u32,
}

impl View for CircuitRegistry {
    type V = Seq<CircuitView>;

    closed spec fn view(&self) -> Seq<CircuitView> {
        self.circuits@.map_values(|c: Circuit| c@)
    }
}

/// The registry after `create` handed out `id` for `route`: the new circuit
/// comes last, unestablished, and the next identifier is one higher.
pub open spec fn created(
    pre: CircuitRegistry,
    route: Seq<NodeAddr>,
    at: u64,
    id: u32,
    post: CircuitRegistry,
) -> bool {
    &&& id == pre.next_id_spec()
    &&& post.next_id_spec() == pre.next_id_spec() + 1
    &&& post@ == pre@.push(CircuitView { id, route, established: false, created_at: at })
}

/// The registry after `mark_established(id)` succeeded: that circuit is
/// established and nothing else has changed.
pub open spec fn marked(pre: CircuitRegistry, id: u32, post: CircuitRegistry) -> bool {
    &&& pre.contains_spec(id)
    &&& post.next_id_spec() == pre.next_id_spec()
    &&& post@.len() == pre@.len()
    &&& forall|j: int|
        0 <= j < pre@.len() ==> #[trigger] post@[j] == (if pre@[j].id == id {
            CircuitView { established: true, ..pre@[j] }
        } else {
            pre@[j]
        })
}

impl CircuitRegistry {
    /// The identifier that the next `create` hands out.
    pub closed spec fn next_id_spec(&self) -> nat {
        self.next_id as nat
    }

    /// Identifiers increase strictly along the sequence and stay below the
    /// next one to hand out.
    pub open spec fn wf(&self) -> bool {
        &&& forall|i: int, j: int|
            0 <= i < j < self@.len() ==> (#[trigger] self@[i]).id < (#[trigger] self@[j]).id
        &&& forall|i: int| 0 <= i < self@.len() ==> (#[trigger] self@[i]).id < self.next_id_spec()
        &&& forall|i: int| 0 <= i < self@.len() ==> (#[trigger] self@[i]).route.len() > 0
    }

    /// Whether a circuit with this identifier is tracked.
    pub open spec fn contains_spec(&self, id: u32) -> bool {
        exists|i: int| 0 <= i < self@.len() && (#[trigger] self@[i]).id == id
    }

    /// An empty registry whose first identifier is zero.
    pub fn new() -> (r: CircuitRegistry)
        ensures
            r.wf(),
            r@.len() == 0,
            r.next_id_spec() == 0,
    {
        let r = CircuitRegistry { circuits: Vec::new(), next_id: 0 };
        assert(r@ =~= Seq::<CircuitView>::empty());
        r
    }

    /// Tracks a new, unestablished circuit over `route` and returns its
    /// identifier. An empty route is rejected, and so is a request once
    /// every identifier has been handed out.
    pub fn create(&mut self, route: Vec<NodeAddr>, created_at: u64) -> (r: Result<u32, NodeError>)
        requires
            old(self).wf(),
        ensures
            final(self).wf(),
            route@.len() == 0 ==> r == Err::<u32, NodeError>(NodeError::EmptyRoute),
            route@.len() > 0 && old(self).next_id_spec() == u32::MAX
                ==> r == Err::<u32, NodeError>(NodeError::CircuitIdsExhausted),
            route@.len() > 0 && old(self).next_id_spec() < u32::MAX ==> r is Ok,
            r is Ok ==> created(*old(self), route@, created_at, r->Ok_0, *final(self)),
            r is Err ==> *final(self) == *old(self),
    {
        if route.len() == 0 {
            return Err(NodeError::EmptyRoute);
        }
        if self.next_id == u32::MAX {
            return Err(NodeError::CircuitIdsExhausted);
        }
        let id = self.next_id;
        let ghost pre = *self;
        let c = Circuit { id, route, established: false, created_at };
        self.circuits.push(c);
        self.next_id = id + 1;
        assert(self@ =~= pre@.push(c@));
        Ok(id)
    }

    /// Index of the circuit with identifier `id`, if any.
    fn find(&self, id: u32) -> (r: Option<usize>)
        requires
            self.wf(),
        ensures
            r is None ==> !self.contains_spec(id),
            r is Some ==> r->0 < self@.len() && self@[r->0 as int].id == id,
    {
        let mut i: usize = 0;
        while i < self.circuits.len()
            invariant
                i <= self.circuits@.len(),
                forall|k: int| 0 <= k < i ==> (#[trigger] self@[k]).id != id,
            decreases self.circuits@.len() - i,
        {
            if self.circuits[i].id == id {
                return Some(i);
            }
            i = i + 1;
        }
        None
    }

    /// Whether a circuit with this identifier is tracked.
    pub fn contains(&self, id: u32) -> (r: bool)
        requires
            self.wf(),
        ensures
            r == self.contains_spec(id),
    {
        self.find(id).is_some()
    }

    /// The circuit with this identifier, if it is tracked.
    pub fn get(&self, id: u32) -> (r: Option<&Circuit>)
        requires
            self.wf(),
        ensures
            r is None <==> !self.contains_spec(id),
            r is Some ==> exists|i: int|
                0 <= i < self@.len() && (#[trigger] self@[i]).id == id && r->0@ == self@[i],
    {
        match self.find(id) {
            Some(i) => {
                let c = &self.circuits[i];
                assert(c@ == self@[i as int]);
                Some(c)
            },
            None => None,
        }
    }

    /// Whether the circuit with this identifier is established; `None` when
    /// it is not tracked.
    pub fn is_established(&self, id: u32) -> (r: Option<bool>)
        requires
            self.wf(),
        ensures
            r is None <==> !self.contains_spec(id),
            r is Some ==> exists|i: int|
                0 <= i < self@.len() && (#[trigger] self@[i]).id == id && self@[i].established
                    == r->0,
    {
        match self.find(id) {
            Some(i) => Some(self.circuits[i].established),
            None => None,
        }
    }

    /// Records that every hop of the circuit has confirmed it. Calling it
    /// again on an established circuit changes nothing.
    pub fn mark_established(&mut self, id: u32) -> (r: Result<(), NodeError>)
        requires
            old(self).wf(),
        ensures
            final(self).wf(),
            r is Ok <==> old(self).contains_spec(id),
            r is Ok ==> marked(*old(self), id, *final(self)),
            r is Err ==> r == Err::<(), NodeError>(NodeError::UnknownCircuit) && *final(self)
                == *old(self),
    {
        match self.find(id) {
            None => Err(NodeError::UnknownCircuit),
            Some(i) => {
                let ghost pre = *self;
                let mut c = self.circuits[i].clone_circuit();
                c.established = true;
                self.circuits.set(i, c);
                assert forall|j: int| 0 <= j < pre@.len() implies #[trigger] self@[j] == (if pre@[j].id == id {
                    CircuitView { established: true, ..pre@[j] }
                } else {
                    pre@[j]
                }) by {
                    if j != i {
                        assert(pre@[j].id != pre@[i as int].id);
                    }
                }
                Ok(())
            },
        }
    }

    /// Stops tracking the circuit with this identifier.
    pub fn remove(&mut self, id: u32) -> (r: Result<(), NodeError>)
        requires
            old(self).wf(),
        ensures
            final(self).wf(),
            final(self).next_id_spec() == old(self).next_id_spec(),
            r is Ok <==> old(self).contains_spec(id),
            r is Ok ==> exists|i: int|
                0 <= i < old(self)@.len() && (#[trigger] old(self)@[i]).id == id && final(self)@
                    == old(self)@.remove(i),
            r is Ok ==> !final(self).contains_spec(id),
            r is Err ==> r == Err::<(), NodeError>(NodeError::UnknownCircuit) && *final(self)
                == *old(self),
    {
        match self.find(id) {
            None => Err(NodeError::UnknownCircuit),
            Some(i) => {
                let ghost pre = *self;
                self.circuits.remove(i);
                assert(self@ =~= pre@.remove(i as int));
                assert forall|k: int| 0 <= k < self@.len() implies (#[trigger] self@[k]).id != id by {
                    if k < i {
                        assert(pre@[k].id < pre@[i as int].id);
                    } else {
                        assert(self@[k] == pre@[k + 1]);
                        assert(pre@[i as int].id < pre@[k + 1].id);
                    }
                }
                Ok(())
            },
        }
    }

    /// Stops tracking every circuit; identifiers already handed out are not
    /// handed out again.
    pub fn clear(&mut self)
        requires
            old(self).wf(),
        ensures
            final(self).wf(),
            final(self)@.len() == 0,
            final(self).next_id_spec() == old(self).next_id_spec(),
    {
        self.circuits.clear();
        assert(self@ =~= Seq::<CircuitView>::empty());
    }

    /// The number of tracked circuits.
    pub fn count(&self) -> (r: usize)
        ensures
            r == self@.len(),
    {
        self.circuits.len()
    }
}

impl Circuit {
    /// A copy of this circuit.
    pub fn clone_circuit(&self) -> (r: Circuit)
        ensures
            r@ == self@,
    {
        Circuit {
            id: self.id,
            route: self.route.clone(),
            established: self.established,
            created_at: self.created_at,
        }
    }
}

/// Two successive `create` calls hand out two different identifiers.
pub proof fn lemma_create_ids_distinct(
    a: CircuitRegistry,
    b: CircuitRegistry,
    c: CircuitRegistry,
    r1: Seq<NodeAddr>,
    r2: Seq<NodeAddr>,
    t1: u64,
    t2: u64,
    id1: u32,
    id2: u32,
)
    requires
        created(a, r1, t1, id1, b),
        created(b, r2, t2, id2, c),
    ensures
        id1 != id2,
        id1 < id2,
{
}

/// Marking a circuit established a second time succeeds and leaves it
/// established with nothing else changed.
pub proof fn lemma_mark_established_idempotent(
    a: CircuitRegistry,
    b: CircuitRegistry,
    c: CircuitRegistry,
    id: u32,
)
    requires
        a.wf(),
        marked(a, id, b),
    ensures
        b.contains_spec(id),
        marked(b, id, c) ==> c@ == b@,
        forall|i: int| 0 <= i < b@.len() && b@[i].id == id ==> (#[trigger] b@[i]).established,
{
    let i = choose|i: int| 0 <= i < a@.len() && (#[trigger] a@[i]).id == id;
    assert(b@[i].id == id);
    if marked(b, id, c) {
        assert forall|j: int| 0 <= j < b@.len() implies #[trigger] c@[j] == b@[j] by {
            if b@[j].id == id {
                assert(a@[j].id == id);
            }
        }
        assert(c@ =~= b@);
    }
}

} // verus!
