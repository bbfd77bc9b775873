use vstd::prelude::*;

verus! {

/// A node's position in a circuit.
#[derive(Debug, Clone, Copy, PartialEq, Eq, Structural)]
pub enum NodeType {
    /// Accepts circuits that clients originate.
    Entry,
    /// Forwards traffic between two hops.
    Middle,
    /// Terminates a circuit towards its destination.
    Exit,
    /// Forwards traffic without a fixed position.
    Relay,
}

} // verus!
