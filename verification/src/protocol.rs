//! Plain-data parts of the client/server protocol.
//!
//! The messages themselves (with their serialisation derives) are built by
//! the binaries; the library defines the pieces that carry no floating-point
//! data.

use vstd::prelude::*;

verus! {

/// Edge-triggered actions a client asks the server to perform.
#[derive(Clone, Copy, Debug, PartialEq, Eq, Structural)]
pub enum ActionKind {
    /// Melee AoE one-punch (server checks cooldown/range).
    Attack,
    /// Context action on the nearest plot: till -> plant -> water -> harvest.
    Farm,
    /// Gather resources from the nearest ready resource node.
    Gather,
    /// Craft recipe `id` if the inventory can pay for it.
    Craft(u8),
    /// Drink one Healing Draught to restore HP.
    Drink,
}

/// Snapshot of one gatherable resource node.
#[derive(Clone, Copy, Debug, PartialEq, Eq, Structural)]
pub struct NodeSnap {
    /// False while the node is depleted (regrowing after a gather).
    pub ready: bool,
}

} // verus!
