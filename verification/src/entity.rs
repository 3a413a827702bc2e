//! The entity table's row type, the kind tags of non-player actors, and the
//! per-kind interaction dispatch.

use vstd::prelude::*;

use crate::config::{COORD_LIMIT, HOUSE_X, HOUSE_Y};

verus! {

/// Discriminator for a non-player actor.  Adding a kind means adding a
/// variant here and a row to the dispatch in `reaction_for`; nothing in the
/// collision system changes.
#[derive(Clone, Copy, Debug, PartialEq, Eq, Structural)]
pub enum EntityKind {
    House,
    Boar,
}

/// The reaction an entity kind triggers when the player contacts it.
/// `NotYetHandled` is the explicit default for a kind with no registered
/// behaviour: a defined no-op for the simulation, visible to the host, never
/// a failure.
#[derive(Clone, Copy, Debug, PartialEq, Eq, Structural)]
pub enum Reaction {
    /// Ask the host to show a transient label naming `kind` at the given
    /// world position.
    SpawnLabel { kind: EntityKind, x: i64, y: i64 },
    /// No behaviour is registered for the kind yet.
    NotYetHandled,
}

/// The dispatch table: which reaction each kind triggers on contact.
pub open spec fn reaction_for_spec(kind: EntityKind) -> Reaction {
    match kind {
        EntityKind::House => Reaction::SpawnLabel { kind: EntityKind::House, x: HOUSE_X, y: HOUSE_Y },
        EntityKind::Boar => Reaction::NotYetHandled,
    }
}

/// Look the kind up in the dispatch table.
pub fn reaction_for(kind: &EntityKind) -> (r: Reaction)
    ensures
        r == reaction_for_spec(*kind),
{
    match kind {
        EntityKind::House => Reaction::SpawnLabel { kind: EntityKind::House, x: HOUSE_X, y: HOUSE_Y },
        EntityKind::Boar => Reaction::NotYetHandled,
    }
}

/// The transient per-tick signal that the player overlapped some collider.
/// It carries no payload and is not kept across ticks.
#[derive(Clone, Copy, Debug, PartialEq, Eq, Structural)]
pub struct ContactEvent;

/// One row of the entity table: a position, an optional hit-point count, a
/// collider flag, an optional kind tag, and the player mark.  A row's index
/// in the table is its identity; rows are created at setup and never removed.
#[derive(Clone, Copy, Debug, PartialEq, Eq)]
pub struct Entity {
    pub x: i64,
    pub y: i64,
    pub health: Option<u32>,
    pub is_collider: bool,
    pub kind: Option<EntityKind>,
    pub is_player: bool,
}

impl Entity {
    /// Position within the coordinate limit.
    pub open spec fn wf(self) -> bool {
        &&& -COORD_LIMIT <= self.x <= COORD_LIMIT
        &&& -COORD_LIMIT <= self.y <= COORD_LIMIT
    }
}

} // verus!
