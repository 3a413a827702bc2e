//! The collision and interaction pass: once per tick, after movement, test
//! the player's fixed contact footprint against every collider entity, emit
//! one contact event per overlap, and look up the reaction of each
//! overlapped entity that carries a kind tag.
//!
//! Reactions fire on every tick of continued overlap: the pass is stateless,
//! so a contact that lasts n ticks reports n times.  The player's own row is
//! excluded from the scan.

use vstd::prelude::*;

use crate::config::{CONTACT_HALF, COORD_LIMIT};
use crate::entity::{reaction_for, reaction_for_spec, ContactEvent, Entity, Reaction};
use crate::geom::{overlaps_ints, Aabb};

verus! {

/// Whether the collider `e` overlaps a player centered at `(px, py)`, both
/// with the fixed square contact footprint.  False for non-colliders.
pub open spec fn in_contact(px: int, py: int, e: Entity) -> bool {
    &&& e.is_collider
    &&& overlaps_ints(
        px,
        py,
        CONTACT_HALF as int,
        CONTACT_HALF as int,
        e.x as int,
        e.y as int,
        CONTACT_HALF as int,
        CONTACT_HALF as int,
    )
}

/// How many entities of `s`, the row at `skip` excluded, are in contact with
/// a player at `(px, py)`.
pub open spec fn contact_count(s: Seq<Entity>, skip: int, px: int, py: int) -> nat
    decreases s.len(),
{
    if s.len() == 0 {
        0
    } else {
        let rest = contact_count(s.drop_last(), skip, px, py);
        if s.len() - 1 != skip && in_contact(px, py, s.last()) {
            rest + 1
        } else {
            rest
        }
    }
}

/// The reactions dispatched for a player at `(px, py)`: one per contacted
/// entity that carries a kind tag, in table order.
pub open spec fn reactions_of(s: Seq<Entity>, skip: int, px: int, py: int) -> Seq<Reaction>
    decreases s.len(),
{
    if s.len() == 0 {
        Seq::empty()
    } else {
        let rest = reactions_of(s.drop_last(), skip, px, py);
        if s.len() - 1 != skip && in_contact(px, py, s.last()) && s.last().kind is Some {
            rest.push(reaction_for_spec(s.last().kind->0))
        } else {
            rest
        }
    }
}

/// What one collision pass reports: one event per overlapping collider, and
/// the reactions of the overlapped entities that carry a kind tag.
#[derive(Clone, Debug, PartialEq, Eq)]
pub struct TickReport {
    pub contacts: Vec<ContactEvent>,
    pub reactions: Vec<Reaction>,
}

/// Scan every entity but the player's own row at index `player`, emit one
/// contact event per overlapping collider, and dispatch one reaction per
/// overlapped kind-tagged entity.
pub fn check_for_collisions(entities: &Vec<Entity>, player: usize, px: i64, py: i64) -> (r:
    TickReport)
    requires
        player < entities@.len(),
        forall|i: int| 0 <= i < entities@.len() ==> (#[trigger] entities@[i]).wf(),
        -COORD_LIMIT <= px <= COORD_LIMIT,
        -COORD_LIMIT <= py <= COORD_LIMIT,
    ensures
        r.contacts@.len() == contact_count(entities@, player as int, px as int, py as int),
        r.reactions@ == reactions_of(entities@, player as int, px as int, py as int),
{
    let mut contacts: Vec<ContactEvent> = Vec::new();
    let mut reactions: Vec<Reaction> = Vec::new();
    let player_box = Aabb { cx: px, cy: py, hx: CONTACT_HALF, hy: CONTACT_HALF };
    let mut j: usize = 0;
    while j < entities.len()
        invariant
            j <= entities@.len(),
            player < entities@.len(),
            forall|i: int| 0 <= i < entities@.len() ==> (#[trigger] entities@[i]).wf(),
            -COORD_LIMIT <= px <= COORD_LIMIT,
            -COORD_LIMIT <= py <= COORD_LIMIT,
            player_box == (Aabb { cx: px, cy: py, hx: CONTACT_HALF, hy: CONTACT_HALF }),
            contacts@.len() == contact_count(
                entities@.take(j as int),
                player as int,
                px as int,
                py as int,
            ),
            reactions@ == reactions_of(entities@.take(j as int), player as int, px as int, py as int),
        decreases entities@.len() - j,
    {
        let e = entities[j];
        if j != player && e.is_collider {
            let entity_box = Aabb { cx: e.x, cy: e.y, hx: CONTACT_HALF, hy: CONTACT_HALF };
            if player_box.overlaps(&entity_box) {
                contacts.push(ContactEvent);
                if let Some(kind) = e.kind {
                    reactions.push(reaction_for(&kind));
                }
            }
        }
        proof {
            assert(entities@.take(j + 1).drop_last() =~= entities@.take(j as int));
            assert(entities@.take(j + 1).last() == entities@[j as int]);
        }
        j = j + 1;
    }
    proof {
        assert(entities@.take(entities@.len() as int) =~= entities@);
    }
    TickReport { contacts, reactions }
}

} // verus!
