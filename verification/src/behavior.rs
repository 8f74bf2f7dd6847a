//! The behavior registry: one uniform capability set, dispatched by block
//! kind.
//!
//! Every kind answers the same five hooks — placement validity, placement
//! computation, scheduled tick, random tick and neighbor reaction — and a
//! kind that does not care inherits the default: placement always allowed,
//! the all-zero property state on placement, no-op ticks, and a neighbor
//! reaction that keeps the state.  The catalogue is closed, so dispatch is a
//! single match: constant time, built once, never ambient state.

use vstd::prelude::*;
use crate::bell::{bell_can_place_spec, bell_on_place_spec, BellBlock};
use crate::cactus::{
    cactus_can_place_spec, cactus_neighbor_update_rel, cactus_random_tick_rel,
    cactus_scheduled_tick_rel, CactusBlock,
};
use crate::codec::valid_digits;
use crate::geometry::{BlockDirection, BlockPos, HorizontalFacing};
use crate::registry::{encode_state, lemma_kind_schema, spec_encode, BlockKind, TOTAL_STATES};
use crate::toggle::{spec_toggle_flip, ToggleBlock};
use crate::world::{same_world, World};

verus! {

/// Structural placement legality of a kind at a position against a face.
/// The default is to allow; cactus and bell override it.
pub open spec fn spec_can_place_at(
    w: World,
    kind: BlockKind,
    pos: BlockPos,
    face: BlockDirection,
) -> bool {
    match kind {
        BlockKind::Cactus => cactus_can_place_spec(w, pos),
        BlockKind::Bell => bell_can_place_spec(w, pos, face),
        _ => true,
    }
}

/// Placement validity, dispatched by kind.  A pure predicate: the world is
/// only read.
pub fn dispatch_can_place_at(
    world: &World,
    kind: BlockKind,
    pos: BlockPos,
    face: BlockDirection,
) -> (r: bool)
    ensures
        r == spec_can_place_at(*world, kind, pos, face),
{
    match kind {
        BlockKind::Cactus => {
            let b = CactusBlock;
            b.can_place_at(world, pos, face)
        }
        BlockKind::Bell => {
            let b = BellBlock;
            b.can_place_at(world, pos, face)
        }
        _ => true,
    }
}

/// The all-zero property state of a kind: the default initial state on
/// placement.
pub open spec fn spec_default_state(kind: BlockKind) -> u64 {
    spec_encode(kind, Seq::new(kind.cards().len(), |i: int| 0u64))
}

/// Packs the all-zero property state of a kind.
pub fn default_state(kind: BlockKind) -> (r: u64)
    ensures
        r == spec_default_state(kind),
        r < TOTAL_STATES,
{
    let cards = kind.cards_exec();
    let mut zeros: Vec<u64> = Vec::new();
    let mut i: usize = 0;
    while i < cards.len()
        invariant
            cards@ == kind.cards(),
            i <= cards@.len(),
            zeros@.len() == i,
            forall|j: int| 0 <= j < i ==> zeros@[j] == 0u64,
        decreases cards@.len() - i,
    {
        zeros.push(0);
        i = i + 1;
    }
    proof {
        lemma_kind_schema(kind);
        assert(zeros@ =~= Seq::new(kind.cards().len(), |j: int| 0u64));
        assert(valid_digits(kind.cards(), zeros@));
    }
    encode_state(kind, &zeros)
}

/// The initial packed state a placement computes, dispatched by kind.  The
/// bell chooses facing and attachment from the placer and the surroundings;
/// every other kind starts from its all-zero property state.
pub open spec fn spec_on_place(
    w: World,
    kind: BlockKind,
    pos: BlockPos,
    face: BlockDirection,
    player_facing: HorizontalFacing,
) -> u64 {
    match kind {
        BlockKind::Bell => bell_on_place_spec(w, pos, face, player_facing),
        _ => spec_default_state(kind),
    }
}

/// Placement computation, dispatched by kind.  May inspect neighboring
/// states to choose a variant, never mutates them; callers establish
/// placement validity first.
pub fn dispatch_on_place(
    world: &World,
    kind: BlockKind,
    pos: BlockPos,
    face: BlockDirection,
    player_facing: HorizontalFacing,
) -> (r: u64)
    requires
        spec_can_place_at(*world, kind, pos, face),
    ensures
        r == spec_on_place(*world, kind, pos, face, player_facing),
{
    match kind {
        BlockKind::Bell => {
            let b = BellBlock;
            b.on_place(world, pos, face, player_facing)
        }
        _ => default_state(kind),
    }
}

/// Random tick, dispatched by kind.  Only the cactus reacts; every other
/// kind skips, and skipping is always safe.
pub fn dispatch_random_tick(world: &mut World, kind: BlockKind, pos: BlockPos)
    ensures
        kind == BlockKind::Cactus ==> cactus_random_tick_rel(*old(world), *final(world), pos),
        kind != BlockKind::Cactus ==> same_world(*final(world), *old(world)),
{
    match kind {
        BlockKind::Cactus => {
            let b = CactusBlock;
            b.random_tick(world, pos);
        }
        _ => {}
    }
}

/// Scheduled tick, dispatched by kind.  Only the cactus reacts: it
/// re-validates its placement and removes itself when the condition still
/// fails.
pub fn dispatch_on_scheduled_tick(world: &mut World, kind: BlockKind, pos: BlockPos)
    ensures
        kind == BlockKind::Cactus ==> cactus_scheduled_tick_rel(*old(world), *final(world), pos),
        kind != BlockKind::Cactus ==> same_world(*final(world), *old(world)),
        final(world).sched() == old(world).sched(),
        final(world).truncated() == old(world).truncated(),
        final(world).spec_next_seq() == old(world).spec_next_seq(),
{
    match kind {
        BlockKind::Cactus => {
            let b = CactusBlock;
            b.on_scheduled_tick(world, pos);
        }
        _ => {}
    }
}

/// Neighbor reaction, dispatched by kind.  The reaction never writes the
/// store and never records drops or truncations; it may only request ticks.
/// The cactus keeps its state and schedules a re-check when its placement
/// fails; the toggle asks for its bit to flip; everything else keeps its
/// state and does nothing.
pub fn dispatch_get_state_for_neighbor_update(
    world: &mut World,
    kind: BlockKind,
    state: u64,
    pos: BlockPos,
    direction: BlockDirection,
    neighbor_pos: BlockPos,
    neighbor_state: u64,
) -> (r: u64)
    ensures
        final(world).store() == old(world).store(),
        final(world).dropped() == old(world).dropped(),
        final(world).truncated() == old(world).truncated(),
        kind == BlockKind::Cactus ==> r == state && cactus_neighbor_update_rel(
            *old(world),
            *final(world),
            pos,
        ),
        kind == BlockKind::Toggle ==> r == spec_toggle_flip(state) && same_world(
            *final(world),
            *old(world),
        ),
        kind != BlockKind::Cactus && kind != BlockKind::Toggle ==> r == state && same_world(
            *final(world),
            *old(world),
        ),
{
    match kind {
        BlockKind::Cactus => {
            let b = CactusBlock;
            b.get_state_for_neighbor_update(world, state, pos, direction, neighbor_pos, neighbor_state)
        }
        BlockKind::Toggle => {
            let b = ToggleBlock;
            b.get_state_for_neighbor_update(state)
        }
        _ => state,
    }
}

} // verus!
