//! The world mutation service and the neighbor-update propagator.
//!
//! Every external mutation of block state enters through [`set_block_state`]
//! or [`break_block`]; no component writes the store directly.  A mutation
//! whose flags ask for neighbor notification hands off to the propagator,
//! which walks the six adjacent positions in a fixed order, asks each
//! neighbor's behavior for its reaction, and applies a changed answer
//! recursively — carrying an explicit depth budget, so that cyclic
//! configurations (two blocks that each reconfigure in response to the other)
//! terminate by construction.  A branch that reaches the bound stops
//! conservatively and is counted, never an error.
//!
//! The whole cascade is specified, not just performed: [`set_state_model`]
//! maps the world model before a mutation to the model after it, step for
//! step — the binding written, then for each direction the neighbor's
//! reaction and its recursive application under a budget one smaller, or the
//! truncation count raised when the budget is spent.  [`set_block_state`]
//! promises exactly that function's value, and [`break_block`] the same with
//! the drop record on top ([`break_model`]).

use vstd::prelude::*;
use crate::behavior::dispatch_get_state_for_neighbor_update;
use crate::cactus::cactus_reaction_model;
use crate::geometry::{all_directions, spec_all_directions, BlockPos};
use crate::registry::{BlockKind, AIR_STATE};
use crate::toggle::spec_toggle_flip;
use crate::world::{kind_at_map, saturating_inc, World, WorldModel};

verus! {

/// How many cascaded reconfigurations one mutation may trigger along a
/// single propagation branch before the branch is truncated.
pub const PROPAGATION_DEPTH: u64 = 8;

/// Independent, orthogonal switches a mutation carries.
#[derive(Clone, Copy, PartialEq, Eq, Debug, Structural)]
pub struct BlockFlags {
    /// Hand the mutation to the neighbor-update propagator.
    pub notify_neighbors: bool,
    /// Suppress the item-drop side effect when a block is replaced.
    pub skip_drops: bool,
    /// Displace entities occupying the new solid volume.  Entity handling is
    /// a collaborator outside this core, so the switch is carried through
    /// and has no effect here.
    pub move_entities: bool,
}

impl BlockFlags {
    /// All switches off.
    pub open spec fn spec_empty() -> BlockFlags {
        BlockFlags { notify_neighbors: false, skip_drops: false, move_entities: false }
    }

    pub fn empty() -> (r: BlockFlags)
        ensures
            r == BlockFlags::spec_empty(),
    {
        BlockFlags { notify_neighbors: false, skip_drops: false, move_entities: false }
    }

    /// All switches off but neighbor notification.
    pub open spec fn spec_notify() -> BlockFlags {
        BlockFlags { notify_neighbors: true, skip_drops: false, move_entities: false }
    }

    pub fn notify() -> (r: BlockFlags)
        ensures
            r == BlockFlags::spec_notify(),
    {
        BlockFlags { notify_neighbors: true, skip_drops: false, move_entities: false }
    }
}

/// The state a kind's neighbor reaction asks for: the toggle asks for its
/// bit flipped, every other kind keeps its state.
pub open spec fn spec_reaction_state(kind: BlockKind, cur: u64) -> u64 {
    match kind {
        BlockKind::Toggle => spec_toggle_flip(cur),
        _ => cur,
    }
}

/// The effect of a kind's neighbor reaction itself (before any changed
/// answer is applied), as a function of the world model: the cactus may
/// schedule its re-check tick, every other kind changes nothing.
pub open spec fn reaction_model(m: WorldModel, kind: BlockKind, pos: BlockPos) -> WorldModel {
    match kind {
        BlockKind::Cactus => cactus_reaction_model(m, pos),
        _ => m,
    }
}

/// One neighbor visit of the propagator, as a function of the world model:
/// nothing happens at an unloaded or undecodable cell; otherwise the
/// neighbor's reaction runs, and a changed answer is applied through the
/// mutation service with a budget one smaller.
pub open spec fn neighbor_step_model(
    m: WorldModel,
    npos: BlockPos,
    flags: BlockFlags,
    depth: u64,
) -> WorldModel
    decreases depth, 1int,
{
    if depth == 0 {
        m
    } else {
        match kind_at_map(m.store, npos) {
            Some(k) => {
                let cur = m.store[npos];
                let next = spec_reaction_state(k, cur);
                let mr = reaction_model(m, k, npos);
                if next == cur {
                    mr
                } else {
                    set_state_model(mr, npos, next, flags, (depth - 1) as u64)
                }
            },
            None => m,
        }
    }
}

/// The propagator's walk over the six directions, from direction index `i`
/// on: each adjacent position in order takes one neighbor visit, each visit
/// starting from the world the previous one left.
pub open spec fn walk_model(
    m: WorldModel,
    pos: BlockPos,
    i: int,
    flags: BlockFlags,
    depth: u64,
) -> WorldModel
    decreases depth, 13 - 2 * i,
{
    if i < 0 || i >= 6 {
        m
    } else {
        walk_model(
            neighbor_step_model(m, pos.spec_offset(spec_all_directions()[i]), flags, depth),
            pos,
            i + 1,
            flags,
            depth,
        )
    }
}

/// What one mutation does to the world, as a function of its model: the
/// binding at `pos` is written; without notification that is all; with
/// notification a spent budget raises the truncation count and stops, and
/// otherwise the six neighbors are visited in order, each reaction applied
/// recursively under a budget one smaller.
pub open spec fn set_state_model(
    m: WorldModel,
    pos: BlockPos,
    state: u64,
    flags: BlockFlags,
    depth: u64,
) -> WorldModel
    decreases depth, 16int,
{
    let ma = WorldModel { store: m.store.insert(pos, state), ..m };
    if !flags.notify_neighbors {
        ma
    } else if depth == 0 {
        WorldModel { truncated: saturating_inc(ma.truncated), ..ma }
    } else {
        walk_model(ma, pos, 0, flags, depth)
    }
}

/// What breaking a block does to the world, as a function of its model: the
/// empty state is set (with whatever cascade the flags ask for), then the
/// drop is recorded unless suppressed or there was nothing to drop.
pub open spec fn break_model(m: WorldModel, pos: BlockPos, flags: BlockFlags) -> WorldModel {
    let ms = set_state_model(m, pos, AIR_STATE, flags, PROPAGATION_DEPTH);
    if !flags.skip_drops && m.store.contains_key(pos) && m.store[pos] != AIR_STATE {
        WorldModel { dropped: ms.dropped.push(pos), ..ms }
    } else {
        ms
    }
}

/// The mutation with an explicit propagation budget.  The budget strictly
/// shrinks along every cascaded reconfiguration, which is the termination
/// argument for cyclic neighbor reactions.
fn set_block_state_bounded(
    world: &mut World,
    pos: BlockPos,
    state: u64,
    flags: BlockFlags,
    depth: u64,
) -> (prev: Option<u64>)
    ensures
        final(world).model() == set_state_model(old(world).model(), pos, state, flags, depth),
        prev == (if old(world).store().contains_key(pos) {
            Some(old(world).store()[pos])
        } else {
            None::<u64>
        }),
        final(world).dropped() == old(world).dropped(),
        final(world).loaded(pos),
        forall|q: BlockPos| old(world).loaded(q) ==> final(world).loaded(q),
        !flags.notify_neighbors ==> {
            &&& final(world).store() == old(world).store().insert(pos, state)
            &&& final(world).sched() == old(world).sched()
            &&& final(world).truncated() == old(world).truncated()
            &&& final(world).spec_next_seq() == old(world).spec_next_seq()
        },
    decreases depth, 16int,
{
    let prev = world.raw_set(pos, state);
    let ghost wa = *world;
    if flags.notify_neighbors {
        if depth == 0 {
            world.record_truncation();
        } else {
            propagate_walk(world, pos, state, flags, depth, 0);
        }
    }
    proof {
        assert(wa.model() == (WorldModel {
            store: old(world).model().store.insert(pos, state),
            ..old(world).model()
        }));
    }
    prev
}

/// Visits the adjacent positions from direction index `i` on: reads the
/// neighbor, asks its behavior for the reaction, and applies a changed
/// answer recursively with a budget one smaller.
fn propagate_walk(
    world: &mut World,
    pos: BlockPos,
    state: u64,
    flags: BlockFlags,
    depth: u64,
    i: usize,
)
    requires
        i <= 6,
        depth >= 1,
    ensures
        final(world).model() == walk_model(old(world).model(), pos, i as int, flags, depth),
        final(world).dropped() == old(world).dropped(),
        forall|q: BlockPos| old(world).loaded(q) ==> final(world).loaded(q),
    decreases depth, 13 - 2 * (i as int),
{
    if i >= 6 {
        return;
    }
    let ghost w_in = *world;
    let dirs = all_directions();
    let d = dirs[i];
    let origin_state = match world.get_block_state(pos) {
        Some(s) => s,
        None => state,
    };
    let npos = pos.offset(d);
    match world.get_block_state(npos) {
        Some(cur) => {
            match crate::registry::id_kind(cur) {
                Some(k) => {
                    let newstate = dispatch_get_state_for_neighbor_update(
                        world,
                        k,
                        cur,
                        npos,
                        d.opposite(),
                        pos,
                        origin_state,
                    );
                    let ghost w_r = *world;
                    proof {
                        assert(newstate == spec_reaction_state(k, cur));
                        assert(w_r.model() == reaction_model(w_in.model(), k, npos));
                    }
                    if newstate != cur {
                        let _ = set_block_state_bounded(world, npos, newstate, flags, depth - 1);
                    }
                    proof {
                        assert(world.model() == neighbor_step_model(
                            w_in.model(),
                            npos,
                            flags,
                            depth,
                        ));
                    }
                }
                None => {
                    proof {
                        assert(world.model() == neighbor_step_model(
                            w_in.model(),
                            npos,
                            flags,
                            depth,
                        ));
                    }
                }
            }
        }
        None => {
            proof {
                assert(world.model() == neighbor_step_model(w_in.model(), npos, flags, depth));
            }
        }
    }
    let ghost w_mid = *world;
    propagate_walk(world, pos, state, flags, depth, i + 1);
    proof {
        assert(npos == pos.spec_offset(spec_all_directions()[i as int]));
        assert(w_mid.model() == neighbor_step_model(w_in.model(), npos, flags, depth));
        assert(world.model() == walk_model(w_mid.model(), pos, i as int + 1, flags, depth));
        assert(world.model() == walk_model(w_in.model(), pos, i as int, flags, depth));
    }
}

/// Writes a block state at a position and returns the previous state (no
/// answer when the position was unloaded).  The world afterward is exactly
/// [`set_state_model`] of the world before, at the full budget: without
/// neighbor notification this one binding changes and nothing else; with it,
/// the propagator's cascade runs as that function spells out, bounded by
/// [`PROPAGATION_DEPTH`].  Setting never records a drop and never unloads a
/// position.
pub fn set_block_state(world: &mut World, pos: BlockPos, state: u64, flags: BlockFlags) -> (prev:
    Option<u64>)
    ensures
        final(world).model() == set_state_model(
            old(world).model(),
            pos,
            state,
            flags,
            PROPAGATION_DEPTH,
        ),
        prev == (if old(world).store().contains_key(pos) {
            Some(old(world).store()[pos])
        } else {
            None::<u64>
        }),
        final(world).dropped() == old(world).dropped(),
        final(world).loaded(pos),
        forall|q: BlockPos| old(world).loaded(q) ==> final(world).loaded(q),
        !flags.notify_neighbors ==> {
            &&& final(world).store() == old(world).store().insert(pos, state)
            &&& final(world).sched() == old(world).sched()
            &&& final(world).truncated() == old(world).truncated()
            &&& final(world).spec_next_seq() == old(world).spec_next_seq()
        },
{
    set_block_state_bounded(world, pos, state, flags, PROPAGATION_DEPTH)
}

/// Removes the block at a position, replacing it with the empty state, and
/// records its drop unless the flags suppress drops or there was nothing to
/// drop.  Returns the previous state.  The world afterward is exactly
/// [`break_model`] of the world before.
pub fn break_block(world: &mut World, pos: BlockPos, flags: BlockFlags) -> (prev: Option<u64>)
    ensures
        final(world).model() == break_model(old(world).model(), pos, flags),
        prev == (if old(world).store().contains_key(pos) {
            Some(old(world).store()[pos])
        } else {
            None::<u64>
        }),
        final(world).dropped() == (if !flags.skip_drops && old(world).loaded(pos) && old(
            world,
        ).store()[pos] != AIR_STATE {
            old(world).dropped().push(pos)
        } else {
            old(world).dropped()
        }),
        !flags.notify_neighbors ==> {
            &&& final(world).store() == old(world).store().insert(pos, AIR_STATE)
            &&& final(world).sched() == old(world).sched()
            &&& final(world).truncated() == old(world).truncated()
            &&& final(world).spec_next_seq() == old(world).spec_next_seq()
        },
{
    let prev = set_block_state(world, pos, AIR_STATE, flags);
    if !flags.skip_drops {
        match prev {
            Some(p) => {
                if p != AIR_STATE {
                    world.record_drop(pos);
                }
            }
            None => {}
        }
    }
    prev
}

} // verus!
