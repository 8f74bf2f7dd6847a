//! The cactus behavior.
//!
//! A cactus needs sand-like support (or another cactus) below, tolerates no
//! solid or lava cell beside it and no liquid above it.  Over random ticks it
//! ages; at the top age it grows a new segment into the air above and resets.
//! When a neighbor changes it does not destroy itself in line: it asks for a
//! short scheduled tick and is removed only when that tick fires and the
//! placement condition still fails.
//!
//! Every consulted cell must be loaded and hold a decodable state; anything
//! unknown resolves toward conservative denial, never a crash.

use vstd::prelude::*;
use crate::geometry::{
    lemma_horizontal_directions_complete, spec_horizontal_directions, BlockDirection, BlockPos,
};
use crate::mutation::{break_block, set_block_state, BlockFlags};
use crate::registry::{spec_decode, spec_encode, BlockKind, AIR_STATE, CACTUS_BASE, TOTAL_STATES};
use crate::world::{
    kind_at_map, same_world, saturating_inc, TickEntry, TickPriority, World, WorldModel,
};

verus! {

/// The packed state of a cactus with the given age.
pub open spec fn cactus_state(age: u64) -> u64
    recommends
        age < 16,
{
    (CACTUS_BASE + age) as u64
}

/// The cactus state formula agrees with the catalogue's mixed-radix encoding
/// of the one age digit.
pub proof fn lemma_cactus_state_encode(age: u64)
    requires
        age < 16,
    ensures
        cactus_state(age) == spec_encode(BlockKind::Cactus, seq![age]),
{
    let cards = BlockKind::Cactus.cards();
    reveal_with_fuel(crate::codec::pack, 3);
    assert(cards.skip(1) =~= Seq::<u64>::empty());
    assert(seq![age].skip(1) =~= Seq::<u64>::empty());
    assert(crate::codec::pack(cards, seq![age]) == age);
}

/// The age of a cactus state, or nothing when the identifier is not in the
/// cactus range.
pub open spec fn spec_cactus_age(id: u64) -> Option<u64> {
    if CACTUS_BASE <= id && id < CACTUS_BASE + 16 {
        Some((id - CACTUS_BASE) as u64)
    } else {
        None
    }
}

/// Extracting the age agrees with decoding against the catalogue.
pub proof fn lemma_cactus_age_decode(id: u64)
    ensures
        spec_cactus_age(id) matches Some(a) ==> spec_decode(id) == Some((BlockKind::Cactus, seq![a])),
        spec_cactus_age(id) is None && id < TOTAL_STATES ==> !((spec_decode(id)->Some_0).0 == BlockKind::Cactus),
{
    if CACTUS_BASE <= id && id < CACTUS_BASE + 16 {
        let a = (id - CACTUS_BASE) as u64;
        crate::registry::lemma_kind_of_base(BlockKind::Cactus, id);
        let cards = BlockKind::Cactus.cards();
        reveal_with_fuel(crate::codec::unpack, 3);
        assert(cards.skip(1) =~= Seq::<u64>::empty());
        vstd::arithmetic::div_mod::lemma_small_mod(a as nat, 16);
        assert(crate::codec::unpack(cards, a as nat) =~= seq![a]);
    }
}

pub fn cactus_age(id: u64) -> (r: Option<u64>)
    ensures
        r == spec_cactus_age(id),
{
    if CACTUS_BASE <= id && id < CACTUS_BASE + 16 {
        Some(id - CACTUS_BASE)
    } else {
        None
    }
}

/// The age of the cactus at a position, or nothing when the position is
/// unloaded or holds something else.
pub open spec fn cactus_age_at(w: World, pos: BlockPos) -> Option<u64> {
    if w.loaded(pos) {
        spec_cactus_age(w.store()[pos])
    } else {
        None
    }
}

/// A horizontal neighbor tolerates a cactus: loaded, decodable, not solid
/// and not lava.  The predicate reads nothing but the block store.
pub open spec fn cactus_horizontal_ok_map(
    store: Map<BlockPos, u64>,
    pos: BlockPos,
    d: BlockDirection,
) -> bool {
    match kind_at_map(store, pos.spec_offset(d)) {
        Some(k) => !k.spec_is_solid() && k != BlockKind::Lava,
        None => false,
    }
}

pub open spec fn cactus_horizontal_ok(w: World, pos: BlockPos, d: BlockDirection) -> bool {
    cactus_horizontal_ok_map(w.store(), pos, d)
}

/// The cell below supports a cactus: another cactus or a sand-tagged block.
pub open spec fn cactus_support_ok_map(store: Map<BlockPos, u64>, pos: BlockPos) -> bool {
    match kind_at_map(store, pos.spec_down()) {
        Some(k) => k == BlockKind::Cactus || k.spec_is_sand_tagged(),
        None => false,
    }
}

pub open spec fn cactus_support_ok(w: World, pos: BlockPos) -> bool {
    cactus_support_ok_map(w.store(), pos)
}

/// The cell above tolerates a cactus: loaded, decodable and not a liquid.
pub open spec fn cactus_above_ok_map(store: Map<BlockPos, u64>, pos: BlockPos) -> bool {
    match kind_at_map(store, pos.spec_up()) {
        Some(k) => !k.spec_is_liquid(),
        None => false,
    }
}

pub open spec fn cactus_above_ok(w: World, pos: BlockPos) -> bool {
    cactus_above_ok_map(w.store(), pos)
}

/// Whether a cactus may occupy `pos`: all four horizontal neighbors tolerate
/// it, the cell below supports it and the cell above tolerates it.  A
/// function of the block store alone.
pub open spec fn cactus_can_place_map(store: Map<BlockPos, u64>, pos: BlockPos) -> bool {
    &&& forall|i: int|
        0 <= i < 4 ==> cactus_horizontal_ok_map(store, pos, spec_horizontal_directions()[i])
    &&& cactus_support_ok_map(store, pos)
    &&& cactus_above_ok_map(store, pos)
}

pub open spec fn cactus_can_place_spec(w: World, pos: BlockPos) -> bool {
    cactus_can_place_map(w.store(), pos)
}

/// How one random tick transforms the world at a cactus position: no change
/// unless the cell above is air and the position holds a cactus; then the
/// age rises by one, except that the top age grows a fresh top-age segment
/// into the cell above and resets the original to age zero.  Nothing else —
/// schedule, drops, truncations — moves.
pub open spec fn cactus_random_tick_rel(w0: World, w1: World, pos: BlockPos) -> bool {
    let above = pos.spec_up();
    if !w0.air_at(above) {
        same_world(w1, w0)
    } else {
        match cactus_age_at(w0, pos) {
            Some(k) => {
                &&& w1.sched() == w0.sched()
                &&& w1.dropped() == w0.dropped()
                &&& w1.truncated() == w0.truncated()
                &&& w1.spec_next_seq() == w0.spec_next_seq()
                &&& (if k < 15 {
                    &&& w1.store() == w0.store().insert(pos, cactus_state((k + 1) as u64))
                    &&& w1.store()[above] == w0.store()[above]
                } else {
                    w1.store() == w0.store().insert(above, cactus_state(15)).insert(
                        pos,
                        cactus_state(0),
                    )
                })
            },
            None => same_world(w1, w0),
        }
    }
}

/// What the neighbor-update reaction does to the world, as a function of its
/// model: the store never moves, and exactly when the placement condition
/// fails a re-check tick of delay one and normal priority is scheduled (the
/// insertion sequence advancing with it).
pub open spec fn cactus_reaction_model(m: WorldModel, pos: BlockPos) -> WorldModel {
    if cactus_can_place_map(m.store, pos) {
        m
    } else {
        WorldModel {
            sched: m.sched.push(
                TickEntry {
                    pos,
                    kind: BlockKind::Cactus,
                    delay: 1,
                    priority: TickPriority::Normal,
                    seq: m.next_seq,
                },
            ),
            next_seq: saturating_inc(m.next_seq),
            ..m
        }
    }
}

/// How the neighbor-update reaction transforms the world: exactly as
/// [`cactus_reaction_model`] says.
pub open spec fn cactus_neighbor_update_rel(w0: World, w1: World, pos: BlockPos) -> bool {
    w1.model() == cactus_reaction_model(w0.model(), pos)
}

/// What a fired scheduled tick does to the world, as a function of its
/// model: nothing if the placement condition holds again; otherwise the
/// block is removed (replaced by the empty state) and, if it was a real
/// block, its drop is recorded.
pub open spec fn cactus_scheduled_tick_model(m: WorldModel, pos: BlockPos) -> WorldModel {
    if cactus_can_place_map(m.store, pos) {
        m
    } else {
        WorldModel {
            store: m.store.insert(pos, AIR_STATE),
            dropped: (if m.store.contains_key(pos) && m.store[pos] != AIR_STATE {
                m.dropped.push(pos)
            } else {
                m.dropped
            }),
            ..m
        }
    }
}

/// How a fired scheduled tick transforms the world: exactly as
/// [`cactus_scheduled_tick_model`] says.
pub open spec fn cactus_scheduled_tick_rel(w0: World, w1: World, pos: BlockPos) -> bool {
    w1.model() == cactus_scheduled_tick_model(w0.model(), pos)
}

/// The cactus block behavior.
pub struct CactusBlock;

impl CactusBlock {
    /// Structural placement legality for a cactus: a pure predicate over the
    /// surroundings, never a mutation.  The face is immaterial.
    pub fn can_place_at(&self, world: &World, pos: BlockPos, _face: BlockDirection) -> (r: bool)
        ensures
            r == cactus_can_place_spec(*world, pos),
    {
        let dirs = crate::geometry::horizontal_directions();
        let mut i: usize = 0;
        while i < dirs.len()
            invariant
                dirs@ == spec_horizontal_directions(),
                i <= 4,
                forall|j: int|
                    0 <= j < i ==> cactus_horizontal_ok(
                        *world,
                        pos,
                        spec_horizontal_directions()[j],
                    ),
            decreases 4 - i,
        {
            let d = dirs[i];
            match world.kind_at(pos.offset(d)) {
                Some(k) => {
                    if k.is_solid() {
                        return false;
                    }
                    match k {
                        BlockKind::Lava => {
                            return false;
                        }
                        _ => {}
                    }
                }
                None => {
                    return false;
                }
            }
            i = i + 1;
        }
        let support_ok = match world.kind_at(pos.down()) {
            Some(BlockKind::Cactus) => true,
            Some(k) => k.is_sand_tagged(),
            None => false,
        };
        if !support_ok {
            return false;
        }
        match world.kind_at(pos.up()) {
            Some(k) => !k.is_liquid(),
            None => false,
        }
    }

    /// One random tick: with air above, a cactus ages by one, and at the top
    /// age grows a segment into the cell above and resets to age zero.
    /// Anything else — no air above, an unloaded cell, a foreign block — is
    /// a no-op; skipping a random tick is always safe.
    pub fn random_tick(&self, world: &mut World, pos: BlockPos)
        ensures
            cactus_random_tick_rel(*old(world), *final(world), pos),
    {
        let above = pos.up();
        let above_air = match world.get_block_state(above) {
            Some(s) => crate::registry::is_air(s),
            None => false,
        };
        if !above_air {
            return;
        }
        let sid = match world.get_block_state(pos) {
            Some(s) => s,
            None => {
                return;
            }
        };
        let age = match cactus_age(sid) {
            Some(a) => a,
            None => {
                return;
            }
        };
        if age == 15 {
            set_block_state(world, above, sid, BlockFlags::empty());
            set_block_state(world, pos, CACTUS_BASE, BlockFlags::empty());
        } else {
            set_block_state(world, pos, CACTUS_BASE + age + 1, BlockFlags::empty());
            proof {
                crate::geometry::lemma_offset_moves(pos, BlockDirection::Up);
            }
        }
    }

    /// A fired re-check tick: if the placement condition still fails, the
    /// cactus is broken (removed and dropped); otherwise nothing happens.
    pub fn on_scheduled_tick(&self, world: &mut World, pos: BlockPos)
        ensures
            cactus_scheduled_tick_rel(*old(world), *final(world), pos),
    {
        let ok = self.can_place_at(world, pos, BlockDirection::Down);
        if !ok {
            break_block(world, pos, BlockFlags::empty());
        }
    }

    /// Reaction to a neighbor change: the state is kept as it is, and when
    /// the placement condition no longer holds a re-check tick of delay one
    /// and normal priority is scheduled instead of an immediate removal, so
    /// that reentrant mutation storms cannot start here.
    pub fn get_state_for_neighbor_update(
        &self,
        world: &mut World,
        state: u64,
        pos: BlockPos,
        _direction: BlockDirection,
        _neighbor_pos: BlockPos,
        _neighbor_state: u64,
    ) -> (r: u64)
        ensures
            r == state,
            cactus_neighbor_update_rel(*old(world), *final(world), pos),
    {
        let ok = self.can_place_at(world, pos, BlockDirection::Down);
        if !ok {
            world.schedule_block_tick(BlockKind::Cactus, pos, 1, TickPriority::Normal);
        }
        state
    }
}

/// The placement condition reads only the block store: two worlds with equal
/// stores agree on it.
pub proof fn lemma_cactus_can_place_depends_on_store(a: World, b: World, pos: BlockPos)
    requires
        a.store() == b.store(),
    ensures
        cactus_can_place_spec(a, pos) == cactus_can_place_spec(b, pos),
{
}

/// The neighbor-triggered re-check, end to end: when the placement condition
/// fails at the reaction, the re-check entry (this position, cactus, delay
/// one, normal priority) joins the schedule and the store stays put; and when
/// a world with that same store — whatever else the scheduler moved in the
/// meantime — fires the tick, the block is removed.
pub proof fn lemma_cactus_recheck_end_to_end(
    w0: World,
    w1: World,
    wf: World,
    w2: World,
    pos: BlockPos,
)
    requires
        !cactus_can_place_spec(w0, pos),
        cactus_neighbor_update_rel(w0, w1, pos),
        wf.store() == w1.store(),
        cactus_scheduled_tick_rel(wf, w2, pos),
    ensures
        w1.sched() == w0.sched().push(
            TickEntry {
                pos,
                kind: BlockKind::Cactus,
                delay: 1,
                priority: TickPriority::Normal,
                seq: w0.spec_next_seq(),
            },
        ),
        w2.store() == wf.store().insert(pos, AIR_STATE),
{
    lemma_cactus_can_place_depends_on_store(wf, w0, pos);
}

/// Placement denial by a horizontal neighbor: a solid or lava cell beside the
/// position forbids a cactus, regardless of the block below or above.
pub proof fn lemma_cactus_denied_by_horizontal(w: World, pos: BlockPos, d: BlockDirection)
    requires
        d.is_horizontal(),
        w.solid_at(pos.spec_offset(d)) || w.spec_kind_at(pos.spec_offset(d)) == Some(
            BlockKind::Lava,
        ),
    ensures
        !cactus_can_place_spec(w, pos),
{
    lemma_horizontal_directions_complete(d);
    let i = choose|i: int| 0 <= i < 4 && spec_horizontal_directions()[i] == d;
    assert(!cactus_horizontal_ok(w, pos, spec_horizontal_directions()[i]));
}

/// Placement denial by a liquid above: a liquid cell above the position
/// forbids a cactus, even when the block below is valid support.
pub proof fn lemma_cactus_denied_by_liquid_above(w: World, pos: BlockPos)
    requires
        w.liquid_at(pos.spec_up()),
    ensures
        !cactus_can_place_spec(w, pos),
{
    assert(!cactus_above_ok(w, pos));
}

} // verus!
