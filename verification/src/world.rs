//! The authoritative world store.
//!
//! A [`World`] maps positions to packed block state identifiers and carries
//! the live tick entries, the recorded block drops and the count of truncated
//! propagation branches.  A position absent from the store is unloaded:
//! queries against it return no answer, and callers fall back to conservative
//! denial (placement) or to a skipped no-op (ticks, propagation).
//!
//! The store is an append-only binding list; its authoritative view is the
//! map of latest bindings.  All mutation from outside this module goes
//! through [`crate::mutation`], so that notification side effects are never
//! silently skipped; the raw writers here are crate private.

use vstd::prelude::*;
use crate::geometry::BlockPos;
use crate::registry::{spec_id_kind, BlockKind};

verus! {

/// Coarse ordering of scheduled ticks: all high-priority entries of a world
/// tick fire before all normal ones, and those before all low ones.
#[derive(Clone, Copy, PartialEq, Eq, Debug, Structural)]
pub enum TickPriority {
    High,
    Normal,
    Low,
}

impl TickPriority {
    /// Numeric rank; lower ranks fire first.
    pub open spec fn spec_rank(self) -> u64 {
        match self {
            TickPriority::High => 0,
            TickPriority::Normal => 1,
            TickPriority::Low => 2,
        }
    }

    pub fn rank(self) -> (r: u64)
        ensures
            r == self.spec_rank(),
    {
        match self {
            TickPriority::High => 0,
            TickPriority::Normal => 1,
            TickPriority::Low => 2,
        }
    }
}

/// One pending scheduled tick.  Created by a scheduling request, mutated only
/// by delay countdown, removed when fired or when the block at the position
/// no longer matches the kind at fire time (stale-entry invalidation).
#[derive(Clone, Copy, PartialEq, Eq, Debug, Structural)]
pub struct TickEntry {
    pub pos: BlockPos,
    pub kind: BlockKind,
    /// Remaining whole world ticks before the entry fires.
    pub delay: u64,
    pub priority: TickPriority,
    /// Monotonic insertion sequence; the deterministic tie-break among equal
    /// priorities.
    pub seq: u64,
}

/// The map of latest bindings of an append-only binding list.
pub open spec fn assoc_map(s: Seq<(BlockPos, u64)>) -> Map<BlockPos, u64>
    decreases s.len(),
{
    if s.len() == 0 {
        Map::empty()
    } else {
        assoc_map(s.drop_last()).insert(s.last().0, s.last().1)
    }
}

/// Bindings beyond a prefix that never mention a position do not change what
/// the map says of it.
pub proof fn lemma_assoc_map_prefix(s: Seq<(BlockPos, u64)>, p: BlockPos, i: int)
    requires
        0 <= i <= s.len(),
        forall|j: int| i <= j < s.len() ==> (#[trigger] s[j]).0 != p,
    ensures
        assoc_map(s).contains_key(p) == assoc_map(s.take(i)).contains_key(p),
        assoc_map(s).contains_key(p) ==> assoc_map(s)[p] == assoc_map(s.take(i))[p],
    decreases s.len() - i,
{
    if i == s.len() {
        assert(s.take(i) =~= s);
    } else {
        lemma_assoc_map_prefix(s, p, i + 1);
        let t = s.take(i + 1);
        assert(t.drop_last() =~= s.take(i));
        assert(t.last() == s[i]);
        assert(assoc_map(t) == assoc_map(s.take(i)).insert(s[i].0, s[i].1));
    }
}

/// Everything the engine observes of a world, as one ghost value: the block
/// store, the pending ticks, the drop records, the truncation count and the
/// next insertion sequence.  The deterministic transition functions of
/// [`crate::mutation`] and [`crate::scheduler`] are stated over this model.
pub struct WorldModel {
    pub store: Map<BlockPos, u64>,
    pub sched: Seq<TickEntry>,
    pub dropped: Seq<BlockPos>,
    pub truncated: u64,
    pub next_seq: u64,
}

/// The kind of the block a store holds at a position, or nothing when the
/// position is unloaded or its state does not decode.
pub open spec fn kind_at_map(store: Map<BlockPos, u64>, pos: BlockPos) -> Option<BlockKind> {
    if store.contains_key(pos) {
        spec_id_kind(store[pos])
    } else {
        None
    }
}

/// A counter step that stops at the top of the range instead of wrapping.
pub open spec fn saturating_inc(x: u64) -> u64 {
    if x < u64::MAX {
        (x + 1) as u64
    } else {
        x
    }
}

/// Two worlds agree on everything the engine observes: store, pending ticks,
/// drops, truncation count and next insertion sequence.
pub open spec fn same_world(a: World, b: World) -> bool {
    &&& a.store() == b.store()
    &&& a.sched() == b.sched()
    &&& a.dropped() == b.dropped()
    &&& a.truncated() == b.truncated()
    &&& a.spec_next_seq() == b.spec_next_seq()
}

/// The world: block state bindings, pending tick entries, drop records and
/// the propagation truncation count.  Block state is the only mutable shared
/// data of the engine, and it is owned here.
pub struct World {
    cells: Vec<(BlockPos, u64)>,
    schedule: Vec<TickEntry>,
    next_seq: u64,
    drops: Vec<BlockPos>,
    truncations: u64,
}

impl World {
    /// The authoritative map from loaded positions to their packed state.
    pub closed spec fn store(self) -> Map<BlockPos, u64> {
        assoc_map(self.cells@)
    }

    /// The pending tick entries, in insertion order.
    pub closed spec fn sched(self) -> Seq<TickEntry> {
        self.schedule@
    }

    /// The positions whose broken blocks dropped an item, oldest first.
    pub closed spec fn dropped(self) -> Seq<BlockPos> {
        self.drops@
    }

    /// How many propagation branches were cut off at the depth bound.
    pub closed spec fn truncated(self) -> u64 {
        self.truncations
    }

    /// The insertion sequence the next scheduling request will take.
    pub closed spec fn spec_next_seq(self) -> u64 {
        self.next_seq
    }

    /// An empty world: nothing loaded, nothing pending.
    pub fn new() -> (r: World)
        ensures
            r.store() == Map::<BlockPos, u64>::empty(),
            r.sched() == Seq::<TickEntry>::empty(),
            r.dropped() == Seq::<BlockPos>::empty(),
            r.truncated() == 0,
            r.spec_next_seq() == 0,
    {
        let r = World {
            cells: Vec::new(),
            schedule: Vec::new(),
            next_seq: 0,
            drops: Vec::new(),
            truncations: 0,
        };
        proof {
            assert(r.sched() =~= Seq::<TickEntry>::empty());
            assert(r.dropped() =~= Seq::<BlockPos>::empty());
        }
        r
    }

    /// Reads the packed state at a position; no answer means the position is
    /// unloaded.
    pub fn get_block_state(&self, pos: BlockPos) -> (r: Option<u64>)
        ensures
            r == (if self.store().contains_key(pos) {
                Some(self.store()[pos])
            } else {
                None::<u64>
            }),
    {
        let ghost s = self.cells@;
        let mut i: usize = self.cells.len();
        while i > 0
            invariant
                i <= s.len(),
                s == self.cells@,
                forall|j: int| i <= j < s.len() ==> (#[trigger] s[j]).0 != pos,
            decreases i,
        {
            i = i - 1;
            let entry = self.cells[i];
            if entry.0 == pos {
                proof {
                    lemma_assoc_map_prefix(s, pos, i + 1);
                    let t = s.take(i as int + 1);
                    assert(t.drop_last() =~= s.take(i as int));
                    assert(t.last() == s[i as int]);
                    assert(assoc_map(t) == assoc_map(s.take(i as int)).insert(pos, entry.1));
                }
                return Some(entry.1);
            }
        }
        proof {
            lemma_assoc_map_prefix(s, pos, 0);
            assert(s.take(0) =~= Seq::<(BlockPos, u64)>::empty());
        }
        None
    }

    /// The ghost model of everything the engine observes of this world.
    pub open spec fn model(self) -> WorldModel {
        WorldModel {
            store: self.store(),
            sched: self.sched(),
            dropped: self.dropped(),
            truncated: self.truncated(),
            next_seq: self.spec_next_seq(),
        }
    }

    /// Whether the position is resident in the store.
    pub open spec fn loaded(self, pos: BlockPos) -> bool {
        self.store().contains_key(pos)
    }

    /// Loaded and holding a full solid obstruction.
    pub open spec fn solid_at(self, pos: BlockPos) -> bool {
        self.loaded(pos) && crate::registry::spec_is_solid(self.store()[pos])
    }

    /// Loaded and holding a liquid.
    pub open spec fn liquid_at(self, pos: BlockPos) -> bool {
        self.loaded(pos) && crate::registry::spec_is_liquid(self.store()[pos])
    }

    /// Loaded and holding the empty state.
    pub open spec fn air_at(self, pos: BlockPos) -> bool {
        self.loaded(pos) && crate::registry::spec_is_air(self.store()[pos])
    }

    /// Whether the cell at a position is a solid obstruction.  An unloaded
    /// position counts as not solid: every placement check built on this
    /// answer then fails toward denial.
    pub fn is_solid_at(&self, pos: BlockPos) -> (r: bool)
        ensures
            r == self.solid_at(pos),
    {
        match self.get_block_state(pos) {
            Some(id) => crate::registry::is_solid(id),
            None => false,
        }
    }

    /// The kind of the block at a position, or nothing when the position is
    /// unloaded or its state does not decode.
    pub open spec fn spec_kind_at(self, pos: BlockPos) -> Option<BlockKind> {
        kind_at_map(self.store(), pos)
    }

    pub fn kind_at(&self, pos: BlockPos) -> (r: Option<BlockKind>)
        ensures
            r == self.spec_kind_at(pos),
    {
        match self.get_block_state(pos) {
            Some(id) => crate::registry::id_kind(id),
            None => None,
        }
    }

    /// The kind and the packed state at a position in one query; no answer
    /// when the position is unloaded or its state does not decode.
    pub fn get_block_and_block_state(&self, pos: BlockPos) -> (r: Option<(BlockKind, u64)>)
        ensures
            r == (match self.spec_kind_at(pos) {
                Some(k) => Some((k, self.store()[pos])),
                None => None::<(BlockKind, u64)>,
            }),
    {
        match self.get_block_state(pos) {
            Some(id) => match crate::registry::id_kind(id) {
                Some(k) => Some((k, id)),
                None => None,
            },
            None => None,
        }
    }

    /// Writes a binding without any notification side effect.  Crate private:
    /// outside callers mutate through [`crate::mutation`] only.
    pub(crate) fn raw_set(&mut self, pos: BlockPos, state: u64) -> (prev: Option<u64>)
        ensures
            prev == (if old(self).store().contains_key(pos) {
                Some(old(self).store()[pos])
            } else {
                None::<u64>
            }),
            final(self).store() == old(self).store().insert(pos, state),
            final(self).sched() == old(self).sched(),
            final(self).dropped() == old(self).dropped(),
            final(self).truncated() == old(self).truncated(),
            final(self).spec_next_seq() == old(self).spec_next_seq(),
    {
        let prev = self.get_block_state(pos);
        let ghost before = self.cells@;
        self.cells.push((pos, state));
        proof {
            assert(self.cells@.drop_last() =~= before);
            assert(self.cells@.last() == (pos, state));
        }
        prev
    }

    /// Records a dropped item at a position.  Crate private for the same
    /// reason as [`World::raw_set`].
    pub(crate) fn record_drop(&mut self, pos: BlockPos)
        ensures
            final(self).dropped() == old(self).dropped().push(pos),
            final(self).store() == old(self).store(),
            final(self).sched() == old(self).sched(),
            final(self).truncated() == old(self).truncated(),
            final(self).spec_next_seq() == old(self).spec_next_seq(),
    {
        self.drops.push(pos);
    }

    /// Counts one propagation branch cut off at the depth bound.  The count
    /// saturates; a branch is never lost silently before saturation.
    pub(crate) fn record_truncation(&mut self)
        ensures
            final(self).truncated() == (if old(self).truncated() < u64::MAX {
                (old(self).truncated() + 1) as u64
            } else {
                old(self).truncated()
            }),
            final(self).store() == old(self).store(),
            final(self).sched() == old(self).sched(),
            final(self).dropped() == old(self).dropped(),
            final(self).spec_next_seq() == old(self).spec_next_seq(),
    {
        if self.truncations < u64::MAX {
            self.truncations = self.truncations + 1;
        }
    }

    /// Requests a deferred tick for a kind at a position.  Duplicate and
    /// overlapping requests are permitted by design; stale entries are pruned
    /// at fire time, not here.  Scheduling never fails.  The insertion
    /// sequence saturates at the top of its range; until then each request
    /// gets a strictly larger sequence than every earlier one.
    pub fn schedule_block_tick(
        &mut self,
        kind: BlockKind,
        pos: BlockPos,
        delay: u64,
        priority: TickPriority,
    )
        ensures
            final(self).sched() == old(self).sched().push(TickEntry {
                pos,
                kind,
                delay,
                priority,
                seq: old(self).spec_next_seq(),
            }),
            final(self).store() == old(self).store(),
            final(self).dropped() == old(self).dropped(),
            final(self).truncated() == old(self).truncated(),
            final(self).spec_next_seq() == (if old(self).spec_next_seq() < u64::MAX {
                (old(self).spec_next_seq() + 1) as u64
            } else {
                old(self).spec_next_seq()
            }),
    {
        let entry = TickEntry { pos, kind, delay, priority, seq: self.next_seq };
        self.schedule.push(entry);
        if self.next_seq < u64::MAX {
            self.next_seq = self.next_seq + 1;
        }
    }

    /// Replaces the pending entries wholesale.  Crate private: only the
    /// scheduler's countdown and extraction use it.
    pub(crate) fn replace_schedule(&mut self, entries: Vec<TickEntry>)
        ensures
            final(self).sched() == entries@,
            final(self).store() == old(self).store(),
            final(self).dropped() == old(self).dropped(),
            final(self).truncated() == old(self).truncated(),
            final(self).spec_next_seq() == old(self).spec_next_seq(),
    {
        self.schedule = entries;
    }

    /// Clones the pending entries for the scheduler's countdown.
    pub(crate) fn take_schedule(&self) -> (r: Vec<TickEntry>)
        ensures
            r@ == self.sched(),
    {
        let mut out: Vec<TickEntry> = Vec::new();
        let mut i: usize = 0;
        while i < self.schedule.len()
            invariant
                i <= self.schedule.len(),
                out@ =~= self.schedule@.take(i as int),
            decreases self.schedule.len() - i,
        {
            out.push(self.schedule[i]);
            proof {
                assert(out@ =~= self.schedule@.take(i as int + 1));
            }
            i = i + 1;
        }
        proof {
            assert(self.schedule@.take(self.schedule@.len() as int) =~= self.schedule@);
        }
        out
    }

    /// How many tick entries are pending.
    pub fn schedule_len(&self) -> (r: usize)
        ensures
            r == self.sched().len(),
    {
        self.schedule.len()
    }

    /// One pending tick entry, by position in insertion order.
    pub fn schedule_entry(&self, i: usize) -> (r: TickEntry)
        requires
            i < self.sched().len(),
        ensures
            r == self.sched()[i as int],
    {
        self.schedule[i]
    }

    /// How many drops were recorded.
    pub fn drops_len(&self) -> (r: usize)
        ensures
            r == self.dropped().len(),
    {
        self.drops.len()
    }

    /// One recorded drop position, oldest first.
    pub fn drop_at(&self, i: usize) -> (r: BlockPos)
        requires
            i < self.dropped().len(),
        ensures
            r == self.dropped()[i as int],
    {
        self.drops[i]
    }

    /// How many propagation branches were cut off at the depth bound.
    pub fn truncation_count(&self) -> (r: u64)
        ensures
            r == self.truncated(),
    {
        self.truncations
    }
}

} // verus!
