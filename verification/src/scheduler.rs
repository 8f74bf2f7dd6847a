//! The tick scheduler.
//!
//! Each world tick, every pending entry's delay is counted down; the entries
//! that reach zero leave the schedule and fire in ascending (priority,
//! insertion sequence) order — priority gives coarse ordering, the insertion
//! sequence a stable tie-break, so a replay over identical inputs fires in
//! the same order.  An entry whose position no longer holds its kind at fire
//! time is invalidated: silently dropped, a cheap no-op rather than an error.
//! Random ticks are not scheduled at all: the embedding server samples a
//! bounded number of positions per loaded region and drives each through
//! [`run_random_tick_at`], so their cost is bounded by region count times
//! sample size.

use vstd::prelude::*;
use crate::behavior::{dispatch_on_scheduled_tick, dispatch_random_tick};
use crate::cactus::{cactus_random_tick_rel, cactus_scheduled_tick_model};
use crate::geometry::BlockPos;
use crate::registry::BlockKind;
use crate::world::{kind_at_map, same_world, TickEntry, World, WorldModel};

verus! {

/// One step of delay countdown: a positive delay shrinks by one, a zero
/// delay stays.
pub open spec fn dec_entry(e: TickEntry) -> TickEntry {
    TickEntry { delay: if e.delay > 0 { (e.delay - 1) as u64 } else { 0 }, ..e }
}

/// The entries of a schedule that are due (delay zero), in schedule order.
pub open spec fn due_of(s: Seq<TickEntry>) -> Seq<TickEntry>
    decreases s.len(),
{
    if s.len() == 0 {
        Seq::empty()
    } else {
        due_of(s.drop_last()) + (if s.last().delay == 0 {
            seq![s.last()]
        } else {
            Seq::<TickEntry>::empty()
        })
    }
}

/// The entries of a schedule that are still pending (delay nonzero), in
/// schedule order.
pub open spec fn pending_of(s: Seq<TickEntry>) -> Seq<TickEntry>
    decreases s.len(),
{
    if s.len() == 0 {
        Seq::empty()
    } else {
        pending_of(s.drop_last()) + (if s.last().delay != 0 {
            seq![s.last()]
        } else {
            Seq::<TickEntry>::empty()
        })
    }
}

/// The firing order: ascending priority rank, then ascending insertion
/// sequence.
pub open spec fn entry_le(a: TickEntry, b: TickEntry) -> bool {
    ||| a.priority.spec_rank() < b.priority.spec_rank()
    ||| (a.priority.spec_rank() == b.priority.spec_rank() && a.seq <= b.seq)
}

/// Sorted by the firing order.
pub open spec fn sorted_entries(s: Seq<TickEntry>) -> bool {
    forall|i: int, j: int| 0 <= i <= j < s.len() ==> entry_le(s[i], s[j])
}

fn entry_le_exec(a: &TickEntry, b: &TickEntry) -> (r: bool)
    ensures
        r == entry_le(*a, *b),
{
    let ra = a.priority.rank();
    let rb = b.priority.rank();
    if ra < rb {
        true
    } else if ra == rb {
        a.seq <= b.seq
    } else {
        false
    }
}

/// The effect of firing one kind's scheduled tick, as a function of the
/// world model: only the cactus reacts in this catalogue.
pub open spec fn scheduled_tick_model_of_kind(
    m: WorldModel,
    k: BlockKind,
    pos: BlockPos,
) -> WorldModel {
    match k {
        BlockKind::Cactus => cactus_scheduled_tick_model(m, pos),
        _ => m,
    }
}

/// One due entry firing: the entry fires only if its position still holds
/// its kind; a stale entry is invalidated and changes nothing.
pub open spec fn fire_step_model(m: WorldModel, e: TickEntry) -> WorldModel {
    if kind_at_map(m.store, e.pos) == Some(e.kind) {
        scheduled_tick_model_of_kind(m, e.kind, e.pos)
    } else {
        m
    }
}

/// A batch of due entries firing in order, each from the world the previous
/// one left.
pub open spec fn fired_model(m: WorldModel, due: Seq<TickEntry>) -> WorldModel
    decreases due.len(),
{
    if due.len() == 0 {
        m
    } else {
        fired_model(fire_step_model(m, due[0]), due.skip(1))
    }
}

/// One world tick, end to end: every delay counted down, the due entries out
/// of the schedule, and exactly those entries fired in ascending (priority,
/// insertion sequence) order, each through [`fire_step_model`].
pub open spec fn world_tick_rel(m0: WorldModel, m1: WorldModel, due: Seq<TickEntry>) -> bool {
    &&& sorted_entries(due)
    &&& due.to_multiset() == due_of(
        m0.sched.map_values(|e: TickEntry| dec_entry(e)),
    ).to_multiset()
    &&& m1 == fired_model(
        (WorldModel {
            sched: pending_of(m0.sched.map_values(|e: TickEntry| dec_entry(e))),
            ..m0
        }),
        due,
    )
}

/// A prefix of a prefix is a prefix.
proof fn lemma_prefix_trans(a: Seq<BlockPos>, b: Seq<BlockPos>, c: Seq<BlockPos>)
    requires
        a.is_prefix_of(b),
        b.is_prefix_of(c),
    ensures
        a.is_prefix_of(c),
{
    assert(a =~= c.subrange(0, a.len() as int));
}

/// Counts every pending delay down by one step.
pub fn decrement_delays(world: &mut World)
    ensures
        final(world).sched() == old(world).sched().map_values(|e: TickEntry| dec_entry(e)),
        final(world).store() == old(world).store(),
        final(world).dropped() == old(world).dropped(),
        final(world).truncated() == old(world).truncated(),
        final(world).spec_next_seq() == old(world).spec_next_seq(),
{
    let entries = world.take_schedule();
    let ghost s = entries@;
    let mut out: Vec<TickEntry> = Vec::new();
    let mut i: usize = 0;
    while i < entries.len()
        invariant
            s == entries@,
            i <= s.len(),
            out@.len() == i,
            forall|j: int| 0 <= j < i ==> out@[j] == dec_entry(s[j]),
        decreases s.len() - i,
    {
        let e = entries[i];
        let delay: u64 = if e.delay > 0 { e.delay - 1 } else { 0 };
        out.push(TickEntry { delay, ..e });
        i = i + 1;
    }
    proof {
        assert(out@ =~= s.map_values(|e: TickEntry| dec_entry(e)));
    }
    world.replace_schedule(out);
}

/// Removes and returns the due entries, in schedule order; the pending ones
/// stay, in schedule order.
pub fn extract_due(world: &mut World) -> (due: Vec<TickEntry>)
    ensures
        due@ == due_of(old(world).sched()),
        final(world).sched() == pending_of(old(world).sched()),
        final(world).store() == old(world).store(),
        final(world).dropped() == old(world).dropped(),
        final(world).truncated() == old(world).truncated(),
        final(world).spec_next_seq() == old(world).spec_next_seq(),
{
    let entries = world.take_schedule();
    let ghost s = entries@;
    let mut due: Vec<TickEntry> = Vec::new();
    let mut keep: Vec<TickEntry> = Vec::new();
    let mut i: usize = 0;
    proof {
        assert(s.take(0) =~= Seq::<TickEntry>::empty());
    }
    while i < entries.len()
        invariant
            s == entries@,
            i <= s.len(),
            due@ == due_of(s.take(i as int)),
            keep@ == pending_of(s.take(i as int)),
        decreases s.len() - i,
    {
        let e = entries[i];
        proof {
            assert(s.take(i as int + 1).drop_last() =~= s.take(i as int));
            assert(s.take(i as int + 1).last() == s[i as int]);
        }
        if e.delay == 0 {
            due.push(e);
            proof {
                assert(due@ =~= due_of(s.take(i as int)) + seq![s[i as int]]);
                assert(keep@ =~= pending_of(s.take(i as int + 1)));
            }
        } else {
            keep.push(e);
            proof {
                assert(keep@ =~= pending_of(s.take(i as int)) + seq![s[i as int]]);
                assert(due@ =~= due_of(s.take(i as int + 1)));
            }
        }
        i = i + 1;
    }
    proof {
        assert(s.take(s.len() as int) =~= s);
    }
    world.replace_schedule(keep);
    due
}

/// Sorts tick entries into firing order: ascending priority rank, ties by
/// ascending insertion sequence.  The result holds exactly the given
/// entries.
pub fn sort_due(v: &Vec<TickEntry>) -> (r: Vec<TickEntry>)
    ensures
        sorted_entries(r@),
        r@.to_multiset() == v@.to_multiset(),
{
    let ghost s = v@;
    let mut out: Vec<TickEntry> = Vec::new();
    let mut i: usize = 0;
    proof {
        assert(s.take(0) =~= Seq::<TickEntry>::empty());
        assert(out@.to_multiset() =~= s.take(0).to_multiset());
    }
    while i < v.len()
        invariant
            s == v@,
            i <= s.len(),
            sorted_entries(out@),
            out@.to_multiset() == s.take(i as int).to_multiset(),
        decreases s.len() - i,
    {
        let e = v[i];
        let ghost pre = out@;
        let mut j: usize = 0;
        while j < out.len() && entry_le_exec(&out[j], &e)
            invariant
                out@ == pre,
                j <= out@.len(),
                forall|k: int| 0 <= k < j ==> entry_le(out@[k], e),
            decreases out@.len() - j,
        {
            j = j + 1;
        }
        out.insert(j, e);
        proof {
            pre.insert_ensures(j as int, e);
            vstd::seq_lib::to_multiset_insert(pre, j as int, e);
            assert(s.take(i as int + 1) =~= s.take(i as int).push(e));
            vstd::seq_lib::to_multiset_build(s.take(i as int), e);
            assert forall|p: int, q: int| 0 <= p <= q < out@.len() implies entry_le(
                out@[p],
                out@[q],
            ) by {
                if j < pre.len() {
                    assert(!entry_le(pre[j as int], e));
                    assert(entry_le(e, pre[j as int]));
                }
                if p < j && q < j {
                    assert(entry_le(pre[p], pre[q]));
                } else if p < j && q == j {
                    assert(entry_le(pre[p], e));
                } else if p < j && q > j {
                    assert(entry_le(pre[p], pre[q - 1]));
                } else if p == j && q > j {
                    assert(entry_le(pre[j as int], pre[q - 1]));
                } else if p == j && q == j {
                    assert(entry_le(e, e));
                } else if p > j && q > j {
                    assert(entry_le(pre[p - 1], pre[q - 1]));
                }
            }
        }
        i = i + 1;
    }
    proof {
        assert(s.take(s.len() as int) =~= s);
    }
    out
}

/// Fires the due entries from index `i` on, in order.  Each entry fires
/// only if its position still holds its kind; a stale entry is invalidated
/// silently.  The world afterward is exactly the fold of [`fire_step_model`]
/// over the remaining entries.  Firing never reschedules in this catalogue,
/// so the pending schedule is untouched, and drops are only ever appended.
fn fire_from(world: &mut World, due: &Vec<TickEntry>, i: usize)
    requires
        i <= due.len(),
    ensures
        final(world).model() == fired_model(old(world).model(), due@.skip(i as int)),
        final(world).sched() == old(world).sched(),
        final(world).truncated() == old(world).truncated(),
        final(world).spec_next_seq() == old(world).spec_next_seq(),
        old(world).dropped().is_prefix_of(final(world).dropped()),
    decreases due.len() - i,
{
    if i == due.len() {
        proof {
            assert(due@.skip(i as int) =~= Seq::<TickEntry>::empty());
            assert(world.dropped() =~= world.dropped().subrange(
                0,
                world.dropped().len() as int,
            ));
        }
        return;
    }
    let e = due[i];
    let ghost w_in = *world;
    let fire = match world.kind_at(e.pos) {
        Some(k) => k == e.kind,
        None => false,
    };
    if fire {
        dispatch_on_scheduled_tick(world, e.kind, e.pos);
    }
    let ghost w_mid = *world;
    proof {
        assert(w_mid.model() == fire_step_model(w_in.model(), e));
        if w_mid.dropped() != w_in.dropped() {
            assert(w_mid.dropped() == w_in.dropped().push(e.pos));
            assert(w_in.dropped() =~= w_mid.dropped().subrange(
                0,
                w_in.dropped().len() as int,
            ));
        } else {
            assert(w_in.dropped() =~= w_mid.dropped().subrange(
                0,
                w_in.dropped().len() as int,
            ));
        }
    }
    fire_from(world, due, i + 1);
    proof {
        assert(due@.skip(i as int)[0] == due@[i as int]);
        assert(due@.skip(i as int).skip(1) =~= due@.skip(i as int + 1));
        assert(world.model() == fired_model(w_in.model(), due@.skip(i as int)));
        lemma_prefix_trans(w_in.dropped(), w_mid.dropped(), world.dropped());
    }
}

/// One world tick: every delay counts down, the due entries leave the
/// schedule and fire in ascending (priority, insertion sequence) order, and
/// stale ones among them are silently invalidated.  The whole effect is
/// pinned by [`world_tick_rel`]: some sorted arrangement of exactly the due
/// entries was folded through [`fire_step_model`].  Afterward exactly the
/// decremented pending entries remain scheduled; drops are only ever
/// appended; and a world with nothing scheduled is left exactly as it was.
pub fn run_world_tick(world: &mut World)
    ensures
        (exists|due: Seq<TickEntry>|
            #[trigger] world_tick_rel(old(world).model(), final(world).model(), due)),
        final(world).sched() == pending_of(
            old(world).sched().map_values(|e: TickEntry| dec_entry(e)),
        ),
        final(world).truncated() == old(world).truncated(),
        final(world).spec_next_seq() == old(world).spec_next_seq(),
        old(world).dropped().is_prefix_of(final(world).dropped()),
        old(world).sched().len() == 0 ==> same_world(*final(world), *old(world)),
{
    proof {
        if old(world).sched().len() == 0 {
            assert(old(world).sched() =~= Seq::<TickEntry>::empty());
            assert(old(world).sched().map_values(|e: TickEntry| dec_entry(e))
                =~= Seq::<TickEntry>::empty());
        }
    }
    decrement_delays(world);
    let due = extract_due(world);
    let ghost w_b = *world;
    let sorted = sort_due(&due);
    proof {
        vstd::seq_lib::to_multiset_len(sorted@);
        vstd::seq_lib::to_multiset_len(due@);
    }
    fire_from(world, &sorted, 0);
    proof {
        assert(sorted@.skip(0) =~= sorted@);
        assert(w_b.model() == (WorldModel {
            sched: pending_of(old(world).sched().map_values(|e: TickEntry| dec_entry(e))),
            ..old(world).model()
        }));
        assert(world_tick_rel(old(world).model(), world.model(), sorted@));
    }
}

/// One random-tick sample: whatever block occupies the position gets its
/// random-tick hook, unconditionally; an unloaded or undecodable cell is
/// skipped.  Only the cactus reacts in this catalogue.
pub fn run_random_tick_at(world: &mut World, pos: BlockPos)
    ensures
        old(world).spec_kind_at(pos) == Some(BlockKind::Cactus) ==> cactus_random_tick_rel(
            *old(world),
            *final(world),
            pos,
        ),
        old(world).spec_kind_at(pos) != Some(BlockKind::Cactus) ==> same_world(
            *final(world),
            *old(world),
        ),
{
    match world.kind_at(pos) {
        Some(k) => {
            dispatch_random_tick(world, k, pos);
        }
        None => {}
    }
}

} // verus!
