use block_engine::behavior::{
    default_state, dispatch_can_place_at, dispatch_on_place, dispatch_random_tick,
};
use block_engine::bell::{bell_state_id, Attachment, BellBlock};
use block_engine::cactus::{cactus_age, CactusBlock};
use block_engine::geometry::{BlockDirection, BlockPos, HorizontalFacing};
use block_engine::mutation::{break_block, set_block_state, BlockFlags};
use block_engine::registry::{
    decode_state, encode_state, BlockKind, AIR_STATE, BELL_BASE, CACTUS_BASE, LAVA_BASE,
    SAND_BASE, STONE_BASE, TOGGLE_BASE, TOTAL_STATES, WATER_BASE,
};
use block_engine::scheduler::{run_random_tick_at, run_world_tick, sort_due};
use block_engine::world::{TickEntry, TickPriority, World};

fn pos(x: i32, y: i32, z: i32) -> BlockPos {
    BlockPos { x, y, z }
}

fn put(w: &mut World, p: BlockPos, id: u64) {
    set_block_state(w, p, id, BlockFlags::empty());
}

/// A cactus of the given age at `p`, standing on sand, with loaded air
/// around and above it.
fn cactus_scene(age: u64) -> (World, BlockPos) {
    let mut w = World::new();
    let p = pos(0, 1, 0);
    put(&mut w, pos(0, 0, 0), SAND_BASE);
    put(&mut w, pos(0, 2, 0), AIR_STATE);
    put(&mut w, pos(1, 1, 0), AIR_STATE);
    put(&mut w, pos(-1, 1, 0), AIR_STATE);
    put(&mut w, pos(0, 1, 1), AIR_STATE);
    put(&mut w, pos(0, 1, -1), AIR_STATE);
    put(&mut w, p, CACTUS_BASE + age);
    (w, p)
}

// --- State codec ---

#[test]
fn codec_round_trip_every_state() {
    for id in 0..TOTAL_STATES {
        let (kind, digits) = decode_state(id).expect("valid id must decode");
        assert_eq!(encode_state(kind, &digits), id);
    }
}

#[test]
fn codec_rejects_out_of_range_ids() {
    assert!(decode_state(TOTAL_STATES).is_none());
    assert!(decode_state(1_000_000).is_none());
    assert!(decode_state(u64::MAX).is_none());
}

#[test]
fn codec_ranges_do_not_overlap() {
    let mut counts = [0u64; 8];
    for id in 0..TOTAL_STATES {
        let (kind, _) = decode_state(id).unwrap();
        let slot = match kind {
            BlockKind::Air => 0,
            BlockKind::Stone => 1,
            BlockKind::Sand => 2,
            BlockKind::Lava => 3,
            BlockKind::Water => 4,
            BlockKind::Cactus => 5,
            BlockKind::Bell => 6,
            BlockKind::Toggle => 7,
        };
        counts[slot] += 1;
    }
    assert_eq!(counts, [1, 1, 1, 1, 1, 16, 32, 2]);
}

#[test]
fn codec_cactus_ages_are_dense() {
    for age in 0..16u64 {
        let digits = vec![age];
        let id = encode_state(BlockKind::Cactus, &digits);
        assert_eq!(id, CACTUS_BASE + age);
        assert_eq!(cactus_age(id), Some(age));
        let (kind, back) = decode_state(id).unwrap();
        assert_eq!(kind, BlockKind::Cactus);
        assert_eq!(back, digits);
    }
    assert_eq!(cactus_age(STONE_BASE), None);
    assert_eq!(cactus_age(BELL_BASE), None);
}

#[test]
fn codec_bell_states_pack_all_digits() {
    assert_eq!(
        bell_state_id(HorizontalFacing::North, Attachment::Floor, false),
        BELL_BASE
    );
    assert_eq!(
        bell_state_id(HorizontalFacing::West, Attachment::DoubleWall, true),
        BELL_BASE + 3 + 4 * 3 + 16
    );
    let id = bell_state_id(HorizontalFacing::East, Attachment::SingleWall, false);
    let (kind, digits) = decode_state(id).unwrap();
    assert_eq!(kind, BlockKind::Bell);
    assert_eq!(digits, vec![2, 2, 0]);
}

#[test]
fn default_states_are_range_bases() {
    assert_eq!(default_state(BlockKind::Air), AIR_STATE);
    assert_eq!(default_state(BlockKind::Cactus), CACTUS_BASE);
    assert_eq!(default_state(BlockKind::Bell), BELL_BASE);
    assert_eq!(default_state(BlockKind::Toggle), TOGGLE_BASE);
}

// --- World store ---

#[test]
fn unloaded_position_has_no_answer() {
    let w = World::new();
    assert_eq!(w.get_block_state(pos(3, 4, 5)), None);
    assert_eq!(w.kind_at(pos(3, 4, 5)), None);
}

#[test]
fn set_block_state_returns_previous() {
    let mut w = World::new();
    let p = pos(1, 2, 3);
    assert_eq!(set_block_state(&mut w, p, STONE_BASE, BlockFlags::empty()), None);
    assert_eq!(
        set_block_state(&mut w, p, SAND_BASE, BlockFlags::empty()),
        Some(STONE_BASE)
    );
    assert_eq!(w.get_block_state(p), Some(SAND_BASE));
}

#[test]
fn break_block_replaces_with_air_and_drops() {
    let mut w = World::new();
    let p = pos(0, 0, 0);
    put(&mut w, p, STONE_BASE);
    let prev = break_block(&mut w, p, BlockFlags::empty());
    assert_eq!(prev, Some(STONE_BASE));
    assert_eq!(w.get_block_state(p), Some(AIR_STATE));
    assert_eq!(w.drops_len(), 1);
    assert_eq!(w.drop_at(0), p);
}

#[test]
fn break_block_skip_drops_suppresses_the_drop() {
    let mut w = World::new();
    let p = pos(0, 0, 0);
    put(&mut w, p, STONE_BASE);
    let mut flags = BlockFlags::empty();
    flags.skip_drops = true;
    break_block(&mut w, p, flags);
    assert_eq!(w.get_block_state(p), Some(AIR_STATE));
    assert_eq!(w.drops_len(), 0);
}

#[test]
fn break_block_on_air_drops_nothing() {
    let mut w = World::new();
    let p = pos(0, 0, 0);
    put(&mut w, p, AIR_STATE);
    break_block(&mut w, p, BlockFlags::empty());
    assert_eq!(w.drops_len(), 0);
}

// --- Cactus placement ---

#[test]
fn cactus_placeable_on_sand_in_the_open() {
    let (w, p) = cactus_scene(0);
    let b = CactusBlock;
    assert!(b.can_place_at(&w, p, BlockDirection::Down));
}

#[test]
fn cactus_placeable_on_cactus() {
    let (mut w, p) = cactus_scene(0);
    let above = pos(0, 2, 0);
    put(&mut w, pos(0, 3, 0), AIR_STATE);
    put(&mut w, pos(1, 2, 0), AIR_STATE);
    put(&mut w, pos(-1, 2, 0), AIR_STATE);
    put(&mut w, pos(0, 2, 1), AIR_STATE);
    put(&mut w, pos(0, 2, -1), AIR_STATE);
    let b = CactusBlock;
    assert!(b.can_place_at(&w, above, BlockDirection::Down));
    let _ = p;
}

#[test]
fn cactus_denied_by_solid_horizontal_neighbor() {
    let (mut w, p) = cactus_scene(0);
    put(&mut w, pos(1, 1, 0), STONE_BASE);
    let b = CactusBlock;
    assert!(!b.can_place_at(&w, p, BlockDirection::Down));
}

#[test]
fn cactus_denied_by_lava_horizontal_neighbor() {
    let (mut w, p) = cactus_scene(0);
    put(&mut w, pos(0, 1, -1), LAVA_BASE);
    let b = CactusBlock;
    assert!(!b.can_place_at(&w, p, BlockDirection::Down));
}

#[test]
fn cactus_denied_by_liquid_above_despite_valid_support() {
    let (mut w, p) = cactus_scene(0);
    put(&mut w, pos(0, 2, 0), WATER_BASE);
    let b = CactusBlock;
    assert!(!b.can_place_at(&w, p, BlockDirection::Down));
}

#[test]
fn cactus_denied_by_unloaded_neighbor() {
    let mut w = World::new();
    let p = pos(0, 1, 0);
    put(&mut w, pos(0, 0, 0), SAND_BASE);
    put(&mut w, p, CACTUS_BASE);
    let b = CactusBlock;
    assert!(!b.can_place_at(&w, p, BlockDirection::Down));
}

#[test]
fn cactus_denied_by_stone_support() {
    let (mut w, p) = cactus_scene(0);
    put(&mut w, pos(0, 0, 0), STONE_BASE);
    let b = CactusBlock;
    assert!(!b.can_place_at(&w, p, BlockDirection::Down));
}

// --- Cactus random ticks ---

#[test]
fn cactus_ages_by_one_under_air() {
    for age in 0..15u64 {
        let (mut w, p) = cactus_scene(age);
        let b = CactusBlock;
        b.random_tick(&mut w, p);
        assert_eq!(w.get_block_state(p), Some(CACTUS_BASE + age + 1));
        assert_eq!(w.get_block_state(pos(0, 2, 0)), Some(AIR_STATE));
        assert_eq!(w.schedule_len(), 0);
    }
}

#[test]
fn cactus_at_top_age_grows_and_resets() {
    let (mut w, p) = cactus_scene(15);
    let b = CactusBlock;
    b.random_tick(&mut w, p);
    assert_eq!(w.get_block_state(p), Some(CACTUS_BASE));
    assert_eq!(w.get_block_state(pos(0, 2, 0)), Some(CACTUS_BASE + 15));
}

#[test]
fn cactus_tick_suppressed_by_solid_above() {
    let (mut w, p) = cactus_scene(7);
    put(&mut w, pos(0, 2, 0), STONE_BASE);
    let b = CactusBlock;
    b.random_tick(&mut w, p);
    assert_eq!(w.get_block_state(p), Some(CACTUS_BASE + 7));
    assert_eq!(w.get_block_state(pos(0, 2, 0)), Some(STONE_BASE));
}

#[test]
fn cactus_tick_suppressed_by_liquid_above() {
    let (mut w, p) = cactus_scene(2);
    put(&mut w, pos(0, 2, 0), WATER_BASE);
    let b = CactusBlock;
    b.random_tick(&mut w, p);
    assert_eq!(w.get_block_state(p), Some(CACTUS_BASE + 2));
}

#[test]
fn cactus_tick_suppressed_by_unloaded_above() {
    let mut w = World::new();
    let p = pos(0, 1, 0);
    put(&mut w, p, CACTUS_BASE + 4);
    let b = CactusBlock;
    b.random_tick(&mut w, p);
    assert_eq!(w.get_block_state(p), Some(CACTUS_BASE + 4));
}

#[test]
fn random_tick_driver_skips_foreign_blocks() {
    let mut w = World::new();
    let p = pos(0, 0, 0);
    put(&mut w, p, STONE_BASE);
    run_random_tick_at(&mut w, p);
    assert_eq!(w.get_block_state(p), Some(STONE_BASE));
    assert_eq!(w.schedule_len(), 0);
}

#[test]
fn random_tick_driver_ages_a_cactus() {
    let (mut w, p) = cactus_scene(0);
    run_random_tick_at(&mut w, p);
    assert_eq!(w.get_block_state(p), Some(CACTUS_BASE + 1));
}

// --- Cactus neighbor re-check ---

#[test]
fn solid_neighbor_schedules_recheck_and_tick_removes() {
    let (mut w, p) = cactus_scene(5);
    // A horizontally adjacent cell becomes solid, with notification.
    set_block_state(&mut w, pos(1, 1, 0), STONE_BASE, BlockFlags::notify());
    // The cactus kept its state but asked for a re-check.
    assert_eq!(w.get_block_state(p), Some(CACTUS_BASE + 5));
    assert_eq!(w.schedule_len(), 1);
    let entry = w.schedule_entry(0);
    assert_eq!(entry.pos, p);
    assert_eq!(entry.kind, BlockKind::Cactus);
    assert_eq!(entry.delay, 1);
    assert_eq!(entry.priority, TickPriority::Normal);
    // The re-check fires one tick later and removes the block.
    run_world_tick(&mut w);
    assert_eq!(w.schedule_len(), 0);
    assert_eq!(w.get_block_state(p), Some(AIR_STATE));
    assert_eq!(w.drops_len(), 1);
    assert_eq!(w.drop_at(0), p);
}

#[test]
fn recheck_tick_spares_a_cactus_that_can_stay() {
    let (mut w, p) = cactus_scene(5);
    // Ask for a re-check although the placement is still valid.
    w.schedule_block_tick(BlockKind::Cactus, p, 1, TickPriority::Normal);
    run_world_tick(&mut w);
    assert_eq!(w.get_block_state(p), Some(CACTUS_BASE + 5));
    assert_eq!(w.drops_len(), 0);
}

#[test]
fn stale_tick_entry_is_invalidated_silently() {
    let mut w = World::new();
    let p = pos(0, 0, 0);
    put(&mut w, p, STONE_BASE);
    // The entry names a cactus, but the position holds stone by fire time.
    w.schedule_block_tick(BlockKind::Cactus, p, 1, TickPriority::Normal);
    run_world_tick(&mut w);
    assert_eq!(w.schedule_len(), 0);
    assert_eq!(w.get_block_state(p), Some(STONE_BASE));
    assert_eq!(w.drops_len(), 0);
}

// --- Tick scheduler ---

#[test]
fn delays_count_down_until_due() {
    let mut w = World::new();
    w.schedule_block_tick(BlockKind::Stone, pos(0, 0, 0), 3, TickPriority::Low);
    run_world_tick(&mut w);
    assert_eq!(w.schedule_len(), 1);
    assert_eq!(w.schedule_entry(0).delay, 2);
    run_world_tick(&mut w);
    assert_eq!(w.schedule_entry(0).delay, 1);
    run_world_tick(&mut w);
    assert_eq!(w.schedule_len(), 0);
}

#[test]
fn insertion_sequences_are_monotonic() {
    let mut w = World::new();
    w.schedule_block_tick(BlockKind::Stone, pos(0, 0, 0), 5, TickPriority::Normal);
    w.schedule_block_tick(BlockKind::Sand, pos(1, 0, 0), 5, TickPriority::Normal);
    w.schedule_block_tick(BlockKind::Bell, pos(2, 0, 0), 5, TickPriority::High);
    assert_eq!(w.schedule_entry(0).seq, 0);
    assert_eq!(w.schedule_entry(1).seq, 1);
    assert_eq!(w.schedule_entry(2).seq, 2);
}

#[test]
fn due_entries_fire_by_priority_then_sequence() {
    let e = |priority: TickPriority, seq: u64| TickEntry {
        pos: pos(0, 0, 0),
        kind: BlockKind::Stone,
        delay: 0,
        priority,
        seq,
    };
    let due = vec![
        e(TickPriority::Low, 0),
        e(TickPriority::High, 1),
        e(TickPriority::Normal, 2),
        e(TickPriority::High, 0),
    ];
    let sorted = sort_due(&due);
    let order: Vec<(TickPriority, u64)> =
        sorted.iter().map(|t| (t.priority, t.seq)).collect();
    assert_eq!(
        order,
        vec![
            (TickPriority::High, 0),
            (TickPriority::High, 1),
            (TickPriority::Normal, 2),
            (TickPriority::Low, 0),
        ]
    );
}

// --- Bell placement ---

#[test]
fn bell_needs_a_solid_cell_beyond_a_vertical_face() {
    let mut w = World::new();
    let p = pos(0, 1, 0);
    let b = BellBlock;
    assert!(!b.can_place_at(&w, p, BlockDirection::Down));
    put(&mut w, pos(0, 0, 0), STONE_BASE);
    assert!(b.can_place_at(&w, p, BlockDirection::Down));
    assert!(!b.can_place_at(&w, p, BlockDirection::Up));
    put(&mut w, pos(0, 2, 0), STONE_BASE);
    assert!(b.can_place_at(&w, p, BlockDirection::Up));
}

#[test]
fn bell_against_a_wall_accepts_wall_floor_or_ceiling_support() {
    let mut w = World::new();
    let p = pos(0, 1, 0);
    let b = BellBlock;
    assert!(!b.can_place_at(&w, p, BlockDirection::East));
    put(&mut w, pos(1, 1, 0), STONE_BASE);
    assert!(b.can_place_at(&w, p, BlockDirection::East));

    let mut w2 = World::new();
    put(&mut w2, pos(0, 0, 0), STONE_BASE);
    assert!(b.can_place_at(&w2, p, BlockDirection::East));

    let mut w3 = World::new();
    put(&mut w3, pos(0, 2, 0), STONE_BASE);
    assert!(b.can_place_at(&w3, p, BlockDirection::East));
}

#[test]
fn bell_on_vertical_faces_takes_player_facing() {
    let mut w = World::new();
    let p = pos(0, 1, 0);
    put(&mut w, pos(0, 0, 0), STONE_BASE);
    put(&mut w, pos(0, 2, 0), STONE_BASE);
    let b = BellBlock;
    let floor = b.on_place(&w, p, BlockDirection::Down, HorizontalFacing::South);
    assert_eq!(
        floor,
        bell_state_id(HorizontalFacing::South, Attachment::Floor, false)
    );
    let ceiling = b.on_place(&w, p, BlockDirection::Up, HorizontalFacing::West);
    assert_eq!(
        ceiling,
        bell_state_id(HorizontalFacing::West, Attachment::Ceiling, false)
    );
}

#[test]
fn bell_with_both_walls_solid_takes_double_wall() {
    let mut w = World::new();
    let p = pos(0, 1, 0);
    put(&mut w, pos(1, 1, 0), STONE_BASE);
    put(&mut w, pos(-1, 1, 0), STONE_BASE);
    let b = BellBlock;
    let id = b.on_place(&w, p, BlockDirection::East, HorizontalFacing::North);
    assert_eq!(
        id,
        bell_state_id(HorizontalFacing::East, Attachment::DoubleWall, false)
    );
}

#[test]
fn bell_with_one_wall_solid_takes_single_wall() {
    let mut w = World::new();
    let p = pos(0, 1, 0);
    put(&mut w, pos(1, 1, 0), STONE_BASE);
    let b = BellBlock;
    let id = b.on_place(&w, p, BlockDirection::East, HorizontalFacing::North);
    assert_eq!(
        id,
        bell_state_id(HorizontalFacing::East, Attachment::SingleWall, false)
    );
}

#[test]
fn bell_with_no_wall_but_solid_floor_takes_floor() {
    let mut w = World::new();
    let p = pos(0, 1, 0);
    put(&mut w, pos(0, 0, 0), STONE_BASE);
    let b = BellBlock;
    let id = b.on_place(&w, p, BlockDirection::East, HorizontalFacing::North);
    assert_eq!(
        id,
        bell_state_id(HorizontalFacing::East, Attachment::Floor, false)
    );
}

#[test]
fn bell_with_only_solid_ceiling_takes_ceiling() {
    let mut w = World::new();
    let p = pos(0, 1, 0);
    put(&mut w, pos(0, 2, 0), STONE_BASE);
    let b = BellBlock;
    let id = b.on_place(&w, p, BlockDirection::East, HorizontalFacing::North);
    assert_eq!(
        id,
        bell_state_id(HorizontalFacing::East, Attachment::Ceiling, false)
    );
}

// --- Behavior dispatch defaults ---

#[test]
fn dispatch_defaults_allow_and_start_at_zero() {
    let mut w = World::new();
    let p = pos(0, 0, 0);
    put(&mut w, p, STONE_BASE);
    assert!(dispatch_can_place_at(&w, BlockKind::Stone, p, BlockDirection::Down));
    assert_eq!(
        dispatch_on_place(&w, BlockKind::Stone, p, BlockDirection::Down, HorizontalFacing::North),
        STONE_BASE
    );
    dispatch_random_tick(&mut w, BlockKind::Stone, p);
    assert_eq!(w.get_block_state(p), Some(STONE_BASE));
}

// --- Neighbor update propagation ---

#[test]
fn propagation_leaves_inert_neighbors_alone() {
    let mut w = World::new();
    let p = pos(0, 1, 0);
    put(&mut w, pos(0, 0, 0), SAND_BASE);
    put(&mut w, pos(0, 2, 0), AIR_STATE);
    set_block_state(&mut w, p, STONE_BASE, BlockFlags::notify());
    assert_eq!(w.get_block_state(p), Some(STONE_BASE));
    assert_eq!(w.get_block_state(pos(0, 0, 0)), Some(SAND_BASE));
    assert_eq!(w.get_block_state(pos(0, 2, 0)), Some(AIR_STATE));
    assert_eq!(w.truncation_count(), 0);
}

#[test]
fn cyclic_toggle_pair_terminates_at_the_depth_bound() {
    let mut w = World::new();
    let a = pos(0, 0, 0);
    let b = pos(1, 0, 0);
    put(&mut w, b, TOGGLE_BASE);
    // Placing the second toggle with notification starts a cascade in which
    // each of the pair reconfigures in response to the other; the depth
    // bound must cut it off instead of letting it loop.
    set_block_state(&mut w, a, TOGGLE_BASE, BlockFlags::notify());
    assert!(w.truncation_count() >= 1);
    // Both cells still hold toggle states.
    let sa = w.get_block_state(a).unwrap();
    let sb = w.get_block_state(b).unwrap();
    assert!(sa == TOGGLE_BASE || sa == TOGGLE_BASE + 1);
    assert!(sb == TOGGLE_BASE || sb == TOGGLE_BASE + 1);
}

#[test]
fn plain_set_does_not_propagate() {
    let mut w = World::new();
    let a = pos(0, 0, 0);
    let b = pos(1, 0, 0);
    put(&mut w, b, TOGGLE_BASE);
    put(&mut w, a, TOGGLE_BASE);
    assert_eq!(w.get_block_state(b), Some(TOGGLE_BASE));
    assert_eq!(w.truncation_count(), 0);
}

#[test]
fn combined_query_returns_kind_and_state() {
    let mut w = World::new();
    let p = pos(2, 2, 2);
    assert_eq!(w.get_block_and_block_state(p), None);
    put(&mut w, p, CACTUS_BASE + 9);
    assert_eq!(
        w.get_block_and_block_state(p),
        Some((BlockKind::Cactus, CACTUS_BASE + 9))
    );
}

#[test]
fn coordinate_offsets_wrap_at_the_boundary() {
    let top = pos(0, i32::MAX, 0);
    assert_eq!(top.up(), pos(0, i32::MIN, 0));
    let bottom = pos(0, i32::MIN, 0);
    assert_eq!(bottom.down(), pos(0, i32::MAX, 0));
    assert_eq!(pos(7, 8, 9).offset(BlockDirection::North), pos(7, 8, 8));
    assert_eq!(pos(7, 8, 9).offset(BlockDirection::West), pos(6, 8, 9));
}

#[test]
fn equal_priorities_fire_in_insertion_order() {
    let e = |seq: u64| TickEntry {
        pos: pos(0, 0, 0),
        kind: BlockKind::Stone,
        delay: 0,
        priority: TickPriority::Normal,
        seq,
    };
    let sorted = sort_due(&vec![e(4), e(1), e(3), e(0)]);
    let seqs: Vec<u64> = sorted.iter().map(|t| t.seq).collect();
    assert_eq!(seqs, vec![0, 1, 3, 4]);
}
