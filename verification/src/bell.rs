//! The bell behavior.
//!
//! A bell hangs from a ceiling, stands on a floor or fastens to one or two
//! walls.  Placement against a vertical face demands a solid cell beyond that
//! face; placement against a horizontal face is content with a solid wall
//! behind the face, a solid floor below or a solid ceiling above.  The
//! attachment chosen at placement follows a fixed precedence: the wall checks
//! come before the floor check, and the floor check before the ceiling check.

use vstd::prelude::*;
use crate::geometry::{BlockDirection, BlockPos, HorizontalFacing};
use crate::registry::{spec_encode, BlockKind, BELL_BASE};
use crate::world::World;

verus! {

/// Where a bell fastens to its surroundings; part of its property set.
#[derive(Clone, Copy, PartialEq, Eq, Debug, Structural)]
pub enum Attachment {
    Floor,
    Ceiling,
    SingleWall,
    DoubleWall,
}

/// The property digit of a horizontal facing.
pub open spec fn facing_digit(f: HorizontalFacing) -> u64 {
    match f {
        HorizontalFacing::North => 0,
        HorizontalFacing::South => 1,
        HorizontalFacing::East => 2,
        HorizontalFacing::West => 3,
    }
}

/// The property digit of an attachment.
pub open spec fn attachment_digit(a: Attachment) -> u64 {
    match a {
        Attachment::Floor => 0,
        Attachment::Ceiling => 1,
        Attachment::SingleWall => 2,
        Attachment::DoubleWall => 3,
    }
}

/// The packed state of a bell with the given facing, attachment and powered
/// bit.
pub open spec fn bell_state(f: HorizontalFacing, a: Attachment, powered: bool) -> u64 {
    (BELL_BASE + facing_digit(f) + 4 * attachment_digit(a) + 16 * (if powered {
        1u64
    } else {
        0u64
    })) as u64
}

/// The bell state formula agrees with the catalogue's mixed-radix encoding
/// of the digits (facing, attachment, powered).
pub proof fn lemma_bell_state_encode(f: HorizontalFacing, a: Attachment, powered: bool)
    ensures
        bell_state(f, a, powered) == spec_encode(
            BlockKind::Bell,
            seq![facing_digit(f), attachment_digit(a), if powered { 1u64 } else { 0u64 }],
        ),
{
    let fd = facing_digit(f);
    let ad = attachment_digit(a);
    let pd: u64 = if powered { 1u64 } else { 0u64 };
    let digits = seq![fd, ad, pd];
    let cards = BlockKind::Bell.cards();
    reveal_with_fuel(crate::codec::pack, 4);
    assert(crate::codec::pack(Seq::<u64>::empty(), Seq::<u64>::empty()) == 0);
    assert(seq![2u64].skip(1) =~= Seq::<u64>::empty());
    assert(seq![pd].skip(1) =~= Seq::<u64>::empty());
    assert(crate::codec::pack(seq![2u64], seq![pd]) == pd);
    assert(seq![4u64, 2u64].skip(1) =~= seq![2u64]);
    assert(seq![ad, pd].skip(1) =~= seq![pd]);
    assert(crate::codec::pack(seq![4u64, 2u64], seq![ad, pd]) == ad + 4 * pd);
    assert(cards.skip(1) =~= seq![4u64, 2u64]);
    assert(digits.skip(1) =~= seq![ad, pd]);
    assert(crate::codec::pack(cards, digits) == fd + 4 * (ad + 4 * pd));
}

/// Whether a bell may occupy `pos` when placed against the given face.
/// Unloaded cells count as not solid, so unknown surroundings deny placement.
pub open spec fn bell_can_place_spec(w: World, pos: BlockPos, face: BlockDirection) -> bool {
    match face {
        BlockDirection::Up | BlockDirection::Down => w.solid_at(pos.spec_offset(face)),
        _ => {
            ||| w.solid_at(pos.spec_offset(face))
            ||| w.solid_at(pos.spec_down())
            ||| w.solid_at(pos.spec_up())
        },
    }
}

/// The attachment a bell placed against the horizontal face `f` selects.
/// The precedence is fixed: both walls, then one wall, then the floor, then
/// the ceiling.
pub open spec fn bell_attachment_spec(w: World, pos: BlockPos, f: HorizontalFacing) -> Attachment {
    if w.solid_at(pos.spec_offset(f.spec_to_direction())) {
        if w.solid_at(pos.spec_offset(f.spec_opposite().spec_to_direction())) {
            Attachment::DoubleWall
        } else {
            Attachment::SingleWall
        }
    } else {
        if w.solid_at(pos.spec_down()) {
            Attachment::Floor
        } else {
            Attachment::Ceiling
        }
    }
}

/// The packed state a bell takes when placed at `pos` against `face` by a
/// placer looking toward `player_facing`.
pub open spec fn bell_on_place_spec(
    w: World,
    pos: BlockPos,
    face: BlockDirection,
    player_facing: HorizontalFacing,
) -> u64 {
    match face {
        BlockDirection::Up => bell_state(player_facing, Attachment::Ceiling, false),
        BlockDirection::Down => bell_state(player_facing, Attachment::Floor, false),
        _ => {
            let f = face.spec_to_horizontal_facing()->Some_0;
            bell_state(f, bell_attachment_spec(w, pos, f), false)
        },
    }
}

/// The bell block behavior.
pub struct BellBlock;

impl BellBlock {
    /// Structural placement legality for a bell: a pure predicate over the
    /// surroundings, never a mutation.
    pub fn can_place_at(&self, world: &World, pos: BlockPos, face: BlockDirection) -> (r: bool)
        ensures
            r == bell_can_place_spec(*world, pos, face),
    {
        match face {
            BlockDirection::Up | BlockDirection::Down => {
                world.is_solid_at(pos.offset(face))
            }
            _ => {
                if world.is_solid_at(pos.offset(face)) {
                    return true;
                }
                if world.is_solid_at(pos.down()) {
                    return true;
                }
                world.is_solid_at(pos.up())
            }
        }
    }

    /// The initial packed state of a bell being placed: the facing comes from
    /// the placer (or from the face itself on a wall), the attachment from
    /// the documented precedence over the solid surroundings.
    pub fn on_place(
        &self,
        world: &World,
        pos: BlockPos,
        face: BlockDirection,
        player_facing: HorizontalFacing,
    ) -> (r: u64)
        requires
            bell_can_place_spec(*world, pos, face),
        ensures
            r == bell_on_place_spec(*world, pos, face, player_facing),
    {
        let (facing, attachment) = match face {
            BlockDirection::Up => (player_facing, Attachment::Ceiling),
            BlockDirection::Down => (player_facing, Attachment::Floor),
            _ => {
                let f = match face.to_horizontal_facing() {
                    Some(f) => f,
                    None => player_facing,
                };
                if world.is_solid_at(pos.offset(f.to_direction())) {
                    if world.is_solid_at(pos.offset(f.opposite().to_direction())) {
                        (f, Attachment::DoubleWall)
                    } else {
                        (f, Attachment::SingleWall)
                    }
                } else if world.is_solid_at(pos.down()) {
                    (f, Attachment::Floor)
                } else {
                    (f, Attachment::Ceiling)
                }
            }
        };
        bell_state_id(facing, attachment, false)
    }
}

/// Packs a bell state.
pub fn bell_state_id(f: HorizontalFacing, a: Attachment, powered: bool) -> (r: u64)
    ensures
        r == bell_state(f, a, powered),
{
    let fd: u64 = match f {
        HorizontalFacing::North => 0,
        HorizontalFacing::South => 1,
        HorizontalFacing::East => 2,
        HorizontalFacing::West => 3,
    };
    let ad: u64 = match a {
        Attachment::Floor => 0,
        Attachment::Ceiling => 1,
        Attachment::SingleWall => 2,
        Attachment::DoubleWall => 3,
    };
    let pd: u64 = if powered { 1 } else { 0 };
    BELL_BASE + fd + 4 * ad + 16 * pd
}

/// Attachment selection at placement.  Against a horizontal face: both that
/// face's wall and its opposite solid give a double wall; only the face's
/// wall solid gives a single wall; no wall but a solid floor gives a floor
/// bell; no wall, no floor, but a solid ceiling gives a ceiling bell.
pub proof fn lemma_bell_attachment_selection(w: World, pos: BlockPos, f: HorizontalFacing)
    ensures
        w.solid_at(pos.spec_offset(f.spec_to_direction())) && w.solid_at(
            pos.spec_offset(f.spec_opposite().spec_to_direction()),
        ) ==> bell_attachment_spec(w, pos, f) == Attachment::DoubleWall,
        w.solid_at(pos.spec_offset(f.spec_to_direction())) && !w.solid_at(
            pos.spec_offset(f.spec_opposite().spec_to_direction()),
        ) ==> bell_attachment_spec(w, pos, f) == Attachment::SingleWall,
        !w.solid_at(pos.spec_offset(f.spec_to_direction())) && w.solid_at(pos.spec_down())
            ==> bell_attachment_spec(w, pos, f) == Attachment::Floor,
        !w.solid_at(pos.spec_offset(f.spec_to_direction())) && !w.solid_at(pos.spec_down())
            && w.solid_at(pos.spec_up()) ==> bell_attachment_spec(w, pos, f)
            == Attachment::Ceiling,
{
}

} // verus!
