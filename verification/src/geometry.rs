//! Positions and axis-aligned directions.
//!
//! A position is an integer (x, y, z) cell coordinate.  Offsetting a
//! coordinate past the `i32` boundary wraps around, so every direction offset
//! is total and moving one step in any direction always reaches a different
//! cell.

use vstd::prelude::*;

verus! {

/// One block cell of the world, identified by integer coordinates.
/// Equality and hashing are by value.
#[derive(Clone, Copy, PartialEq, Eq, Hash, Debug, Structural)]
pub struct BlockPos {
    pub x: i32,
    pub y: i32,
    pub z: i32,
}

/// One of the six axis-aligned unit directions.
#[derive(Clone, Copy, PartialEq, Eq, Debug, Structural)]
pub enum BlockDirection {
    Up,
    Down,
    North,
    South,
    East,
    West,
}

/// The horizontal subset of [`BlockDirection`], used by blocks that store a
/// facing as part of their property set.
#[derive(Clone, Copy, PartialEq, Eq, Debug, Structural)]
pub enum HorizontalFacing {
    North,
    South,
    East,
    West,
}

/// One coordinate step upward, wrapping at the `i32` boundary.
pub open spec fn spec_step_up(v: i32) -> i32 {
    if v == i32::MAX { i32::MIN } else { (v + 1) as i32 }
}

/// One coordinate step downward, wrapping at the `i32` boundary.
pub open spec fn spec_step_down(v: i32) -> i32 {
    if v == i32::MIN { i32::MAX } else { (v - 1) as i32 }
}

fn step_up(v: i32) -> (r: i32)
    ensures
        r == spec_step_up(v),
{
    if v == i32::MAX { i32::MIN } else { v + 1 }
}

fn step_down(v: i32) -> (r: i32)
    ensures
        r == spec_step_down(v),
{
    if v == i32::MIN { i32::MAX } else { v - 1 }
}

impl BlockDirection {
    /// The direction pointing the opposite way.
    pub open spec fn spec_opposite(self) -> BlockDirection {
        match self {
            BlockDirection::Up => BlockDirection::Down,
            BlockDirection::Down => BlockDirection::Up,
            BlockDirection::North => BlockDirection::South,
            BlockDirection::South => BlockDirection::North,
            BlockDirection::East => BlockDirection::West,
            BlockDirection::West => BlockDirection::East,
        }
    }

    pub fn opposite(self) -> (r: BlockDirection)
        ensures
            r == self.spec_opposite(),
    {
        match self {
            BlockDirection::Up => BlockDirection::Down,
            BlockDirection::Down => BlockDirection::Up,
            BlockDirection::North => BlockDirection::South,
            BlockDirection::South => BlockDirection::North,
            BlockDirection::East => BlockDirection::West,
            BlockDirection::West => BlockDirection::East,
        }
    }

    pub open spec fn is_horizontal(self) -> bool {
        match self {
            BlockDirection::Up => false,
            BlockDirection::Down => false,
            _ => true,
        }
    }

    /// The horizontal facing of a horizontal direction.
    pub open spec fn spec_to_horizontal_facing(self) -> Option<HorizontalFacing> {
        match self {
            BlockDirection::North => Some(HorizontalFacing::North),
            BlockDirection::South => Some(HorizontalFacing::South),
            BlockDirection::East => Some(HorizontalFacing::East),
            BlockDirection::West => Some(HorizontalFacing::West),
            _ => None,
        }
    }

    pub fn to_horizontal_facing(self) -> (r: Option<HorizontalFacing>)
        ensures
            r == self.spec_to_horizontal_facing(),
    {
        match self {
            BlockDirection::North => Some(HorizontalFacing::North),
            BlockDirection::South => Some(HorizontalFacing::South),
            BlockDirection::East => Some(HorizontalFacing::East),
            BlockDirection::West => Some(HorizontalFacing::West),
            _ => None,
        }
    }
}

impl HorizontalFacing {
    pub open spec fn spec_opposite(self) -> HorizontalFacing {
        match self {
            HorizontalFacing::North => HorizontalFacing::South,
            HorizontalFacing::South => HorizontalFacing::North,
            HorizontalFacing::East => HorizontalFacing::West,
            HorizontalFacing::West => HorizontalFacing::East,
        }
    }

    pub fn opposite(self) -> (r: HorizontalFacing)
        ensures
            r == self.spec_opposite(),
    {
        match self {
            HorizontalFacing::North => HorizontalFacing::South,
            HorizontalFacing::South => HorizontalFacing::North,
            HorizontalFacing::East => HorizontalFacing::West,
            HorizontalFacing::West => HorizontalFacing::East,
        }
    }

    /// The block direction of this facing.
    pub open spec fn spec_to_direction(self) -> BlockDirection {
        match self {
            HorizontalFacing::North => BlockDirection::North,
            HorizontalFacing::South => BlockDirection::South,
            HorizontalFacing::East => BlockDirection::East,
            HorizontalFacing::West => BlockDirection::West,
        }
    }

    pub fn to_direction(self) -> (r: BlockDirection)
        ensures
            r == self.spec_to_direction(),
    {
        match self {
            HorizontalFacing::North => BlockDirection::North,
            HorizontalFacing::South => BlockDirection::South,
            HorizontalFacing::East => BlockDirection::East,
            HorizontalFacing::West => BlockDirection::West,
        }
    }
}

impl BlockPos {
    /// The adjacent cell one step in the given direction.  North is -z,
    /// south is +z, east is +x, west is -x, up is +y, down is -y.
    pub open spec fn spec_offset(self, d: BlockDirection) -> BlockPos {
        match d {
            BlockDirection::Up => BlockPos { y: spec_step_up(self.y), ..self },
            BlockDirection::Down => BlockPos { y: spec_step_down(self.y), ..self },
            BlockDirection::North => BlockPos { z: spec_step_down(self.z), ..self },
            BlockDirection::South => BlockPos { z: spec_step_up(self.z), ..self },
            BlockDirection::East => BlockPos { x: spec_step_up(self.x), ..self },
            BlockDirection::West => BlockPos { x: spec_step_down(self.x), ..self },
        }
    }

    pub fn offset(self, d: BlockDirection) -> (r: BlockPos)
        ensures
            r == self.spec_offset(d),
    {
        match d {
            BlockDirection::Up => BlockPos { y: step_up(self.y), ..self },
            BlockDirection::Down => BlockPos { y: step_down(self.y), ..self },
            BlockDirection::North => BlockPos { z: step_down(self.z), ..self },
            BlockDirection::South => BlockPos { z: step_up(self.z), ..self },
            BlockDirection::East => BlockPos { x: step_up(self.x), ..self },
            BlockDirection::West => BlockPos { x: step_down(self.x), ..self },
        }
    }

    /// The cell directly above.
    pub open spec fn spec_up(self) -> BlockPos {
        self.spec_offset(BlockDirection::Up)
    }

    pub fn up(self) -> (r: BlockPos)
        ensures
            r == self.spec_up(),
    {
        self.offset(BlockDirection::Up)
    }

    /// The cell directly below.
    pub open spec fn spec_down(self) -> BlockPos {
        self.spec_offset(BlockDirection::Down)
    }

    pub fn down(self) -> (r: BlockPos)
        ensures
            r == self.spec_down(),
    {
        self.offset(BlockDirection::Down)
    }
}

/// Stepping one cell in any direction never yields the starting cell.
pub proof fn lemma_offset_moves(p: BlockPos, d: BlockDirection)
    ensures
        p.spec_offset(d) != p,
{
}

/// The four horizontal directions, in the fixed order the placement checks
/// walk them.
pub open spec fn spec_horizontal_directions() -> Seq<BlockDirection> {
    seq![
        BlockDirection::North,
        BlockDirection::South,
        BlockDirection::East,
        BlockDirection::West,
    ]
}

pub fn horizontal_directions() -> (r: Vec<BlockDirection>)
    ensures
        r@ == spec_horizontal_directions(),
{
    let r: Vec<BlockDirection> = vec![
        BlockDirection::North,
        BlockDirection::South,
        BlockDirection::East,
        BlockDirection::West,
    ];
    proof {
        assert(r@ =~= spec_horizontal_directions());
    }
    r
}

/// All six directions, in the fixed order the propagator walks them.
pub open spec fn spec_all_directions() -> Seq<BlockDirection> {
    seq![
        BlockDirection::Up,
        BlockDirection::Down,
        BlockDirection::North,
        BlockDirection::South,
        BlockDirection::East,
        BlockDirection::West,
    ]
}

pub fn all_directions() -> (r: Vec<BlockDirection>)
    ensures
        r@ == spec_all_directions(),
{
    let r: Vec<BlockDirection> = vec![
        BlockDirection::Up,
        BlockDirection::Down,
        BlockDirection::North,
        BlockDirection::South,
        BlockDirection::East,
        BlockDirection::West,
    ];
    proof {
        assert(r@ =~= spec_all_directions());
    }
    r
}

/// Every horizontal direction is one of the four the placement checks walk.
pub proof fn lemma_horizontal_directions_complete(d: BlockDirection)
    requires
        d.is_horizontal(),
    ensures
        spec_horizontal_directions().contains(d),
{
    match d {
        BlockDirection::North => {
            assert(spec_horizontal_directions()[0] == d);
        }
        BlockDirection::South => {
            assert(spec_horizontal_directions()[1] == d);
        }
        BlockDirection::East => {
            assert(spec_horizontal_directions()[2] == d);
        }
        BlockDirection::West => {
            assert(spec_horizontal_directions()[3] == d);
        }
        _ => {}
    }
}

} // verus!
