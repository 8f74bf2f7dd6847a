//! The closed catalogue of block kinds.
//!
//! Each kind owns an ordered property schema (a list of domain cardinalities)
//! and a contiguous range of dense state identifiers sized to the product of
//! those cardinalities, the ranges packed back to back so that no two kinds
//! overlap.  Encoding composes a kind's property digits through the
//! mixed-radix codec and offsets them by the kind's base identifier; decoding
//! locates the owning range and decomposes the remainder.  Identifiers at or
//! beyond the catalogue total decode to nothing: that is the invalid-state
//! condition, which callers treat as "no answer" for the one operation.

use vstd::prelude::*;
use crate::codec::{
    card_product, lemma_card_product_pos, lemma_pack_bound, lemma_pack_unpack,
    lemma_unpack_pack, pack, pack_digits, unpack, unpack_digits, valid_digits, wf_cards,
};

verus! {

/// A catalogue entry: one kind of block.  The catalogue is closed; behaviors
/// are selected by kind in [`crate::behavior`].
#[derive(Clone, Copy, PartialEq, Eq, Debug, Structural)]
pub enum BlockKind {
    /// The empty state a broken block leaves behind.
    Air,
    /// A generic full solid block.
    Stone,
    /// A solid block carrying the sand-like tag cacti grow on.
    Sand,
    /// The one liquid that additionally forbids standing next to a cactus.
    Lava,
    /// A generic liquid.
    Water,
    /// Grows upward over random ticks; needs sand-like support.
    Cactus,
    /// Attaches to walls, floor or ceiling depending on its surroundings.
    Bell,
    /// A synthetic kind whose neighbor reaction always flips its one bit;
    /// two adjacent ones reconfigure in response to each other forever, so
    /// they exercise the propagation depth bound.
    Toggle,
}

/// First identifier of the air range (one state).
pub const AIR_BASE: u64 = 0;
/// First identifier of the stone range (one state).
pub const STONE_BASE: u64 = 1;
/// First identifier of the sand range (one state).
pub const SAND_BASE: u64 = 2;
/// First identifier of the lava range (one state).
pub const LAVA_BASE: u64 = 3;
/// First identifier of the water range (one state).
pub const WATER_BASE: u64 = 4;
/// First identifier of the cactus range (sixteen ages).
pub const CACTUS_BASE: u64 = 5;
/// First identifier of the bell range (four facings, four attachments,
/// powered or not).
pub const BELL_BASE: u64 = 21;
/// First identifier of the toggle range (one flipping bit).
pub const TOGGLE_BASE: u64 = 53;
/// One past the last valid state identifier.
pub const TOTAL_STATES: u64 = 55;

/// The packed state identifier of the empty cell.
pub const AIR_STATE: u64 = 0;

impl BlockKind {
    /// The ordered property schema of the kind: one domain cardinality per
    /// property, least significant first.
    pub open spec fn cards(self) -> Seq<u64> {
        match self {
            BlockKind::Cactus => seq![16u64],
            BlockKind::Bell => seq![4u64, 4u64, 2u64],
            BlockKind::Toggle => seq![2u64],
            _ => Seq::empty(),
        }
    }

    /// How many packed states the kind owns.
    pub open spec fn states(self) -> u64 {
        match self {
            BlockKind::Cactus => 16,
            BlockKind::Bell => 32,
            BlockKind::Toggle => 2,
            _ => 1,
        }
    }

    /// The first identifier of the kind's contiguous range.
    pub open spec fn base(self) -> u64 {
        match self {
            BlockKind::Air => AIR_BASE,
            BlockKind::Stone => STONE_BASE,
            BlockKind::Sand => SAND_BASE,
            BlockKind::Lava => LAVA_BASE,
            BlockKind::Water => WATER_BASE,
            BlockKind::Cactus => CACTUS_BASE,
            BlockKind::Bell => BELL_BASE,
            BlockKind::Toggle => TOGGLE_BASE,
        }
    }

    /// Executable copy of the property schema.
    pub fn cards_exec(self) -> (r: Vec<u64>)
        ensures
            r@ == self.cards(),
    {
        let r: Vec<u64> = match self {
            BlockKind::Cactus => vec![16u64],
            BlockKind::Bell => vec![4u64, 4u64, 2u64],
            BlockKind::Toggle => vec![2u64],
            _ => Vec::new(),
        };
        proof {
            assert(r@ =~= self.cards());
        }
        r
    }

    pub fn base_exec(self) -> (r: u64)
        ensures
            r == self.base(),
    {
        match self {
            BlockKind::Air => AIR_BASE,
            BlockKind::Stone => STONE_BASE,
            BlockKind::Sand => SAND_BASE,
            BlockKind::Lava => LAVA_BASE,
            BlockKind::Water => WATER_BASE,
            BlockKind::Cactus => CACTUS_BASE,
            BlockKind::Bell => BELL_BASE,
            BlockKind::Toggle => TOGGLE_BASE,
        }
    }

    /// Whether a cell of this kind is a full solid obstruction.
    pub open spec fn spec_is_solid(self) -> bool {
        match self {
            BlockKind::Stone => true,
            BlockKind::Sand => true,
            _ => false,
        }
    }

    pub fn is_solid(self) -> (r: bool)
        ensures
            r == self.spec_is_solid(),
    {
        match self {
            BlockKind::Stone => true,
            BlockKind::Sand => true,
            _ => false,
        }
    }

    /// Whether a cell of this kind is a liquid.
    pub open spec fn spec_is_liquid(self) -> bool {
        match self {
            BlockKind::Lava => true,
            BlockKind::Water => true,
            _ => false,
        }
    }

    pub fn is_liquid(self) -> (r: bool)
        ensures
            r == self.spec_is_liquid(),
    {
        match self {
            BlockKind::Lava => true,
            BlockKind::Water => true,
            _ => false,
        }
    }

    /// Whether the kind carries the sand-like tag cacti accept as support.
    pub open spec fn spec_is_sand_tagged(self) -> bool {
        self == BlockKind::Sand
    }

    pub fn is_sand_tagged(self) -> (r: bool)
        ensures
            r == self.spec_is_sand_tagged(),
    {
        match self {
            BlockKind::Sand => true,
            _ => false,
        }
    }
}

/// The kind's range product equals the mixed-radix product of its schema,
/// and the schema is well formed.
pub proof fn lemma_kind_schema(k: BlockKind)
    ensures
        card_product(k.cards()) == k.states(),
        wf_cards(k.cards()),
        k.base() + k.states() <= TOTAL_STATES,
{
    match k {
        BlockKind::Cactus => {
            let c = k.cards();
            assert(c.skip(1) =~= Seq::<u64>::empty());
            assert(card_product(c) == 16 * card_product(c.skip(1)));
        }
        BlockKind::Bell => {
            let c = k.cards();
            let c1 = c.skip(1);
            let c2 = c1.skip(1);
            assert(c2.skip(1) =~= Seq::<u64>::empty());
            assert(card_product(c2) == 2 * card_product(c2.skip(1)));
            assert(card_product(c1) == 4 * card_product(c1.skip(1)));
            assert(c1.skip(1) =~= c2);
            assert(card_product(c) == 4 * card_product(c.skip(1)));
            assert(c.skip(1) =~= c1);
        }
        BlockKind::Toggle => {
            let c = k.cards();
            assert(c.skip(1) =~= Seq::<u64>::empty());
            assert(card_product(c) == 2 * card_product(c.skip(1)));
        }
        _ => {
            assert(card_product(k.cards()) == 1);
        }
    }
}

/// The kind owning a valid state identifier: ranges are walked in catalogue
/// order.
pub open spec fn spec_kind_of(id: u64) -> BlockKind {
    if id < STONE_BASE {
        BlockKind::Air
    } else if id < SAND_BASE {
        BlockKind::Stone
    } else if id < LAVA_BASE {
        BlockKind::Sand
    } else if id < WATER_BASE {
        BlockKind::Lava
    } else if id < CACTUS_BASE {
        BlockKind::Water
    } else if id < BELL_BASE {
        BlockKind::Cactus
    } else if id < TOGGLE_BASE {
        BlockKind::Bell
    } else {
        BlockKind::Toggle
    }
}

/// The dense identifier of a kind with the given property digits.
pub open spec fn spec_encode(k: BlockKind, props: Seq<u64>) -> u64 {
    (k.base() + pack(k.cards(), props)) as u64
}

/// The (kind, property digits) pair of a dense identifier, or nothing when
/// the identifier lies outside every kind's range.
pub open spec fn spec_decode(id: u64) -> Option<(BlockKind, Seq<u64>)> {
    if id < TOTAL_STATES {
        let k = spec_kind_of(id);
        Some((k, unpack(k.cards(), (id - k.base()) as nat)))
    } else {
        None
    }
}

/// A valid identifier lies inside its own kind's range.
pub proof fn lemma_kind_of_range(id: u64)
    requires
        id < TOTAL_STATES,
    ensures
        spec_kind_of(id).base() <= id < spec_kind_of(id).base() + spec_kind_of(id).states(),
{
}

/// Distinct kinds own disjoint identifier ranges: no identifier lies in the
/// ranges of two different kinds.
pub proof fn lemma_ranges_disjoint(k1: BlockKind, k2: BlockKind, id: u64)
    requires
        k1 != k2,
        k1.base() <= id < k1.base() + k1.states(),
    ensures
        !(k2.base() <= id < k2.base() + k2.states()),
{
}

/// An in-range identifier is owned by exactly the kind the range walk finds.
pub proof fn lemma_kind_of_base(k: BlockKind, id: u64)
    requires
        k.base() <= id < k.base() + k.states(),
    ensures
        spec_kind_of(id) == k,
{
}

/// Codec round trip, decoding side: every kind and every valid property
/// digit list come back unchanged from their own encoding.
pub proof fn lemma_decode_encode(k: BlockKind, props: Seq<u64>)
    requires
        valid_digits(k.cards(), props),
    ensures
        spec_encode(k, props) < TOTAL_STATES,
        spec_decode(spec_encode(k, props)) == Some((k, props)),
{
    lemma_kind_schema(k);
    lemma_pack_bound(k.cards(), props);
    let id = spec_encode(k, props);
    lemma_kind_of_base(k, id);
    lemma_unpack_pack(k.cards(), props);
}

/// Codec round trip, encoding side: every valid identifier re-encodes to
/// itself from its decoded kind and digits, and the digits are valid.
pub proof fn lemma_encode_decode(id: u64)
    requires
        id < TOTAL_STATES,
    ensures
        spec_decode(id) is Some,
        valid_digits(spec_decode(id)->Some_0.0.cards(), spec_decode(id)->Some_0.1),
        spec_encode(spec_decode(id)->Some_0.0, spec_decode(id)->Some_0.1) == id,
{
    let k = spec_kind_of(id);
    lemma_kind_schema(k);
    lemma_kind_of_range(id);
    lemma_pack_unpack(k.cards(), (id - k.base()) as nat);
}

/// Encodes a kind's property digits into its dense state identifier.
pub fn encode_state(k: BlockKind, props: &Vec<u64>) -> (r: u64)
    requires
        valid_digits(k.cards(), props@),
    ensures
        r == spec_encode(k, props@),
        r < TOTAL_STATES,
{
    proof {
        lemma_kind_schema(k);
        lemma_pack_bound(k.cards(), props@);
    }
    let cards = k.cards_exec();
    let packed = pack_digits(&cards, props);
    k.base_exec() + packed
}

/// Decodes a dense state identifier into its kind and property digits.
/// Returns nothing exactly when the identifier lies outside the catalogue.
pub fn decode_state(id: u64) -> (r: Option<(BlockKind, Vec<u64>)>)
    ensures
        (match r {
            Some(kp) => spec_decode(id) == Some((kp.0, kp.1@)),
            None => spec_decode(id) is None && id >= TOTAL_STATES,
        }),
{
    if id >= TOTAL_STATES {
        return None;
    }
    let k = if id < STONE_BASE {
        BlockKind::Air
    } else if id < SAND_BASE {
        BlockKind::Stone
    } else if id < LAVA_BASE {
        BlockKind::Sand
    } else if id < WATER_BASE {
        BlockKind::Lava
    } else if id < CACTUS_BASE {
        BlockKind::Water
    } else if id < BELL_BASE {
        BlockKind::Cactus
    } else if id < TOGGLE_BASE {
        BlockKind::Bell
    } else {
        BlockKind::Toggle
    };
    proof {
        lemma_kind_schema(k);
        lemma_kind_of_range(id);
    }
    let cards = k.cards_exec();
    let digits = unpack_digits(&cards, id - k.base_exec());
    Some((k, digits))
}

/// The kind owning a state identifier, or nothing for an invalid identifier.
pub open spec fn spec_id_kind(id: u64) -> Option<BlockKind> {
    if id < TOTAL_STATES {
        Some(spec_kind_of(id))
    } else {
        None
    }
}

pub fn id_kind(id: u64) -> (r: Option<BlockKind>)
    ensures
        r == spec_id_kind(id),
{
    match decode_state(id) {
        Some((k, _digits)) => Some(k),
        None => None,
    }
}

/// Whether a packed state is the empty (air) state.
pub open spec fn spec_is_air(id: u64) -> bool {
    id == AIR_STATE
}

pub fn is_air(id: u64) -> (r: bool)
    ensures
        r == spec_is_air(id),
{
    id == AIR_STATE
}

/// Whether a packed state is a full solid obstruction.
pub open spec fn spec_is_solid(id: u64) -> bool {
    spec_id_kind(id) matches Some(k) && k.spec_is_solid()
}

pub fn is_solid(id: u64) -> (r: bool)
    ensures
        r == spec_is_solid(id),
{
    match id_kind(id) {
        Some(BlockKind::Stone) => true,
        Some(BlockKind::Sand) => true,
        _ => false,
    }
}

/// Whether a packed state is a liquid.
pub open spec fn spec_is_liquid(id: u64) -> bool {
    spec_id_kind(id) matches Some(k) && k.spec_is_liquid()
}

pub fn is_liquid(id: u64) -> (r: bool)
    ensures
        r == spec_is_liquid(id),
{
    match id_kind(id) {
        Some(BlockKind::Lava) => true,
        Some(BlockKind::Water) => true,
        _ => false,
    }
}

} // verus!
