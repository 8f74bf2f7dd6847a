//! Mixed-radix packing of property digits.
//!
//! A block kind orders its properties in a fixed list; each property value is
//! a digit below that property's domain cardinality.  The digits are composed
//! least-significant-first into a single integer, and decomposed again by
//! successive modulo/divide against the same cardinalities.  Packing and
//! unpacking are mutually inverse on every valid digit list, which is what
//! makes the dense state identifiers of [`crate::registry`] lossless.

use vstd::prelude::*;
use vstd::arithmetic::div_mod::{
    lemma_fundamental_div_mod,
    lemma_fundamental_div_mod_converse_div,
    lemma_fundamental_div_mod_converse_mod,
};

verus! {

/// The number of distinct digit lists the cardinality list admits: the
/// product of the cardinalities.
pub open spec fn card_product(cards: Seq<u64>) -> nat
    decreases cards.len(),
{
    if cards.len() == 0 {
        1
    } else {
        (cards[0] as nat) * card_product(cards.skip(1))
    }
}

/// Every cardinality names a non-empty domain.
pub open spec fn wf_cards(cards: Seq<u64>) -> bool {
    forall|i: int| 0 <= i < cards.len() ==> cards[i] >= 1
}

/// `vals` is one digit per cardinality, each within its domain.
pub open spec fn valid_digits(cards: Seq<u64>, vals: Seq<u64>) -> bool {
    &&& vals.len() == cards.len()
    &&& forall|i: int| 0 <= i < cards.len() ==> vals[i] < cards[i]
}

/// The packed value of a digit list, least-significant digit first.
pub open spec fn pack(cards: Seq<u64>, vals: Seq<u64>) -> nat
    decreases cards.len(),
{
    if cards.len() == 0 {
        0
    } else {
        (vals[0] as nat) + (cards[0] as nat) * pack(cards.skip(1), vals.skip(1))
    }
}

/// The digit list of a packed value, by successive modulo/divide.
pub open spec fn unpack(cards: Seq<u64>, x: nat) -> Seq<u64>
    decreases cards.len(),
{
    if cards.len() == 0 {
        Seq::empty()
    } else {
        seq![(x % (cards[0] as nat)) as u64] + unpack(cards.skip(1), x / (cards[0] as nat))
    }
}

/// The product of well-formed cardinalities is positive.
pub proof fn lemma_card_product_pos(cards: Seq<u64>)
    requires
        wf_cards(cards),
    ensures
        card_product(cards) >= 1,
    decreases cards.len(),
{
    if cards.len() > 0 {
        lemma_card_product_pos(cards.skip(1));
        assert((cards[0] as nat) * card_product(cards.skip(1)) >= 1) by (nonlinear_arith)
            requires
                cards[0] >= 1,
                card_product(cards.skip(1)) >= 1,
        ;
    }
}

/// A packed valid digit list lies below the cardinality product.
pub proof fn lemma_pack_bound(cards: Seq<u64>, vals: Seq<u64>)
    requires
        valid_digits(cards, vals),
    ensures
        pack(cards, vals) < card_product(cards),
    decreases cards.len(),
{
    if cards.len() == 0 {
    } else {
        assert(valid_digits(cards.skip(1), vals.skip(1)));
        lemma_pack_bound(cards.skip(1), vals.skip(1));
        let c0 = cards[0] as nat;
        let rest = pack(cards.skip(1), vals.skip(1));
        let prod = card_product(cards.skip(1));
        assert((vals[0] as nat) + c0 * rest < c0 * prod) by (nonlinear_arith)
            requires
                (vals[0] as nat) < c0,
                rest < prod,
                c0 >= 1,
        ;
    }
}

/// Unpacking a packed valid digit list yields the digits back.
pub proof fn lemma_unpack_pack(cards: Seq<u64>, vals: Seq<u64>)
    requires
        valid_digits(cards, vals),
    ensures
        unpack(cards, pack(cards, vals)) == vals,
    decreases cards.len(),
{
    if cards.len() == 0 {
        assert(unpack(cards, pack(cards, vals)) =~= vals);
    } else {
        let c0 = cards[0] as int;
        let v0 = vals[0] as int;
        let rest = pack(cards.skip(1), vals.skip(1)) as int;
        let x = pack(cards, vals) as int;
        assert(x == rest * c0 + v0) by (nonlinear_arith)
            requires
                x == v0 + c0 * rest,
        ;
        lemma_fundamental_div_mod_converse_mod(x, c0, rest, v0);
        lemma_fundamental_div_mod_converse_div(x, c0, rest, v0);
        assert(valid_digits(cards.skip(1), vals.skip(1)));
        lemma_unpack_pack(cards.skip(1), vals.skip(1));
        assert(unpack(cards, pack(cards, vals)) =~= vals);
    }
}

/// Packing the unpacked digits of an in-range value yields the value back,
/// and the digits are valid.
pub proof fn lemma_pack_unpack(cards: Seq<u64>, x: nat)
    requires
        wf_cards(cards),
        x < card_product(cards),
    ensures
        valid_digits(cards, unpack(cards, x)),
        pack(cards, unpack(cards, x)) == x,
    decreases cards.len(),
{
    if cards.len() == 0 {
    } else {
        let c0 = cards[0] as nat;
        let rest_prod = card_product(cards.skip(1));
        lemma_card_product_pos(cards.skip(1));
        assert(x / c0 < rest_prod) by (nonlinear_arith)
            requires
                x < c0 * rest_prod,
                c0 >= 1,
                rest_prod >= 1,
                x >= 0,
        ;
        assert(x % c0 < c0) by (nonlinear_arith)
            requires
                c0 >= 1,
                x >= 0,
        ;
        lemma_pack_unpack(cards.skip(1), x / c0);
        lemma_fundamental_div_mod(x as int, c0 as int);
        let digits = unpack(cards, x);
        assert(digits[0] == (x % c0) as u64);
        assert(digits.skip(1) =~= unpack(cards.skip(1), x / c0));
        assert(valid_digits(cards, digits));
        assert(pack(cards, digits) == (x % c0) + c0 * (x / c0));
        assert((x % c0) + c0 * (x / c0) == x) by (nonlinear_arith)
            requires
                c0 >= 1,
                x >= 0,
                x as int == c0 as int * ((x as int) / (c0 as int)) + (x as int) % (c0 as int),
        ;
    }
}

/// Packs the digit list into a single integer.  Requires the full product to
/// fit in the machine word, which the registry's fixed catalogue guarantees.
pub fn pack_digits(cards: &Vec<u64>, vals: &Vec<u64>) -> (r: u64)
    requires
        valid_digits(cards@, vals@),
        card_product(cards@) <= u64::MAX,
    ensures
        r as nat == pack(cards@, vals@),
        r < card_product(cards@),
{
    let ghost gcards = cards@;
    let ghost gvals = vals@;
    let mut acc: u64 = 0;
    let mut i: usize = cards.len();
    proof {
        assert(gcards.skip(i as int) =~= Seq::<u64>::empty());
        lemma_pack_bound(gcards, gvals);
    }
    while i > 0
        invariant
            i <= gcards.len(),
            gcards.len() == gvals.len(),
            valid_digits(gcards, gvals),
            card_product(gcards) <= u64::MAX,
            gcards == cards@,
            gvals == vals@,
            acc as nat == pack(gcards.skip(i as int), gvals.skip(i as int)),
        decreases i,
    {
        i = i - 1;
        proof {
            assert(valid_digits(gcards.skip(i as int), gvals.skip(i as int)));
            lemma_pack_bound(gcards.skip(i as int), gvals.skip(i as int));
            lemma_card_product_suffix(gcards, i as int);
            assert(gcards.skip(i as int)[0] == gcards[i as int]);
            assert(gcards.skip(i as int).skip(1) =~= gcards.skip(i as int + 1));
            assert(gvals.skip(i as int)[0] == gvals[i as int]);
            assert(gvals.skip(i as int).skip(1) =~= gvals.skip(i as int + 1));
        }
        let c = cards[i];
        let v = vals[i];
        assert(v as nat + (c as nat) * (acc as nat) == pack(gcards.skip(i as int), gvals.skip(i as int)));
        assert(pack(gcards.skip(i as int), gvals.skip(i as int)) < card_product(gcards.skip(i as int)));
        assert(card_product(gcards.skip(i as int)) <= card_product(gcards));
        acc = v + c * acc;
    }
    proof {
        assert(gcards.skip(0) =~= gcards);
        assert(gvals.skip(0) =~= gvals);
        lemma_pack_bound(gcards, gvals);
    }
    acc
}

/// The product over a suffix of the cardinality list never exceeds the
/// product over the whole list.
pub proof fn lemma_card_product_suffix(cards: Seq<u64>, i: int)
    requires
        wf_cards(cards),
        0 <= i <= cards.len(),
    ensures
        card_product(cards.skip(i)) <= card_product(cards),
    decreases i,
{
    if i > 0 {
        assert(wf_cards(cards.skip(1))) by {
            assert(forall|j: int| 0 <= j < cards.skip(1).len() ==> cards.skip(1)[j] == cards[j + 1]);
        }
        lemma_card_product_suffix(cards.skip(1), i - 1);
        assert(cards.skip(1).skip(i - 1) =~= cards.skip(i));
        assert(card_product(cards.skip(i)) <= card_product(cards.skip(1)));
        assert(card_product(cards.skip(1)) <= (cards[0] as nat) * card_product(cards.skip(1)))
            by (nonlinear_arith)
            requires
                cards[0] >= 1,
                card_product(cards.skip(1)) >= 0,
        ;
        assert(card_product(cards) == (cards[0] as nat) * card_product(cards.skip(1)));
    } else {
        assert(cards.skip(0) =~= cards);
    }
}

/// Unpacks an in-range packed value into its digit list.
pub fn unpack_digits(cards: &Vec<u64>, x: u64) -> (r: Vec<u64>)
    requires
        wf_cards(cards@),
        (x as nat) < card_product(cards@),
    ensures
        r@ == unpack(cards@, x as nat),
        valid_digits(cards@, r@),
        pack(cards@, r@) == x as nat,
{
    let ghost gcards = cards@;
    let ghost x0 = x as nat;
    let mut cur: u64 = x;
    let mut out: Vec<u64> = Vec::new();
    let mut i: usize = 0;
    proof {
        assert(gcards.skip(0) =~= gcards);
        assert(out@ + unpack(gcards, x0) =~= unpack(gcards, x0));
    }
    while i < cards.len()
        invariant
            i <= gcards.len(),
            gcards == cards@,
            wf_cards(gcards),
            x0 < card_product(gcards),
            out@.len() == i,
            (cur as nat) < card_product(gcards.skip(i as int)),
            unpack(gcards, x0) == out@ + unpack(gcards.skip(i as int), cur as nat),
        decreases gcards.len() - i,
    {
        proof {
            assert(gcards.skip(i as int)[0] == gcards[i as int]);
            assert(gcards.skip(i as int).skip(1) =~= gcards.skip(i as int + 1));
        }
        let c = cards[i];
        let ghost pre = cur as nat;
        let d = cur % c;
        cur = cur / c;
        out.push(d);
        proof {
            lemma_card_product_pos(gcards.skip(i as int + 1));
            assert((cur as nat) < card_product(gcards.skip(i as int + 1))) by (nonlinear_arith)
                requires
                    pre < (c as nat) * card_product(gcards.skip(i as int + 1)),
                    c >= 1,
                    card_product(gcards.skip(i as int + 1)) >= 1,
                    cur as nat == pre / (c as nat),
                    pre >= 0,
            ;
            assert(unpack(gcards.skip(i as int), pre) == seq![d] + unpack(gcards.skip(i as int + 1), cur as nat));
            assert(out@ + unpack(gcards.skip(i as int + 1), cur as nat) =~= unpack(gcards, x0));
        }
        i = i + 1;
    }
    proof {
        assert(gcards.skip(i as int) =~= Seq::<u64>::empty());
        assert(out@ + unpack(gcards.skip(i as int), cur as nat) =~= out@);
        lemma_pack_unpack(gcards, x0);
    }
    out
}

} // verus!
