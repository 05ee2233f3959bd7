//! Combo legs: made from a structure, stored as text, read back, and reversed
//! to close.

use vstd::prelude::*;
use vstd::string::*;
use crate::data::{holds_short, position_has_short};
use crate::decimal::{
    decimal_value, int_value, law_read_undoes_int, law_read_undoes_shortest, lemma_notation_plain,
    push_shortest, read_decimal, read_int, short_text,
};
use crate::engine::types::{LegSide, Right, StructureLeg};
use crate::fixed::{int_text, is_price, push_int};
use crate::ibkr::{PositionRow, Side};
use crate::store::models::ZeroDtePositionRow;
use crate::text::{chars_of, join_text, lacks, law_split_undoes_join, rows, split_chars, split_text};

verus! {

/// One leg of a combo order.
#[derive(Debug, Clone, Copy, PartialEq, Eq, Structural)]
pub struct ComboLeg {
    pub strike: i64,
    pub right: Right,
    pub action: Side,
    pub ratio: i32,
}

/// An N-leg combo order: one package at one net price.
#[derive(Debug, Clone)]
pub struct ComboOrder {
    pub symbol: String,
    pub expiry_yyyymmdd: String,
    pub legs: Vec<ComboLeg>,
    pub quantity: i32,
    /// Net credit per share to receive; negative for a debit.
    pub net_credit: i64,
}

/// Whether a combo can be sent: a package has at least two legs.
pub fn is_package(legs: &Vec<ComboLeg>) -> (r: bool)
    ensures
        r == (legs@.len() >= 2),
{
    legs.len() >= 2
}

// --- text form -------------------------------------------------------------

/// The letter of a side.
pub open spec fn side_letter(s: Side) -> char {
    match s {
        Side::Buy => 'B',
        Side::Sell => 'S',
    }
}

/// The letter of a right.
pub open spec fn right_letter(r: Right) -> char {
    match r {
        Right::Put => 'P',
        Right::Call => 'C',
    }
}

/// The four fields of a leg.
pub open spec fn leg_fields(l: ComboLeg) -> Seq<Seq<char>> {
    seq![
        seq![side_letter(l.action)],
        short_text(l.strike as int),
        seq![right_letter(l.right)],
        int_text(l.ratio as int),
    ]
}

/// A leg as text: `ACTION:strike:RIGHT:ratio`.
pub open spec fn leg_text(l: ComboLeg) -> Seq<char> {
    join_text(leg_fields(l), ':')
}

/// The texts of the legs.
pub open spec fn leg_texts(legs: Seq<ComboLeg>) -> Seq<Seq<char>> {
    legs.map_values(|l: ComboLeg| leg_text(l))
}

/// Legs as text: their texts joined by `;`.
pub open spec fn legs_text(legs: Seq<ComboLeg>) -> Seq<char> {
    join_text(leg_texts(legs), ';')
}

/// The leg that a text denotes: at least four fields, the first `B` or `S`, the
/// second a decimal number, the fourth a whole number; the third names the right.
pub open spec fn leg_of_text(s: Seq<char>) -> Option<ComboLeg> {
    let f = split_text(s, ':');
    if f.len() < 4 || (f[0] != seq!['B'] && f[0] != seq!['S']) || decimal_value(f[1]) is None
        || int_value(f[3]) is None {
        None
    } else {
        Some(
            ComboLeg {
                strike: (decimal_value(f[1])->0) as i64,
                right: Right::of_code(f[2]),
                action: if f[0] == seq!['B'] {
                    Side::Buy
                } else {
                    Side::Sell
                },
                ratio: (int_value(f[3])->0) as i32,
            },
        )
    }
}

/// Whether every segment denotes a leg.
pub open spec fn all_legs(segs: Seq<Seq<char>>) -> bool {
    forall|i: int| 0 <= i < segs.len() ==> leg_of_text(#[trigger] segs[i]) is Some
}

/// The legs that a text denotes; none at all where one segment is malformed.
pub open spec fn legs_of_text(s: Seq<char>) -> Seq<ComboLeg> {
    let segs = split_text(s, ';');
    if all_legs(segs) {
        segs.map_values(|g: Seq<char>| leg_of_text(g)->0)
    } else {
        Seq::empty()
    }
}

pub proof fn lemma_leg_text(l: ComboLeg)
    ensures
        leg_text(l) == seq![side_letter(l.action)].push(':') + short_text(l.strike as int) + seq![
            ':',
        ] + seq![right_letter(l.right)] + seq![':'] + int_text(l.ratio as int),
{
    let f = leg_fields(l);
    reveal_with_fuel(join_text, 5);
    assert(f.drop_last() =~= seq![f[0], f[1], f[2]]);
    assert(f.drop_last().drop_last() =~= seq![f[0], f[1]]);
    assert(f.drop_last().drop_last().drop_last() =~= seq![f[0]]);
    let built = seq![side_letter(l.action)].push(':') + short_text(l.strike as int) + seq![':']
        + seq![right_letter(l.right)] + seq![':'] + int_text(l.ratio as int);
    assert(leg_text(l) =~= built);
}

fn push_leg(s: &mut String, l: &ComboLeg)
    ensures
        final(s)@ == old(s)@ + leg_text(*l),
{
    match l.action {
        Side::Buy => {
            s.push('B');
        },
        Side::Sell => {
            s.push('S');
        },
    }
    s.push(':');
    push_shortest(s, l.strike);
    s.push(':');
    match l.right {
        Right::Put => {
            s.push('P');
        },
        Right::Call => {
            s.push('C');
        },
    }
    s.push(':');
    push_int(s, l.ratio as i128);
    proof {
        lemma_leg_text(*l);
        assert(s@ =~= old(s)@ + leg_text(*l));
    }
}

proof fn lemma_join_push(parts: Seq<Seq<char>>, x: Seq<char>, sep: char)
    ensures
        join_text(parts.push(x), sep) == (if parts.len() == 0 {
            x
        } else {
            join_text(parts, sep).push(sep) + x
        }),
{
    assert(parts.push(x).drop_last() =~= parts);
}

/// Encodes combo legs for the store.
pub fn encode_legs(legs: &Vec<ComboLeg>) -> (r: String)
    ensures
        r@ == legs_text(legs@),
{
    let mut s = String::new();
    let mut i: usize = 0;
    assert(leg_texts(legs@.take(0)) =~= Seq::empty());
    assert(s@ =~= join_text(leg_texts(legs@.take(0)), ';'));
    while i < legs.len()
        invariant
            i <= legs@.len(),
            s@ == join_text(leg_texts(legs@.take(i as int)), ';'),
        decreases legs@.len() - i,
    {
        let ghost done = leg_texts(legs@.take(i as int));
        proof {
            assert(leg_texts(legs@.take(i + 1)) =~= done.push(leg_text(legs@[i as int])));
            lemma_join_push(done, leg_text(legs@[i as int]), ';');
        }
        if i > 0 {
            s.push(';');
        }
        push_leg(&mut s, &legs[i]);
        assert(s@ =~= join_text(leg_texts(legs@.take(i + 1)), ';'));
        i = i + 1;
    }
    assert(legs@.take(i as int) =~= legs@);
    s
}

fn decode_leg(seg: &Vec<char>) -> (r: Option<ComboLeg>)
    ensures
        r == leg_of_text(seg@),
{
    let f = split_chars(seg, ':');
    let ghost v = split_text(seg@, ':');
    assert(rows(f@).len() == f@.len());
    if f.len() < 4 {
        return None;
    }
    assert(v[0] == f@[0]@ && v[1] == f@[1]@ && v[2] == f@[2]@ && v[3] == f@[3]@);
    if f[0].len() != 1 {
        return None;
    }
    let action = if f[0][0] == 'B' {
        assert(v[0] =~= seq!['B']);
        Side::Buy
    } else if f[0][0] == 'S' {
        assert(v[0] =~= seq!['S']);
        Side::Sell
    } else {
        return None;
    };
    assert(seq!['B'][0] == 'B' && seq!['S'][0] == 'S');
    let strike = match read_decimal(&f[1]) {
        Some(k) => k,
        None => {
            return None;
        },
    };
    let right = if f[2].len() > 0 && (f[2][0] == 'C' || f[2][0] == 'c') {
        Right::Call
    } else {
        Right::Put
    };
    match read_int(&f[3]) {
        Some(ratio) => Some(ComboLeg { strike, right, action, ratio }),
        None => None,
    }
}

/// Reads stored combo legs. One malformed segment voids the whole: a close made
/// from fewer legs than the entry would be a mis-hedged order.
pub fn decode_legs(s: &str) -> (r: Vec<ComboLeg>)
    ensures
        r@ == legs_of_text(s@),
{
    let segs = split_chars(&chars_of(s), ';');
    let ghost v = split_text(s@, ';');
    assert(rows(segs@).len() == segs@.len());
    let mut out: Vec<ComboLeg> = Vec::new();
    let mut i: usize = 0;
    while i < segs.len()
        invariant
            i <= segs@.len(),
            v == split_text(s@, ';'),
            rows(segs@) == v,
            v.len() == segs@.len(),
            out@.len() == i,
            forall|k: int| 0 <= k < i ==> leg_of_text(#[trigger] v[k]) == Some(out@[k]),
        decreases segs@.len() - i,
    {
        assert(v[i as int] == segs@[i as int]@);
        match decode_leg(&segs[i]) {
            Some(l) => {
                out.push(l);
            },
            None => {
                assert(leg_of_text(v[i as int]) is None);
                assert(!all_legs(v));
                return Vec::new();
            },
        }
        i = i + 1;
    }
    assert(all_legs(v));
    assert(out@ =~= v.map_values(|g: Seq<char>| leg_of_text(g)->0));
    out
}

proof fn lemma_fields_plain(l: ComboLeg, c: char)
    requires
        c == ':' || c == ';',
    ensures
        forall|i: int| 0 <= i < 4 ==> lacks(#[trigger] leg_fields(l)[i], c),
{
    lemma_notation_plain(l.strike as int, c);
    lemma_notation_plain(l.ratio as int, c);
}

proof fn lemma_leg_reads_back(l: ComboLeg)
    ensures
        leg_of_text(leg_text(l)) == Some(l),
        lacks(leg_text(l), ';'),
{
    lemma_fields_plain(l, ':');
    lemma_fields_plain(l, ';');
    law_split_undoes_join(leg_fields(l), ':');
    law_read_undoes_shortest(l.strike as int);
    law_read_undoes_int(l.ratio as int);
    let f = leg_fields(l);
    assert(seq!['B'][0] != seq!['S'][0]);
    lemma_leg_text(l);
    let t = leg_text(l);
    assert forall|i: int| 0 <= i < t.len() implies t[i] != ';' by {
        let (n1, n3) = (f[1].len() as int, f[3].len() as int);
        if 2 <= i < 2 + n1 {
            assert(t[i] == f[1][i - 2]);
            assert(lacks(f[1], ';'));
        } else if i >= n1 + 5 {
            assert(t[i] == f[3][i - n1 - 5]);
            assert(lacks(f[3], ';'));
        }
    }
}

/// Reading stored legs gives the legs back that were stored.
pub proof fn law_decode_undoes_encode(legs: Seq<ComboLeg>)
    ensures
        legs_of_text(legs_text(legs)) == legs,
{
    let t = leg_texts(legs);
    if legs.len() == 0 {
        let e = Seq::<char>::empty();
        assert(legs_text(legs) =~= e);
        assert(split_text(e, ';') == seq![e]);
        assert(split_text(e, ':') == seq![e]);
        assert(leg_of_text(e) is None);
        assert(leg_of_text(split_text(e, ';')[0]) is None);
        assert(legs_of_text(legs_text(legs)) =~= legs);
    } else {
        assert forall|i: int| 0 <= i < t.len() implies lacks(#[trigger] t[i], ';') by {
            lemma_leg_reads_back(legs[i]);
        }
        law_split_undoes_join(t, ';');
        assert forall|i: int| 0 <= i < t.len() implies leg_of_text(#[trigger] t[i]) == Some(
            legs[i],
        ) by {
            lemma_leg_reads_back(legs[i]);
        }
        assert(t.map_values(|g: Seq<char>| leg_of_text(g)->0) =~= legs);
    }
}

/// A text with a malformed segment denotes no legs at all.
pub proof fn law_malformed_voids_all(s: Seq<char>, i: int)
    requires
        0 <= i < split_text(s, ';').len(),
        leg_of_text(split_text(s, ';')[i]) is None,
    ensures
        legs_of_text(s).len() == 0,
{
}

// --- closing ---------------------------------------------------------------

/// A leg with its side flipped.
pub open spec fn flipped_leg(l: ComboLeg) -> ComboLeg {
    ComboLeg { action: l.action.flipped(), ..l }
}

/// The legs that close a position.
pub open spec fn closing_legs(legs: Seq<ComboLeg>) -> Seq<ComboLeg> {
    legs.map_values(|l: ComboLeg| flipped_leg(l))
}

/// The closing legs: the entry combo with every leg's side flipped.
pub fn reverse_legs(legs: &Vec<ComboLeg>) -> (r: Vec<ComboLeg>)
    ensures
        r@ == closing_legs(legs@),
{
    let mut out: Vec<ComboLeg> = Vec::new();
    let mut i: usize = 0;
    while i < legs.len()
        invariant
            i <= legs@.len(),
            out@.len() == i,
            forall|k: int| 0 <= k < i ==> #[trigger] out@[k] == flipped_leg(legs@[k]),
        decreases legs@.len() - i,
    {
        let l = legs[i];
        out.push(
            ComboLeg { strike: l.strike, right: l.right, action: l.action.flip(), ratio: l.ratio },
        );
        i = i + 1;
    }
    assert(out@ =~= closing_legs(legs@));
    out
}

/// Reversing twice gives the legs back.
pub proof fn law_reverse_twice(legs: Seq<ComboLeg>)
    ensures
        closing_legs(closing_legs(legs)) == legs,
{
    assert(closing_legs(closing_legs(legs)) =~= legs);
}

// --- from a structure ------------------------------------------------------

/// The side of a structure leg as an order side.
pub open spec fn order_side(s: LegSide) -> Side {
    match s {
        LegSide::Buy => Side::Buy,
        LegSide::Sell => Side::Sell,
    }
}

/// Whether a combo leg trades the contract of a structure leg on its side.
pub open spec fn same_contract(c: ComboLeg, l: StructureLeg) -> bool {
    c.strike == l.strike && c.right == l.right && c.action == order_side(l.side)
}

/// `combo` with one more lot of the leg `l`: the ratio of the leg on the same
/// contract goes up, or a new leg of ratio 1 is added.
pub open spec fn merged(combo: Seq<ComboLeg>, l: StructureLeg) -> Seq<ComboLeg>
    decreases combo.len(),
{
    if combo.len() == 0 {
        seq![
            ComboLeg {
                strike: l.strike,
                right: l.right,
                action: order_side(l.side),
                ratio: 1,
            },
        ]
    } else if same_contract(combo[0], l) {
        combo.update(0, ComboLeg { ratio: (combo[0].ratio + 1) as i32, ..combo[0] })
    } else {
        seq![combo[0]] + merged(combo.drop_first(), l)
    }
}

/// The combo of a structure: identical legs merged into one with their number as
/// its ratio.
pub open spec fn combo_of(legs: Seq<StructureLeg>) -> Seq<ComboLeg>
    decreases legs.len(),
{
    if legs.len() == 0 {
        Seq::empty()
    } else {
        merged(combo_of(legs.drop_last()), legs.last())
    }
}

proof fn lemma_merged_at(combo: Seq<ComboLeg>, l: StructureLeg, i: int)
    requires
        0 <= i <= combo.len(),
        forall|k: int| 0 <= k < i ==> !same_contract(#[trigger] combo[k], l),
        i < combo.len() ==> same_contract(combo[i], l),
    ensures
        merged(combo, l) == (if i < combo.len() {
            combo.update(i, ComboLeg { ratio: (combo[i].ratio + 1) as i32, ..combo[i] })
        } else {
            combo.push(
                ComboLeg {
                    strike: l.strike,
                    right: l.right,
                    action: order_side(l.side),
                    ratio: 1,
                },
            )
        }),
    decreases combo.len(),
{
    if combo.len() == 0 {
        assert(merged(combo, l) =~= combo.push(
            ComboLeg { strike: l.strike, right: l.right, action: order_side(l.side), ratio: 1 },
        ));
    } else if !same_contract(combo[0], l) {
        let t = combo.drop_first();
        assert forall|k: int| 0 <= k < i - 1 implies !same_contract(#[trigger] t[k], l) by {
            assert(t[k] == combo[k + 1]);
        }
        lemma_merged_at(t, l, i - 1);
        if i < combo.len() {
            assert(t[i - 1] == combo[i]);
            assert(seq![combo[0]] + t.update(
                i - 1,
                ComboLeg { ratio: (combo[i].ratio + 1) as i32, ..combo[i] },
            ) =~= combo.update(i, ComboLeg { ratio: (combo[i].ratio + 1) as i32, ..combo[i] }));
        } else {
            let n = ComboLeg {
                strike: l.strike,
                right: l.right,
                action: order_side(l.side),
                ratio: 1,
            };
            assert(seq![combo[0]] + t.push(n) =~= combo.push(n));
        }
    }
}

/// How many of `legs` trade the contract of `c` on its side.
pub open spec fn count_of(legs: Seq<StructureLeg>, c: ComboLeg) -> int
    decreases legs.len(),
{
    if legs.len() == 0 {
        0
    } else {
        count_of(legs.drop_last(), c) + (if same_contract(c, legs.last()) {
            1int
        } else {
            0
        })
    }
}

/// The place of the first of `legs` that trades the contract of `c` on its side;
/// their number where none does.
pub open spec fn first_at(legs: Seq<StructureLeg>, c: ComboLeg) -> int
    decreases legs.len(),
{
    if legs.len() == 0 {
        0
    } else {
        let before = first_at(legs.drop_last(), c);
        if before < legs.len() - 1 || same_contract(c, legs.last()) {
            before
        } else {
            legs.len() as int
        }
    }
}

/// The ratios of a combo, added up.
pub open spec fn total_ratio(combo: Seq<ComboLeg>) -> int
    decreases combo.len(),
{
    if combo.len() == 0 {
        0
    } else {
        total_ratio(combo.drop_last()) + combo.last().ratio
    }
}

/// Whether two combo legs trade one contract on one side.
pub open spec fn same_trade(a: ComboLeg, b: ComboLeg) -> bool {
    a.strike == b.strike && a.right == b.right && a.action == b.action
}

proof fn lemma_same_trade(legs: Seq<StructureLeg>, a: ComboLeg, b: ComboLeg)
    requires
        same_trade(a, b),
    ensures
        count_of(legs, a) == count_of(legs, b),
        first_at(legs, a) == first_at(legs, b),
    decreases legs.len(),
{
    if legs.len() > 0 {
        lemma_same_trade(legs.drop_last(), a, b);
    }
}

proof fn lemma_first_at(legs: Seq<StructureLeg>, c: ComboLeg)
    ensures
        0 <= count_of(legs, c) <= legs.len(),
        0 <= first_at(legs, c) <= legs.len(),
        first_at(legs, c) < legs.len() <==> count_of(legs, c) > 0,
        first_at(legs, c) < legs.len() ==> same_contract(c, legs[first_at(legs, c)]),
        forall|k: int| 0 <= k < first_at(legs, c) ==> !same_contract(c, #[trigger] legs[k]),
    decreases legs.len(),
{
    if legs.len() > 0 {
        let rest = legs.drop_last();
        lemma_first_at(rest, c);
        assert forall|k: int| 0 <= k < first_at(legs, c) implies !same_contract(
            c,
            #[trigger] legs[k],
        ) by {
            if k < rest.len() {
                assert(rest[k] == legs[k]);
            }
        }
    }
}

proof fn lemma_total_update(combo: Seq<ComboLeg>, i: int, x: ComboLeg)
    requires
        0 <= i < combo.len(),
    ensures
        total_ratio(combo.update(i, x)) == total_ratio(combo) - combo[i].ratio + x.ratio,
    decreases combo.len(),
{
    let rest = combo.drop_last();
    if i < combo.len() - 1 {
        lemma_total_update(rest, i, x);
        assert(combo.update(i, x).drop_last() =~= rest.update(i, x));
    } else {
        assert(combo.update(i, x).drop_last() =~= rest);
    }
}

/// The place in `combo` of the leg that trades the contract of `l` on its side;
/// their number where none does.
proof fn lemma_place(combo: Seq<ComboLeg>, l: StructureLeg) -> (i: int)
    ensures
        0 <= i <= combo.len(),
        forall|k: int| 0 <= k < i ==> !same_contract(#[trigger] combo[k], l),
        i < combo.len() ==> same_contract(combo[i], l),
    decreases combo.len(),
{
    if combo.len() == 0 {
        0
    } else {
        let rest = combo.drop_last();
        let i = lemma_place(rest, l);
        assert forall|k: int| 0 <= k < i implies !same_contract(#[trigger] combo[k], l) by {
            assert(rest[k] == combo[k]);
        }
        if i < rest.len() {
            assert(rest[i] == combo[i]);
            i
        } else if same_contract(combo.last(), l) {
            combo.len() - 1
        } else {
            combo.len() as int
        }
    }
}

/// A combo holds each contract and side of a structure once, in the order in which
/// they first appear, with the number of legs on it as its ratio: no two of its legs
/// are one trade, every leg of the structure is in it, and its ratios add up to the
/// number of legs.
pub proof fn law_combo_merges(legs: Seq<StructureLeg>)
    requires
        legs.len() < i32::MAX,
    ensures
        forall|i: int, j: int|
            0 <= i < j < combo_of(legs).len() ==> !same_trade(
                #[trigger] combo_of(legs)[i],
                #[trigger] combo_of(legs)[j],
            ),
        forall|i: int|
            0 <= i < combo_of(legs).len() ==> (#[trigger] combo_of(legs)[i]).ratio == count_of(
                legs,
                combo_of(legs)[i],
            ),
        forall|i: int|
            0 <= i < combo_of(legs).len() ==> first_at(legs, #[trigger] combo_of(legs)[i])
                < legs.len(),
        forall|i: int, j: int|
            0 <= i < j < combo_of(legs).len() ==> first_at(legs, #[trigger] combo_of(legs)[i])
                < first_at(legs, #[trigger] combo_of(legs)[j]),
        forall|k: int|
            0 <= k < legs.len() ==> exists|i: int|
                0 <= i < combo_of(legs).len() && same_contract(
                    #[trigger] combo_of(legs)[i],
                    #[trigger] legs[k],
                ),
        total_ratio(combo_of(legs)) == legs.len(),
    decreases legs.len(),
{
    if legs.len() > 0 {
        let rest = legs.drop_last();
        let l = legs.last();
        let old_combo = combo_of(rest);
        let combo = combo_of(legs);
        law_combo_merges(rest);
        let at = lemma_place(old_combo, l);
        lemma_merged_at(old_combo, l, at);
        let new = ComboLeg {
            strike: l.strike,
            right: l.right,
            action: order_side(l.side),
            ratio: 1,
        };
        assert forall|c: ComboLeg| true implies (#[trigger] count_of(legs, c)) == count_of(rest, c)
            + (if same_contract(c, l) {
            1int
        } else {
            0
        }) by {}
        if at < old_combo.len() {
            let up = ComboLeg { ratio: (old_combo[at].ratio + 1) as i32, ..old_combo[at] };
            assert(combo == old_combo.update(at, up));
            lemma_total_update(old_combo, at, up);
            lemma_first_at(rest, old_combo[at]);
        } else {
            assert(combo == old_combo.push(new));
            assert(combo.drop_last() =~= old_combo);
            lemma_first_at(rest, new);
            if first_at(rest, new) < rest.len() {
                let k = first_at(rest, new);
                let i = choose|i: int|
                    0 <= i < old_combo.len() && same_contract(#[trigger] old_combo[i], rest[k]);
                assert(same_contract(old_combo[i], l));
            }
        }
        assert forall|i: int| 0 <= i < combo.len() implies {
            &&& (#[trigger] combo[i]).ratio == count_of(legs, combo[i])
            &&& first_at(legs, combo[i]) < legs.len()
            &&& i < old_combo.len() ==> same_trade(combo[i], old_combo[i]) && first_at(
                legs,
                combo[i],
            ) == first_at(rest, old_combo[i])
            &&& i == old_combo.len() ==> first_at(legs, combo[i]) == rest.len()
        } by {
            if i < old_combo.len() {
                lemma_same_trade(rest, combo[i], old_combo[i]);
                if i > at {
                    assert(!same_trade(old_combo[at], old_combo[i]));
                }
            }
        }
        assert forall|k: int| 0 <= k < legs.len() implies exists|i: int|
            0 <= i < combo.len() && same_contract(#[trigger] combo[i], #[trigger] legs[k]) by {
            if k < rest.len() {
                assert(rest[k] == legs[k]);
                let i = choose|i: int|
                    0 <= i < old_combo.len() && same_contract(#[trigger] old_combo[i], rest[k]);
                assert(same_contract(combo[i], legs[k]));
            } else {
                assert(same_contract(combo[at], legs[k]));
            }
        }
    }
}

/// Collapses a structure's legs into combo legs.
pub fn combo_legs_from(legs: &Vec<StructureLeg>) -> (r: Vec<ComboLeg>)
    requires
        legs@.len() < i32::MAX,
    ensures
        r@ == combo_of(legs@),
        r@.len() <= legs@.len(),
{
    let mut out: Vec<ComboLeg> = Vec::new();
    let mut i: usize = 0;
    assert(legs@.take(0) =~= Seq::empty());
    while i < legs.len()
        invariant
            i <= legs@.len() < i32::MAX,
            out@ == combo_of(legs@.take(i as int)),
            out@.len() <= i,
            forall|k: int| 0 <= k < out@.len() ==> 1 <= (#[trigger] out@[k]).ratio <= i,
        decreases legs@.len() - i,
    {
        let l = legs[i];
        assert(legs@.take(i + 1).drop_last() =~= legs@.take(i as int));
        let side = match l.side {
            LegSide::Buy => Side::Buy,
            LegSide::Sell => Side::Sell,
        };
        let mut k: usize = 0;
        while k < out.len() && !(out[k].strike == l.strike && out[k].right == l.right
            && out[k].action == side)
            invariant
                k <= out@.len(),
                side == order_side(l.side),
                forall|m: int| 0 <= m < k ==> !same_contract(#[trigger] out@[m], l),
            decreases out@.len() - k,
        {
            k = k + 1;
        }
        proof {
            lemma_merged_at(out@, l, k as int);
        }
        if k < out.len() {
            let c = out[k];
            let next = ComboLeg {
                strike: c.strike,
                right: c.right,
                action: c.action,
                ratio: c.ratio + 1,
            };
            out[k] = next;
        } else {
            out.push(ComboLeg { strike: l.strike, right: l.right, action: side, ratio: 1 });
        }
        i = i + 1;
    }
    assert(legs@.take(i as int) =~= legs@);
    out
}

// --- held structures -------------------------------------------------------

/// Whether a short leg of a stored structure is held.
pub open spec fn leg_held(
    positions: Seq<PositionRow>,
    p: ZeroDtePositionRow,
    l: ComboLeg,
) -> bool {
    l.action == Side::Sell && exists|i: int|
        0 <= i < positions.len() && holds_short(
            #[trigger] positions[i],
            p.underlying@,
            l.right.spec_code(),
            l.strike as int,
            p.expiry@,
        )
}

/// Whether a stored structure's short legs are still held.
pub open spec fn is_held(positions: Seq<PositionRow>, p: ZeroDtePositionRow) -> bool {
    exists|k: int|
        0 <= k < legs_of_text(p.legs@).len() && leg_held(
            positions,
            p,
            #[trigger] legs_of_text(p.legs@)[k],
        )
}

/// Whether a short leg of a stored structure is still held by the broker: the
/// entry filled and the position is open.
pub fn structure_held(positions: &[PositionRow], p: &ZeroDtePositionRow) -> (r: bool)
    ensures
        r == is_held(positions@, *p),
{
    let legs = decode_legs(p.legs.as_str());
    let mut i: usize = 0;
    while i < legs.len()
        invariant
            i <= legs@.len(),
            legs@ == legs_of_text(p.legs@),
            forall|k: int| 0 <= k < i ==> !leg_held(positions@, *p, #[trigger] legs@[k]),
        decreases legs@.len() - i,
    {
        let l = legs[i];
        if l.action == Side::Sell && position_has_short(
            positions,
            p.underlying.as_str(),
            l.right.code(),
            l.strike,
            p.expiry.as_str(),
        ) {
            assert(leg_held(positions@, *p, legs@[i as int]));
            return true;
        }
        i = i + 1;
    }
    false
}

// --- pricing ---------------------------------------------------------------

/// What it costs to close the first `n` legs at the given prices: what was sold is
/// bought back, what was bought is sold.
pub open spec fn cost_of(legs: Seq<ComboLeg>, prices: Seq<i64>, n: int) -> int
    decreases n,
{
    if n <= 0 {
        0
    } else {
        cost_of(legs, prices, n - 1) + (match legs[n - 1].action {
            Side::Sell => prices[n - 1] * legs[n - 1].ratio,
            Side::Buy => -(prices[n - 1] * legs[n - 1].ratio),
        })
    }
}

/// What it costs per share to close a package whose legs have the given prices.
pub fn combo_cost(legs: &Vec<ComboLeg>, prices: &Vec<i64>) -> (r: i128)
    requires
        legs@.len() == prices@.len(),
        legs@.len() <= 10_000_000_000_000,
        forall|i: int| 0 <= i < prices@.len() ==> is_price(#[trigger] prices@[i] as int),
    ensures
        r == cost_of(legs@, prices@, legs@.len() as int),
{
    let mut sum: i128 = 0;
    let mut i: usize = 0;
    while i < legs.len()
        invariant
            i <= legs@.len() <= 10_000_000_000_000,
            legs@.len() == prices@.len(),
            forall|k: int| 0 <= k < prices@.len() ==> is_price(#[trigger] prices@[k] as int),
            sum == cost_of(legs@, prices@, i as int),
            -(3_000_000_000_000_000_000_000_000 * i) <= sum <= 3_000_000_000_000_000_000_000_000
                * i,
        decreases legs@.len() - i,
    {
        let (p, n): (i128, i128) = (prices[i] as i128, legs[i].ratio as i128);
        proof {
            assert(is_price(prices@[i as int] as int));
            assert(-3_000_000_000_000_000_000_000_000 <= p * n <= 3_000_000_000_000_000_000_000_000)
                by (nonlinear_arith)
                requires
                    -1_000_000_000_000_000 <= p <= 1_000_000_000_000_000,
                    -2_147_483_648 <= n <= 2_147_483_647,
            ;
        }
        let each: i128 = p * n;
        sum = match legs[i].action {
            Side::Sell => sum + each,
            Side::Buy => sum - each,
        };
        i = i + 1;
    }
    sum
}

/// What one pays to close a package is what one would get for closing the
/// reversed one.
pub proof fn law_cost_mirrors(legs: Seq<ComboLeg>, back: Seq<ComboLeg>, prices: Seq<i64>, n: int)
    requires
        0 <= n <= legs.len(),
        back == closing_legs(legs),
    ensures
        cost_of(back, prices, n) == -cost_of(legs, prices, n),
    decreases n,
{
    if n > 0 {
        law_cost_mirrors(legs, back, prices, n - 1);
    }
}

} // verus!
