//! The order of letters around a band: by bearing, then fixed for letters
//! that wrap back over the first.

use vstd::prelude::*;
use crate::angle::TAU;
use crate::band::Band;
use crate::ctx::Context;
use crate::glyph::{glyph_of, letters_placed, make_glyph, Glyph};
use crate::pord::{Cartesian, PordGraph, PordOrCord, PordRef};
use crate::word::{has_cutting, stem_cuts, LetterArc};

verus! {

/// Where a letter with the given sort key goes into `letters`: before the
/// first letter whose key is not smaller.
pub open spec fn first_at_least(letters: Seq<LetterArc>, key: int) -> int
    decreases letters.len(),
{
    if letters.len() == 0 {
        0
    } else if letters[0].spec_sort_key() >= key {
        0
    } else {
        1 + first_at_least(letters.drop_first(), key)
    }
}

/// `letters` with `letter` put in before the first letter whose sort key is
/// not smaller than its own.
pub open spec fn insert_in_order(letter: LetterArc, letters: Seq<LetterArc>) -> Seq<LetterArc> {
    letters.insert(first_at_least(letters, letter.spec_sort_key()), letter)
}

/// The letters by ascending sort key, letters of equal key in the order
/// they had.
pub open spec fn in_order(letters: Seq<LetterArc>) -> Seq<LetterArc>
    decreases letters.len(),
{
    if letters.len() == 0 {
        letters
    } else {
        insert_in_order(letters[0], in_order(letters.drop_first()))
    }
}

/// Whether the sort keys never fall from one letter to the next.
pub open spec fn is_in_order(letters: Seq<LetterArc>) -> bool {
    forall|i: int, j: int|
        0 <= i <= j < letters.len() ==> letters[i].spec_sort_key() <= letters[j].spec_sort_key()
}

/// `first_at_least` is the one place `p` with only smaller keys before it
/// and a key that is not smaller at it.
pub proof fn lemma_first_at_least(letters: Seq<LetterArc>, key: int, p: int)
    requires
        0 <= p <= letters.len(),
        forall|i: int| 0 <= i < p ==> letters[i].spec_sort_key() < key,
        p < letters.len() ==> letters[p].spec_sort_key() >= key,
    ensures
        first_at_least(letters, key) == p,
    decreases letters.len(),
{
    if letters.len() > 0 && p > 0 {
        let rest = letters.drop_first();
        assert forall|i: int| 0 <= i < p - 1 implies rest[i].spec_sort_key() < key by {
            assert(rest[i] == letters[i + 1]);
        }
        lemma_first_at_least(rest, key, p - 1);
    }
}

/// `first_at_least` lies within the sequence, with only smaller keys before it.
pub proof fn lemma_first_at_least_bounds(letters: Seq<LetterArc>, key: int)
    ensures
        0 <= first_at_least(letters, key) <= letters.len(),
        forall|i: int|
            0 <= i < first_at_least(letters, key) ==> letters[i].spec_sort_key() < key,
        first_at_least(letters, key) < letters.len() ==> letters[first_at_least(
            letters,
            key,
        )].spec_sort_key() >= key,
    decreases letters.len(),
{
    if letters.len() > 0 && letters[0].spec_sort_key() < key {
        let rest = letters.drop_first();
        lemma_first_at_least_bounds(rest, key);
        assert forall|i: int| 0 <= i < first_at_least(letters, key) implies letters[i].spec_sort_key()
            < key by {
            if i > 0 {
                assert(rest[i - 1] == letters[i]);
            }
        }
        let p = first_at_least(rest, key);
        if p < rest.len() {
            assert(rest[p] == letters[p + 1]);
        }
    }
}

/// Ordering keeps every letter, and as often as it occurred.
pub proof fn lemma_in_order_permutes(letters: Seq<LetterArc>)
    ensures
        in_order(letters).len() == letters.len(),
        in_order(letters).to_multiset() == letters.to_multiset(),
    decreases letters.len(),
{
    if letters.len() > 0 {
        let rest = letters.drop_first();
        let sorted = in_order(rest);
        lemma_in_order_permutes(rest);
        let p = first_at_least(sorted, letters[0].spec_sort_key());
        lemma_first_at_least_bounds(sorted, letters[0].spec_sort_key());
        vstd::seq_lib::to_multiset_insert(sorted, p, letters[0]);
        assert(letters =~= rest.insert(0, letters[0]));
        vstd::seq_lib::to_multiset_insert(rest, 0, letters[0]);
    }
}

/// The ordered letters are in order.
pub proof fn lemma_in_order_sorts(letters: Seq<LetterArc>)
    ensures
        is_in_order(in_order(letters)),
    decreases letters.len(),
{
    if letters.len() > 0 {
        let rest = letters.drop_first();
        let sorted = in_order(rest);
        lemma_in_order_sorts(rest);
        let x = letters[0];
        let p = first_at_least(sorted, x.spec_sort_key());
        lemma_first_at_least_bounds(sorted, x.spec_sort_key());
        let out = sorted.insert(p, x);
        assert forall|i: int, j: int| 0 <= i <= j < out.len() implies out[i].spec_sort_key()
            <= out[j].spec_sort_key() by {
            if i < p {
                assert(out[i] == sorted[i]);
            } else if i > p {
                assert(out[i] == sorted[i - 1]);
            }
            if j < p {
                assert(out[j] == sorted[j]);
            } else if j > p {
                assert(out[j] == sorted[j - 1]);
                assert(sorted[p].spec_sort_key() <= sorted[j - 1].spec_sort_key());
            }
        }
    }
}

/// Letters that are in order stay as they are.
pub proof fn lemma_in_order_keeps_sorted(letters: Seq<LetterArc>)
    requires
        is_in_order(letters),
    ensures
        in_order(letters) == letters,
    decreases letters.len(),
{
    if letters.len() > 0 {
        let rest = letters.drop_first();
        assert forall|i: int, j: int| 0 <= i <= j < rest.len() implies rest[i].spec_sort_key()
            <= rest[j].spec_sort_key() by {
            assert(rest[i] == letters[i + 1]);
            assert(rest[j] == letters[j + 1]);
        }
        lemma_in_order_keeps_sorted(rest);
        if rest.len() > 0 {
            assert(rest[0] == letters[1]);
        }
        lemma_first_at_least(rest, letters[0].spec_sort_key(), 0);
        assert(rest.insert(0, letters[0]) =~= letters);
    }
}

/// Ordering twice is ordering once.
pub proof fn lemma_in_order_idempotent(letters: Seq<LetterArc>)
    ensures
        in_order(in_order(letters)) == in_order(letters),
{
    lemma_in_order_sorts(letters);
    lemma_in_order_keeps_sorted(in_order(letters));
}

/// The letters by ascending sort key, letters of equal key in the order
/// they had.
pub fn sort_by_bearing(letters: Vec<LetterArc>) -> (out: Vec<LetterArc>)
    ensures
        out@ == in_order(letters@),
        is_in_order(out@),
        out@.to_multiset() == letters@.to_multiset(),
{
    proof {
        lemma_in_order_sorts(letters@);
        lemma_in_order_permutes(letters@);
    }
    let ghost all = letters@;
    let mut rest = letters;
    let mut out: Vec<LetterArc> = Vec::new();
    assert(all.subrange(all.len() as int, all.len() as int) =~= Seq::<LetterArc>::empty());
    while rest.len() > 0
        invariant
            rest@.len() <= all.len(),
            rest@ == all.subrange(0, rest@.len() as int),
            out@ == in_order(all.subrange(rest@.len() as int, all.len() as int)),
        decreases rest@.len(),
    {
        let ghost k = rest@.len() as int;
        let x = rest.pop().unwrap();
        let key = x.sort_key();
        let mut p: usize = 0;
        while p < out.len() && out[p].sort_key() < key
            invariant
                p <= out@.len(),
                forall|i: int| 0 <= i < p ==> out@[i].spec_sort_key() < key,
            decreases out@.len() - p,
        {
            p += 1;
        }
        proof {
            lemma_first_at_least(out@, key as int, p as int);
            let tail = all.subrange(k - 1, all.len() as int);
            assert(tail[0] == x);
            assert(tail.drop_first() =~= all.subrange(k, all.len() as int));
            assert(rest@ =~= all.subrange(0, k - 1));
        }
        out.insert(p, x);
    }
    assert(all.subrange(0, all.len() as int) =~= all);
    out
}

/// The letters with the last one moved up behind the first; fewer than two
/// letters stay as they are.
pub open spec fn rotate_tail(letters: Seq<LetterArc>) -> Seq<LetterArc> {
    if letters.len() >= 2 {
        letters.drop_last().insert(1, letters.last())
    } else {
        letters
    }
}

/// The wrap-around fix of ordered letters: as long as the last letter's
/// bearing exceeds `overlap`, it is moved up behind the first. The fix may
/// take `count` looks at the last letter; the flag says whether it came
/// to rest within them.
pub open spec fn wrap_fixup(letters: Seq<LetterArc>, overlap: int, count: nat) -> (
    Seq<LetterArc>,
    bool,
)
    decreases count,
{
    if letters.len() == 0 {
        (letters, true)
    } else if count == 0 {
        (letters, false)
    } else if letters.last().spec_bearing().spec_rad() <= overlap {
        (letters, true)
    } else {
        wrap_fixup(rotate_tail(letters), overlap, (count - 1) as nat)
    }
}

/// The bearing beyond which a last letter wraps back over the first: a
/// full turn behind where the first letter's notch begins, on whichever
/// boundary it begins earlier.
pub open spec fn wrap_overlap(first: Glyph) -> int {
    let left = first.left();
    if left.0.spec_rad() < left.1.spec_rad() {
        left.0.spec_rad() + TAU
    } else {
        left.1.spec_rad() + TAU
    }
}

/// The letters of a word as the band renderer takes them: by ascending
/// sort key, then fixed for wrap-around; and whether that fix came to rest.
pub open spec fn arranged(
    nodes: Seq<PordOrCord>,
    centre: PordRef,
    band: Band,
    word_ctx: Context,
    letters: Seq<LetterArc>,
) -> (Seq<LetterArc>, bool) {
    let sorted = in_order(letters);
    let first = glyph_of(nodes, centre, band, word_ctx, sorted[0]);
    wrap_fixup(sorted, wrap_overlap(first), sorted.len())
}

/// Ordering letters that all stand in the graph leaves them standing there.
pub proof fn lemma_in_order_placed(graph: &PordGraph, letters: Seq<LetterArc>)
    requires
        letters_placed(graph, letters),
    ensures
        letters_placed(graph, in_order(letters)),
        in_order(letters).len() == letters.len(),
    decreases letters.len(),
{
    if letters.len() > 0 {
        let rest = letters.drop_first();
        assert forall|i: int| 0 <= i < rest.len() implies graph.has(
            (#[trigger] rest[i]).spec_pord(),
        ) by {
            assert(rest[i] == letters[i + 1]);
        }
        lemma_in_order_placed(graph, rest);
        let sorted = in_order(rest);
        let p = first_at_least(sorted, letters[0].spec_sort_key());
        lemma_first_at_least_bounds(sorted, letters[0].spec_sort_key());
        let out = sorted.insert(p, letters[0]);
        assert forall|i: int| 0 <= i < out.len() implies graph.has(
            (#[trigger] out[i]).spec_pord(),
        ) by {
            if i < p {
                assert(out[i] == sorted[i]);
            } else if i > p {
                assert(out[i] == sorted[i - 1]);
            }
        }
    }
}

/// Moving the last letter up leaves all letters standing in the graph.
pub proof fn lemma_rotate_tail_placed(graph: &PordGraph, letters: Seq<LetterArc>)
    requires
        letters_placed(graph, letters),
    ensures
        letters_placed(graph, rotate_tail(letters)),
        rotate_tail(letters).len() == letters.len(),
{
    if letters.len() >= 2 {
        let out = rotate_tail(letters);
        assert forall|i: int| 0 <= i < out.len() implies graph.has(
            (#[trigger] out[i]).spec_pord(),
        ) by {
            if i < 1 {
                assert(out[i] == letters[i]);
            } else if i > 1 {
                assert(out[i] == letters[i - 1]);
            } else {
                assert(out[i] == letters.last());
            }
        }
    }
}

/// The wrap-around fix leaves all letters standing in the graph.
pub proof fn lemma_wrap_fixup_placed(
    graph: &PordGraph,
    letters: Seq<LetterArc>,
    overlap: int,
    count: nat,
)
    requires
        letters_placed(graph, letters),
    ensures
        letters_placed(graph, wrap_fixup(letters, overlap, count).0),
        wrap_fixup(letters, overlap, count).0.len() == letters.len(),
    decreases count,
{
    if letters.len() > 0 && count > 0 && letters.last().spec_bearing().spec_rad() > overlap {
        lemma_rotate_tail_placed(graph, letters);
        lemma_wrap_fixup_placed(graph, rotate_tail(letters), overlap, (count - 1) as nat);
    }
}

/// Letters with one put in have a cutting letter exactly where that one
/// cuts or one of the others does.
pub proof fn lemma_insert_cutting(letters: Seq<LetterArc>, p: int, letter: LetterArc)
    requires
        0 <= p <= letters.len(),
    ensures
        has_cutting(letters.insert(p, letter)) == (stem_cuts(letter.spec_stem_type())
            || has_cutting(letters)),
{
    let out = letters.insert(p, letter);
    assert(out[p] == letter);
    if has_cutting(out) {
        let i = choose|i: int| 0 <= i < out.len() && stem_cuts((#[trigger] out[i]).spec_stem_type());
        if i < p {
            assert(out[i] == letters[i]);
        } else if i > p {
            assert(out[i] == letters[i - 1]);
        }
    }
    if has_cutting(letters) {
        let i = choose|i: int|
            0 <= i < letters.len() && stem_cuts((#[trigger] letters[i]).spec_stem_type());
        if i < p {
            assert(out[i] == letters[i]);
        } else {
            assert(out[i + 1] == letters[i]);
        }
    }
}

/// Ordering neither adds nor loses a cutting letter.
pub proof fn lemma_in_order_cutting(letters: Seq<LetterArc>)
    ensures
        has_cutting(in_order(letters)) == has_cutting(letters),
    decreases letters.len(),
{
    if letters.len() > 0 {
        let rest = letters.drop_first();
        lemma_in_order_cutting(rest);
        let sorted = in_order(rest);
        lemma_first_at_least_bounds(sorted, letters[0].spec_sort_key());
        lemma_insert_cutting(sorted, first_at_least(sorted, letters[0].spec_sort_key()), letters[0]);
        assert(letters =~= rest.insert(0, letters[0]));
        lemma_insert_cutting(rest, 0, letters[0]);
    }
}

/// Moving the last letter up neither adds nor loses a cutting letter.
pub proof fn lemma_rotate_tail_cutting(letters: Seq<LetterArc>)
    ensures
        has_cutting(rotate_tail(letters)) == has_cutting(letters),
{
    if letters.len() >= 2 {
        let front = letters.drop_last();
        lemma_insert_cutting(front, 1, letters.last());
        assert(letters =~= front.insert(front.len() as int, letters.last()));
        lemma_insert_cutting(front, front.len() as int, letters.last());
    }
}

/// The wrap-around fix neither adds nor loses a cutting letter.
pub proof fn lemma_wrap_fixup_cutting(letters: Seq<LetterArc>, overlap: int, count: nat)
    ensures
        has_cutting(wrap_fixup(letters, overlap, count).0) == has_cutting(letters),
    decreases count,
{
    if letters.len() > 0 && count > 0 && letters.last().spec_bearing().spec_rad() > overlap {
        lemma_rotate_tail_cutting(letters);
        lemma_wrap_fixup_cutting(rotate_tail(letters), overlap, (count - 1) as nat);
    }
}

/// The wrap-around fix of ordered letters.
pub fn settle_wrap(letters: Vec<LetterArc>, overlap: i64) -> (out: (Vec<LetterArc>, bool))
    ensures
        (out.0@, out.1) == wrap_fixup(letters@, overlap as int, letters@.len()),
{
    let ghost all = letters@;
    let mut arcs = letters;
    let mut count: usize = arcs.len();
    loop
        invariant
            all == letters@,
            arcs@.len() == all.len(),
            count <= all.len(),
            wrap_fixup(arcs@, overlap as int, count as nat) == wrap_fixup(
                all,
                overlap as int,
                all.len(),
            ),
        decreases count,
    {
        let n = arcs.len();
        if n == 0 {
            return (arcs, true);
        }
        if count == 0 {
            return (arcs, false);
        }
        count -= 1;
        if arcs[n - 1].bearing().rad() <= overlap {
            return (arcs, true);
        }
        if n >= 2 {
            let ghost before = arcs@;
            let last = arcs.pop().unwrap();
            arcs.insert(1, last);
            assert(arcs@ =~= rotate_tail(before));
        }
    }
}

/// Brings the letters of a word into the order the band renderer takes
/// them in, and says whether the wrap-around fix came to rest.
pub fn arrange(
    graph: &PordGraph,
    centre: PordRef,
    band: &Band,
    word_ctx: &Context,
    letters: Vec<LetterArc>,
) -> (out: (Vec<LetterArc>, bool))
    requires
        graph.wf(),
        graph.has(centre),
        letters_placed(graph, letters@),
        band.valid(),
        letters@.len() >= 1,
    ensures
        (out.0@, out.1) == arranged(graph@, centre, *band, *word_ctx, letters@),
        letters_placed(graph, out.0@),
        out.0@.len() == letters@.len(),
        has_cutting(out.0@) == has_cutting(letters@),
{
    proof {
        lemma_in_order_placed(graph, letters@);
        lemma_in_order_cutting(letters@);
    }
    let sorted = sort_by_bearing(letters);
    let first = make_glyph(graph, centre, band, word_ctx, &sorted[0]);
    let (ang1, ang2) = first.left_angle();
    let overlap: i64 = if ang1.0.rad() < ang2.0.rad() {
        ang1.0.rad() + TAU
    } else {
        ang2.0.rad() + TAU
    };
    proof {
        lemma_wrap_fixup_placed(graph, sorted@, overlap as int, sorted@.len());
        lemma_wrap_fixup_cutting(sorted@, overlap as int, sorted@.len());
    }
    settle_wrap(sorted, overlap)
}

} // verus!
