//! Listings in a fixed order: each element has a rank, and a listing shows
//! its elements by rising rank, those of equal rank in the order in which
//! they came.

use vstd::prelude::*;
use vstd::seq_lib::{to_multiset_contains, to_multiset_insert};

verus! {

/// Something that has a place in a listing.
pub trait Ranked {
    /// The rank: an element of lower rank is listed before one of higher rank.
    spec fn rank(&self) -> int;
}

/// Whether the ranks never fall along the sequence.
pub open spec fn ordered<T: Ranked>(s: Seq<T>) -> bool {
    forall|i: int, j: int| 0 <= i < j < s.len() ==> s[i].rank() <= s[j].rank()
}

/// Where `item` goes into `s`: behind the last element whose rank is not
/// higher than its own, at the front where there is none.
pub open spec fn place_of<T: Ranked>(s: Seq<T>, item: T) -> int
    decreases s.len(),
{
    if s.len() == 0 {
        0
    } else if s.last().rank() <= item.rank() {
        s.len() as int
    } else {
        place_of(s.drop_last(), item)
    }
}

/// `s` with `item` put in at its place.
pub open spec fn placed<T: Ranked>(s: Seq<T>, item: T) -> Seq<T> {
    s.insert(place_of(s, item), item)
}

/// The elements of `s` placed one after the other, from the first to the
/// last, into a listing that starts empty.
pub open spec fn arranged<T: Ranked>(s: Seq<T>) -> Seq<T>
    decreases s.len(),
{
    if s.len() == 0 {
        Seq::empty()
    } else {
        placed(arranged(s.drop_last()), s.last())
    }
}

/// The elements of `s` that have the rank `r`, in the order in which they
/// stand in `s`.
pub open spec fn of_rank<T: Ranked>(s: Seq<T>, r: int) -> Seq<T>
    decreases s.len(),
{
    if s.len() == 0 {
        Seq::empty()
    } else if s.last().rank() == r {
        of_rank(s.drop_last(), r).push(s.last())
    } else {
        of_rank(s.drop_last(), r)
    }
}

/// The place of an item lies within the sequence or at its end; every element
/// from there on has a higher rank, and the element just before, if there is
/// one, has not.
pub proof fn lemma_place_of_bounds<T: Ranked>(s: Seq<T>, item: T)
    ensures
        0 <= place_of(s, item) <= s.len(),
        forall|j: int| place_of(s, item) <= j < s.len() ==> (#[trigger] s[j]).rank() > item.rank(),
        place_of(s, item) > 0 ==> s[place_of(s, item) - 1].rank() <= item.rank(),
    decreases s.len(),
{
    if s.len() > 0 && s.last().rank() > item.rank() {
        lemma_place_of_bounds(s.drop_last(), item);
        let p = place_of(s, item);
        assert forall|j: int| p <= j < s.len() implies (#[trigger] s[j]).rank() > item.rank() by {
            if j < s.len() - 1 {
                assert(s.drop_last()[j] == s[j]);
            }
        }
        if p > 0 {
            assert(s.drop_last()[p - 1] == s[p - 1]);
        }
    }
}

/// The place of an item is the one index with that property: where every
/// element from `at` on has a higher rank and the element just before `at`
/// has not, `at` is the place.
pub proof fn lemma_place_of_is<T: Ranked>(s: Seq<T>, item: T, at: int)
    requires
        0 <= at <= s.len(),
        forall|j: int| at <= j < s.len() ==> (#[trigger] s[j]).rank() > item.rank(),
        at > 0 ==> s[at - 1].rank() <= item.rank(),
    ensures
        place_of(s, item) == at,
    decreases s.len(),
{
    if s.len() > 0 {
        if s.last().rank() <= item.rank() {
            if at < s.len() {
                assert(s[s.len() - 1].rank() > item.rank());
            }
        } else {
            let rest = s.drop_last();
            assert forall|j: int| at <= j < rest.len() implies (#[trigger] rest[j]).rank()
                > item.rank() by {
                assert(rest[j] == s[j]);
            }
            if at > 0 {
                assert(rest[at - 1] == s[at - 1]);
            }
            lemma_place_of_is(rest, item, at);
        }
    }
}

/// Placing an item into an ordered sequence leaves it ordered.
pub proof fn lemma_placed_ordered<T: Ranked>(s: Seq<T>, item: T)
    requires
        ordered(s),
    ensures
        ordered(placed(s, item)),
        placed(s, item).len() == s.len() + 1,
{
    lemma_place_of_bounds(s, item);
    let p = place_of(s, item);
    let r = placed(s, item);
    assert forall|i: int, j: int| 0 <= i < j < r.len() implies r[i].rank() <= r[j].rank() by {
        if j < p {
            assert(r[i] == s[i] && r[j] == s[j]);
        } else if j == p {
            assert(r[i] == s[i]);
            if i < p - 1 {
                assert(s[i].rank() <= s[p - 1].rank());
            }
        } else if i < p {
            assert(r[i] == s[i] && r[j] == s[j - 1]);
        } else if i == p {
            assert(r[j] == s[j - 1]);
        } else {
            assert(r[i] == s[i - 1] && r[j] == s[j - 1]);
        }
    }
}

/// An arrangement is ordered.
pub proof fn lemma_arranged_ordered<T: Ranked>(s: Seq<T>)
    ensures
        ordered(arranged(s)),
        arranged(s).len() == s.len(),
    decreases s.len(),
{
    if s.len() > 0 {
        lemma_arranged_ordered(s.drop_last());
        lemma_placed_ordered(arranged(s.drop_last()), s.last());
    }
}

/// An arrangement holds what the sequence holds, each element as often.
pub proof fn lemma_arranged_permutes<T: Ranked>(s: Seq<T>)
    ensures
        arranged(s).to_multiset() == s.to_multiset(),
    decreases s.len(),
{
    if s.len() == 0 {
        assert(arranged(s) =~= s);
    } else {
        let rest = s.drop_last();
        lemma_arranged_permutes(rest);
        lemma_place_of_bounds(arranged(rest), s.last());
        to_multiset_insert(arranged(rest), place_of(arranged(rest), s.last()), s.last());
        to_multiset_insert(rest, rest.len() as int, s.last());
        assert(rest.insert(rest.len() as int, s.last()) =~= s);
    }
}

/// An arrangement loses nothing: every element of the sequence stands in it.
pub proof fn lemma_arranged_keeps<T: Ranked>(s: Seq<T>, i: int)
    requires
        0 <= i < s.len(),
    ensures
        arranged(s).contains(s[i]),
{
    lemma_arranged_permutes(s);
    assert(s.contains(s[i]));
    to_multiset_contains(s, s[i]);
    to_multiset_contains(arranged(s), s[i]);
}

/// Putting an element in anywhere changes nothing among the elements of
/// another rank.
proof fn lemma_of_rank_insert_other<T: Ranked>(s: Seq<T>, at: int, item: T, r: int)
    requires
        0 <= at <= s.len(),
        item.rank() != r,
    ensures
        of_rank(s.insert(at, item), r) == of_rank(s, r),
    decreases s.len(),
{
    let t = s.insert(at, item);
    if at == s.len() {
        assert(t.drop_last() =~= s);
    } else {
        assert(t.last() == s.last());
        assert(t.drop_last() =~= s.drop_last().insert(at, item));
        lemma_of_rank_insert_other(s.drop_last(), at, item, r);
    }
}

/// Putting an element in behind every element of its own rank makes it the
/// last among them.
proof fn lemma_of_rank_insert_same<T: Ranked>(s: Seq<T>, at: int, item: T)
    requires
        0 <= at <= s.len(),
        forall|j: int| at <= j < s.len() ==> (#[trigger] s[j]).rank() != item.rank(),
    ensures
        of_rank(s.insert(at, item), item.rank()) == of_rank(s, item.rank()).push(item),
    decreases s.len(),
{
    let t = s.insert(at, item);
    if at == s.len() {
        assert(t.drop_last() =~= s);
    } else {
        let rest = s.drop_last();
        assert(t.last() == s.last());
        assert(s[s.len() - 1].rank() != item.rank());
        assert(t.drop_last() =~= rest.insert(at, item));
        assert forall|j: int| at <= j < rest.len() implies (#[trigger] rest[j]).rank()
            != item.rank() by {
            assert(rest[j] == s[j]);
        }
        lemma_of_rank_insert_same(rest, at, item);
    }
}

/// An arrangement is stable: the elements of one rank stand in it in the
/// order in which they came.
pub proof fn lemma_arranged_stable<T: Ranked>(s: Seq<T>, r: int)
    ensures
        of_rank(arranged(s), r) == of_rank(s, r),
    decreases s.len(),
{
    if s.len() > 0 {
        let rest = s.drop_last();
        let sorted = arranged(rest);
        lemma_arranged_stable(rest, r);
        lemma_place_of_bounds(sorted, s.last());
        if s.last().rank() == r {
            lemma_of_rank_insert_same(sorted, place_of(sorted, s.last()), s.last());
        } else {
            lemma_of_rank_insert_other(sorted, place_of(sorted, s.last()), s.last(), r);
        }
    }
}

/// Arranging a sequence that is ordered already changes nothing: elements
/// that come in order stay in the order in which they came.
pub proof fn lemma_arranged_of_ordered<T: Ranked>(s: Seq<T>)
    requires
        ordered(s),
    ensures
        arranged(s) == s,
    decreases s.len(),
{
    if s.len() == 0 {
        assert(arranged(s) =~= s);
    } else {
        let rest = s.drop_last();
        assert forall|i: int, j: int| 0 <= i < j < rest.len() implies rest[i].rank()
            <= rest[j].rank() by {
            assert(rest[i] == s[i] && rest[j] == s[j]);
        }
        lemma_arranged_of_ordered(rest);
        if rest.len() > 0 {
            assert(rest[rest.len() - 1] == s[rest.len() - 1]);
        }
        lemma_place_of_is(rest, s.last(), rest.len() as int);
        assert(rest.insert(rest.len() as int, s.last()) =~= s);
    }
}

} // verus!
