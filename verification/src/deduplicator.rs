//! Merging candidate lists with first-seen-wins semantics.

use vstd::hash_set::StringHashSet;
use vstd::prelude::*;
use vstd::seq_lib::{lemma_flatten_concat, lemma_no_dup_in_concat};

verus! {

/// The items of `ids` in order, each kept at its first occurrence only.
pub open spec fn first_occurrences<A>(ids: Seq<A>) -> Seq<A>
    decreases ids.len(),
{
    if ids.len() == 0 {
        Seq::empty()
    } else {
        let earlier = first_occurrences(ids.drop_last());
        if earlier.contains(ids.last()) {
            earlier
        } else {
            earlier.push(ids.last())
        }
    }
}

/// The index at which `id` first occurs in `ids`, or `ids.len()` if it does not occur.
pub open spec fn first_index<A>(ids: Seq<A>, id: A) -> int
    decreases ids.len(),
{
    if ids.len() == 0 {
        0
    } else if ids.first() == id {
        0
    } else {
        1 + first_index(ids.drop_first(), id)
    }
}

/// `first_occurrences(ids)` holds exactly the items of `ids`, and none of them twice.
pub proof fn lemma_first_occurrences_elements<A>(ids: Seq<A>)
    ensures
        first_occurrences(ids).no_duplicates(),
        first_occurrences(ids).len() <= ids.len(),
        forall|id: A| first_occurrences(ids).contains(id) <==> ids.contains(id),
    decreases ids.len(),
{
    if ids.len() > 0 {
        let front = ids.drop_last();
        let earlier = first_occurrences(front);
        lemma_first_occurrences_elements(front);
        let kept = first_occurrences(ids);
        assert forall|id: A| kept.contains(id) <==> ids.contains(id) by {
            if ids.contains(id) {
                let i = choose|i: int| 0 <= i < ids.len() && ids[i] == id;
                if i < front.len() {
                    assert(front[i] == id);
                    assert(front.contains(id));
                    assert(earlier.contains(id));
                    let j = choose|j: int| 0 <= j < earlier.len() && earlier[j] == id;
                    assert(kept[j] == id);
                } else if earlier.contains(id) {
                    let j = choose|j: int| 0 <= j < earlier.len() && earlier[j] == id;
                    assert(kept[j] == id);
                } else {
                    assert(kept[earlier.len() as int] == id);
                }
            }
            if kept.contains(id) {
                let j = choose|j: int| 0 <= j < kept.len() && kept[j] == id;
                if j < earlier.len() {
                    assert(earlier[j] == id);
                    assert(earlier.contains(id));
                    assert(front.contains(id));
                    let i = choose|i: int| 0 <= i < front.len() && front[i] == id;
                    assert(ids[i] == id);
                } else {
                    assert(ids[ids.len() - 1] == id);
                }
            }
        }
    }
}

/// A sequence without repeats is its own sequence of first occurrences.
pub proof fn lemma_first_occurrences_of_distinct<A>(ids: Seq<A>)
    requires
        ids.no_duplicates(),
    ensures
        first_occurrences(ids) == ids,
    decreases ids.len(),
{
    if ids.len() > 0 {
        let front = ids.drop_last();
        lemma_first_occurrences_of_distinct(front);
        if front.contains(ids.last()) {
            let i = choose|i: int| 0 <= i < front.len() && front[i] == ids.last();
            assert(ids[i] == ids[ids.len() - 1]);
        }
        assert(front.push(ids.last()) =~= ids);
    } else {
        assert(ids =~= Seq::empty());
    }
}

/// Appending items that all occur already changes nothing.
pub proof fn lemma_first_occurrences_absorbs<A>(ids: Seq<A>, more: Seq<A>)
    requires
        forall|i: int| 0 <= i < more.len() ==> ids.contains(#[trigger] more[i]),
    ensures
        first_occurrences(ids + more) == first_occurrences(ids),
    decreases more.len(),
{
    if more.len() == 0 {
        assert(ids + more =~= ids);
    } else {
        let all = ids + more;
        assert(all.drop_last() =~= ids + more.drop_last());
        assert(all.last() == more[more.len() - 1]);
        lemma_first_occurrences_absorbs(ids, more.drop_last());
        lemma_first_occurrences_elements(ids);
        assert(ids.contains(more[more.len() - 1]));
    }
}

/// Removing duplicates twice gives what removing them once gives.
pub proof fn lemma_first_occurrences_idempotent<A>(ids: Seq<A>)
    ensures
        first_occurrences(first_occurrences(ids)) == first_occurrences(ids),
{
    lemma_first_occurrences_elements(ids);
    lemma_first_occurrences_of_distinct(first_occurrences(ids));
}

/// Aggregating the same candidates twice over gives what aggregating them once gives.
pub proof fn lemma_first_occurrences_of_repeated<A>(ids: Seq<A>)
    ensures
        first_occurrences(ids + ids) == first_occurrences(ids),
{
    assert forall|i: int| 0 <= i < ids.len() implies ids.contains(#[trigger] ids[i]) by {}
    lemma_first_occurrences_absorbs(ids, ids);
}

/// An id stands in `first_occurrences(ids)` before another exactly as their
/// first occurrences in `ids` are ordered.
pub proof fn lemma_first_occurrences_order<A>(ids: Seq<A>, i: int, j: int)
    requires
        0 <= i < j < first_occurrences(ids).len(),
    ensures
        first_index(ids, first_occurrences(ids)[i]) < first_index(ids, first_occurrences(ids)[j])
            < ids.len(),
    decreases ids.len(),
{
    let kept = first_occurrences(ids);
    if ids.len() > 0 {
        let front = ids.drop_last();
        let earlier = first_occurrences(front);
        lemma_first_occurrences_elements(front);
        lemma_first_occurrences_elements(ids);
        assert(earlier.contains(kept[i])) by {
            assert(earlier[i] == kept[i]);
        }
        assert(front.contains(kept[i]));
        lemma_first_index_of_member(front, kept[i]);
        lemma_first_index_extends(front, ids.last(), kept[i]);
        assert(front.push(ids.last()) =~= ids);
        if j < earlier.len() {
            lemma_first_occurrences_order(front, i, j);
            assert(earlier.contains(kept[j])) by {
                assert(earlier[j] == kept[j]);
            }
            lemma_first_index_extends(front, ids.last(), kept[j]);
        } else {
            assert(kept[j] == ids.last());
            assert(!front.contains(kept[j]));
            lemma_first_index_of_absent(front, kept[j]);
            lemma_first_index_of_member(ids, kept[j]);
            lemma_first_index_is_first(ids, kept[j], front.len() as int);
            lemma_first_index_extends_absent(front, ids.last());
        }
    }
}

/// The first index of a member is an index at which it stands.
pub proof fn lemma_first_index_of_member<A>(ids: Seq<A>, id: A)
    requires
        ids.contains(id),
    ensures
        0 <= first_index(ids, id) < ids.len(),
        ids[first_index(ids, id)] == id,
    decreases ids.len(),
{
    let i = choose|i: int| 0 <= i < ids.len() && ids[i] == id;
    if ids.first() != id {
        assert(ids.drop_first()[i - 1] == id);
        lemma_first_index_of_member(ids.drop_first(), id);
    }
}

/// An id that does not occur has the length as its first index.
pub proof fn lemma_first_index_of_absent<A>(ids: Seq<A>, id: A)
    requires
        !ids.contains(id),
    ensures
        first_index(ids, id) == ids.len(),
    decreases ids.len(),
{
    if ids.len() > 0 {
        assert(ids[0] != id);
        assert forall|i: int| 0 <= i < ids.drop_first().len() implies ids.drop_first()[i]
            != id by {
            assert(ids[i + 1] != id);
        }
        lemma_first_index_of_absent(ids.drop_first(), id);
    }
}

/// No occurrence of an id stands before its first index.
pub proof fn lemma_first_index_is_first<A>(ids: Seq<A>, id: A, at: int)
    requires
        0 <= at < ids.len(),
        ids[at] == id,
    ensures
        first_index(ids, id) <= at,
    decreases ids.len(),
{
    if ids.first() != id {
        assert(ids.drop_first()[at - 1] == id);
        lemma_first_index_is_first(ids.drop_first(), id, at - 1);
    }
}

/// Appending an item leaves the first index of every member where it was.
pub proof fn lemma_first_index_extends<A>(ids: Seq<A>, last: A, id: A)
    requires
        ids.contains(id),
    ensures
        first_index(ids.push(last), id) == first_index(ids, id),
    decreases ids.len(),
{
    let i = choose|i: int| 0 <= i < ids.len() && ids[i] == id;
    let longer = ids.push(last);
    assert(longer.first() == ids.first());
    if ids.first() != id {
        assert(ids.drop_first()[i - 1] == id);
        assert(longer.drop_first() =~= ids.drop_first().push(last));
        lemma_first_index_extends(ids.drop_first(), last, id);
    }
}

/// An item appended to a sequence that lacks it has the old length as its first index.
pub proof fn lemma_first_index_extends_absent<A>(ids: Seq<A>, last: A)
    requires
        !ids.contains(last),
    ensures
        first_index(ids.push(last), last) == ids.len(),
    decreases ids.len(),
{
    let longer = ids.push(last);
    if ids.len() > 0 {
        assert(ids[0] != last);
        assert(longer.first() == ids.first());
        assert(longer.drop_first() =~= ids.drop_first().push(last));
        assert forall|i: int| 0 <= i < ids.drop_first().len() implies ids.drop_first()[i]
            != last by {
            assert(ids[i + 1] != last);
        }
        lemma_first_index_extends_absent(ids.drop_first(), last);
    } else {
        assert(longer.first() == last);
    }
}

/// The aggregate of candidate sets given in priority order: the sets one
/// after the other, each id kept where it first occurs.
pub open spec fn aggregated<A>(sets: Seq<Seq<A>>) -> Seq<A> {
    first_occurrences(sets.flatten())
}

/// An aggregate holds no id twice, holds every id of every set, and is no
/// longer than the sets together.
pub proof fn lemma_aggregated_elements<A>(sets: Seq<Seq<A>>)
    ensures
        aggregated(sets).no_duplicates(),
        aggregated(sets).len() <= sets.flatten().len(),
        forall|id: A| aggregated(sets).contains(id) <==> sets.flatten().contains(id),
{
    lemma_first_occurrences_elements(sets.flatten());
}

/// Aggregating an aggregate again gives the aggregate.
pub proof fn lemma_aggregated_idempotent<A>(sets: Seq<Seq<A>>)
    ensures
        aggregated(seq![aggregated(sets)]) == aggregated(sets),
{
    seq![aggregated(sets)].lemma_flatten_singleton();
    lemma_first_occurrences_idempotent(sets.flatten());
}

/// Aggregating the same sources twice over gives what aggregating them once
/// gives, each id where it first occurred.
pub proof fn lemma_aggregated_of_repeated_sources<A>(sets: Seq<Seq<A>>)
    ensures
        aggregated(sets + sets) == aggregated(sets),
{
    lemma_flatten_concat(sets, sets);
    lemma_first_occurrences_of_repeated(sets.flatten());
}

/// Three sets that hold no id twice, alone or between them, aggregate to
/// the three sets one after the other.
pub proof fn lemma_aggregated_of_disjoint<A>(a: Seq<A>, b: Seq<A>, c: Seq<A>)
    requires
        a.no_duplicates(),
        b.no_duplicates(),
        c.no_duplicates(),
        a.disjoint(b),
        a.disjoint(c),
        b.disjoint(c),
    ensures
        aggregated(seq![a, b, c]) == a + b + c,
{
    lemma_flatten_of_three(a, b, c);
    lemma_no_dup_in_concat(a, b);
    assert forall|i: int, j: int| 0 <= i < (a + b).len() && 0 <= j < c.len() implies (a + b)[i]
        != c[j] by {
        if i < a.len() {
            assert(a[i] != c[j]);
        } else {
            assert(b[i - a.len()] != c[j]);
        }
    }
    lemma_no_dup_in_concat(a + b, c);
    lemma_first_occurrences_of_distinct(a + b + c);
}

/// Three sets in a row flatten to the three one after the other.
pub proof fn lemma_flatten_of_three<A>(a: Seq<A>, b: Seq<A>, c: Seq<A>)
    ensures
        seq![a, b, c].flatten() == a + b + c,
{
    let none = Seq::<Seq<A>>::empty();
    assert(none.flatten() =~= Seq::<A>::empty());
    none.lemma_flatten_push(a);
    none.push(a).lemma_flatten_push(b);
    none.push(a).push(b).lemma_flatten_push(c);
    assert(none.push(a).push(b).push(c) =~= seq![a, b, c]);
    assert(Seq::<A>::empty() + a =~= a);
}

/// Removes every repeated id from `vec`, keeping each id where it first stood.
pub fn remove_duplicates(vec: &mut Vec<String>)
    ensures
        final(vec).deep_view() == first_occurrences(old(vec).deep_view()),
        final(vec).deep_view().no_duplicates(),
        final(vec).len() <= old(vec).len(),
{
    let ghost ids = vec.deep_view();
    proof {
        lemma_first_occurrences_elements(ids);
    }
    let n: usize = vec.len();
    let mut unique_ids: Vec<String> = Vec::new();
    let mut encountered_ids = StringHashSet::new();
    let mut i: usize = 0;
    assert(ids.take(0) =~= Seq::empty());
    assert(unique_ids.deep_view() =~= Seq::empty());
    while i < n
        invariant
            i <= n,
            n == vec.len(),
            ids == vec.deep_view(),
            ids.len() == n,
            unique_ids.deep_view() == first_occurrences(ids.take(i as int)),
            encountered_ids@ == unique_ids.deep_view().to_set(),
        decreases n - i,
    {
        let ghost kept = unique_ids.deep_view();
        assert(ids.take(i + 1).drop_last() =~= ids.take(i as int));
        assert(ids.take(i + 1).last() == vec[i as int]@);
        if !encountered_ids.contains(vec[i].as_str()) {
            unique_ids.push(vec[i].clone());
            encountered_ids.insert(vec[i].clone());
            assert(unique_ids.deep_view() =~= kept.push(vec[i as int]@));
            assert(encountered_ids@ =~= unique_ids.deep_view().to_set()) by {
                assert forall|id: Seq<char>|
                    kept.push(vec[i as int]@).contains(id) <==> kept.contains(id) || id
                        == vec[i as int]@ by {
                    let longer = kept.push(vec[i as int]@);
                    if kept.contains(id) {
                        let k = choose|k: int| 0 <= k < kept.len() && kept[k] == id;
                        assert(longer[k] == id);
                    }
                    if id == vec[i as int]@ {
                        assert(longer[kept.len() as int] == id);
                    }
                }
            }
        }
        i = i + 1;
    }
    assert(ids.take(n as int) =~= ids);
    *vec = unique_ids;
}

/// The aggregate of `sets`, which come in priority order: every id of every
/// set, each once, in the order in which the ids first occur.
pub fn aggregate(sets: &Vec<Vec<String>>) -> (candidates: Vec<String>)
    ensures
        candidates.deep_view() == aggregated(sets.deep_view()),
        candidates.deep_view().no_duplicates(),
        candidates.len() <= sets.deep_view().flatten().len(),
{
    let ghost all = sets.deep_view();
    proof {
        lemma_aggregated_elements(all);
    }
    let mut candidates: Vec<String> = Vec::new();
    let mut i: usize = 0;
    assert(all.take(0) =~= Seq::empty());
    assert(candidates.deep_view() =~= all.take(0).flatten());
    while i < sets.len()
        invariant
            i <= sets.len(),
            all == sets.deep_view(),
            candidates.deep_view() == all.take(i as int).flatten(),
        decreases sets.len() - i,
    {
        let ghost before = candidates.deep_view();
        let ghost set = sets[i as int].deep_view();
        let mut j: usize = 0;
        assert(before + set.take(0) =~= before);
        while j < sets[i].len()
            invariant
                i < sets.len(),
                j <= sets[i as int].len(),
                set == sets[i as int].deep_view(),
                candidates.deep_view() == before + set.take(j as int),
            decreases sets[i as int].len() - j,
        {
            let ghost gathered = candidates.deep_view();
            candidates.push(sets[i][j].clone());
            assert(set[j as int] == sets[i as int][j as int]@);
            assert(candidates.deep_view() =~= gathered.push(set[j as int]));
            assert(set.take(j + 1) =~= set.take(j as int).push(set[j as int]));
            assert(candidates.deep_view() =~= before + set.take(j + 1));
            j = j + 1;
        }
        proof {
            assert(set.take(set.len() as int) =~= set);
            assert(all.take(i + 1) =~= all.take(i as int).push(set));
            all.take(i as int).lemma_flatten_push(set);
        }
        i = i + 1;
    }
    assert(all.take(sets.len() as int) =~= all);
    remove_duplicates(&mut candidates);
    candidates
}

} // verus!
