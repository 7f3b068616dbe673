//! Sorting of the displayed result list.
//!
//! The displayed view can be re-sorted by one of four keys: the record id,
//! the song name, the song author (both case-insensitively) or the publish
//! date.  The sort is a stable insertion sort, specified exactly by
//! [`sort_by_key_spec`]: a record is inserted after every record that does
//! not compare strictly greater, so records with equal keys keep their
//! relative order.

use vstd::prelude::*;
use crate::text::{fold_lower, lex_lt, lex_lt_str, lemma_lex_lt_irrefl, lemma_lex_lt_trans};
use crate::types::{recs, MapRecord, MapRecordView};

verus! {

/// The four sort criteria of the browse screen.
#[derive(Clone, Copy, PartialEq, Eq, Structural, Debug)]
pub enum SortKey {
    Id,
    SongName,
    Author,
    Date,
}

/// The character sequence a record is compared by under a criterion.  Song
/// name and author compare case-insensitively; id and date compare as
/// opaque strings (dates are ISO-8601 and therefore lexicographically
/// orderable).
pub open spec fn sort_key_of(m: MapRecordView, k: SortKey) -> Seq<char> {
    match k {
        SortKey::Id => m.id,
        SortKey::SongName => fold_lower(m.metadata.song_name),
        SortKey::Author => fold_lower(m.metadata.song_author_name),
        SortKey::Date => m.last_published_at,
    }
}

/// Strict "sorts before" relation under a criterion.
pub open spec fn key_lt(a: MapRecordView, b: MapRecordView, k: SortKey) -> bool {
    lex_lt(sort_key_of(a, k), sort_key_of(b, k))
}

/// A sequence is sorted under a criterion when no later record sorts
/// strictly before an earlier one.
pub open spec fn sorted_under(s: Seq<MapRecordView>, k: SortKey) -> bool {
    forall|i: int, j: int| 0 <= i <= j < s.len() ==> !key_lt(s[j], s[i], k)
}

/// Stable insertion of one record into a sorted sequence: the record goes
/// after every record that does not sort strictly after it.
pub open spec fn insert_by_key(s: Seq<MapRecordView>, x: MapRecordView, k: SortKey) -> Seq<
    MapRecordView,
>
    decreases s.len(),
{
    if s.len() == 0 {
        seq![x]
    } else if key_lt(x, s[0], k) {
        seq![x] + s
    } else {
        seq![s[0]] + insert_by_key(s.drop_first(), x, k)
    }
}

/// The stable insertion sort: each record of `s`, in order, is inserted
/// into the sorted image of the records before it.
pub open spec fn sort_by_key_spec(s: Seq<MapRecordView>, k: SortKey) -> Seq<MapRecordView>
    decreases s.len(),
{
    if s.len() == 0 {
        Seq::empty()
    } else {
        insert_by_key(sort_by_key_spec(s.drop_last(), k), s.last(), k)
    }
}

/// Inserting at the position the exec search finds is the specified
/// insertion: before the first record that `x` sorts strictly before.
proof fn lemma_insert_by_key_at(s: Seq<MapRecordView>, x: MapRecordView, k: SortKey, j: int)
    requires
        0 <= j <= s.len(),
        forall|q: int| 0 <= q < j ==> !key_lt(x, s[q], k),
        j < s.len() ==> key_lt(x, s[j], k),
    ensures
        insert_by_key(s, x, k) == s.insert(j, x),
    decreases s.len(),
{
    if s.len() == 0 {
        assert(insert_by_key(s, x, k) =~= s.insert(0, x));
    } else if j == 0 {
        assert(insert_by_key(s, x, k) =~= s.insert(0, x));
    } else {
        lemma_insert_by_key_at(s.drop_first(), x, k, j - 1);
        assert(seq![s[0]] + s.drop_first().insert(j - 1, x) =~= s.insert(j, x));
    }
}

/// Every record of the insertion's result is the inserted record or one of
/// the sequence's own.
proof fn lemma_insert_by_key_elems(s: Seq<MapRecordView>, x: MapRecordView, k: SortKey)
    ensures
        insert_by_key(s, x, k).len() == s.len() + 1,
        forall|i: int|
            0 <= i < insert_by_key(s, x, k).len() ==> (insert_by_key(s, x, k)[i] == x || exists|q: int|
                0 <= q < s.len() && insert_by_key(s, x, k)[i] == s[q]),
    decreases s.len(),
{
    if s.len() == 0 {
    } else if key_lt(x, s[0], k) {
    } else {
        lemma_insert_by_key_elems(s.drop_first(), x, k);
        let r = insert_by_key(s, x, k);
        let rr = insert_by_key(s.drop_first(), x, k);
        assert forall|i: int| 0 <= i < r.len() implies (r[i] == x || exists|q: int|
            0 <= q < s.len() && r[i] == s[q]) by {
            if i > 0 {
                assert(r[i] == rr[i - 1]);
                if rr[i - 1] != x {
                    let q = choose|q: int| 0 <= q < s.drop_first().len() && rr[i - 1]
                        == s.drop_first()[q];
                    assert(r[i] == s[q + 1]);
                }
            }
        }
    }
}

/// Insertion keeps a sorted sequence sorted.
proof fn lemma_insert_by_key_sorted(s: Seq<MapRecordView>, x: MapRecordView, k: SortKey)
    requires
        sorted_under(s, k),
    ensures
        sorted_under(insert_by_key(s, x, k), k),
    decreases s.len(),
{
    let r = insert_by_key(s, x, k);
    lemma_lex_lt_irrefl(sort_key_of(x, k));
    if s.len() == 0 {
    } else if key_lt(x, s[0], k) {
        // x heads the result; nothing after it may sort before it
        assert forall|i: int, j: int| 0 <= i <= j < r.len() implies !key_lt(r[j], r[i], k) by {
            if i == 0 && j > 0 {
                assert(r[j] == s[j - 1]);
                assert(!key_lt(s[j - 1], s[0], k));
                if key_lt(s[j - 1], x, k) {
                    lemma_lex_lt_trans(
                        sort_key_of(s[j - 1], k),
                        sort_key_of(x, k),
                        sort_key_of(s[0], k),
                    );
                    assert(key_lt(s[j - 1], s[0], k));
                    assert(false);
                }
            } else if i > 0 {
                assert(r[i] == s[i - 1]);
                assert(r[j] == s[j - 1]);
                assert(!key_lt(s[j - 1], s[i - 1], k));
            }
        }
    } else {
        assert(sorted_under(s.drop_first(), k)) by {
            assert(forall|i: int, j: int|
                0 <= i <= j < s.drop_first().len() ==> s.drop_first()[i] == s[i + 1]
                    && s.drop_first()[j] == s[j + 1]);
        }
        lemma_insert_by_key_sorted(s.drop_first(), x, k);
        lemma_insert_by_key_elems(s.drop_first(), x, k);
        let rr = insert_by_key(s.drop_first(), x, k);
        assert forall|i: int, j: int| 0 <= i <= j < r.len() implies !key_lt(r[j], r[i], k) by {
            if i == 0 && j > 0 {
                // s[0] sorts no later than x and no later than any of the rest
                assert(r[j] == rr[j - 1]);
                if rr[j - 1] != x {
                    let q = choose|q: int|
                        0 <= q < s.drop_first().len() && rr[j - 1] == s.drop_first()[q];
                    assert(s.drop_first()[q] == s[q + 1]);
                }
            } else if i > 0 {
                assert(r[i] == rr[i - 1] && r[j] == rr[j - 1]);
            }
        }
    }
}

/// When nothing in the sequence sorts strictly after the record, insertion
/// appends it.
proof fn lemma_insert_by_key_append(s: Seq<MapRecordView>, x: MapRecordView, k: SortKey)
    requires
        forall|q: int| 0 <= q < s.len() ==> !key_lt(x, s[q], k),
    ensures
        insert_by_key(s, x, k) == s.push(x),
{
    lemma_insert_by_key_at(s, x, k, s.len() as int);
    assert(s.insert(s.len() as int, x) =~= s.push(x));
}

/// The sort's result is sorted.
pub proof fn lemma_sort_by_key_sorted(s: Seq<MapRecordView>, k: SortKey)
    ensures
        sorted_under(sort_by_key_spec(s, k), k),
    decreases s.len(),
{
    if s.len() > 0 {
        lemma_sort_by_key_sorted(s.drop_last(), k);
        lemma_insert_by_key_sorted(sort_by_key_spec(s.drop_last(), k), s.last(), k);
    }
}

/// The sort keeps exactly the records it is given, as a multiset.
pub proof fn lemma_sort_by_key_multiset(s: Seq<MapRecordView>, k: SortKey)
    ensures
        sort_by_key_spec(s, k).to_multiset() == s.to_multiset(),
    decreases s.len(),
{
    broadcast use vstd::seq_lib::group_to_multiset_ensures;

    if s.len() == 0 {
        assert(sort_by_key_spec(s, k).to_multiset() =~= s.to_multiset());
    } else {
        lemma_sort_by_key_multiset(s.drop_last(), k);
        lemma_insert_by_key_multiset(sort_by_key_spec(s.drop_last(), k), s.last(), k);
        assert(s =~= s.drop_last().push(s.last()));
        assert(s.to_multiset() =~= s.drop_last().to_multiset().insert(s.last()));
    }
}

/// Insertion adds exactly the inserted record to the multiset.
proof fn lemma_insert_by_key_multiset(s: Seq<MapRecordView>, x: MapRecordView, k: SortKey)
    ensures
        insert_by_key(s, x, k).to_multiset() == s.to_multiset().insert(x),
    decreases s.len(),
{
    broadcast use vstd::seq_lib::group_to_multiset_ensures;

    if s.len() == 0 {
        assert(seq![x] =~= Seq::<MapRecordView>::empty().push(x));
        assert(insert_by_key(s, x, k).to_multiset() =~= s.to_multiset().insert(x));
    } else if key_lt(x, s[0], k) {
        assert(seq![x] + s =~= (seq![x]).add(s));
        vstd::seq_lib::lemma_multiset_commutative(seq![x], s);
        assert(seq![x] =~= Seq::<MapRecordView>::empty().push(x));
        assert((seq![x] + s).to_multiset() =~= s.to_multiset().insert(x));
    } else {
        lemma_insert_by_key_multiset(s.drop_first(), x, k);
        vstd::seq_lib::lemma_multiset_commutative(seq![s[0]], insert_by_key(s.drop_first(), x, k));
        vstd::seq_lib::lemma_multiset_commutative(seq![s[0]], s.drop_first());
        assert(seq![s[0]] =~= Seq::<MapRecordView>::empty().push(s[0]));
        assert(s =~= seq![s[0]] + s.drop_first());
        assert(insert_by_key(s, x, k).to_multiset() =~= s.to_multiset().insert(x));
    }
}

/// Sorting an already sorted sequence leaves it unchanged.
pub proof fn lemma_sort_by_key_of_sorted(s: Seq<MapRecordView>, k: SortKey)
    requires
        sorted_under(s, k),
    ensures
        sort_by_key_spec(s, k) == s,
    decreases s.len(),
{
    if s.len() > 0 {
        assert(sorted_under(s.drop_last(), k));
        lemma_sort_by_key_of_sorted(s.drop_last(), k);
        lemma_insert_by_key_append(s.drop_last(), s.last(), k);
        assert(s.drop_last().push(s.last()) =~= s);
    }
}

/// Sorting twice under one criterion gives the same order as sorting once.
pub proof fn lemma_sort_by_key_idempotent(s: Seq<MapRecordView>, k: SortKey)
    ensures
        sort_by_key_spec(sort_by_key_spec(s, k), k) == sort_by_key_spec(s, k),
{
    lemma_sort_by_key_sorted(s, k);
    lemma_sort_by_key_of_sorted(sort_by_key_spec(s, k), k);
}

/// Compares two records under a criterion.
fn key_lt_exec(a: &MapRecord, b: &MapRecord, k: SortKey) -> (r: bool)
    ensures
        r == key_lt(a@, b@, k),
{
    match k {
        SortKey::Id => lex_lt_str(a.id.as_str(), b.id.as_str(), false),
        SortKey::SongName => lex_lt_str(
            a.metadata.song_name.as_str(),
            b.metadata.song_name.as_str(),
            true,
        ),
        SortKey::Author => lex_lt_str(
            a.metadata.song_author_name.as_str(),
            b.metadata.song_author_name.as_str(),
            true,
        ),
        SortKey::Date => lex_lt_str(
            a.last_published_at.as_str(),
            b.last_published_at.as_str(),
            false,
        ),
    }
}

/// Returns a copy of the list, stably sorted under the criterion.
pub fn sorted_by_key(v: &Vec<MapRecord>, k: SortKey) -> (r: Vec<MapRecord>)
    ensures
        recs(r@) == sort_by_key_spec(recs(v@), k),
{
    let mut r: Vec<MapRecord> = Vec::new();
    let mut idx: usize = 0;
    proof {
        assert(recs(r@) =~= sort_by_key_spec(recs(v@).take(0), k));
    }
    while idx < v.len()
        invariant
            0 <= idx <= v.len(),
            recs(r@) == sort_by_key_spec(recs(v@).take(idx as int), k),
            r.len() == idx,
        decreases v.len() - idx,
    {
        let x = v[idx].clone();
        let mut j: usize = 0;
        while j < r.len() && !key_lt_exec(&x, &r[j], k)
            invariant
                0 <= j <= r.len(),
                x@ == v[idx as int]@,
                forall|q: int| 0 <= q < j ==> !key_lt(x@, recs(r@)[q], k),
            decreases r.len() - j,
    {
            j = j + 1;
        }
        proof {
            lemma_insert_by_key_at(recs(r@), x@, k, j as int);
        }
        let ghost old_r = r@;
        r.insert(j, x);
        proof {
            assert(recs(r@) =~= recs(old_r).insert(j as int, x@));
            assert(recs(v@).take(idx + 1).drop_last() =~= recs(v@).take(idx as int));
            assert(recs(v@).take(idx + 1).last() == v[idx as int]@);
        }
        idx = idx + 1;
    }
    proof {
        assert(recs(v@).take(v.len() as int) =~= recs(v@));
    }
    r
}

} // verus!
