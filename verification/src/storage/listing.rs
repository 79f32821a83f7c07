//! What every listing shares: the order of the results, the page that is
//! cut from them, and the matches that a search keeps.

use crate::storage::text::{mentions, mentions_text, same_text};
use crate::storage::traits::{Dated, PostEntry};
use vstd::prelude::*;

verus! {

/// Where a record created at `t` goes into a list that is newest first:
/// behind every record that is newer, before the first that is not.
pub open spec fn place<T>(sorted: Seq<T>, t: i64, time: spec_fn(T) -> i64) -> int
    decreases sorted.len(),
{
    if sorted.len() == 0 || time(sorted[0]) <= t {
        0
    } else {
        1 + place(sorted.drop_first(), t, time)
    }
}

/// The records of `s` with the newest first. Records of one creation time
/// keep the order they have in `s`.
pub open spec fn newest_first<T>(s: Seq<T>, time: spec_fn(T) -> i64) -> Seq<T>
    decreases s.len(),
{
    if s.len() == 0 {
        Seq::empty()
    } else {
        let rest = newest_first(s.drop_first(), time);
        rest.insert(place(rest, time(s[0]), time), s[0])
    }
}

/// No record stands before a newer one.
pub open spec fn is_newest_first<T>(s: Seq<T>, time: spec_fn(T) -> i64) -> bool {
    forall|i: int, j: int| 0 <= i < j < s.len() ==> time(s[i]) >= time(s[j])
}

/// The page of `limit` results that begins at `offset`: empty when the
/// offset is at or beyond the end.
pub open spec fn page<T>(s: Seq<T>, limit: nat, offset: nat) -> Seq<T> {
    if offset >= s.len() {
        Seq::empty()
    } else if offset + limit >= s.len() {
        s.subrange(offset as int, s.len() as int)
    } else {
        s.subrange(offset as int, (offset + limit) as int)
    }
}

/// The first `limit` elements of `s`.
pub open spec fn first_n<T>(s: Seq<T>, limit: nat) -> Seq<T> {
    if limit >= s.len() {
        s
    } else {
        s.subrange(0, limit as int)
    }
}

/// The creation time of a record, as a sort key.
pub open spec fn entry_time<T: Dated>() -> spec_fn(T) -> i64 {
    |t: T| t.spec_recency()
}

/// Whether a post-like record is by the given author.
pub open spec fn written_by<T: PostEntry>(author: Seq<char>) -> spec_fn(T) -> bool {
    |t: T| t.spec_author_id() == author
}

/// Whether the content of a post-like record mentions the query, without
/// regard to case.
pub open spec fn content_mentions<T: PostEntry>(query: Seq<char>) -> spec_fn(T) -> bool {
    |t: T| mentions(t.spec_content(), query)
}

/// The place of a record is within the list.
pub proof fn lemma_place_bounds<T>(sorted: Seq<T>, t: i64, time: spec_fn(T) -> i64)
    ensures
        0 <= place(sorted, t, time) <= sorted.len(),
        forall|k: int| 0 <= k < place(sorted, t, time) ==> time(#[trigger] sorted[k]) > t,
        place(sorted, t, time) < sorted.len() ==> time(sorted[place(sorted, t, time)]) <= t,
    decreases sorted.len(),
{
    if sorted.len() == 0 || time(sorted[0]) <= t {
    } else {
        let rest = sorted.drop_first();
        lemma_place_bounds(rest, t, time);
        assert forall|k: int| 0 <= k < place(sorted, t, time) implies time(#[trigger] sorted[k])
            > t by {
            if k > 0 {
                assert(sorted[k] == rest[k - 1]);
            }
        }
        let p = place(rest, t, time);
        if p < rest.len() {
            assert(sorted[p + 1] == rest[p]);
        }
    }
}

/// Sorting keeps the number of records.
pub proof fn lemma_newest_first_len<T>(s: Seq<T>, time: spec_fn(T) -> i64)
    ensures
        newest_first(s, time).len() == s.len(),
    decreases s.len(),
{
    if s.len() > 0 {
        lemma_newest_first_len(s.drop_first(), time);
        lemma_place_bounds(newest_first(s.drop_first(), time), time(s[0]), time);
    }
}

/// A listing is sorted by descending creation time, whatever the order in
/// which the records were written.
pub proof fn lemma_newest_first_sorted<T>(s: Seq<T>, time: spec_fn(T) -> i64)
    ensures
        is_newest_first(newest_first(s, time), time),
    decreases s.len(),
{
    if s.len() > 0 {
        let rest = newest_first(s.drop_first(), time);
        lemma_newest_first_sorted(s.drop_first(), time);
        let t = time(s[0]);
        let p = place(rest, t, time);
        lemma_place_bounds(rest, t, time);
        let out = rest.insert(p, s[0]);
        assert forall|i: int, j: int| 0 <= i < j < out.len() implies time(out[i]) >= time(
            out[j],
        ) by {
            if j < p {
                assert(out[i] == rest[i] && out[j] == rest[j]);
            } else if j == p {
                assert(out[i] == rest[i]);
            } else if i < p {
                assert(out[i] == rest[i] && out[j] == rest[j - 1]);
                if p < j - 1 {
                    assert(time(rest[p]) >= time(rest[j - 1]));
                }
            } else if i == p {
                assert(out[j] == rest[j - 1]);
                if p < j - 1 {
                    assert(time(rest[p]) >= time(rest[j - 1]));
                }
            } else {
                assert(out[i] == rest[i - 1] && out[j] == rest[j - 1]);
            }
        }
    }
}

/// A listing holds the records that were scanned, each as often as it was
/// scanned, and nothing else.
pub proof fn lemma_newest_first_permutes<T>(s: Seq<T>, time: spec_fn(T) -> i64)
    ensures
        newest_first(s, time).to_multiset() == s.to_multiset(),
    decreases s.len(),
{
    broadcast use vstd::seq_lib::group_to_multiset_ensures;

    if s.len() == 0 {
        assert(newest_first(s, time) =~= s);
    } else {
        let rest = newest_first(s.drop_first(), time);
        lemma_newest_first_permutes(s.drop_first(), time);
        let p = place(rest, time(s[0]), time);
        lemma_place_bounds(rest, time(s[0]), time);
        vstd::seq_lib::to_multiset_insert(rest, p, s[0]);
        assert(s =~= seq![s[0]] + s.drop_first());
        vstd::seq_lib::lemma_multiset_commutative(seq![s[0]], s.drop_first());
        assert(seq![s[0]].to_multiset() =~= vstd::multiset::Multiset::singleton(s[0])) by {
            assert(seq![s[0]] =~= Seq::<T>::empty().push(s[0]));
        }
        assert(newest_first(s, time).to_multiset() =~= s.to_multiset());
    }
}

/// Sorting records and then looking at each through `f` gives what sorting
/// the looks gives, where `f` keeps the creation time.
pub proof fn lemma_newest_first_maps<T, U>(
    s: Seq<T>,
    f: spec_fn(T) -> U,
    time_t: spec_fn(T) -> i64,
    time_u: spec_fn(U) -> i64,
)
    requires
        forall|x: T| #[trigger] time_u(f(x)) == time_t(x),
    ensures
        newest_first(s.map_values(f), time_u) == newest_first(s, time_t).map_values(f),
    decreases s.len(),
{
    if s.len() == 0 {
        assert(newest_first(s.map_values(f), time_u) =~= newest_first(s, time_t).map_values(f));
    } else {
        lemma_newest_first_maps(s.drop_first(), f, time_t, time_u);
        assert(s.map_values(f).drop_first() =~= s.drop_first().map_values(f));
        let rest = newest_first(s.drop_first(), time_t);
        lemma_place_maps(rest, f, time_t(s[0]), time_t, time_u);
        lemma_place_bounds(rest, time_t(s[0]), time_t);
        assert(newest_first(s.map_values(f), time_u) =~= newest_first(s, time_t).map_values(f));
    }
}

/// The place of a record does not depend on how the records are looked at,
/// as long as the look keeps the creation time.
pub proof fn lemma_place_maps<T, U>(
    sorted: Seq<T>,
    f: spec_fn(T) -> U,
    t: i64,
    time_t: spec_fn(T) -> i64,
    time_u: spec_fn(U) -> i64,
)
    requires
        forall|x: T| #[trigger] time_u(f(x)) == time_t(x),
    ensures
        place(sorted.map_values(f), t, time_u) == place(sorted, t, time_t),
    decreases sorted.len(),
{
    if sorted.len() > 0 {
        assert(sorted.map_values(f)[0] == f(sorted[0]));
        if time_t(sorted[0]) > t {
            assert(sorted.map_values(f).drop_first() =~= sorted.drop_first().map_values(f));
            lemma_place_maps(sorted.drop_first(), f, t, time_t, time_u);
        }
    }
}

/// Where `x` goes into `sorted`.
fn find_place<T: Dated>(sorted: &Vec<T>, t: i64) -> (r: usize)
    ensures
        r == place(sorted@, t, entry_time::<T>()),
        r <= sorted.len(),
{
    let mut j: usize = 0;
    proof {
        assert(sorted@.subrange(0, sorted.len() as int) =~= sorted@);
    }
    while j < sorted.len() && sorted[j].recency() > t
        invariant
            j <= sorted.len(),
            place(sorted@, t, entry_time::<T>()) == j + place(
                sorted@.subrange(j as int, sorted.len() as int),
                t,
                entry_time::<T>(),
            ),
        decreases sorted.len() - j,
    {
        proof {
            let tail = sorted@.subrange(j as int, sorted.len() as int);
            assert(tail[0] == sorted@[j as int]);
            assert(tail.drop_first() =~= sorted@.subrange(j + 1, sorted.len() as int));
        }
        j += 1;
    }
    proof {
        let tail = sorted@.subrange(j as int, sorted.len() as int);
        if j < sorted.len() {
            assert(tail[0] == sorted@[j as int]);
        }
    }
    j
}

/// Sorts records, the newest first; records of one creation time keep
/// their order.
pub fn sort_newest_first<T: Dated>(items: Vec<T>) -> (r: Vec<T>)
    ensures
        r@ == newest_first(items@, entry_time::<T>()),
{
    let mut items = items;
    let ghost all = items@;
    let mut out: Vec<T> = Vec::new();
    proof {
        assert(all.subrange(all.len() as int, all.len() as int) =~= Seq::<T>::empty());
    }
    while items.len() > 0
        invariant
            items.len() <= all.len(),
            items@ == all.subrange(0, items.len() as int),
            out@ == newest_first(
                all.subrange(items.len() as int, all.len() as int),
                entry_time::<T>(),
            ),
        decreases items.len(),
    {
        let ghost n = items.len() as int;
        let x = items.pop().unwrap();
        let j = find_place(&out, x.recency());
        proof {
            let tail = all.subrange(n - 1, all.len() as int);
            assert(tail[0] == x);
            assert(tail.drop_first() =~= all.subrange(n, all.len() as int));
            assert(items@ =~= all.subrange(0, n - 1));
        }
        out.insert(j, x);
    }
    proof {
        assert(all.subrange(0, all.len() as int) =~= all);
    }
    out
}

/// Cuts the page of `limit` results that begins at `offset`. An offset at
/// or beyond the end gives an empty page.
pub fn paginate<T>(items: Vec<T>, limit: usize, offset: usize) -> (r: Vec<T>)
    ensures
        r@ == page(items@, limit as nat, offset as nat),
{
    let mut items = items;
    if offset >= items.len() {
        return Vec::new();
    }
    if limit < items.len() - offset {
        items.truncate(offset + limit);
    }
    let r = items.split_off(offset);
    r
}

/// Keeps the first `limit` elements.
pub fn keep_first<T>(items: Vec<T>, limit: usize) -> (r: Vec<T>)
    ensures
        r@ == first_n(items@, limit as nat),
{
    let mut items = items;
    if limit < items.len() {
        items.truncate(limit);
    }
    items
}

/// Keeps the records by the given author, in their order.
pub fn keep_by_author<T: PostEntry>(items: Vec<T>, author: &str) -> (r: Vec<T>)
    ensures
        r@ == items@.filter(written_by::<T>(author@)),
{
    let mut items = items;
    let ghost all = items@;
    let mut out: Vec<T> = Vec::new();
    proof {
        assert(all.subrange(all.len() as int, all.len() as int) =~= Seq::<T>::empty());
        reveal_with_fuel(Seq::filter, 1);
    }
    while items.len() > 0
        invariant
            items.len() <= all.len(),
            items@ == all.subrange(0, items.len() as int),
            out@ == all.subrange(items.len() as int, all.len() as int).filter(
                written_by::<T>(author@),
            ).reverse(),
        decreases items.len(),
    {
        let ghost n = items.len() as int;
        let ghost before = out@;
        let x = items.pop().unwrap();
        let keep = same_text(x.author_id(), author);
        proof {
            let pred = written_by::<T>(author@);
            let tail = all.subrange(n - 1, all.len() as int);
            let rest = all.subrange(n, all.len() as int);
            assert(tail =~= seq![x] + rest);
            lemma_filter_cons(x, rest, pred);
            assert(items@ =~= all.subrange(0, n - 1));
            if keep {
                assert((seq![x] + rest.filter(pred)).reverse() =~= rest.filter(pred).reverse().push(
                    x,
                ));
            }
        }
        if keep {
            out.push(x);
        }
    }
    proof {
        assert(all.subrange(0, all.len() as int) =~= all);
    }
    let r = reversed(out);
    proof {
        let f = all.filter(written_by::<T>(author@));
        assert(f.reverse().reverse() =~= f);
    }
    r
}

/// Filtering a list that begins with `x` keeps `x` if it passes, and then
/// what passes of the rest.
pub proof fn lemma_filter_cons<T>(x: T, rest: Seq<T>, pred: spec_fn(T) -> bool)
    ensures
        (seq![x] + rest).filter(pred) == if pred(x) {
            seq![x] + rest.filter(pred)
        } else {
            rest.filter(pred)
        },
{
    let one = seq![x];
    assert(one.filter(pred) =~= if pred(x) {
        one
    } else {
        Seq::<T>::empty()
    }) by {
        reveal_with_fuel(Seq::filter, 2);
        assert(one.drop_last() =~= Seq::<T>::empty());
    }
    assert((one + rest).filter(pred) == one.filter(pred) + rest.filter(pred)) by {
        Seq::<T>::filter_distributes_over_add(one, rest, pred);
    }
    if !pred(x) {
        assert(Seq::<T>::empty() + rest.filter(pred) =~= rest.filter(pred));
    }
}

/// The elements in the opposite order.
pub fn reversed<T>(items: Vec<T>) -> (r: Vec<T>)
    ensures
        r@ == items@.reverse(),
{
    let mut items = items;
    let ghost all = items@;
    let mut out: Vec<T> = Vec::new();
    while items.len() > 0
        invariant
            items.len() <= all.len(),
            items@ == all.subrange(0, items.len() as int),
            out.len() == all.len() - items.len(),
            forall|k: int| 0 <= k < out.len() ==> out[k] == all[all.len() - 1 - k],
        decreases items.len(),
    {
        let x = items.pop().unwrap();
        out.push(x);
    }
    assert(out@ =~= all.reverse());
    out
}

/// Filtering records and then looking at each through `f` gives what
/// filtering the looks gives, where `f` keeps what the filter asks.
pub proof fn lemma_filter_maps<T, U>(
    s: Seq<T>,
    f: spec_fn(T) -> U,
    pred_t: spec_fn(T) -> bool,
    pred_u: spec_fn(U) -> bool,
)
    requires
        forall|x: T| #[trigger] pred_u(f(x)) == pred_t(x),
    ensures
        s.map_values(f).filter(pred_u) == s.filter(pred_t).map_values(f),
    decreases s.len(),
{
    reveal_with_fuel(Seq::filter, 1);
    if s.len() == 0 {
        assert(s.map_values(f).filter(pred_u) =~= s.filter(pred_t).map_values(f));
    } else {
        let rest = s.drop_last();
        lemma_filter_maps(rest, f, pred_t, pred_u);
        assert(s =~= rest.push(s.last()));
        assert(s.map_values(f) =~= rest.map_values(f).push(f(s.last())));
        rest.lemma_filter_push(s.last(), pred_t);
        rest.map_values(f).lemma_filter_push(f(s.last()), pred_u);
        assert(s.map_values(f).filter(pred_u) =~= s.filter(pred_t).map_values(f));
    }
}

/// Cutting a page and then looking at each record through `f` gives what
/// cutting the page of the looks gives; so for the first elements.
pub proof fn lemma_page_maps<T, U>(s: Seq<T>, f: spec_fn(T) -> U, limit: nat, offset: nat)
    ensures
        page(s.map_values(f), limit, offset) == page(s, limit, offset).map_values(f),
        first_n(s.map_values(f), limit) == first_n(s, limit).map_values(f),
{
    assert(page(s.map_values(f), limit, offset) =~= page(s, limit, offset).map_values(f));
    assert(first_n(s.map_values(f), limit) =~= first_n(s, limit).map_values(f));
}

/// Keeps the records whose content mentions the query, without regard to
/// case, in their order.
pub fn keep_mentioning<T: PostEntry>(items: Vec<T>, query: &str) -> (r: Vec<T>)
    ensures
        r@ == items@.filter(content_mentions::<T>(query@)),
{
    let mut items = items;
    let ghost all = items@;
    let mut out: Vec<T> = Vec::new();
    proof {
        assert(all.subrange(all.len() as int, all.len() as int) =~= Seq::<T>::empty());
        reveal_with_fuel(Seq::filter, 1);
    }
    while items.len() > 0
        invariant
            items.len() <= all.len(),
            items@ == all.subrange(0, items.len() as int),
            out@ == all.subrange(items.len() as int, all.len() as int).filter(
                content_mentions::<T>(query@),
            ).reverse(),
        decreases items.len(),
    {
        let ghost n = items.len() as int;
        let x = items.pop().unwrap();
        let keep = mentions_text(x.content(), query);
        proof {
            let pred = content_mentions::<T>(query@);
            let tail = all.subrange(n - 1, all.len() as int);
            let rest = all.subrange(n, all.len() as int);
            assert(tail =~= seq![x] + rest);
            lemma_filter_cons(x, rest, pred);
            assert(items@ =~= all.subrange(0, n - 1));
            if keep {
                assert((seq![x] + rest.filter(pred)).reverse() =~= rest.filter(pred).reverse().push(
                    x,
                ));
            }
        }
        if keep {
            out.push(x);
        }
    }
    proof {
        assert(all.subrange(0, all.len() as int) =~= all);
    }
    let r = reversed(out);
    proof {
        let f = all.filter(content_mentions::<T>(query@));
        assert(f.reverse().reverse() =~= f);
    }
    r
}

/// A listing holds a record exactly if the scan held it.
pub proof fn lemma_newest_first_contains<T>(s: Seq<T>, time: spec_fn(T) -> i64, x: T)
    ensures
        newest_first(s, time).contains(x) <==> s.contains(x),
{
    lemma_newest_first_permutes(s, time);
    vstd::seq_lib::to_multiset_contains(s, x);
    vstd::seq_lib::to_multiset_contains(newest_first(s, time), x);
}

/// A page that begins at or beyond the end of the results is empty, and so
/// is a page of no results.
pub proof fn lemma_page_beyond_end<T>(s: Seq<T>, limit: nat, offset: nat)
    requires
        offset >= s.len(),
    ensures
        page(s, limit, offset) == Seq::<T>::empty(),
{
}

/// A page holds at most `limit` results, and they are those that follow
/// the first `offset` results.
pub proof fn lemma_page_within<T>(s: Seq<T>, limit: nat, offset: nat)
    ensures
        page(s, limit, offset).len() <= limit,
        forall|i: int|
            0 <= i < page(s, limit, offset).len() ==> #[trigger] page(s, limit, offset)[i]
                == s[offset + i],
{
}

} // verus!
