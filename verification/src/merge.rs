//! Folding a page of items into the store.

use vstd::prelude::*;
use crate::decimal::{decimal_i32, parse_i32};
use crate::json::{
    json_of, key_order, members, object_contains_key, object_get, object_insert, object_keys,
    object_len, value_as_object, value_as_str, value_clone, Json,
};
use crate::minmax::{create_min_max, empty_min_max, observe, observe_all, MinMax};
use crate::store::Store;

verus! {

/// Member of an item that holds the time at which it was added.
pub const TIME_ADDED: &'static str = "time_added";

/// Member of an item that holds the time at which it was last updated.
pub const TIME_UPDATED: &'static str = "time_updated";

/// What merging one page did, and what the page's time stamps look like.
#[derive(Debug, Clone, Copy, PartialEq, Eq, Structural)]
pub struct MergeStats {
    /// Items whose id the store did not hold.
    pub added: u64,
    /// Items whose id the store held already.
    pub replaced: u64,
    pub min_add_time: i32,
    pub max_add_time: i32,
    /// Whether no addition time was smaller than the one observed before it.
    pub monotonic_add: bool,
    pub min_update_time: i32,
    pub max_update_time: i32,
    /// Whether no update time was smaller than the one observed before it.
    pub monotonic_update: bool,
}

/// The time that an item states under `field`: the integer that the member's
/// text stands for, and zero where the member is missing, is no text or is no
/// numeral that fits.
pub open spec fn time_field(item: Json, field: Seq<char>) -> i32 {
    match item {
        Json::Object(m) => if m.contains_key(field) {
            match m[field] {
                Json::Text(s) => match decimal_i32(s) {
                    Some(n) => n,
                    None => 0,
                },
                _ => 0,
            }
        } else {
            0
        },
        _ => 0,
    }
}

/// The times other than zero that the items of `page` state under `field`,
/// in the order of `keys`.
pub open spec fn observed_times(
    keys: Seq<Seq<char>>,
    page: Map<Seq<char>, Json>,
    field: Seq<char>,
) -> Seq<i32>
    decreases keys.len(),
{
    if keys.len() == 0 {
        Seq::empty()
    } else {
        let before = observed_times(keys.drop_last(), page, field);
        let t = time_field(page[keys.last()], field);
        if t != 0 {
            before.push(t)
        } else {
            before
        }
    }
}

/// The store's items after the page has been merged: every item of the page,
/// and the items of the store that the page does not replace.
pub open spec fn merged(liste: Map<Seq<char>, Json>, page: Map<Seq<char>, Json>) -> Map<
    Seq<char>,
    Json,
> {
    liste.union_prefer_right(page)
}

/// The statistics of merging `page`, walked in the order `keys`, into `liste`.
pub open spec fn merge_stats(
    liste: Map<Seq<char>, Json>,
    keys: Seq<Seq<char>>,
    page: Map<Seq<char>, Json>,
) -> MergeStats {
    let a = observe_all(empty_min_max(), observed_times(keys, page, TIME_ADDED@));
    let u = observe_all(empty_min_max(), observed_times(keys, page, TIME_UPDATED@));
    MergeStats {
        added: page.dom().difference(liste.dom()).len() as u64,
        replaced: page.dom().intersect(liste.dom()).len() as u64,
        min_add_time: a.min,
        max_add_time: a.max,
        monotonic_add: a.ordre,
        min_update_time: u.min,
        max_update_time: u.max,
        monotonic_update: u.ordre,
    }
}

/// Reads the time that an item states under `field`.
pub fn item_time(item: &serde_json::Value, field: &str) -> (t: i32)
    ensures
        t == time_field(json_of(*item), field@),
{
    match value_as_object(item) {
        Some(m) => match object_get(m, field) {
            Some(v) => match value_as_str(v) {
                Some(s) => match parse_i32(s) {
                    Some(n) => n,
                    None => 0,
                },
                None => 0,
            },
            None => 0,
        },
        None => 0,
    }
}

proof fn lemma_take_next<A>(s: Seq<A>, i: int)
    requires
        0 <= i < s.len(),
        s.no_duplicates(),
    ensures
        s.take(i + 1) == s.take(i).push(s[i]),
        s.take(i + 1).drop_last() == s.take(i),
        s.take(i + 1).last() == s[i],
        s.take(i + 1).to_set() == s.take(i).to_set().insert(s[i]),
        !s.take(i).to_set().contains(s[i]),
        s.take(i).to_set().finite(),
{
    assert(s.take(i + 1) == s.take(i).push(s[i]));
    assert(s.take(i + 1).drop_last() == s.take(i));
    s.take(i).lemma_push_to_set_commute(s[i]);
    vstd::seq_lib::seq_to_set_is_finite(s.take(i));
    if s.take(i).to_set().contains(s[i]) {
        let j = choose|j: int| 0 <= j < s.take(i).len() && s.take(i)[j] == s[i];
        assert(s[j] == s[i]);
    }
}

proof fn lemma_observe_next(
    keys: Seq<Seq<char>>,
    page: Map<Seq<char>, Json>,
    field: Seq<char>,
    i: int,
    m: MinMax,
)
    requires
        0 <= i < keys.len(),
        keys.no_duplicates(),
        m == observe_all(empty_min_max(), observed_times(keys.take(i), page, field)),
    ensures
        ({
            let t = time_field(page[keys[i]], field);
            observe_all(empty_min_max(), observed_times(keys.take(i + 1), page, field)) == if t
                != 0 {
                observe(m, t)
            } else {
                m
            }
        }),
{
    lemma_take_next(keys, i);
    let t = time_field(page[keys[i]], field);
    let before = observed_times(keys.take(i), page, field);
    if t != 0 {
        assert(before.push(t).drop_last() == before);
    }
}

proof fn lemma_observed_count(keys: Seq<Seq<char>>, page: Map<Seq<char>, Json>, field: Seq<char>)
    ensures
        observed_times(keys, page, field).len() <= keys.len(),
        keys.len() <= i32::MAX ==> observe_all(
            empty_min_max(),
            observed_times(keys, page, field),
        ).nb == observed_times(keys, page, field).len(),
    decreases keys.len(),
{
    if keys.len() > 0 {
        lemma_observed_count(keys.drop_last(), page, field);
    }
    if keys.len() <= i32::MAX {
        crate::minmax::lemma_observe_all_summarises(observed_times(keys, page, field));
    }
}

/// Merges a page into the store. Every item of the page is written under its
/// id, whether the store held that id or not; the other items stay.
pub fn merge(store: &mut Store, page: &serde_json::Map<String, serde_json::Value>) -> (stats:
    MergeStats)
    requires
        members(*page).len() <= i32::MAX,
    ensures
        final(store).items() == merged(old(store).items(), members(*page)),
        final(store).same_header(old(store)),
        stats == merge_stats(old(store).items(), key_order(*page), members(*page)),
        stats.added + stats.replaced == members(*page).len(),
{
    let keys = object_keys(page);
    let n: usize = keys.len();
    let ghost order = keys.deep_view();
    let ghost pm = members(*page);
    let ghost before = store.items();
    proof {
        order.unique_seq_to_set();
        assert(order.len() == n);
        let none = order.take(0).to_set();
        assert(none == Set::<Seq<char>>::empty());
        assert(none.difference(before.dom()) == Set::<Seq<char>>::empty());
        assert(none.intersect(before.dom()) == Set::<Seq<char>>::empty());
        assert(store.items() == before.union_prefer_right(pm.restrict(none)));
    }
    let mut added: u64 = 0;
    let mut replaced: u64 = 0;
    let mut ajout = create_min_max();
    let mut remplace = create_min_max();
    let mut i: usize = 0;
    while i < n
        invariant
            0 <= i <= n,
            n == keys.len(),
            n <= i32::MAX,
            order == keys.deep_view(),
            order == key_order(*page),
            order.no_duplicates(),
            order.to_set() == pm.dom(),
            pm == members(*page),
            store.same_header(old(store)),
            before == old(store).items(),
            store.items() == before.union_prefer_right(pm.restrict(order.take(i as int).to_set())),
            added == order.take(i as int).to_set().difference(before.dom()).len(),
            replaced == order.take(i as int).to_set().intersect(before.dom()).len(),
            added + replaced == i,
            ajout == observe_all(
                empty_min_max(),
                observed_times(order.take(i as int), pm, TIME_ADDED@),
            ),
            remplace == observe_all(
                empty_min_max(),
                observed_times(order.take(i as int), pm, TIME_UPDATED@),
            ),
        decreases n - i,
    {
        let key: &String = &keys[i];
        let ghost k = order[i as int];
        let ghost seen = order.take(i as int).to_set();
        proof {
            assert(k == key@);
            assert(order.to_set().contains(k));
            lemma_take_next(order, i as int);
            lemma_observe_next(order, pm, TIME_ADDED@, i as int, ajout);
            lemma_observe_next(order, pm, TIME_UPDATED@, i as int, remplace);
            lemma_observed_count(order.take(i as int), pm, TIME_ADDED@);
            lemma_observed_count(order.take(i as int), pm, TIME_UPDATED@);
        }
        match object_get(page, key.as_str()) {
            Some(item) => {
                let present = object_contains_key(&store.liste, key.as_str());
                assert(present == before.dom().contains(k));
                if present {
                    replaced = replaced + 1;
                    proof {
                        assert(seen.insert(k).intersect(before.dom()) == seen.intersect(
                            before.dom(),
                        ).insert(k));
                        assert(seen.insert(k).difference(before.dom()) == seen.difference(
                            before.dom(),
                        ));
                    }
                } else {
                    added = added + 1;
                    proof {
                        assert(seen.insert(k).difference(before.dom()) == seen.difference(
                            before.dom(),
                        ).insert(k));
                        assert(seen.insert(k).intersect(before.dom()) == seen.intersect(
                            before.dom(),
                        ));
                    }
                }
                object_insert(&mut store.liste, key.clone(), value_clone(item));
                assert(store.items() == before.union_prefer_right(
                    pm.restrict(seen.insert(k)),
                ));
                let time_added = item_time(item, TIME_ADDED);
                let time_updated = item_time(item, TIME_UPDATED);
                if time_added != 0 {
                    ajout.add(time_added);
                }
                if time_updated != 0 {
                    remplace.add(time_updated);
                }
            },
            None => {
                // every key that the page hands out has a member
                assert(false);
            },
        }
        i = i + 1;
    }
    proof {
        assert(order.take(n as int) == order);
        assert(pm.restrict(pm.dom()) == pm);
    }
    MergeStats {
        added,
        replaced,
        min_add_time: ajout.min,
        max_add_time: ajout.max,
        monotonic_add: ajout.ordre,
        min_update_time: remplace.min,
        max_update_time: remplace.max,
        monotonic_update: remplace.ordre,
    }
}

/// Merges a page into the store when its items can be counted, and leaves
/// the store as it is when the page holds more items than `i32` can count.
pub fn try_merge(store: &mut Store, page: &serde_json::Map<String, serde_json::Value>) -> (r:
    Option<MergeStats>)
    ensures
        members(*page).len() <= i32::MAX ==> r == Some(
            merge_stats(old(store).items(), key_order(*page), members(*page)),
        ) && final(store).items() == merged(old(store).items(), members(*page)),
        members(*page).len() > i32::MAX ==> r is None && final(store).items() == old(
            store,
        ).items(),
        final(store).same_header(old(store)),
{
    if object_len(page) <= 0x7fff_ffff {
        Some(merge(store, page))
    } else {
        None
    }
}

/// Merging a page a second time changes nothing: the store holds what it
/// held after the first merge.
pub proof fn lemma_merge_idempotent(liste: Map<Seq<char>, Json>, page: Map<Seq<char>, Json>)
    ensures
        merged(merged(liste, page), page) == merged(liste, page),
{
    assert(merged(merged(liste, page), page) =~= merged(liste, page));
}

/// Merging never drops an item: every id that the store held, it still holds.
pub proof fn lemma_merge_keeps_keys(liste: Map<Seq<char>, Json>, page: Map<Seq<char>, Json>)
    ensures
        liste.dom().subset_of(merged(liste, page).dom()),
        page.submap_of(merged(liste, page)),
{
}

} // verus!
