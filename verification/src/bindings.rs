//! Architecture bindings: insertion-ordered maps from names to values.

use indexmap::IndexMap;
use vstd::prelude::*;

verus! {

/// The insertion-ordered map of the `indexmap` crate.
#[verifier::external_type_specification]
#[verifier::external_body]
#[verifier::reject_recursive_types(K)]
#[verifier::reject_recursive_types(V)]
#[verifier::reject_recursive_types(S)]
pub struct ExIndexMap<K, V, S>(indexmap::IndexMap<K, V, S>);

/// What a binding map holds, in insertion order: each key with its value.
pub uninterp spec fn binding_entries(m: IndexMap<String, String>) -> Seq<(Seq<char>, Seq<char>)>;

/// The texts of a list of named values.
pub open spec fn pair_texts(s: Seq<(String, String)>) -> Seq<(Seq<char>, Seq<char>)> {
    s.map_values(|p: (String, String)| (p.0@, p.1@))
}

/// Does an entry of `entries` stand under `key`?
pub open spec fn has_key<V>(entries: Seq<(Seq<char>, V)>, key: Seq<char>) -> bool {
    exists|i: int| 0 <= i < entries.len() && (#[trigger] entries[i]).0 == key
}

/// No key stands in `entries` twice.
pub open spec fn distinct_keys<V>(entries: Seq<(Seq<char>, V)>) -> bool {
    forall|i: int, j: int|
        0 <= i < j < entries.len() ==> (#[trigger] entries[i]).0 != (#[trigger] entries[j]).0
}

/// `entries` after `key` was set to `value`: a key that is there keeps its
/// place, a new one comes last.
pub open spec fn put<V>(entries: Seq<(Seq<char>, V)>, key: Seq<char>, value: V) -> Seq<
    (Seq<char>, V),
> {
    if has_key(entries, key) {
        let i = choose|i: int| 0 <= i < entries.len() && (#[trigger] entries[i]).0 == key;
        entries.update(i, (key, value))
    } else {
        entries.push((key, value))
    }
}

/// What setting each of `items` in turn makes of an empty map.
pub open spec fn put_all<V>(items: Seq<(Seq<char>, V)>) -> Seq<(Seq<char>, V)>
    decreases items.len(),
{
    if items.len() == 0 {
        Seq::empty()
    } else {
        put(put_all(items.drop_last()), items.last().0, items.last().1)
    }
}

/// Items with distinct keys are kept as they are, in their order.
pub proof fn lemma_put_all_distinct<V>(items: Seq<(Seq<char>, V)>)
    requires
        distinct_keys(items),
    ensures
        put_all(items) == items,
    decreases items.len(),
{
    if items.len() > 0 {
        let init = items.drop_last();
        assert(distinct_keys(init)) by {
            assert forall|i: int, j: int| 0 <= i < j < init.len() implies (#[trigger] init[i]).0 != (
            #[trigger] init[j]).0 by {
                assert(init[i] == items[i] && init[j] == items[j]);
            }
        }
        lemma_put_all_distinct(init);
        assert(!has_key(init, items.last().0)) by {
            assert forall|i: int| 0 <= i < init.len() implies (#[trigger] init[i]).0
                != items.last().0 by {
                assert(init[i] == items[i]);
                assert(items[i].0 != items[items.len() - 1].0);
            }
        }
        assert(put_all(items) =~= items);
    } else {
        assert(put_all(items) =~= items);
    }
}

/// No sequence of settings puts a key in twice.
pub proof fn lemma_put_all_keys<V>(items: Seq<(Seq<char>, V)>)
    ensures
        distinct_keys(put_all(items)),
    decreases items.len(),
{
    if items.len() > 0 {
        lemma_put_all_keys(items.drop_last());
        lemma_put_keys(put_all(items.drop_last()), items.last().0, items.last().1);
    }
}

proof fn lemma_put_keys<V>(entries: Seq<(Seq<char>, V)>, key: Seq<char>, value: V)
    requires
        distinct_keys(entries),
    ensures
        distinct_keys(put(entries, key, value)),
{
    let after = put(entries, key, value);
    assert forall|i: int, j: int| 0 <= i < j < after.len() implies (#[trigger] after[i]).0 != (
    #[trigger] after[j]).0 by {
        if has_key(entries, key) {
            let at = choose|i: int| 0 <= i < entries.len() && (#[trigger] entries[i]).0 == key;
            assert(entries[at].0 == key);
            assert(entries[i].0 == after[i].0);
            assert(entries[j].0 == after[j].0);
        } else {
            assert(after[i] == entries[i]);
            if j < entries.len() {
                assert(after[j] == entries[j]);
            }
        }
    }
}

/// `indexmap::IndexMap::new`: a map that holds nothing.
#[verifier::external_body]
pub(crate) fn new_bindings() -> (r: IndexMap<String, String>)
    ensures
        binding_entries(r) == Seq::<(Seq<char>, Seq<char>)>::empty(),
{
    IndexMap::new()
}

/// `indexmap::IndexMap::insert`: a key that is there keeps its place and gets
/// the new value, a new key comes last.
#[verifier::external_body]
pub(crate) fn insert_binding(m: &mut IndexMap<String, String>, key: String, value: String)
    ensures
        binding_entries(*final(m)) == put(binding_entries(*old(m)), key@, value@),
{
    m.insert(key, value);
}

/// `indexmap::IndexMap::iter`: the entries in the map's order, as copies. No
/// key comes twice.
#[verifier::external_body]
pub(crate) fn binding_list(m: &IndexMap<String, String>) -> (r: Vec<(String, String)>)
    ensures
        pair_texts(r@) == binding_entries(*m),
        distinct_keys(pair_texts(r@)),
{
    m.iter().map(|(k, v)| (k.clone(), v.clone())).collect()
}

/// `indexmap::IndexMap::clone`: a map that holds the same entries in the same
/// order.
#[verifier::external_body]
pub(crate) fn copy_bindings(m: &IndexMap<String, String>) -> (r: IndexMap<String, String>)
    ensures
        binding_entries(r) == binding_entries(*m),
{
    m.clone()
}

/// Setting a key that is there replaces its value and nothing else: no entry
/// moves, and the others keep their values. Setting a new key adds one entry
/// at the end.
pub proof fn law_put_sets_one_entry<V>(entries: Seq<(Seq<char>, V)>, key: Seq<char>, value: V)
    requires
        distinct_keys(entries),
    ensures
        (exists|i: int| 0 <= i < entries.len() && (#[trigger] entries[i]).0 == key) ==> {
            &&& put(entries, key, value).len() == entries.len()
            &&& forall|i: int|
                0 <= i < entries.len() ==> (#[trigger] put(entries, key, value)[i]).0
                    == entries[i].0
            &&& forall|i: int|
                0 <= i < entries.len() ==> (#[trigger] put(entries, key, value)[i]).1 == (
                if entries[i].0 == key {
                    value
                } else {
                    entries[i].1
                })
        },
        !(exists|i: int| 0 <= i < entries.len() && (#[trigger] entries[i]).0 == key) ==> {
            &&& put(entries, key, value).len() == entries.len() + 1
            &&& put(entries, key, value).take(entries.len() as int) == entries
            &&& put(entries, key, value)[entries.len() as int] == (key, value)
        },
{
    if has_key(entries, key) {
        let at = choose|i: int| 0 <= i < entries.len() && (#[trigger] entries[i]).0 == key;
        assert(entries[at].0 == key);
        assert forall|i: int| 0 <= i < entries.len() implies (#[trigger] put(
            entries,
            key,
            value,
        )[i]).1 == (if entries[i].0 == key {
            value
        } else {
            entries[i].1
        }) by {
            if i < at {
                assert(entries[i].0 != entries[at].0);
            } else if at < i {
                assert(entries[at].0 != entries[i].0);
            }
        }
    } else {
        assert(put(entries, key, value).take(entries.len() as int) =~= entries);
    }
}

/// Of the items of a list a map holds each name once, and for each name the
/// value that comes last; it holds no name that no item has.
pub proof fn law_last_value_counts<V>(items: Seq<(Seq<char>, V)>, i: int)
    requires
        0 <= i < items.len(),
        forall|j: int| i < j < items.len() ==> (#[trigger] items[j]).0 != items[i].0,
    ensures
        exists|k: int| 0 <= k < put_all(items).len() && #[trigger] put_all(items)[k] == items[i],
        forall|k: int, l: int|
            0 <= k < l < put_all(items).len() ==> (#[trigger] put_all(items)[k]).0 != (
            #[trigger] put_all(items)[l]).0,
        forall|k: int|
            0 <= k < put_all(items).len() ==> exists|j: int|
                0 <= j < items.len() && items[j] == #[trigger] put_all(items)[k],
    decreases items.len(),
{
    lemma_put_all_keys(items);
    assert forall|k: int| 0 <= k < put_all(items).len() implies exists|j: int|
        0 <= j < items.len() && items[j] == #[trigger] put_all(items)[k] by {
        let j = lemma_entry_is_an_item(items, k);
        assert(items[j] == put_all(items)[k]);
    }
    let init = items.drop_last();
    let before = put_all(init);
    let (key, value) = items.last();
    let after = put_all(items);
    lemma_put_all_keys(init);
    law_put_sets_one_entry(before, key, value);
    if i == items.len() - 1 {
        if has_key(before, key) {
            let at = choose|k: int| 0 <= k < before.len() && (#[trigger] before[k]).0 == key;
            assert(after[at].0 == key && after[at].1 == value);
            assert(after[at] == items[i]);
        } else {
            assert(after[before.len() as int] == items[i]);
        }
    } else {
        assert forall|j: int| i < j < init.len() implies (#[trigger] init[j]).0 != init[i].0 by {
            assert(init[j] == items[j] && init[i] == items[i]);
        }
        law_last_value_counts(init, i);
        let k = choose|k: int| 0 <= k < before.len() && #[trigger] before[k] == init[i];
        assert(items[items.len() - 1].0 != items[i].0);
        assert(after[k] == items[i]);
    }
}

proof fn lemma_entry_is_an_item<V>(items: Seq<(Seq<char>, V)>, k: int) -> (j: int)
    requires
        0 <= k < put_all(items).len(),
    ensures
        0 <= j < items.len(),
        items[j] == put_all(items)[k],
    decreases items.len(),
{
    let init = items.drop_last();
    let before = put_all(init);
    let (key, value) = items.last();
    if put_all(items)[k] == (key, value) {
        items.len() - 1
    } else {
        if has_key(before, key) {
            let at = choose|i: int| 0 <= i < before.len() && (#[trigger] before[i]).0 == key;
            assert(put_all(items)[k] == before[k]);
        }
        let j = lemma_entry_is_an_item(init, k);
        assert(init[j] == items[j]);
        j
    }
}

/// One item more, under a name that is new, comes last; under a name that is
/// there it takes that name's place.
pub proof fn law_names_keep_their_places<V>(items: Seq<(Seq<char>, V)>, item: (Seq<char>, V))
    ensures
        put_all(Seq::<(Seq<char>, V)>::empty()).len() == 0,
        forall|k: int|
            0 <= k < put_all(items).len() ==> (#[trigger] put_all(items.push(item))[k]).0
                == put_all(items)[k].0,
        (exists|k: int| 0 <= k < put_all(items).len() && (#[trigger] put_all(items)[k]).0
            == item.0) ==> put_all(items.push(item)).len() == put_all(items).len(),
        !(exists|k: int| 0 <= k < put_all(items).len() && (#[trigger] put_all(items)[k]).0
            == item.0) ==> {
            &&& put_all(items.push(item)).len() == put_all(items).len() + 1
            &&& put_all(items.push(item)).last() == item
        },
{
    assert(items.push(item).drop_last() =~= items);
    lemma_put_all_keys(items);
    law_put_sets_one_entry(put_all(items), item.0, item.1);
}

/// A list of named values is told pair by pair, in its order.
pub proof fn law_pairs_are_told_in_order(s: Seq<(String, String)>, i: int)
    requires
        0 <= i < s.len(),
    ensures
        pair_texts(s).len() == s.len(),
        pair_texts(s)[i].0 == s[i].0@,
        pair_texts(s)[i].1 == s[i].1@,
{
}

} // verus!
