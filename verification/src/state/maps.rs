//! Maps from ids to the things they identify.

use std::collections::HashMap;
use vstd::prelude::*;

verus! {

/// Something that carries its own id.
pub trait Keyed: Sized {
    /// The id, in specifications.
    spec fn spec_key(self) -> u64;

    /// The id.
    fn key(&self) -> (key: u64)
        ensures
            key == self.spec_key(),
    ;
}

/// Whether every entry of the map is filed under its own id.
pub open spec fn keyed<V: Keyed>(map: Map<u64, V>) -> bool {
    forall|k: u64| #[trigger] map.contains_key(k) ==> map[k].spec_key() == k
}

/// The map that files each of the values under its own id; of several with the same id, the last
/// one stays.
pub open spec fn indexed<V: Keyed>(values: Seq<V>) -> Map<u64, V>
    decreases values.len(),
{
    if values.len() == 0 {
        Map::empty()
    } else {
        indexed(values.drop_last()).insert(values.last().spec_key(), values.last())
    }
}

/// Whether `keys` holds every key of the map exactly once.
pub open spec fn lists_keys<V>(map: Map<u64, V>, keys: Seq<u64>) -> bool {
    &&& keys.no_duplicates()
    &&& forall|k: u64| #[trigger] keys.contains(k) <==> map.contains_key(k)
}

/// The values filed under the keys, in the order of the keys.
pub open spec fn values_at<V>(map: Map<u64, V>, keys: Seq<u64>) -> Seq<V> {
    Seq::new(keys.len(), |i: int| map[keys[i]])
}

/// Whether `values` holds the value of every entry exactly once, in some order.
pub open spec fn lists_values<V>(map: Map<u64, V>, values: Seq<V>) -> bool {
    exists|keys: Seq<u64>| #[trigger] lists_keys(map, keys) && values == values_at(map, keys)
}

/// Filing the listed values of a map under their ids gives the map back.
pub proof fn indexed_of_listed<V: Keyed>(map: Map<u64, V>, values: Seq<V>)
    requires
        keyed(map),
        lists_values(map, values),
    ensures
        indexed(values) == map,
{
    let keys = choose|keys: Seq<u64>| #[trigger]
        lists_keys(map, keys) && values == values_at(map, keys);
    assert forall|k: u64| keys.contains(k) implies #[trigger] map.contains_key(k) by {}
    assert forall|i: int| 0 <= i < keys.len() implies map.contains_key(#[trigger] keys[i]) by {
        assert(keys.contains(keys[i]));
    }
    indexed_entries(map, keys, values);
    assert(indexed(values) =~= map);
}

proof fn indexed_entries<V: Keyed>(map: Map<u64, V>, keys: Seq<u64>, values: Seq<V>)
    requires
        keyed(map),
        values == values_at(map, keys),
        forall|i: int| 0 <= i < keys.len() ==> map.contains_key(#[trigger] keys[i]),
    ensures
        forall|k: u64| #[trigger] indexed(values).contains_key(k) <==> keys.contains(k),
        forall|k: u64|
            #[trigger] indexed(values).contains_key(k) ==> indexed(values)[k] == map[k],
    decreases keys.len(),
{
    if keys.len() > 0 {
        let front = keys.drop_last();
        assert(values.drop_last() =~= values_at(map, front));
        indexed_entries(map, front, values.drop_last());
        let inner = indexed(values.drop_last());
        let last = keys.last();
        assert(map.contains_key(keys[keys.len() - 1]));
        assert(indexed(values) == inner.insert(last, map[last]));
        assert forall|k: u64| #[trigger]
            indexed(values).contains_key(k) implies keys.contains(k) && indexed(values)[k]
            == map[k] by {
            if k == last {
                assert(keys[keys.len() - 1] == k);
            } else {
                assert(inner.contains_key(k));
                let i = choose|i: int| 0 <= i < front.len() && front[i] == k;
                assert(keys[i] == k);
            }
        }
        assert forall|k: u64| keys.contains(k) implies #[trigger] indexed(values).contains_key(
            k,
        ) by {
            if k != last {
                let i = choose|i: int| 0 <= i < keys.len() && keys[i] == k;
                assert(front[i] == k);
                assert(inner.contains_key(k));
            }
        }
    }
}

/// The map of filed values files each under its own id.
pub proof fn indexed_is_keyed<V: Keyed>(values: Seq<V>)
    ensures
        keyed(indexed(values)),
    decreases values.len(),
{
    if values.len() > 0 {
        indexed_is_keyed(values.drop_last());
    }
}

/// Every value is filed under its id, unless a later one has the same id.
pub proof fn indexed_files_values<V: Keyed>(values: Seq<V>, at: int)
    ensures
        (0 <= at < values.len() && forall|later: int|
            at < later < values.len() ==> (#[trigger] values[later]).spec_key()
                != values[at].spec_key()) ==> indexed(values).contains_key(values[at].spec_key())
            && indexed(values)[values[at].spec_key()] == values[at],
    decreases values.len(),
{
    if 0 <= at < values.len() - 1 && forall|later: int|
        at < later < values.len() ==> (#[trigger] values[later]).spec_key()
            != values[at].spec_key() {
        let front = values.drop_last();
        assert forall|later: int| at < later < front.len() implies (
        #[trigger] front[later]).spec_key() != front[at].spec_key() by {
            assert(values[later].spec_key() != values[at].spec_key());
        }
        assert(values[values.len() - 1].spec_key() != values[at].spec_key());
        indexed_files_values(front, at);
    }
}

/// Nothing is filed under an id that no value has.
pub proof fn indexed_holds_nothing_else<V: Keyed>(values: Seq<V>, key: u64)
    ensures
        (forall|i: int| 0 <= i < values.len() ==> (#[trigger] values[i]).spec_key() != key)
            ==> !indexed(values).contains_key(key),
    decreases values.len(),
{
    if values.len() > 0 && forall|i: int|
        0 <= i < values.len() ==> (#[trigger] values[i]).spec_key() != key {
        let front = values.drop_last();
        assert forall|i: int| 0 <= i < front.len() implies (#[trigger] front[i]).spec_key()
            != key by {
            assert(values[i].spec_key() != key);
        }
        assert(values[values.len() - 1].spec_key() != key);
        indexed_holds_nothing_else(front, key);
    }
}

/// A list of the values of a map holds every value of it, nothing else, and nothing twice.
pub proof fn listed_values_are_those_of_the_map<V: Keyed>(
    map: Map<u64, V>,
    values: Seq<V>,
    key: u64,
    i: int,
    j: int,
)
    requires
        keyed(map),
        lists_values(map, values),
    ensures
        map.contains_key(key) ==> values.contains(map[key]),
        0 <= i < values.len() ==> map.contains_key(values[i].spec_key())
            && map[values[i].spec_key()] == values[i],
        0 <= i < j < values.len() ==> values[i].spec_key() != values[j].spec_key(),
{
    let keys = choose|keys: Seq<u64>| #[trigger]
        lists_keys(map, keys) && values == values_at(map, keys);
    if map.contains_key(key) {
        assert(keys.contains(key));
        let at = choose|at: int| 0 <= at < keys.len() && keys[at] == key;
        assert(values[at] == map[key]);
    }
    if 0 <= i < values.len() {
        assert(keys.contains(keys[i]));
    }
    if 0 <= j < values.len() {
        assert(keys.contains(keys[j]));
    }
}

/// Lists the keys of a map, in no particular order.
pub(crate) fn list_keys<V>(map: &HashMap<u64, V>) -> (keys: Vec<u64>)
    ensures
        lists_keys(map@, keys@),
{
    let ghost listed = vstd::std_specs::iter::IteratorSpec::remaining(&map.keys());
    let mut keys: Vec<u64> = Vec::new();
    for key in iter: map.keys()
        invariant
            iter.seq() == listed,
            keys@.len() == iter.index(),
            forall|i: int| 0 <= i < keys@.len() ==> keys@[i] == *listed[i],
    {
        keys.push(*key);
    }
    proof {
        assert(keys@ =~= listed.unref());
        assert forall|k: u64| #[trigger] keys@.contains(k) <==> map@.contains_key(k) by {
            assert(listed.unref().to_set().contains(k) <==> map@.dom().contains(k));
        }
    }
    keys
}

/// Lists copies of the values of a map, in no particular order.
pub(crate) fn list_values<V: Clone>(map: &HashMap<u64, V>) -> (values: Vec<V>)
    requires
        forall|a: V, b: V| #[trigger] cloned(a, b) ==> a == b,
    ensures
        lists_values(map@, values@),
{
    let keys = list_keys(map);
    let mut values: Vec<V> = Vec::new();
    for i in 0..keys.len()
        invariant
            lists_keys(map@, keys@),
            values@.len() == i,
            forall|j: int| 0 <= j < i ==> values@[j] == map@[keys@[j]],
            forall|a: V, b: V| #[trigger] cloned(a, b) ==> a == b,
    {
        assert(keys@.contains(keys@[i as int]));
        if let Some(value) = map.get(&keys[i]) {
            let copy = value.clone();
            assert(cloned(*value, copy));
            values.push(copy);
        }
    }
    assert(values@ =~= values_at(map@, keys@));
    values
}

/// Files each of the values under its own id.
pub(crate) fn index_values<V: Keyed>(values: Vec<V>) -> (map: HashMap<u64, V>)
    ensures
        map@ == indexed(values@),
{
    let mut map: HashMap<u64, V> = HashMap::new();
    for value in iter: values
        invariant
            iter.seq() == values@,
            map@ == indexed(values@.take(iter.index() as int)),
    {
        proof {
            let i = iter.index() as int;
            assert(values@.take(i + 1).drop_last() =~= values@.take(i));
        }
        map.insert(value.key(), value);
    }
    assert(values@.take(values@.len() as int) =~= values@);
    map
}

/// Replaces the value of every entry by what `update` makes of it.
pub(crate) fn update_values<V, F: Fn(V) -> V>(map: &mut HashMap<u64, V>, update: F)
    requires
        forall|value: V| call_requires(update, (value,)),
    ensures
        final(map)@.dom() == old(map)@.dom(),
        forall|k: u64|
            #[trigger] old(map)@.contains_key(k) ==> call_ensures(
                update,
                (old(map)@[k],),
                final(map)@[k],
            ),
{
    let ghost start = map@;
    let keys = list_keys(map);
    for i in 0..keys.len()
        invariant
            lists_keys(start, keys@),
            map@.dom() == start.dom(),
            forall|value: V| call_requires(update, (value,)),
            forall|j: int|
                0 <= j < i ==> call_ensures(update, (start[keys@[j]],), map@[#[trigger] keys@[j]]),
            forall|j: int| i <= j < keys@.len() ==> map@[#[trigger] keys@[j]] == start[keys@[j]],
    {
        let key: u64 = keys[i];
        assert(keys@.contains(key));
        if let Some(value) = map.remove(&key) {
            map.insert(key, update(value));
        }
        assert(map@.dom() =~= start.dom());
    }
    proof {
        assert forall|k: u64| #[trigger] start.contains_key(k) implies call_ensures(
            update,
            (start[k],),
            map@[k],
        ) by {
            assert(keys@.contains(k));
        }
    }
}

} // verus!
