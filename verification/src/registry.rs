//! Write-once tables from keys to values that live for the rest of the program.

use crate::dash::{dash_entries, dash_insert, dash_new, dash_view};
use dashmap::DashMap;
use std::collections::HashMap;
use vstd::prelude::*;

verus! {

broadcast use vstd::std_specs::hash::group_hash_axioms;

/// What a lookup of a key comes to.
pub open spec fn lookup<V>(entries: Map<usize, V>, key: usize) -> Option<V> {
    if entries.contains_key(key) {
        Some(entries[key])
    } else {
        None
    }
}

/// Entries kept twice: `fast` answers most lookups, `slow`, made with the first entry,
/// has the last word on whether a key is still free.
struct Table {
    slow: Option<HashMap<usize, usize>>,
    fast: DashMap<usize, usize>,
}

impl Table {
    spec fn slow_entries(self) -> Map<usize, usize> {
        match self.slow {
            Some(entries) => entries@,
            None => Map::empty(),
        }
    }

    /// Both parts hold the same entries.
    spec fn wf(self) -> bool {
        dash_entries(self.fast) == self.slow_entries()
    }

    fn new() -> (table: Self)
        ensures
            table.wf(),
            table.slow_entries() == Map::<usize, usize>::empty(),
    {
        Table { slow: None, fast: dash_new() }
    }

    fn find(&self, key: &usize) -> (found: Option<usize>)
        requires
            self.wf(),
        ensures
            found == lookup(self.slow_entries(), *key),
    {
        if let Some(value) = dash_view(&self.fast, key) {
            return Some(value);
        }
        match &self.slow {
            Some(entries) => match entries.get(key) {
                Some(value) => Some(*value),
                None => None,
            },
            None => None,
        }
    }

    fn insert(&mut self, key: usize, value: usize)
        requires
            old(self).wf(),
        ensures
            final(self).wf(),
            final(self).slow_entries() == old(self).slow_entries().insert(key, value),
    {
        dash_insert(&mut self.fast, key, value);
        let mut entries = match self.slow.take() {
            Some(entries) => entries,
            None => HashMap::new(),
        };
        entries.insert(key, value);
        self.slow = Some(entries);
    }
}

/// A table that gives each key one value, made on the first request for the key and
/// never changed or dropped afterwards.
///
/// Values are kept in the order in which they were made, and the table leads from a
/// key to the place of its value.
pub struct Registry<V> {
    table: Table,
    values: Vec<V>,
}

impl<V: Copy> View for Registry<V> {
    type V = Map<usize, V>;

    /// The value of each registered key.
    closed spec fn view(&self) -> Map<usize, V> {
        self.table.slow_entries().map_values(|place: usize| self.values@[place as int])
    }
}

impl<V: Copy> Registry<V> {
    /// Every entry leads to a value, and there are as many values as entries.
    pub closed spec fn wf(&self) -> bool {
        &&& self.table.wf()
        &&& self.table.slow_entries().dom().finite()
        &&& self.table.slow_entries().dom().len() == self.values@.len()
        &&& forall|key: usize| #[trigger]
            self.table.slow_entries().contains_key(key) ==> self.table.slow_entries()[key]
                < self.values@.len()
    }

    /// The values that were ever made, oldest first.
    pub closed spec fn made(&self) -> Seq<V> {
        self.values@
    }

    /// An empty registry.
    pub fn new() -> (registry: Self)
        ensures
            registry.wf(),
            registry@ == Map::<usize, V>::empty(),
            registry.made() == Seq::<V>::empty(),
    {
        let registry = Registry { table: Table::new(), values: Vec::new() };
        assert(registry@ =~= Map::<usize, V>::empty());
        registry
    }

    /// The value of a key. Where the key has none yet, `value` makes it; where it has
    /// one, `value` is not called.
    pub fn get<F: FnOnce() -> V>(&mut self, key: usize, value: F) -> (result: V)
        requires
            old(self).wf(),
            !old(self)@.contains_key(key) ==> value.requires(()),
        ensures
            final(self).wf(),
            final(self)@ == old(self)@.insert(key, result),
            old(self)@.contains_key(key) ==> {
                &&& result == old(self)@[key]
                &&& final(self).made() == old(self).made()
            },
            !old(self)@.contains_key(key) ==> {
                &&& value.ensures((), result)
                &&& final(self).made() == old(self).made().push(result)
            },
    {
        if let Some(place) = self.table.find(&key) {
            let result = self.values[place];
            assert(self@.insert(key, result) =~= self@);
            return result;
        }
        let result = value();
        let place: usize = self.values.len();
        self.values.push(result);
        self.table.insert(key, place);
        assert(self@ =~= old(self)@.insert(key, result));
        result
    }

    /// The value of a key that has one.
    pub fn try_get(&self, key: &usize) -> (result: Option<V>)
        requires
            self.wf(),
        ensures
            result == lookup(self@, *key),
    {
        match self.table.find(key) {
            Some(place) => Some(self.values[place]),
            None => None,
        }
    }
}

impl<V: Copy> Default for Registry<V> {
    fn default() -> (registry: Self)
        ensures
            registry.wf(),
            registry@ == Map::<usize, V>::empty(),
            registry.made() == Seq::<V>::empty(),
    {
        Self::new()
    }
}

/// A table between objects of two sorts, each known by its address: an object that is
/// looked up for the first time gets a partner of the other sort, and each of the two
/// leads to the other from then on.
pub struct SymmetricRegistry {
    a_to_b: Table,
    b_to_a: Table,
}

/// Each of the two maps leads back from where the other one leads to.
pub open spec fn mutually_inverse(ab: Map<usize, usize>, ba: Map<usize, usize>) -> bool {
    &&& forall|a: usize| #[trigger] ab.contains_key(a) ==> lookup(ba, ab[a]) == Some(a)
    &&& forall|b: usize| #[trigger] ba.contains_key(b) ==> lookup(ab, ba[b]) == Some(b)
}

impl SymmetricRegistry {
    pub closed spec fn wf(&self) -> bool {
        self.a_to_b.wf() && self.b_to_a.wf()
    }

    /// The partner of each object of the first sort.
    pub closed spec fn ab(&self) -> Map<usize, usize> {
        self.a_to_b.slow_entries()
    }

    /// The partner of each object of the second sort.
    pub closed spec fn ba(&self) -> Map<usize, usize> {
        self.b_to_a.slow_entries()
    }

    /// An empty registry.
    pub fn new() -> (registry: Self)
        ensures
            registry.wf(),
            registry.ab() == Map::<usize, usize>::empty(),
            registry.ba() == Map::<usize, usize>::empty(),
    {
        SymmetricRegistry { a_to_b: Table::new(), b_to_a: Table::new() }
    }

    /// The partner of an object of the first sort. Where it has none yet, `value` makes
    /// one, and the two are entered both ways. As long as `value` makes partners that
    /// are not in use yet, partners lead to each other.
    pub fn get_ab<F: FnOnce() -> usize>(&mut self, key: usize, value: F) -> (result: usize)
        requires
            old(self).wf(),
            !old(self).ab().contains_key(key) ==> value.requires(()),
        ensures
            final(self).wf(),
            final(self).ab() == old(self).ab().insert(key, result),
            old(self).ab().contains_key(key) ==> {
                &&& result == old(self).ab()[key]
                &&& final(self).ba() == old(self).ba()
            },
            !old(self).ab().contains_key(key) ==> {
                &&& value.ensures((), result)
                &&& final(self).ba() == old(self).ba().insert(result, key)
            },
            mutually_inverse(old(self).ab(), old(self).ba()) && (old(self).ab().contains_key(key)
                || !old(self).ba().contains_key(result)) ==> mutually_inverse(
                final(self).ab(),
                final(self).ba(),
            ),
    {
        if let Some(result) = self.a_to_b.find(&key) {
            assert(self.ab().insert(key, result) =~= self.ab());
            return result;
        }
        let result: usize = value();
        proof {
            if mutually_inverse(self.ab(), self.ba()) && !self.ba().contains_key(result) {
                fresh_partners_stay_mutual(self.ab(), self.ba(), key, result);
            }
        }
        self.a_to_b.insert(key, result);
        self.b_to_a.insert(result, key);
        result
    }

    /// The partner of an object of the second sort. Where it has none yet, `value` makes
    /// one, and the two are entered both ways. As long as `value` makes partners that
    /// are not in use yet, partners lead to each other.
    pub fn get_ba<F: FnOnce() -> usize>(&mut self, key: usize, value: F) -> (result: usize)
        requires
            old(self).wf(),
            !old(self).ba().contains_key(key) ==> value.requires(()),
        ensures
            final(self).wf(),
            final(self).ba() == old(self).ba().insert(key, result),
            old(self).ba().contains_key(key) ==> {
                &&& result == old(self).ba()[key]
                &&& final(self).ab() == old(self).ab()
            },
            !old(self).ba().contains_key(key) ==> {
                &&& value.ensures((), result)
                &&& final(self).ab() == old(self).ab().insert(result, key)
            },
            mutually_inverse(old(self).ab(), old(self).ba()) && (old(self).ba().contains_key(key)
                || !old(self).ab().contains_key(result)) ==> mutually_inverse(
                final(self).ab(),
                final(self).ba(),
            ),
    {
        if let Some(result) = self.b_to_a.find(&key) {
            assert(self.ba().insert(key, result) =~= self.ba());
            return result;
        }
        let result: usize = value();
        proof {
            if mutually_inverse(self.ab(), self.ba()) && !self.ab().contains_key(result) {
                fresh_partners_stay_mutual(self.ab(), self.ba(), result, key);
            }
        }
        self.b_to_a.insert(key, result);
        self.a_to_b.insert(result, key);
        result
    }

    /// The partner of an object of the first sort that has one.
    pub fn try_get_ab(&self, key: &usize) -> (result: Option<usize>)
        requires
            self.wf(),
        ensures
            result == lookup(self.ab(), *key),
    {
        self.a_to_b.find(key)
    }

    /// The partner of an object of the second sort that has one.
    pub fn try_get_ba(&self, key: &usize) -> (result: Option<usize>)
        requires
            self.wf(),
        ensures
            result == lookup(self.ba(), *key),
    {
        self.b_to_a.find(key)
    }
}

impl Default for SymmetricRegistry {
    fn default() -> (registry: Self)
        ensures
            registry.wf(),
            registry.ab() == Map::<usize, usize>::empty(),
            registry.ba() == Map::<usize, usize>::empty(),
    {
        Self::new()
    }
}

/// A value is made once for each key, and for no other reason: there are as many values as
/// keys.
pub proof fn one_value_for_each_key<V: Copy>(registry: &Registry<V>)
    requires
        registry.wf(),
    ensures
        registry@.dom().finite(),
        registry.made().len() == registry@.dom().len(),
{
    assert(registry@.dom() =~= registry.table.slow_entries().dom());
}

/// A registered value is there for good: whatever was registered before another key is
/// requested has the same value afterwards.
///
/// `before` and `after` are what a registry holds around a request for `key` that was
/// answered with `result`.
pub proof fn registered_values_stay<V>(
    before: Map<usize, V>,
    after: Map<usize, V>,
    key: usize,
    result: V,
    other: usize,
)
    requires
        after == before.insert(key, result),
        before.contains_key(key) ==> result == before[key],
        before.contains_key(other),
    ensures
        lookup(after, other) == lookup(before, other),
{
}

/// `entries` are what a registry holds after each of a run of requests for `keys` that were
/// answered with `results`.
pub open spec fn is_run<V>(keys: Seq<usize>, results: Seq<V>, entries: Seq<Map<usize, V>>) -> bool {
    &&& keys.len() == results.len() == entries.len()
    &&& forall|n: int|
        #![trigger entries[n]]
        0 <= n < keys.len() ==> lookup(entries[n], keys[n]) == Some(results[n])
    &&& forall|n: int|
        #![trigger entries[n]]
        0 < n < keys.len() ==> {
            &&& entries[n] == entries[n - 1].insert(keys[n], results[n])
            &&& entries[n - 1].contains_key(keys[n]) ==> results[n] == entries[n - 1][keys[n]]
        }
}

/// The same key is always answered alike: two requests for one key get the same answer,
/// whatever is requested between them.
pub proof fn a_key_keeps_its_value<V>(
    keys: Seq<usize>,
    results: Seq<V>,
    entries: Seq<Map<usize, V>>,
    i: int,
    j: int,
)
    requires
        is_run(keys, results, entries),
        0 <= i <= j < keys.len(),
        keys[i] == keys[j],
    ensures
        results[i] == results[j],
{
    entry_stays(keys, results, entries, i, j);
    assert(lookup(entries[j], keys[j]) == Some(results[j]));
}

/// The answer to a request is what the registry holds for its key from then on.
pub proof fn entry_stays<V>(
    keys: Seq<usize>,
    results: Seq<V>,
    entries: Seq<Map<usize, V>>,
    i: int,
    j: int,
)
    requires
        is_run(keys, results, entries),
        0 <= i <= j < keys.len(),
    ensures
        lookup(entries[j], keys[i]) == Some(results[i]),
    decreases j,
{
    assert(lookup(entries[i], keys[i]) == Some(results[i]));
    if i < j {
        entry_stays(keys, results, entries, i, j - 1);
        assert(entries[j] == entries[j - 1].insert(keys[j], results[j]));
    }
}

/// The first of a run of requests finds nothing registered.
pub open spec fn starts_empty<V>(
    keys: Seq<usize>,
    results: Seq<V>,
    entries: Seq<Map<usize, V>>,
) -> bool {
    keys.len() > 0 ==> entries[0] == Map::<usize, V>::empty().insert(keys[0], results[0])
}

/// A key has a value if and only if it was requested: in a run of requests that starts from
/// nothing, a key that was never requested has none.
pub proof fn a_key_has_a_value_once_requested<V>(
    keys: Seq<usize>,
    results: Seq<V>,
    entries: Seq<Map<usize, V>>,
    j: int,
    key: usize,
)
    requires
        is_run(keys, results, entries),
        starts_empty(keys, results, entries),
        0 <= j < keys.len(),
    ensures
        lookup(entries[j], key) is Some <==> exists|i: int| 0 <= i <= j && #[trigger] keys[i] == key,
    decreases j,
{
    if j > 0 {
        a_key_has_a_value_once_requested(keys, results, entries, j - 1, key);
        assert(entries[j] == entries[j - 1].insert(keys[j], results[j]));
    }
    assert(keys[j] == keys[j]);
}

/// The request at `i` is the first for its key.
pub open spec fn is_first_request(keys: Seq<usize>, i: int) -> bool {
    &&& 0 <= i < keys.len()
    &&& forall|m: int| 0 <= m < i ==> #[trigger] keys[m] != keys[i]
}

/// Every answer was made on the first request for its key: in a run of requests that starts
/// from nothing there is such a request, it found the key without a value, and its answer is
/// that of the request at `j`.
pub proof fn an_answer_was_made_on_the_first_request<V>(
    keys: Seq<usize>,
    results: Seq<V>,
    entries: Seq<Map<usize, V>>,
    j: int,
) -> (i: int)
    requires
        is_run(keys, results, entries),
        starts_empty(keys, results, entries),
        0 <= j < keys.len(),
    ensures
        0 <= i <= j,
        keys[i] == keys[j],
        results[i] == results[j],
        is_first_request(keys, i),
        i > 0 ==> !entries[i - 1].contains_key(keys[i]),
    decreases j,
{
    if is_first_request(keys, j) {
        if j > 0 {
            a_key_has_a_value_once_requested(keys, results, entries, j - 1, keys[j]);
        }
        j
    } else {
        let m = choose|m: int| 0 <= m < j && #[trigger] keys[m] == keys[j];
        a_key_keeps_its_value(keys, results, entries, m, j);
        an_answer_was_made_on_the_first_request(keys, results, entries, m)
    }
}

/// Partners stay mutual: entering a new object together with a partner that is not in
/// use yet keeps the two maps inverse to each other.
pub proof fn fresh_partners_stay_mutual(
    ab: Map<usize, usize>,
    ba: Map<usize, usize>,
    a: usize,
    b: usize,
)
    requires
        mutually_inverse(ab, ba),
        !ab.contains_key(a),
        !ba.contains_key(b),
    ensures
        mutually_inverse(ab.insert(a, b), ba.insert(b, a)),
{
    assert forall|x: usize| ab.insert(a, b).contains_key(x) implies lookup(
        ba.insert(b, a),
        ab.insert(a, b)[x],
    ) == Some(x) by {
        if x != a {
            assert(ab.contains_key(x));
        }
    }
    assert forall|y: usize| ba.insert(b, a).contains_key(y) implies lookup(
        ab.insert(a, b),
        ba.insert(b, a)[y],
    ) == Some(y) by {
        if y != b {
            assert(ba.contains_key(y));
        }
    }
}

/// What is looked up is what was given: a new registry has no value for any key; a key that was
/// requested has the value that the request was answered with; and a request for a key leaves
/// every other key as it was.
pub proof fn a_lookup_finds_what_was_given<V: Copy, F: FnOnce() -> V>(
    empty: Registry<V>,
    registry: &mut Registry<V>,
    key: usize,
    value: F,
    result: V,
    other: usize,
    nothing: Option<V>,
    found: Option<V>,
    other_before: Option<V>,
    other_after: Option<V>,
)
    requires
        (call_ensures(Registry::<V>::new, (), empty) || call_ensures(
            <Registry<V> as Default>::default,
            (),
            empty,
        )),
        call_ensures(Registry::<V>::try_get, (&empty, &key), nothing),
        call_ensures(Registry::<V>::get::<F>, (registry, key, value), result),
        call_ensures(Registry::<V>::try_get, (&*final(registry), &key), found),
        other != key,
        call_ensures(Registry::<V>::try_get, (&*old(registry), &other), other_before),
        call_ensures(Registry::<V>::try_get, (&*final(registry), &other), other_after),
    ensures
        nothing is None,
        found == Some(result),
        other_after == other_before,
{
}

/// A request for a key that has a value is answered with that value, and one for a key that has
/// none with what was made for it; the registry can take further requests.
pub proof fn a_request_is_answered_with_the_first_value<V: Copy, F: FnOnce() -> V>(
    registry: &mut Registry<V>,
    key: usize,
    value: F,
    result: V,
    known: Option<V>,
)
    requires
        call_ensures(Registry::<V>::try_get, (&*old(registry), &key), known),
        call_ensures(Registry::<V>::get::<F>, (registry, key, value), result),
    ensures
        known is Some ==> result == known->Some_0,
        known is None ==> value.ensures((), result),
        known is Some ==> final(registry).made() == old(registry).made(),
        known is None ==> final(registry).made() == old(registry).made().push(result),
        final(registry).wf(),
{
}

/// Two requests for one key are answered alike, whatever is requested between them and whatever
/// the second one would make.
pub proof fn two_requests_are_answered_alike<
    V: Copy,
    F: FnOnce() -> V,
    G: FnOnce() -> V,
    H: FnOnce() -> V,
>(
    first: &mut Registry<V>,
    between: &mut Registry<V>,
    second: &mut Registry<V>,
    key: usize,
    other: usize,
    first_value: F,
    other_value: G,
    second_value: H,
    first_result: V,
    other_result: V,
    second_result: V,
)
    requires
        call_ensures(Registry::<V>::get::<F>, (first, key, first_value), first_result),
        *old(between) == *final(first),
        call_ensures(Registry::<V>::get::<G>, (between, other, other_value), other_result),
        *old(second) == *final(between),
        call_ensures(Registry::<V>::get::<H>, (second, key, second_value), second_result),
    ensures
        second_result == first_result,
{
}

/// Partners lead to each other: an object of the first sort that had no partner is found from the
/// partner that it gets, and the partner from it; all other objects keep the partner that they
/// had, and an object that had one is answered with it and changes nothing.
pub proof fn partners_lead_to_each_other<F: FnOnce() -> usize>(
    empty: SymmetricRegistry,
    nothing_ab: Option<usize>,
    nothing_ba: Option<usize>,
    registry: &mut SymmetricRegistry,
    key: usize,
    value: F,
    result: usize,
    known: Option<usize>,
    forth: Option<usize>,
    back: Option<usize>,
    a: usize,
    b: usize,
    a_before: Option<usize>,
    a_after: Option<usize>,
    b_before: Option<usize>,
    b_after: Option<usize>,
)
    requires
        (call_ensures(SymmetricRegistry::new, (), empty) || call_ensures(
            <SymmetricRegistry as Default>::default,
            (),
            empty,
        )),
        call_ensures(SymmetricRegistry::try_get_ab, (&empty, &key), nothing_ab),
        call_ensures(SymmetricRegistry::try_get_ba, (&empty, &key), nothing_ba),
        call_ensures(SymmetricRegistry::try_get_ab, (&*old(registry), &key), known),
        call_ensures(SymmetricRegistry::get_ab::<F>, (registry, key, value), result),
        call_ensures(SymmetricRegistry::try_get_ab, (&*final(registry), &key), forth),
        call_ensures(SymmetricRegistry::try_get_ba, (&*final(registry), &result), back),
        call_ensures(SymmetricRegistry::try_get_ab, (&*old(registry), &a), a_before),
        call_ensures(SymmetricRegistry::try_get_ab, (&*final(registry), &a), a_after),
        call_ensures(SymmetricRegistry::try_get_ba, (&*old(registry), &b), b_before),
        call_ensures(SymmetricRegistry::try_get_ba, (&*final(registry), &b), b_after),
    ensures
        nothing_ab is None,
        nothing_ba is None,
        forth == Some(result),
        known is None ==> back == Some(key) && value.ensures((), result),
        known is Some ==> result == known->Some_0,
        a != key || known is Some ==> a_after == a_before,
        b != result || known is Some ==> b_after == b_before,
        final(registry).wf(),
{
}

/// Partners lead to each other when they are looked up from the second sort too: an object that
/// had no partner is found from the partner that it gets, and the partner from it; all other
/// objects keep the partner that they had, and an object that had one is answered with it and
/// changes nothing.
pub proof fn partners_lead_back_to_each_other<F: FnOnce() -> usize>(
    registry: &mut SymmetricRegistry,
    key: usize,
    value: F,
    result: usize,
    known: Option<usize>,
    forth: Option<usize>,
    back: Option<usize>,
    a: usize,
    b: usize,
    a_before: Option<usize>,
    a_after: Option<usize>,
    b_before: Option<usize>,
    b_after: Option<usize>,
)
    requires
        call_ensures(SymmetricRegistry::try_get_ba, (&*old(registry), &key), known),
        call_ensures(SymmetricRegistry::get_ba::<F>, (registry, key, value), result),
        call_ensures(SymmetricRegistry::try_get_ba, (&*final(registry), &key), forth),
        call_ensures(SymmetricRegistry::try_get_ab, (&*final(registry), &result), back),
        call_ensures(SymmetricRegistry::try_get_ab, (&*old(registry), &a), a_before),
        call_ensures(SymmetricRegistry::try_get_ab, (&*final(registry), &a), a_after),
        call_ensures(SymmetricRegistry::try_get_ba, (&*old(registry), &b), b_before),
        call_ensures(SymmetricRegistry::try_get_ba, (&*final(registry), &b), b_after),
    ensures
        forth == Some(result),
        known is None ==> back == Some(key) && value.ensures((), result),
        known is Some ==> result == known->Some_0,
        a != result || known is Some ==> a_after == a_before,
        b != key || known is Some ==> b_after == b_before,
        final(registry).wf(),
{
}

}
