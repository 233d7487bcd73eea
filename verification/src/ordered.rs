//! A map from text to values that lists its keys in ascending order.

use crate::text;
use vstd::prelude::*;

verus! {

/// The value behind an optional reference.
pub open spec fn found<T>(value: Option<&T>) -> Option<T> {
    match value {
        Some(value) => Some(*value),
        None => None,
    }
}

/// The value that a map binds to a key.
pub open spec fn bound<K, V>(map: Map<K, V>, key: K) -> Option<V> {
    if map.contains_key(key) {
        Some(map[key])
    } else {
        None
    }
}

/// Whether `key` is the least key whose value satisfies `wanted`.
pub open spec fn is_least<V>(map: Map<Seq<char>, V>, wanted: spec_fn(V) -> bool, key: Seq<char>) -> bool {
    &&& map.contains_key(key)
    &&& wanted(map[key])
    &&& forall|other: Seq<char>| #[trigger]
        map.contains_key(other) && wanted(map[other]) ==> !text::precedes(other, key)
}

/// The keys of a map whose values are wanted.
pub open spec fn ids_where<V>(map: Map<Seq<char>, V>, wanted: spec_fn(V) -> bool) -> Set<Seq<char>> {
    map.dom().filter(|key: Seq<char>| wanted(map[key]))
}

/// Binding a key whose value was wanted to one that is not leaves one wanted key less.
pub proof fn lemma_one_less_wanted<V>(
    map: Map<Seq<char>, V>,
    wanted: spec_fn(V) -> bool,
    key: Seq<char>,
    value: V,
)
    requires
        map.contains_key(key),
        wanted(map[key]),
        !wanted(value),
    ensures
        ids_where(map, wanted).contains(key),
        ids_where(map.insert(key, value), wanted) == ids_where(map, wanted).remove(key),
        map.dom().finite() ==> ids_where(map.insert(key, value), wanted).len() + 1 == ids_where(
            map,
            wanted,
        ).len(),
{
    assert(ids_where(map.insert(key, value), wanted) =~= ids_where(map, wanted).remove(key));
}

/// The least key whose value satisfies `wanted`.
pub open spec fn least_where<V>(map: Map<Seq<char>, V>, wanted: spec_fn(V) -> bool) -> Option<Seq<char>> {
    if exists|key: Seq<char>| is_least(map, wanted, key) {
        Some(choose|key: Seq<char>| is_least(map, wanted, key))
    } else {
        None
    }
}

/// There is at most one least key.
pub proof fn least_is_unique<V>(map: Map<Seq<char>, V>, wanted: spec_fn(V) -> bool, key: Seq<char>)
    requires
        is_least(map, wanted, key),
    ensures
        least_where(map, wanted) == Some(key),
{
    let least = choose|key: Seq<char>| is_least(map, wanted, key);
    text::precedes_total(least, key);
}

/// Whether each text stands before all that follow it.
pub open spec fn ascending(values: Seq<Seq<char>>) -> bool {
    forall|i: int, j: int|
        0 <= i < j < values.len() ==> text::precedes(#[trigger] values[i], #[trigger] values[j])
}

/// Those of the first `length` keys whose value is wanted, in order.
pub open spec fn keys_where<V>(
    keys: Seq<Seq<char>>,
    values: Seq<V>,
    wanted: spec_fn(V) -> bool,
    length: int,
) -> Seq<Seq<char>>
    decreases length,
{
    if length <= 0 {
        Seq::empty()
    } else if wanted(values[length - 1]) {
        keys_where(keys, values, wanted, length - 1).push(keys[length - 1])
    } else {
        keys_where(keys, values, wanted, length - 1)
    }
}

/// The wanted keys of an ascending list ascend.
proof fn wanted_keys_ascend<V>(
    keys: Seq<Seq<char>>,
    values: Seq<V>,
    wanted: spec_fn(V) -> bool,
    length: int,
)
    requires
        0 <= length <= keys.len(),
        ascending(keys),
    ensures
        ascending(keys_where(keys, values, wanted, length)),
        forall|i: int, k: int|
            0 <= i < keys_where(keys, values, wanted, length).len() && length <= k < keys.len()
                ==> text::precedes(
                #[trigger] keys_where(keys, values, wanted, length)[i],
                #[trigger] keys[k],
            ),
    decreases length,
{
    if length > 0 {
        wanted_keys_ascend(keys, values, wanted, length - 1);
    }
}

/// A key is among the wanted ones exactly where its value is wanted.
proof fn wanted_keys_are_kept<V>(
    keys: Seq<Seq<char>>,
    values: Seq<V>,
    wanted: spec_fn(V) -> bool,
    length: int,
    key: Seq<char>,
)
    requires
        0 <= length <= keys.len(),
    ensures
        keys_where(keys, values, wanted, length).contains(key) <==> exists|k: int|
            0 <= k < length && #[trigger] keys[k] == key && wanted(values[k]),
    decreases length,
{
    if length > 0 {
        wanted_keys_are_kept(keys, values, wanted, length - 1, key);
        let shorter = keys_where(keys, values, wanted, length - 1);
        let longer = keys_where(keys, values, wanted, length);
        if wanted(values[length - 1]) {
            assert(longer[longer.len() - 1] == keys[length - 1]);
            if shorter.contains(key) {
                let i = choose|i: int| 0 <= i < shorter.len() && shorter[i] == key;
                assert(longer[i] == key);
            }
            if longer.contains(key) && key != keys[length - 1] {
                let i = choose|i: int| 0 <= i < longer.len() && longer[i] == key;
                assert(shorter[i] == key);
            }
        }
    }
}

/// Whether a list holds the keys of a map in ascending order.
pub open spec fn lists_keys<V>(map: Map<Seq<char>, V>, keys: Seq<Seq<char>>) -> bool {
    &&& ascending(keys)
    &&& forall|key: Seq<char>| #[trigger] keys.contains(key) <==> map.contains_key(key)
}

/// The keys of a map in ascending order.
pub open spec fn ordered_keys<V>(map: Map<Seq<char>, V>) -> Seq<Seq<char>> {
    choose|keys: Seq<Seq<char>>| lists_keys(map, keys)
}

/// Two ascending lists of the same texts are the same list.
proof fn ascending_is_unique(a: Seq<Seq<char>>, b: Seq<Seq<char>>)
    requires
        ascending(a),
        ascending(b),
        forall|key: Seq<char>|
            #![trigger a.contains(key)]
            #![trigger b.contains(key)]
            a.contains(key) <==> b.contains(key),
    ensures
        a == b,
    decreases a.len(),
{
    if a.len() == 0 {
        if b.len() > 0 {
            assert(b.contains(b[0]));
        }
        assert(a =~= b);
    } else {
        assert(a.contains(a[0]));
        let at = choose|i: int| 0 <= i < b.len() && b[i] == a[0];
        assert(b.contains(b[0]));
        let back = choose|i: int| 0 <= i < a.len() && a[i] == b[0];
        if at > 0 {
            // Then `b[0]` stands before `a[0]`, and yet `a` holds it at or after `a[0]`.
            assert(text::precedes(b[0], b[at]));
            if back > 0 {
                assert(text::precedes(a[0], a[back]));
                text::precedes_transitive(a[0], b[0], a[0]);
            }
            text::precedes_irreflexive(a[0]);
        }
        let ta = a.drop_first();
        let tb = b.drop_first();
        assert forall|key: Seq<char>|
            #![trigger ta.contains(key)]
            #![trigger tb.contains(key)]
            ta.contains(key) <==> tb.contains(key) by {
            if ta.contains(key) {
                let i = choose|i: int| 0 <= i < ta.len() && ta[i] == key;
                assert(a[i + 1] == key);
                assert(a.contains(key));
                text::precedes_irreflexive(key);
                let j = choose|j: int| 0 <= j < b.len() && b[j] == key;
                assert(j > 0);
                assert(tb[j - 1] == key);
            }
            if tb.contains(key) {
                let i = choose|i: int| 0 <= i < tb.len() && tb[i] == key;
                assert(b[i + 1] == key);
                assert(b.contains(key));
                text::precedes_irreflexive(key);
                let j = choose|j: int| 0 <= j < a.len() && a[j] == key;
                assert(j > 0);
                assert(ta[j - 1] == key);
            }
        }
        assert(ascending(ta)) by {
            assert forall|i: int, j: int| 0 <= i < j < ta.len() implies text::precedes(
                #[trigger] ta[i],
                #[trigger] ta[j],
            ) by {
                assert(ta[i] == a[i + 1] && ta[j] == a[j + 1]);
            }
        }
        assert(ascending(tb)) by {
            assert forall|i: int, j: int| 0 <= i < j < tb.len() implies text::precedes(
                #[trigger] tb[i],
                #[trigger] tb[j],
            ) by {
                assert(tb[i] == b[i + 1] && tb[j] == b[j + 1]);
            }
        }
        ascending_is_unique(ta, tb);
        assert(a =~= seq![a[0]] + ta);
        assert(b =~= seq![b[0]] + tb);
    }
}

/// One key with the value it is bound to.
pub struct Entry<V> {
    /// The key.
    pub key: String,
    /// The value bound to the key.
    pub value: V,
}

/// A map keyed by text. Its entries stand in ascending order of their keys.
pub struct OrderedMap<V> {
    entries: Vec<Entry<V>>,
}

impl<V> OrderedMap<V> {
    /// The keys in ascending order.
    pub closed spec fn keys(self) -> Seq<Seq<char>> {
        Seq::new(self.entries@.len(), |i: int| self.entries@[i].key@)
    }

    /// The values, each at the place of its key.
    pub closed spec fn values(self) -> Seq<V> {
        Seq::new(self.entries@.len(), |i: int| self.entries@[i].value)
    }

    /// Every key stands before all that follow it, so none occurs twice.
    pub open spec fn wf(self) -> bool {
        &&& self.values().len() == self.keys().len()
        &&& forall|i: int, j: int|
            0 <= i < j < self.keys().len() ==> text::precedes(#[trigger] self.keys()[i], #[trigger] self.keys()[j])
    }

    /// Where `key` stands among the keys.
    pub open spec fn place(self, key: Seq<char>) -> int {
        choose|i: int| 0 <= i < self.keys().len() && #[trigger] self.keys()[i] == key
    }

    /// The map from keys to values.
    pub open spec fn view(&self) -> Map<Seq<char>, V> {
        Map::new(
            |key: Seq<char>| self.keys().contains(key),
            |key: Seq<char>| self.values()[self.place(key)],
        )
    }

    /// The key at each place is bound to the value at that place.
    pub proof fn lemma_bound_at(self, i: int)
        requires
            self.wf(),
            0 <= i < self.keys().len(),
        ensures
            self@.contains_key(self.keys()[i]),
            self@[self.keys()[i]] == self.values()[i],
            self.place(self.keys()[i]) == i,
    {
        let key = self.keys()[i];
        assert(self.keys().contains(key));
        let p = self.place(key);
        assert(0 <= p < self.keys().len() && self.keys()[p] == key);
        text::precedes_irreflexive(key);
    }

    /// Every bound key has a place.
    pub proof fn lemma_place(self, key: Seq<char>)
        requires
            self.wf(),
            self@.contains_key(key),
        ensures
            0 <= self.place(key) < self.keys().len(),
            self.keys()[self.place(key)] == key,
            self.values()[self.place(key)] == self@[key],
    {
        let i = choose|i: int| 0 <= i < self.keys().len() && self.keys()[i] == key;
        assert(self.keys()[i] == key);
    }

    /// Only finitely many keys are bound.
    pub proof fn lemma_finite(self)
        ensures
            self@.dom().finite(),
    {
        vstd::seq_lib::seq_to_set_is_finite(self.keys());
        assert(self@.dom() =~= self.keys().to_set());
    }

    /// There are as many keys as bound keys.
    pub proof fn lemma_len(self)
        requires
            self.wf(),
        ensures
            self.keys().len() == self@.dom().len(),
    {
        assert forall|i: int, j: int| 0 <= i < j < self.keys().len() implies #[trigger] self.keys()[i]
            != #[trigger] self.keys()[j] by {
            text::precedes_irreflexive(self.keys()[i]);
        }
        self.keys().unique_seq_to_set();
        assert(self@.dom() =~= self.keys().to_set());
    }

    /// The keys stand in the one ascending order.
    pub proof fn lemma_keys_are_ordered(self)
        requires
            self.wf(),
        ensures
            self.keys() == ordered_keys(self@),
    {
        assert(lists_keys(self@, self.keys()));
        let chosen = ordered_keys(self@);
        assert(lists_keys(self@, chosen));
        assert forall|key: Seq<char>|
            #![trigger self.keys().contains(key)]
            #![trigger chosen.contains(key)]
            self.keys().contains(key) <==> chosen.contains(key) by {
            assert(chosen.contains(key) <==> self@.contains_key(key));
        }
        ascending_is_unique(self.keys(), chosen);
    }

    /// The empty map.
    pub fn new() -> (result: Self)
        ensures
            result.wf(),
            result@ == Map::<Seq<char>, V>::empty(),
            result.keys() == Seq::<Seq<char>>::empty(),
    {
        let result = OrderedMap { entries: Vec::new() };
        assert(result.keys() == Seq::<Seq<char>>::empty());
        assert(result@ == Map::<Seq<char>, V>::empty());
        result
    }

    /// How many keys are bound.
    pub fn len(&self) -> (result: usize)
        ensures
            result == self.keys().len(),
    {
        self.entries.len()
    }

    /// The key at place `i`.
    pub fn key_at(&self, i: usize) -> (result: &String)
        requires
            self.wf(),
            i < self.keys().len(),
        ensures
            result@ == self.keys()[i as int],
            self@.contains_key(result@),
            self@[result@] == self.values()[i as int],
    {
        proof {
            self.lemma_bound_at(i as int);
        }
        &self.entries[i].key
    }

    /// The value at place `i`.
    pub fn value_at(&self, i: usize) -> (result: &V)
        requires
            self.wf(),
            i < self.keys().len(),
        ensures
            *result == self.values()[i as int],
            self@.contains_key(self.keys()[i as int]),
            self@[self.keys()[i as int]] == *result,
    {
        proof {
            self.lemma_bound_at(i as int);
        }
        &self.entries[i].value
    }

    /// The place of `key`, where it is bound.
    fn find(&self, key: &str) -> (result: Option<usize>)
        ensures
            match result {
                Some(i) => i < self.keys().len() && self.keys()[i as int] == key@,
                None => !self.keys().contains(key@),
            },
    {
        for i in 0..self.entries.len()
            invariant
                forall|j: int| 0 <= j < i ==> self.keys()[j] != key@,
        {
            if text::text_eq(self.entries[i].key.as_str(), key) {
                return Some(i);
            }
        }
        None
    }

    /// The value bound to `key`.
    pub fn get(&self, key: &str) -> (result: Option<&V>)
        requires
            self.wf(),
        ensures
            found(result) == bound(self@, key@),
    {
        match self.find(key) {
            Some(i) => {
                proof {
                    self.lemma_bound_at(i as int);
                }
                Some(&self.entries[i].value)
            },
            None => None,
        }
    }

    /// Whether `key` is bound.
    pub fn contains_key(&self, key: &str) -> (result: bool)
        requires
            self.wf(),
        ensures
            result == self@.contains_key(key@),
    {
        match self.find(key) {
            Some(i) => {
                proof {
                    self.lemma_bound_at(i as int);
                }
                true
            },
            None => false,
        }
    }

    /// The first place with a wanted value holds the least wanted key.
    pub proof fn lemma_first_is_least(self, wanted: spec_fn(V) -> bool, i: int)
        requires
            self.wf(),
            0 <= i < self.keys().len(),
            wanted(self.values()[i]),
            forall|j: int| 0 <= j < i ==> !wanted(#[trigger] self.values()[j]),
        ensures
            least_where(self@, wanted) == Some(self.keys()[i]),
    {
        self.lemma_bound_at(i);
        let key = self.keys()[i];
        assert forall|other: Seq<char>| #[trigger]
            self@.contains_key(other) && wanted(self@[other]) implies !text::precedes(other, key) by {
            self.lemma_place(other);
            let p = self.place(other);
            if p == i {
                text::precedes_irreflexive(key);
            } else {
                assert(i < p);
                if text::precedes(other, key) {
                    text::precedes_transitive(key, other, key);
                    text::precedes_irreflexive(key);
                }
            }
        }
        least_is_unique(self@, wanted, key);
    }

    /// Maps that bind the same keys have them in the same order.
    pub proof fn lemma_same_order<W>(self, other: OrderedMap<W>)
        requires
            self.wf(),
            other.wf(),
            self@.dom() == other@.dom(),
        ensures
            self.keys() == other.keys(),
    {
        assert forall|key: Seq<char>|
            #![trigger self.keys().contains(key)]
            #![trigger other.keys().contains(key)]
            self.keys().contains(key) <==> other.keys().contains(key) by {
            assert(self@.dom().contains(key) == other@.dom().contains(key));
            assert(self@.contains_key(key) == self.keys().contains(key));
            assert(other@.contains_key(key) == other.keys().contains(key));
        }
        ascending_is_unique(self.keys(), other.keys());
    }

    /// Where a key is bound to a wanted value, there is a least wanted key.
    pub proof fn lemma_some_is_least(self, wanted: spec_fn(V) -> bool, key: Seq<char>)
        requires
            self.wf(),
            self@.contains_key(key),
            wanted(self@[key]),
        ensures
            least_where(self@, wanted) is Some,
    {
        self.lemma_place(key);
        let p = self.place(key);
        self.lemma_bound_at(p);
        self.lemma_least_by(wanted, p);
    }

    /// Where a place holds a wanted value, there is a least wanted key.
    proof fn lemma_least_by(self, wanted: spec_fn(V) -> bool, p: int)
        requires
            self.wf(),
            0 <= p < self.keys().len(),
            wanted(self.values()[p]),
        ensures
            least_where(self@, wanted) is Some,
        decreases p,
    {
        if exists|j: int| 0 <= j < p && wanted(#[trigger] self.values()[j]) {
            let j = choose|j: int| 0 <= j < p && wanted(#[trigger] self.values()[j]);
            self.lemma_least_by(wanted, j);
        } else {
            self.lemma_first_is_least(wanted, p);
        }
    }

    /// The keys with a wanted value ascend, and `key` is among them exactly where it is bound
    /// to a wanted value.
    pub proof fn lemma_keys_where(self, wanted: spec_fn(V) -> bool, key: Seq<char>)
        requires
            self.wf(),
        ensures
            ascending(
                keys_where(self.keys(), self.values(), wanted, self.keys().len() as int),
            ),
            keys_where(self.keys(), self.values(), wanted, self.keys().len() as int).contains(key) <==> (
            self@.contains_key(key) && wanted(self@[key])),
    {
        let length = self.keys().len() as int;
        wanted_keys_ascend(self.keys(), self.values(), wanted, length);
        let found = keys_where(self.keys(), self.values(), wanted, length);
        wanted_keys_are_kept(self.keys(), self.values(), wanted, length, key);
        if self@.contains_key(key) {
            self.lemma_place(key);
        }
        if found.contains(key) {
            let k = choose|k: int|
                0 <= k < length && #[trigger] self.keys()[k] == key && wanted(self.values()[k]);
            self.lemma_bound_at(k);
        }
    }

    /// Where no place holds a wanted value, there is no least wanted key.
    pub proof fn lemma_none_is_least(self, wanted: spec_fn(V) -> bool)
        requires
            self.wf(),
            forall|j: int| 0 <= j < self.values().len() ==> !wanted(#[trigger] self.values()[j]),
        ensures
            least_where(self@, wanted) is None,
    {
        assert forall|key: Seq<char>| !is_least(self@, wanted, key) by {
            if is_least(self@, wanted, key) {
                self.lemma_place(key);
            }
        }
    }

    /// Binds `key` to `value`, in place of any earlier value.
    pub fn insert(&mut self, key: String, value: V)
        requires
            old(self).wf(),
        ensures
            final(self).wf(),
            final(self)@ == old(self)@.insert(key@, value),
    {
        let ghost before = *self;
        let mut at: usize = 0;
        while at < self.entries.len() && text::text_less(self.entries[at].key.as_str(), key.as_str())
            invariant
                at <= self.entries.len(),
                *self == before,
                before.wf(),
                forall|j: int| 0 <= j < at ==> text::precedes(#[trigger] before.keys()[j], key@),
            decreases self.entries.len() - at,
        {
            at = at + 1;
        }
        if at < self.entries.len() && text::text_eq(self.entries[at].key.as_str(), key.as_str()) {
            self.entries[at] = Entry { key, value };
            assert(self.keys() == before.keys());
            assert(self.values() == before.values().update(at as int, value));
            proof {
                before.lemma_bound_at(at as int);
                self.lemma_bound_at(at as int);
                assert forall|k: Seq<char>| #[trigger] before@.contains_key(k) && k != key@ implies self@[k]
                    == before@[k] by {
                    before.lemma_place(k);
                    self.lemma_bound_at(before.place(k));
                }
                assert(self@ =~= before@.insert(key@, value));
            }
        } else {
            let ghost k0 = key@;
            self.entries.insert(at, Entry { key, value });
            assert(self.keys() == before.keys().insert(at as int, k0));
            assert(self.values() == before.values().insert(at as int, value));
            proof {
                assert forall|j: int| at <= j < before.keys().len() implies text::precedes(
                    k0,
                    #[trigger] before.keys()[j],
                ) by {
                    text::precedes_total(before.keys()[at as int], k0);
                    if j > at {
                        text::precedes_transitive(k0, before.keys()[at as int], before.keys()[j]);
                    }
                }
                assert(self.wf());
                self.lemma_bound_at(at as int);
                assert forall|k: Seq<char>| self@.contains_key(k) == before@.insert(k0, value).contains_key(
                    k,
                ) by {
                    if before@.contains_key(k) {
                        before.lemma_place(k);
                        let p = before.place(k);
                        self.lemma_bound_at(if p < at { p } else { p + 1 });
                    }
                    if self@.contains_key(k) && k != k0 {
                        self.lemma_place(k);
                        let p = self.place(k);
                        before.lemma_bound_at(if p < at { p } else { p - 1 });
                    }
                }
                assert forall|k: Seq<char>| #[trigger] before@.contains_key(k) && k != k0 implies self@[k]
                    == before@[k] by {
                    before.lemma_place(k);
                    let p = before.place(k);
                    self.lemma_bound_at(if p < at { p } else { p + 1 });
                }
                assert(self@ =~= before@.insert(k0, value));
            }
        }
    }

    /// Unbinds `key` and hands out the value it was bound to.
    pub fn remove(&mut self, key: &str) -> (result: Option<V>)
        requires
            old(self).wf(),
        ensures
            final(self).wf(),
            final(self)@ == old(self)@.remove(key@),
            result == bound(old(self)@, key@),
    {
        let ghost before = *self;
        match self.find(key) {
            Some(at) => {
                let entry = self.entries.remove(at);
                proof {
                    let p0 = at as int;
                    assert(self.keys() == before.keys().remove(p0));
                    assert(self.values() == before.values().remove(p0));
                    assert(self.wf());
                    before.lemma_bound_at(p0);
                    assert forall|k: Seq<char>| self@.contains_key(k) == before@.remove(key@).contains_key(
                        k,
                    ) by {
                        if before@.contains_key(k) && k != key@ {
                            before.lemma_place(k);
                            let p = before.place(k);
                            self.lemma_bound_at(if p < p0 { p } else { p - 1 });
                        }
                        if self@.contains_key(k) {
                            self.lemma_place(k);
                            let p = self.place(k);
                            before.lemma_bound_at(if p < p0 { p } else { p + 1 });
                        }
                    }
                    assert forall|k: Seq<char>| #[trigger] self@.contains_key(k) implies self@[k]
                        == before@[k] by {
                        self.lemma_place(k);
                        let p = self.place(k);
                        before.lemma_bound_at(if p < p0 { p } else { p + 1 });
                    }
                    assert(self@ =~= before@.remove(key@));
                    assert(entry.value == before.values()[p0]);
                }
                Some(entry.value)
            },
            None => {
                assert(self@ =~= before@.remove(key@));
                None
            },
        }
    }
}

} // verus!
