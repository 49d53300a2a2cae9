//! A map from text to values that hands its entries out in the order of their keys.
use vstd::prelude::*;

verus! {

/// Whether `a` comes before `b` in the order of code points.
pub open spec fn text_before(a: Seq<char>, b: Seq<char>) -> bool
    decreases a.len(),
{
    if b.len() == 0 {
        false
    } else if a.len() == 0 {
        true
    } else if a.first() != b.first() {
        a.first() < b.first()
    } else {
        text_before(a.drop_first(), b.drop_first())
    }
}

/// How two keys stand to each other.
enum KeyOrder {
    Before,
    Same,
    After,
}

/// Compares two keys in the order of their code points.
fn key_order(a: &str, b: &str) -> (order: KeyOrder)
    ensures
        match order {
            KeyOrder::Before => text_before(a@, b@),
            KeyOrder::Same => a@ == b@,
            KeyOrder::After => text_before(b@, a@),
        },
{
    let mut a_chars = a.chars();
    let mut b_chars = b.chars();
    loop
        invariant
            vstd::std_specs::iter::IteratorSpec::obeys_prophetic_iter_laws(&a_chars),
            vstd::std_specs::iter::IteratorSpec::obeys_prophetic_iter_laws(&b_chars),
            vstd::std_specs::iter::IteratorSpec::decrease(&a_chars) is Some,
            text_before(
                vstd::std_specs::iter::IteratorSpec::remaining(&a_chars),
                vstd::std_specs::iter::IteratorSpec::remaining(&b_chars),
            ) ==> text_before(a@, b@),
            text_before(
                vstd::std_specs::iter::IteratorSpec::remaining(&b_chars),
                vstd::std_specs::iter::IteratorSpec::remaining(&a_chars),
            ) ==> text_before(b@, a@),
            vstd::std_specs::iter::IteratorSpec::remaining(&a_chars)
                == vstd::std_specs::iter::IteratorSpec::remaining(&b_chars) ==> a@ == b@,
        decreases vstd::std_specs::iter::IteratorSpec::decrease(&a_chars)->0,
    {
        let ghost a_rest = vstd::std_specs::iter::IteratorSpec::remaining(&a_chars);
        let ghost b_rest = vstd::std_specs::iter::IteratorSpec::remaining(&b_chars);
        match (a_chars.next(), b_chars.next()) {
            (Some(x), Some(y)) => {
                if x < y {
                    return KeyOrder::Before;
                }
                if y < x {
                    return KeyOrder::After;
                }
                proof {
                    assert(a_rest =~= seq![x] + a_rest.drop_first());
                    assert(b_rest =~= seq![y] + b_rest.drop_first());
                }
            },
            (Some(_), None) => {
                return KeyOrder::After;
            },
            (None, Some(_)) => {
                return KeyOrder::Before;
            },
            (None, None) => {
                assert(a_rest =~= b_rest);
                return KeyOrder::Same;
            },
        }
    }
}

/// No text comes before itself.
pub proof fn lemma_text_before_irreflexive(a: Seq<char>)
    ensures
        !text_before(a, a),
    decreases a.len(),
{
    if a.len() > 0 {
        lemma_text_before_irreflexive(a.drop_first());
    }
}

/// The order of texts is transitive.
pub proof fn lemma_text_before_transitive(a: Seq<char>, b: Seq<char>, c: Seq<char>)
    requires
        text_before(a, b),
        text_before(b, c),
    ensures
        text_before(a, c),
    decreases a.len(),
{
    if a.len() > 0 && a.first() == b.first() && b.first() == c.first() {
        lemma_text_before_transitive(a.drop_first(), b.drop_first(), c.drop_first());
    }
}

/// Of two different texts, one comes before the other.
pub proof fn lemma_text_before_total(a: Seq<char>, b: Seq<char>)
    ensures
        a == b || text_before(a, b) || text_before(b, a),
    decreases a.len(),
{
    if a.len() == 0 || b.len() == 0 {
        if a.len() == b.len() {
            assert(a =~= b);
        }
    } else if a.first() == b.first() {
        lemma_text_before_total(a.drop_first(), b.drop_first());
        if a.drop_first() == b.drop_first() {
            assert(a =~= seq![a.first()] + a.drop_first());
            assert(b =~= seq![b.first()] + b.drop_first());
        }
    }
}

/// Whether the keys of `entries` stand in increasing order, each of them once.
pub open spec fn sorted_by_key<V>(entries: Seq<(String, V)>) -> bool {
    forall|i: int, j: int|
        0 <= i < j < entries.len() ==> #[trigger] text_before(entries[i].0@, entries[j].0@)
}

/// Whether entry `i` of `entries` is the one of `key`.
pub open spec fn key_at<V>(entries: Seq<(String, V)>, key: Seq<char>, i: int) -> bool {
    0 <= i < entries.len() && entries[i].0@ == key
}

/// The map that a list of entries stands for.
pub open spec fn entries_map<V>(entries: Seq<(String, V)>) -> Map<Seq<char>, V> {
    Map::new(
        |key: Seq<char>| exists|i: int| key_at(entries, key, i),
        |key: Seq<char>| entries[choose|i: int| key_at(entries, key, i)].1,
    )
}

/// In a sorted list, an entry's key leads to its value.
proof fn lemma_entry<V>(entries: Seq<(String, V)>, i: int)
    requires
        sorted_by_key(entries),
        0 <= i < entries.len(),
    ensures
        entries_map(entries).contains_key(entries[i].0@),
        entries_map(entries)[entries[i].0@] == entries[i].1,
{
    let key = entries[i].0@;
    assert(key_at(entries, key, i));
    let j = choose|j: int| key_at(entries, key, j);
    lemma_text_before_irreflexive(key);
    if i < j {
        assert(text_before(entries[i].0@, entries[j].0@));
    } else if j < i {
        assert(text_before(entries[j].0@, entries[i].0@));
    }
}

/// Changing the value of an entry changes the value of its key.
proof fn lemma_changed<V>(entries: Seq<(String, V)>, i: int, value: V)
    requires
        sorted_by_key(entries),
        0 <= i < entries.len(),
    ensures
        sorted_by_key(entries.update(i, (entries[i].0, value))),
        entries_map(entries.update(i, (entries[i].0, value))) == entries_map(entries).insert(
            entries[i].0@,
            value,
        ),
{
    let after = entries.update(i, (entries[i].0, value));
    let expected = entries_map(entries).insert(entries[i].0@, value);
    assert forall|j: int, k: int| 0 <= j < k < after.len() implies #[trigger] text_before(
        after[j].0@,
        after[k].0@,
    ) by {
        assert(text_before(entries[j].0@, entries[k].0@));
    }
    assert forall|key: Seq<char>| #[trigger] entries_map(after).contains_key(key) implies {
        &&& expected.contains_key(key)
        &&& expected[key] == entries_map(after)[key]
    } by {
        let j = choose|j: int| key_at(after, key, j);
        lemma_entry(after, j);
        lemma_entry(entries, j);
        if j != i {
            lemma_keys_differ(entries, i, j);
        }
    }
    assert forall|key: Seq<char>| #[trigger] expected.contains_key(key) implies entries_map(
        after,
    ).contains_key(key) by {
        if key == entries[i].0@ {
            lemma_entry(after, i);
        } else {
            let j = choose|j: int| key_at(entries, key, j);
            lemma_entry(after, j);
        }
    }
    assert(entries_map(after) =~= expected);
}

/// Two entries of a sorted list have different keys.
proof fn lemma_keys_differ<V>(entries: Seq<(String, V)>, i: int, j: int)
    requires
        sorted_by_key(entries),
        0 <= i < entries.len(),
        0 <= j < entries.len(),
        i != j,
    ensures
        entries[i].0@ != entries[j].0@,
{
    lemma_text_before_irreflexive(entries[i].0@);
    if i < j {
        assert(text_before(entries[i].0@, entries[j].0@));
    } else {
        assert(text_before(entries[j].0@, entries[i].0@));
    }
}

/// Removing an entry removes its key.
proof fn lemma_removed<V>(entries: Seq<(String, V)>, i: int)
    requires
        sorted_by_key(entries),
        0 <= i < entries.len(),
    ensures
        sorted_by_key(entries.remove(i)),
        entries_map(entries.remove(i)) == entries_map(entries).remove(entries[i].0@),
{
    let after = entries.remove(i);
    let expected = entries_map(entries).remove(entries[i].0@);
    assert forall|j: int, k: int| 0 <= j < k < after.len() implies #[trigger] text_before(
        after[j].0@,
        after[k].0@,
    ) by {
        let j2 = if j >= i { j + 1 } else { j };
        let k2 = if k >= i { k + 1 } else { k };
        assert(text_before(entries[j2].0@, entries[k2].0@));
    }
    assert forall|key: Seq<char>| #[trigger] entries_map(after).contains_key(key) implies {
        &&& expected.contains_key(key)
        &&& expected[key] == entries_map(after)[key]
    } by {
        let j = choose|j: int| key_at(after, key, j);
        let j2 = if j >= i { j + 1 } else { j };
        lemma_entry(after, j);
        lemma_entry(entries, j2);
        lemma_keys_differ(entries, i, j2);
    }
    assert forall|key: Seq<char>| #[trigger] expected.contains_key(key) implies entries_map(
        after,
    ).contains_key(key) by {
        let j = choose|j: int| key_at(entries, key, j);
        let j2 = if j > i { j - 1 } else { j };
        lemma_entry(after, j2);
    }
    assert(entries_map(after) =~= expected);
}

/// A sorted list has as many entries as the map that it stands for.
proof fn lemma_size<V>(entries: Seq<(String, V)>)
    requires
        sorted_by_key(entries),
    ensures
        entries_map(entries).dom().finite(),
        entries_map(entries).len() == entries.len(),
    decreases entries.len(),
{
    if entries.len() == 0 {
        assert(entries_map(entries) =~= Map::<Seq<char>, V>::empty());
    } else {
        let last = entries.len() - 1;
        lemma_removed(entries, last);
        lemma_size(entries.remove(last));
        lemma_entry(entries, last);
        assert(entries_map(entries).dom() =~= entries_map(entries.remove(last)).dom().insert(
            entries[last].0@,
        ));
    }
}

/// A map from text to `V`, as a list of entries that is sorted by key and holds each key once.
#[derive(Debug, PartialEq)]
pub struct StringMap<V> {
    entries: Vec<(String, V)>,
}

impl<V> View for StringMap<V> {
    type V = Map<Seq<char>, V>;

    closed spec fn view(&self) -> Map<Seq<char>, V> {
        entries_map(self.entries@)
    }
}

impl<V> StringMap<V> {
    /// The entries are sorted by key.
    #[verifier::type_invariant]
    spec fn sorted(self) -> bool {
        sorted_by_key(self.entries@)
    }

    /// Creates an empty map.
    pub fn new() -> (map: Self)
        ensures
            map@ == Map::<Seq<char>, V>::empty(),
    {
        let map = StringMap { entries: Vec::new() };
        assert(map@ =~= Map::<Seq<char>, V>::empty());
        map
    }

    /// Finds the place of `key` in `entries`: whether an entry has the key, and the index of that
    /// entry, or else the index at which the key would stand.
    fn locate(entries: &Vec<(String, V)>, key: &str) -> (place: (bool, usize))
        requires
            sorted_by_key(entries@),
        ensures
            place.0 ==> key_at(entries@, key@, place.1 as int),
            !place.0 ==> {
                &&& place.1 <= entries@.len()
                &&& forall|i: int|
                    0 <= i < place.1 ==> #[trigger] text_before(entries@[i].0@, key@)
                &&& forall|i: int|
                    place.1 <= i < entries@.len() ==> #[trigger] text_before(key@, entries@[i].0@)
            },
    {
        let mut low: usize = 0;
        let mut high: usize = entries.len();
        while low < high
            invariant
                low <= high <= entries@.len(),
                sorted_by_key(entries@),
                forall|i: int| 0 <= i < low ==> #[trigger] text_before(entries@[i].0@, key@),
                forall|i: int|
                    high <= i < entries@.len() ==> #[trigger] text_before(key@, entries@[i].0@),
            decreases high - low,
        {
            let middle: usize = low + (high - low) / 2;
            match key_order(entries[middle].0.as_str(), key) {
                KeyOrder::Before => {
                    proof {
                        assert forall|i: int| 0 <= i <= middle implies #[trigger] text_before(
                            entries@[i].0@,
                            key@,
                        ) by {
                            if i < middle {
                                lemma_text_before_transitive(
                                    entries@[i].0@,
                                    entries@[middle as int].0@,
                                    key@,
                                );
                            }
                        }
                    }
                    low = middle + 1;
                },
                KeyOrder::Same => {
                    return (true, middle);
                },
                KeyOrder::After => {
                    proof {
                        assert forall|i: int|
                            middle <= i < entries@.len() implies #[trigger] text_before(
                            key@,
                            entries@[i].0@,
                        ) by {
                            if middle < i {
                                lemma_text_before_transitive(
                                    key@,
                                    entries@[middle as int].0@,
                                    entries@[i].0@,
                                );
                            }
                        }
                    }
                    high = middle;
                },
            }
        }
        (false, low)
    }

    /// A key that was not located is not in the map.
    proof fn lemma_absent(entries: Seq<(String, V)>, key: Seq<char>, place: int)
        requires
            0 <= place <= entries.len(),
            forall|i: int| 0 <= i < place ==> #[trigger] text_before(entries[i].0@, key),
            forall|i: int|
                place <= i < entries.len() ==> #[trigger] text_before(key, entries[i].0@),
        ensures
            !entries_map(entries).contains_key(key),
    {
        lemma_text_before_irreflexive(key);
        assert forall|i: int| !key_at(entries, key, i) by {
            if key_at(entries, key, i) {
                if i < place {
                    assert(text_before(entries[i].0@, key));
                } else {
                    assert(text_before(key, entries[i].0@));
                }
            }
        }
    }

    /// The value of `key`, if the map has one.
    pub fn get(&self, key: &str) -> (value: Option<&V>)
        ensures
            value == (if self@.contains_key(key@) {
                Some(&self@[key@])
            } else {
                None
            }),
    {
        proof {
            use_type_invariant(self);
        }
        let (found, place) = Self::locate(&self.entries, key);
        if found {
            proof {
                lemma_entry(self.entries@, place as int);
            }
            Some(&self.entries[place].1)
        } else {
            proof {
                Self::lemma_absent(self.entries@, key@, place as int);
            }
            None
        }
    }

    /// Whether the map has a value for `key`.
    pub fn contains_key(&self, key: &str) -> (found: bool)
        ensures
            found == self@.contains_key(key@),
    {
        self.get(key).is_some()
    }

    /// The value of entry `place`, to be changed.
    fn value_at(entries: &mut Vec<(String, V)>, place: usize) -> (value: &mut V)
        requires
            place < old(entries)@.len(),
        ensures
            *value == old(entries)@[place as int].1,
            final(entries)@ == old(entries)@.update(
                place as int,
                (old(entries)@[place as int].0, *final(value)),
            ),
        no_unwind
    {
        &mut entries[place].1
    }

    /// The value of `key`, to be changed, if the map has one.
    pub fn get_mut(&mut self, key: &str) -> (value: Option<&mut V>)
        ensures
            match value {
                Some(value) => {
                    &&& old(self)@.contains_pair(key@, *value)
                    &&& final(self)@ == old(self)@.insert(key@, *final(value))
                },
                None => !old(self)@.contains_key(key@) && final(self)@ == old(self)@,
            },
    {
        proof {
            use_type_invariant(&*self);
        }
        let (found, place) = Self::locate(&self.entries, key);
        if found {
            proof {
                let entries = self.entries@;
                let i = place as int;
                lemma_entry(entries, i);
                assert forall|value: V| #[trigger]
                    entries_map(entries.update(i, (entries[i].0, value))) == entries_map(
                        entries,
                    ).insert(key@, value) by {
                    lemma_changed(entries, i, value);
                }
            }
            Some(Self::value_at(&mut self.entries, place))
        } else {
            proof {
                Self::lemma_absent(self.entries@, key@, place as int);
            }
            None
        }
    }

    /// Sets the value of `key` and returns the value that it had before.
    pub fn insert(&mut self, key: String, value: V) -> (previous: Option<V>)
        ensures
            final(self)@ == old(self)@.insert(key@, value),
            previous == old(self)@.get(key@),
    {
        proof {
            use_type_invariant(&*self);
        }
        let ghost before = self.entries@;
        let mut entries: Vec<(String, V)> = Vec::new();
        std::mem::swap(&mut entries, &mut self.entries);
        let (found, place) = Self::locate(&entries, key.as_str());
        let mut previous: Option<V> = None;
        if found {
            proof {
                lemma_entry(before, place as int);
            }
            let (_, replaced) = entries.remove(place);
            previous = Some(replaced);
        } else {
            proof {
                Self::lemma_absent(before, key@, place as int);
            }
        }
        let ghost rest = entries@;
        let ghost k = key;
        proof {
            assert forall|i: int| 0 <= i < place implies #[trigger] text_before(
                rest[i].0@,
                key@,
            ) by {
                assert(rest[i] == before[i]);
                if found {
                    assert(text_before(before[i].0@, before[place as int].0@));
                }
            }
            assert forall|i: int| place <= i < rest.len() implies #[trigger] text_before(
                key@,
                rest[i].0@,
            ) by {
                if found {
                    assert(rest[i] == before[i + 1]);
                    assert(text_before(before[place as int].0@, before[i + 1].0@));
                }
            }
            assert(sorted_by_key(rest)) by {
                assert forall|i: int, j: int| 0 <= i < j < rest.len() implies #[trigger] text_before(
                    rest[i].0@,
                    rest[j].0@,
                ) by {
                    let i2 = if found && i >= place { i + 1 } else { i };
                    let j2 = if found && j >= place { j + 1 } else { j };
                    assert(text_before(before[i2].0@, before[j2].0@));
                }
            }
        }
        entries.insert(place, (key, value));
        proof {
            let after = entries@;
            assert(sorted_by_key(after)) by {
                assert forall|i: int, j: int|
                    0 <= i < j < after.len() implies #[trigger] text_before(
                    after[i].0@,
                    after[j].0@,
                ) by {
                    if i != place && j != place {
                        let i2 = if i > place { i - 1 } else { i };
                        let j2 = if j > place { j - 1 } else { j };
                        assert(text_before(rest[i2].0@, rest[j2].0@));
                    } else if i == place {
                        assert(text_before(k@, rest[j - 1].0@));
                    } else {
                        assert(text_before(rest[i].0@, k@));
                    }
                }
            }
            lemma_entry(after, place as int);
            let expected = entries_map(before).insert(k@, value);
            assert forall|i: int|
                #![trigger after[i]]
                0 <= i < after.len() && i != place implies expected.contains_pair(
                after[i].0@,
                after[i].1,
            ) by {
                let r = if i > place { i - 1 } else { i };
                let b = if found && r >= place { r + 1 } else { r };
                assert(before[b] == after[i]);
                lemma_entry(before, b);
                lemma_text_before_irreflexive(k@);
                if i < place {
                    assert(text_before(after[i].0@, after[place as int].0@));
                } else {
                    assert(text_before(after[place as int].0@, after[i].0@));
                }
            }
            assert forall|key2: Seq<char>| #[trigger]
                entries_map(after).contains_key(key2) implies expected.contains_pair(
                key2,
                entries_map(after)[key2],
            ) by {
                let i = choose|i: int| key_at(after, key2, i);
                lemma_entry(after, i);
                assert(i != place ==> expected.contains_pair(after[i].0@, after[i].1));
            }
            assert forall|key2: Seq<char>| #[trigger] expected.contains_key(key2) implies entries_map(
                after,
            ).contains_key(key2) by {
                if key2 != k@ {
                    let b = choose|b: int| key_at(before, key2, b);
                    let r = if found && b > place { b - 1 } else { b };
                    let i = if r >= place { r + 1 } else { r };
                    assert(before[b] == after[i]);
                    lemma_entry(after, i);
                }
            }
            assert(entries_map(after) =~= expected);
        }
        self.entries = entries;
        previous
    }

    /// Removes `key` and returns the value that it had.
    pub fn remove(&mut self, key: &str) -> (removed: Option<V>)
        ensures
            final(self)@ == old(self)@.remove(key@),
            removed == old(self)@.get(key@),
    {
        proof {
            use_type_invariant(&*self);
        }
        let (found, place) = Self::locate(&self.entries, key);
        if found {
            proof {
                lemma_entry(self.entries@, place as int);
                lemma_removed(self.entries@, place as int);
            }
            let mut entries: Vec<(String, V)> = Vec::new();
            std::mem::swap(&mut entries, &mut self.entries);
            let (_, removed) = entries.remove(place);
            self.entries = entries;
            Some(removed)
        } else {
            proof {
                Self::lemma_absent(self.entries@, key@, place as int);
                assert(self@.remove(key@) =~= self@);
            }
            None
        }
    }

    /// The number of keys in the map.
    pub fn len(&self) -> (len: usize)
        ensures
            self@.dom().finite(),
            len == self@.len(),
    {
        proof {
            use_type_invariant(self);
            lemma_size(self.entries@);
        }
        self.entries.len()
    }

    /// Whether the map has no key.
    pub fn is_empty(&self) -> (empty: bool)
        ensures
            empty == (self@ == Map::<Seq<char>, V>::empty()),
    {
        proof {
            use_type_invariant(self);
            if self.entries@.len() > 0 {
                lemma_entry(self.entries@, 0);
            } else {
                assert(self@ =~= Map::<Seq<char>, V>::empty());
            }
        }
        self.entries.len() == 0
    }

    /// The entries of the map, in the order of their keys.
    pub fn iter(&self) -> (entries: Vec<(&String, &V)>)
        ensures
            forall|i: int, j: int|
                0 <= i < j < entries@.len() ==> #[trigger] text_before(
                    entries@[i].0@,
                    entries@[j].0@,
                ),
            forall|i: int|
                0 <= i < entries@.len() ==> self@.contains_pair(
                    #[trigger] entries@[i].0@,
                    *entries@[i].1,
                ),
            forall|key: Seq<char>| #[trigger]
                self@.contains_key(key) ==> exists|i: int|
                    0 <= i < entries@.len() && #[trigger] entries@[i].0@ == key,
    {
        proof {
            use_type_invariant(self);
        }
        let mut entries: Vec<(&String, &V)> = Vec::new();
        let mut i: usize = 0;
        while i < self.entries.len()
            invariant
                i <= self.entries@.len(),
                entries@.len() == i,
                forall|j: int|
                    0 <= j < i ==> #[trigger] entries@[j] == (
                        &self.entries@[j].0,
                        &self.entries@[j].1,
                    ),
            decreases self.entries@.len() - i,
        {
            entries.push((&self.entries[i].0, &self.entries[i].1));
            i += 1;
        }
        proof {
            assert forall|j: int| 0 <= j < entries@.len() implies self@.contains_pair(
                #[trigger] entries@[j].0@,
                *entries@[j].1,
            ) by {
                assert(entries@[j] == (&self.entries@[j].0, &self.entries@[j].1));
                lemma_entry(self.entries@, j);
            }
            assert forall|j: int, k: int|
                0 <= j < k < entries@.len() implies #[trigger] text_before(
                entries@[j].0@,
                entries@[k].0@,
            ) by {
                assert(entries@[j] == (&self.entries@[j].0, &self.entries@[j].1));
                assert(entries@[k] == (&self.entries@[k].0, &self.entries@[k].1));
                assert(text_before(self.entries@[j].0@, self.entries@[k].0@));
            }
            assert forall|key: Seq<char>| #[trigger] self@.contains_key(key) implies exists|j: int|
                0 <= j < entries@.len() && #[trigger] entries@[j].0@ == key by {
                let j = choose|j: int| key_at(self.entries@, key, j);
                assert(entries@[j] == (&self.entries@[j].0, &self.entries@[j].1));
            }
        }
        entries
    }
}

impl<V: Clone> Clone for StringMap<V> {
    /// Clones every value of the map, under the same keys.
    fn clone(&self) -> (copy: Self)
        ensures
            copy@.dom() == self@.dom(),
            forall|key: Seq<char>| #[trigger]
                self@.contains_key(key) ==> cloned::<V>(self@[key], copy@[key]),
    {
        proof {
            use_type_invariant(self);
        }
        let mut entries: Vec<(String, V)> = Vec::new();
        let mut i: usize = 0;
        while i < self.entries.len()
            invariant
                i <= self.entries@.len(),
                entries@.len() == i,
                forall|j: int|
                    #![trigger entries@[j]]
                    0 <= j < i ==> {
                        &&& entries@[j].0@ == self.entries@[j].0@
                        &&& cloned::<V>(self.entries@[j].1, entries@[j].1)
                    },
            decreases self.entries@.len() - i,
        {
            let key = self.entries[i].0.clone();
            let value = self.entries[i].1.clone();
            entries.push((key, value));
            i += 1;
        }
        proof {
            let old_entries = self.entries@;
            assert(sorted_by_key(entries@)) by {
                assert forall|j: int, k: int|
                    0 <= j < k < entries@.len() implies #[trigger] text_before(
                    entries@[j].0@,
                    entries@[k].0@,
                ) by {
                    assert(text_before(old_entries[j].0@, old_entries[k].0@));
                }
            }
            assert forall|key: Seq<char>|
                entries_map(old_entries).contains_key(key) implies #[trigger] entries_map(
                entries@,
            ).contains_key(key) && cloned::<V>(
                entries_map(old_entries)[key],
                entries_map(entries@)[key],
            ) by {
                let j = choose|j: int| key_at(old_entries, key, j);
                lemma_entry(old_entries, j);
                lemma_entry(entries@, j);
            }
            assert forall|key: Seq<char>| #[trigger]
                entries_map(entries@).contains_key(key) implies entries_map(
                old_entries,
            ).contains_key(key) by {
                let j = choose|j: int| key_at(entries@, key, j);
                lemma_entry(old_entries, j);
            }
            assert(entries_map(entries@).dom() =~= entries_map(old_entries).dom());
        }
        StringMap { entries }
    }
}

} // verus!
