//! The local copy of the flow definitions: an associative store from keys to
//! encoded flows that keeps its entries in the order in which their keys
//! first arrived.

use vstd::prelude::*;
use crate::key::{holds_flow_id, is_key_of_flow};

verus! {

/// Whether some pair of `pairs` has the key `key`.
pub open spec fn has_key<V>(pairs: Seq<(Seq<char>, V)>, key: Seq<char>) -> bool {
    exists|i: int| 0 <= i < pairs.len() && (#[trigger] pairs[i]).0 == key
}

/// The place of a pair with the key `key`, where there is one.
pub open spec fn index_of<V>(pairs: Seq<(Seq<char>, V)>, key: Seq<char>) -> int {
    choose|i: int| 0 <= i < pairs.len() && (#[trigger] pairs[i]).0 == key
}

/// No key occurs twice.
pub open spec fn distinct_keys<V>(pairs: Seq<(Seq<char>, V)>) -> bool {
    forall|i: int, j: int|
        0 <= i < j < pairs.len() ==> (#[trigger] pairs[i]).0 != (#[trigger] pairs[j]).0
}

/// The map that a list of pairs with distinct keys stands for.
pub open spec fn pairs_map<V>(pairs: Seq<(Seq<char>, V)>) -> Map<Seq<char>, V> {
    Map::new(|k: Seq<char>| has_key(pairs, k), |k: Seq<char>| pairs[index_of(pairs, k)].1)
}

/// The pairs after `value` is stored under `key`: written over the old value
/// in place where the key exists, added at the end where it does not.
pub open spec fn put_pair<V>(
    pairs: Seq<(Seq<char>, V)>,
    key: Seq<char>,
    value: V,
) -> Seq<(Seq<char>, V)> {
    if has_key(pairs, key) {
        pairs.update(index_of(pairs, key), (key, value))
    } else {
        pairs.push((key, value))
    }
}

/// The pairs whose keys `keep` accepts, in their old order.
pub open spec fn retain_keys<V>(
    pairs: Seq<(Seq<char>, V)>,
    keep: spec_fn(Seq<char>) -> bool,
) -> Seq<(Seq<char>, V)>
    decreases pairs.len(),
{
    if pairs.len() == 0 {
        Seq::empty()
    } else {
        let before = retain_keys(pairs.drop_last(), keep);
        if keep(pairs.last().0) {
            before.push(pairs.last())
        } else {
            before
        }
    }
}

/// Accepts every key but `key`.
pub open spec fn other_than(key: Seq<char>) -> spec_fn(Seq<char>) -> bool {
    |k: Seq<char>| k != key
}

/// Accepts every key that is not the key of a flow with the id `flow_id`.
pub open spec fn outside_flow(flow_id: int) -> spec_fn(Seq<char>) -> bool {
    |k: Seq<char>| !holds_flow_id(k, flow_id)
}

/// Accepts the keys that both `f` and `g` accept.
pub open spec fn both(
    f: spec_fn(Seq<char>) -> bool,
    g: spec_fn(Seq<char>) -> bool,
) -> spec_fn(Seq<char>) -> bool {
    |k: Seq<char>| f(k) && g(k)
}

/// The keys of `pairs`, in order.
pub open spec fn keys_of<V>(pairs: Seq<(Seq<char>, V)>) -> Seq<Seq<char>> {
    Seq::new(pairs.len(), |i: int| pairs[i].0)
}

/// The value of the first pair whose key is the key of a flow with the id
/// `flow_id`.
pub open spec fn first_of_flow<V>(pairs: Seq<(Seq<char>, V)>, flow_id: int) -> Option<V>
    decreases pairs.len(),
{
    if pairs.len() == 0 {
        None
    } else if holds_flow_id(pairs.first().0, flow_id) {
        Some(pairs.first().1)
    } else {
        first_of_flow(pairs.drop_first(), flow_id)
    }
}

/// With distinct keys, the place of a key is the place where it stands.
pub proof fn lemma_index_of<V>(pairs: Seq<(Seq<char>, V)>, i: int)
    requires
        distinct_keys(pairs),
        0 <= i < pairs.len(),
    ensures
        has_key(pairs, pairs[i].0),
        index_of(pairs, pairs[i].0) == i,
{
    let j = index_of(pairs, pairs[i].0);
    assert(pairs[j].0 == pairs[i].0);
}

/// Storing a value keeps the keys distinct and inserts into the map.
pub proof fn lemma_put_pair<V>(pairs: Seq<(Seq<char>, V)>, key: Seq<char>, value: V)
    requires
        distinct_keys(pairs),
    ensures
        distinct_keys(put_pair(pairs, key, value)),
        pairs_map(put_pair(pairs, key, value)) == pairs_map(pairs).insert(key, value),
        put_pair(pairs, key, value).len() == if has_key(pairs, key) {
            pairs.len()
        } else {
            pairs.len() + 1
        },
{
    let after = put_pair(pairs, key, value);
    assert forall|k: Seq<char>| has_key(after, k) <==> (k == key || has_key(pairs, k)) by {
        if has_key(after, k) && k != key {
            assert(pairs[index_of(after, k)].0 == k);
        }
        if k == key {
            if has_key(pairs, key) {
                assert(after[index_of(pairs, key)].0 == key);
            } else {
                assert(after[pairs.len() as int].0 == key);
            }
        } else if has_key(pairs, k) {
            let i = index_of(pairs, k);
            assert(after[i].0 == k);
        }
    }
}

/// What `retain_keys` keeps: every kept pair was there, every pair that was
/// there and is accepted is kept, and the order stays.
pub proof fn lemma_retain_keys<V>(pairs: Seq<(Seq<char>, V)>, keep: spec_fn(Seq<char>) -> bool)
    requires
        distinct_keys(pairs),
    ensures
        distinct_keys(retain_keys(pairs, keep)),
        retain_keys(pairs, keep).len() <= pairs.len(),
        forall|k: Seq<char>| #[trigger]
            has_key(retain_keys(pairs, keep), k) <==> (has_key(pairs, k) && keep(k)),
        forall|k: Seq<char>|
            has_key(pairs, k) && keep(k) ==> #[trigger] pairs_map(retain_keys(pairs, keep))[k]
                == pairs_map(pairs)[k],
    decreases pairs.len(),
{
    let kept = retain_keys(pairs, keep);
    if pairs.len() > 0 {
        let init = pairs.drop_last();
        let last = pairs.last();
        let before = retain_keys(init, keep);
        lemma_retain_keys(init, keep);
        assert forall|k: Seq<char>| has_key(pairs, k) implies has_key(init, k) || k == last.0 by {
            let i = index_of(pairs, k);
            if i < init.len() {
                assert(init[i].0 == k);
            }
        }
        assert forall|k: Seq<char>| #[trigger]
            has_key(kept, k) <==> (has_key(pairs, k) && keep(k)) by {
            if has_key(kept, k) {
                let i = index_of(kept, k);
                if i < before.len() {
                    assert(has_key(before, k));
                }
            }
            if has_key(pairs, k) && keep(k) {
                if k == last.0 {
                    assert(kept[before.len() as int].0 == k);
                } else {
                    let i = index_of(before, k);
                    assert(kept[i].0 == k);
                }
            }
        }
        assert forall|i: int, j: int| 0 <= i < j < kept.len() implies (#[trigger] kept[i]).0 != (
        #[trigger] kept[j]).0 by {
            if j == before.len() {
                assert(has_key(before, before[i].0));
            }
        }
        assert forall|k: Seq<char>| has_key(pairs, k) && keep(k) implies #[trigger] pairs_map(
            kept,
        )[k] == pairs_map(pairs)[k] by {
            assert(has_key(kept, k));
            let i = index_of(kept, k);
            if k == last.0 {
                if i < before.len() {
                    assert(has_key(before, k));
                }
            } else {
                assert(pairs_map(before)[k] == pairs_map(init)[k]);
            }
        }
    }
}

/// With distinct keys, taking out one key is taking out the pair at its
/// place.
pub proof fn lemma_retain_other_than<V>(pairs: Seq<(Seq<char>, V)>, at: int)
    requires
        distinct_keys(pairs),
        0 <= at < pairs.len(),
    ensures
        retain_keys(pairs, other_than(pairs[at].0)) == pairs.remove(at),
    decreases pairs.len(),
{
    let key = pairs[at].0;
    let init = pairs.drop_last();
    if at == pairs.len() - 1 {
        lemma_retain_absent(init, key);
    } else {
        lemma_retain_other_than(init, at);
    }
}

/// Taking out a key that is not there changes nothing.
pub proof fn lemma_retain_absent<V>(pairs: Seq<(Seq<char>, V)>, key: Seq<char>)
    requires
        !has_key(pairs, key),
    ensures
        retain_keys(pairs, other_than(key)) == pairs,
    decreases pairs.len(),
{
    if pairs.len() > 0 {
        lemma_retain_absent(pairs.drop_last(), key);
    }
}

/// What the first pair of a flow id is: nothing is found exactly if no key
/// is a key of that flow id, and what is found is the value of a key of that
/// flow id before which no such key stands.
pub proof fn lemma_first_of_flow<V>(pairs: Seq<(Seq<char>, V)>, flow_id: int)
    ensures
        first_of_flow(pairs, flow_id) is None <==> forall|i: int|
            0 <= i < pairs.len() ==> !holds_flow_id((#[trigger] pairs[i]).0, flow_id),
        first_of_flow(pairs, flow_id) matches Some(v) ==> exists|i: int|
            0 <= i < pairs.len() && holds_flow_id((#[trigger] pairs[i]).0, flow_id) && pairs[i].1
                == v,
    decreases pairs.len(),
{
    if pairs.len() > 0 {
        let rest = pairs.drop_first();
        lemma_first_of_flow(rest, flow_id);
        if holds_flow_id(pairs.first().0, flow_id) {
            assert(holds_flow_id(pairs[0].0, flow_id) && pairs[0].1 == pairs.first().1);
        } else {
            assert forall|i: int| 0 <= i < rest.len() implies rest[i] == pairs[i + 1] by {}
            if first_of_flow(rest, flow_id) is Some {
                let v = first_of_flow(rest, flow_id)->0;
                let i = choose|i: int|
                    0 <= i < rest.len() && holds_flow_id((#[trigger] rest[i]).0, flow_id)
                        && rest[i].1 == v;
                assert(holds_flow_id(pairs[i + 1].0, flow_id) && pairs[i + 1].1 == v);
            }
            if forall|i: int| 0 <= i < rest.len() ==> !holds_flow_id((#[trigger] rest[i]).0, flow_id) {
                assert forall|i: int| 0 <= i < pairs.len() implies !holds_flow_id(
                    (#[trigger] pairs[i]).0,
                    flow_id,
                ) by {
                    if i > 0 {
                        assert(rest[i - 1] == pairs[i]);
                    }
                }
            }
            if forall|i: int| 0 <= i < pairs.len() ==> !holds_flow_id((#[trigger] pairs[i]).0, flow_id) {
                assert forall|i: int| 0 <= i < rest.len() implies !holds_flow_id(
                    (#[trigger] rest[i]).0,
                    flow_id,
                ) by {
                    assert(rest[i] == pairs[i + 1]);
                }
            }
        }
    }
}

/// Keeping by one rule and then by another is keeping by both at once.
pub proof fn lemma_retain_twice<V>(
    pairs: Seq<(Seq<char>, V)>,
    f: spec_fn(Seq<char>) -> bool,
    g: spec_fn(Seq<char>) -> bool,
)
    ensures
        retain_keys(retain_keys(pairs, f), g) == retain_keys(pairs, both(f, g)),
    decreases pairs.len(),
{
    if pairs.len() > 0 {
        let init = pairs.drop_last();
        lemma_retain_twice(init, f, g);
        if f(pairs.last().0) {
            assert(retain_keys(init, f).push(pairs.last()).drop_last() =~= retain_keys(init, f));
        }
    }
}

/// Two rules that agree on every key that is there keep the same pairs.
pub proof fn lemma_retain_agree<V>(
    pairs: Seq<(Seq<char>, V)>,
    f: spec_fn(Seq<char>) -> bool,
    g: spec_fn(Seq<char>) -> bool,
)
    requires
        forall|i: int| 0 <= i < pairs.len() ==> f((#[trigger] pairs[i]).0) == g(pairs[i].0),
    ensures
        retain_keys(pairs, f) == retain_keys(pairs, g),
    decreases pairs.len(),
{
    if pairs.len() > 0 {
        let init = pairs.drop_last();
        assert forall|i: int| 0 <= i < init.len() implies f((#[trigger] init[i]).0) == g(
            init[i].0,
        ) by {
            assert(init[i] == pairs[i]);
        }
        lemma_retain_agree(init, f, g);
        assert(f(pairs[pairs.len() - 1].0) == g(pairs[pairs.len() - 1].0));
    }
}

/// A rule that accepts every key that is there keeps all pairs; one that
/// accepts none of them keeps none.
pub proof fn lemma_retain_all_or_none<V>(pairs: Seq<(Seq<char>, V)>, keep: spec_fn(Seq<char>) -> bool)
    ensures
        (forall|i: int| 0 <= i < pairs.len() ==> keep((#[trigger] pairs[i]).0)) ==> retain_keys(
            pairs,
            keep,
        ) == pairs,
        (forall|i: int| 0 <= i < pairs.len() ==> !keep((#[trigger] pairs[i]).0)) ==> retain_keys(
            pairs,
            keep,
        ) == Seq::<(Seq<char>, V)>::empty(),
    decreases pairs.len(),
{
    if pairs.len() > 0 {
        let init = pairs.drop_last();
        lemma_retain_all_or_none(init, keep);
        if forall|i: int| 0 <= i < pairs.len() ==> keep((#[trigger] pairs[i]).0) {
            assert forall|i: int| 0 <= i < init.len() implies keep((#[trigger] init[i]).0) by {
                assert(init[i] == pairs[i]);
            }
            assert(keep(pairs[pairs.len() - 1].0));
            assert(init.push(pairs.last()) =~= pairs);
        }
        if forall|i: int| 0 <= i < pairs.len() ==> !keep((#[trigger] pairs[i]).0) {
            assert forall|i: int| 0 <= i < init.len() implies !keep((#[trigger] init[i]).0) by {
                assert(init[i] == pairs[i]);
            }
            assert(!keep(pairs[pairs.len() - 1].0));
        }
    } else {
        assert(pairs =~= Seq::<(Seq<char>, V)>::empty());
    }
}

/// Keeping the keys that `keep` accepts takes exactly the others out of the
/// map.
pub proof fn lemma_retain_keys_map<V>(
    pairs: Seq<(Seq<char>, V)>,
    keep: spec_fn(Seq<char>) -> bool,
)
    requires
        distinct_keys(pairs),
    ensures
        pairs_map(retain_keys(pairs, keep)) == pairs_map(pairs).remove_keys(
            Set::new(|k: Seq<char>| !keep(k)),
        ),
{
    lemma_retain_keys(pairs, keep);
}

/// One stored flow: its key and its encoded definition.
#[derive(Debug, PartialEq, Eq)]
pub struct Entry {
    pub key: String,
    pub value: Vec<u8>,
}

/// An associative store of encoded flows. Each key is held once; a value
/// stored under a key that is already there replaces the old one.
#[derive(Debug, PartialEq, Eq)]
pub struct FlowCache {
    entries: Vec<Entry>,
}

/// The pairs of key and value that a list of entries holds.
pub open spec fn entry_pairs(entries: Seq<Entry>) -> Seq<(Seq<char>, Seq<u8>)> {
    Seq::new(entries.len(), |i: int| (entries[i].key@, entries[i].value@))
}

impl FlowCache {
    /// The stored pairs of key and value, in the order in which the keys first
    /// arrived.
    pub closed spec fn pairs(&self) -> Seq<(Seq<char>, Seq<u8>)> {
        entry_pairs(self.entries@)
    }

    /// The stored flows as a map from key to value.
    pub open spec fn view(&self) -> Map<Seq<char>, Seq<u8>> {
        pairs_map(self.pairs())
    }

    #[verifier::type_invariant]
    spec fn keys_are_distinct(&self) -> bool {
        distinct_keys(self.pairs())
    }

    /// An empty store.
    pub fn new() -> (cache: Self)
        ensures
            cache.pairs() == Seq::<(Seq<char>, Seq<u8>)>::empty(),
            cache@ == Map::<Seq<char>, Seq<u8>>::empty(),
    {
        let cache = FlowCache { entries: Vec::new() };
        cache
    }

    /// The number of stored keys.
    pub fn len(&self) -> (n: usize)
        ensures
            n == self.pairs().len(),
            distinct_keys(self.pairs()),
    {
        proof {
            use_type_invariant(self);
        }
        self.entries.len()
    }

    /// Whether nothing is stored.
    pub fn is_empty(&self) -> (empty: bool)
        ensures
            empty == (self.pairs().len() == 0),
            empty == (self@ == Map::<Seq<char>, Seq<u8>>::empty()),
    {
        let empty = self.entries.len() == 0;
        proof {
            if empty {
                assert(self@ =~= Map::<Seq<char>, Seq<u8>>::empty());
            } else {
                assert(self@.contains_key(self.pairs()[0].0));
            }
        }
        empty
    }

    /// The entry at place `i` of the listing, if the listing is that long.
    pub fn entry_at(&self, i: usize) -> (entry: Option<&Entry>)
        ensures
            match entry {
                Some(e) => i < self.pairs().len() && self.pairs()[i as int] == (e.key@, e.value@),
                None => i >= self.pairs().len(),
            },
    {
        if i < self.entries.len() {
            Some(&self.entries[i])
        } else {
            None
        }
    }

    fn position(&self, key: &String) -> (at: Option<usize>)
        ensures
            distinct_keys(self.pairs()),
            match at {
                Some(i) => i < self.pairs().len() && self.pairs()[i as int].0 == key@
                    && has_key(self.pairs(), key@) && index_of(self.pairs(), key@) == i,
                None => !has_key(self.pairs(), key@),
            },
    {
        proof {
            use_type_invariant(self);
        }
        let mut i: usize = 0;
        while i < self.entries.len()
            invariant
                i <= self.entries.len(),
                distinct_keys(self.pairs()),
                forall|j: int| 0 <= j < i ==> (#[trigger] self.pairs()[j]).0 != key@,
            decreases self.entries.len() - i,
        {
            if self.entries[i].key == *key {
                proof {
                    lemma_index_of(self.pairs(), i as int);
                }
                return Some(i);
            }
            i = i + 1;
        }
        None
    }

    /// The keys in listing order; none occurs twice.
    pub fn keys(&self) -> (keys: Vec<String>)
        ensures
            keys@.len() == self.pairs().len(),
            forall|i: int| 0 <= i < keys@.len() ==> (#[trigger] keys@[i])@ == self.pairs()[i].0,
            distinct_keys(self.pairs()),
    {
        proof {
            use_type_invariant(self);
        }
        let mut keys: Vec<String> = Vec::new();
        let mut i: usize = 0;
        while i < self.entries.len()
            invariant
                i <= self.entries.len(),
                keys@.len() == i,
                forall|j: int| 0 <= j < i ==> (#[trigger] keys@[j])@ == self.pairs()[j].0,
            decreases self.entries.len() - i,
        {
            keys.push(self.entries[i].key.clone());
            i = i + 1;
        }
        keys
    }

    /// Whether a value is stored under `key`.
    pub fn contains_key(&self, key: &String) -> (found: bool)
        ensures
            found == self@.contains_key(key@),
    {
        self.position(key).is_some()
    }

    /// The value stored under `key`, if there is one.
    pub fn get(&self, key: &String) -> (value: Option<&Vec<u8>>)
        ensures
            match value {
                Some(v) => self@.contains_key(key@) && self@[key@] == v@,
                None => !self@.contains_key(key@),
            },
    {
        match self.position(key) {
            Some(i) => Some(&self.entries[i].value),
            None => None,
        }
    }

    /// The value of the first key, in listing order, that is the key of a
    /// flow with the id `flow_id`.
    pub fn get_by_flow_id(&self, flow_id: i64) -> (value: Option<&Vec<u8>>)
        ensures
            match value {
                Some(v) => first_of_flow(self.pairs(), flow_id as int) == Some(v@),
                None => first_of_flow(self.pairs(), flow_id as int) is None,
            },
    {
        let mut i: usize = 0;
        assert(self.pairs().subrange(0, self.pairs().len() as int) =~= self.pairs());
        while i < self.entries.len()
            invariant
                i <= self.entries.len(),
                first_of_flow(self.pairs(), flow_id as int) == first_of_flow(
                    self.pairs().subrange(i as int, self.pairs().len() as int),
                    flow_id as int,
                ),
            decreases self.entries.len() - i,
        {
            assert(self.pairs().subrange(i as int, self.pairs().len() as int).drop_first()
                =~= self.pairs().subrange(i + 1, self.pairs().len() as int));
            if is_key_of_flow(&self.entries[i].key, flow_id) {
                return Some(&self.entries[i].value);
            }
            i = i + 1;
        }
        None
    }

    /// Stores `value` under `key`. A value already stored under the key is
    /// replaced in place; a new key goes to the end of the listing.
    pub fn put(&mut self, key: String, value: Vec<u8>)
        ensures
            final(self).pairs() == put_pair(old(self).pairs(), key@, value@),
            final(self)@ == old(self)@.insert(key@, value@),
            final(self).pairs().len() == if old(self)@.contains_key(key@) {
                old(self).pairs().len()
            } else {
                old(self).pairs().len() + 1
            },
    {
        let ghost before = self.pairs();
        let ghost k = key@;
        let ghost v = value@;
        proof {
            use_type_invariant(&*self);
            lemma_put_pair(before, k, v);
        }
        let at = self.position(&key);
        let mut entries: Vec<Entry> = Vec::new();
        core::mem::swap(&mut entries, &mut self.entries);
        match at {
            Some(i) => {
                entries.set(i, Entry { key, value });
            },
            None => {
                entries.push(Entry { key, value });
            },
        }
        assert(entry_pairs(entries@) =~= put_pair(before, k, v));
        self.entries = entries;
    }

    /// Takes out what is stored under `key`; says whether there was anything.
    pub fn delete(&mut self, key: &String) -> (removed: bool)
        ensures
            removed == old(self)@.contains_key(key@),
            final(self).pairs() == retain_keys(old(self).pairs(), other_than(key@)),
            final(self)@ == old(self)@.remove(key@),
    {
        let ghost before = self.pairs();
        proof {
            use_type_invariant(&*self);
        }
        let found = self.contains_key(key);
        self.retain(Selector::AllBut(key));
        proof {
            lemma_retain_keys_map(before, other_than(key@));
        }
        found
    }

    /// Takes out every key of a flow with the id `flow_id`, whatever the
    /// type, the slug and the project in the key are; returns how many there
    /// were. All other entries stay as they are, in their order.
    pub fn delete_by_flow_id(&mut self, flow_id: i64) -> (removed: usize)
        ensures
            final(self).pairs() == retain_keys(old(self).pairs(), outside_flow(flow_id as int)),
            final(self)@ == old(self)@.remove_keys(
                Set::new(|k: Seq<char>| holds_flow_id(k, flow_id as int)),
            ),
            removed == old(self).pairs().len() - final(self).pairs().len(),
    {
        let ghost before = self.pairs();
        proof {
            use_type_invariant(&*self);
        }
        let removed = self.retain(Selector::OfOtherFlows(flow_id));
        proof {
            lemma_retain_keys_map(before, outside_flow(flow_id as int));
            assert(Set::new(|k: Seq<char>| !outside_flow(flow_id as int)(k)) =~= Set::new(
                |k: Seq<char>| holds_flow_id(k, flow_id as int),
            ));
        }
        removed
    }

    /// Takes out every entry.
    pub fn clear(&mut self)
        ensures
            final(self).pairs() == Seq::<(Seq<char>, Seq<u8>)>::empty(),
            final(self)@ == Map::<Seq<char>, Seq<u8>>::empty(),
    {
        let entries: Vec<Entry> = Vec::new();
        self.entries = entries;
    }

    /// Keeps the entries whose keys `selector` accepts; returns how many were
    /// taken out.
    fn retain(&mut self, selector: Selector) -> (removed: usize)
        ensures
            final(self).pairs() == retain_keys(old(self).pairs(), selector.keeps()),
            removed == old(self).pairs().len() - final(self).pairs().len(),
    {
        let ghost before = self.pairs();
        let ghost keep = selector.keeps();
        proof {
            use_type_invariant(&*self);
        }
        let mut old_entries: Vec<Entry> = Vec::new();
        core::mem::swap(&mut old_entries, &mut self.entries);
        let total = old_entries.len();
        let mut kept: Vec<Entry> = Vec::new();
        let mut i: usize = 0;
        while i < old_entries.len()
            invariant
                i <= old_entries.len(),
                total == old_entries.len(),
                before.len() == old_entries.len(),
                forall|j: int|
                    0 <= j < before.len() ==> #[trigger] before[j] == (
                        old_entries@[j].key@,
                        old_entries@[j].value@,
                    ),
                keep == selector.keeps(),
                entry_pairs(kept@) == retain_keys(before.subrange(0, i as int), keep),
                kept@.len() <= i,
            decreases old_entries.len() - i,
        {
            assert(before.subrange(0, i + 1).drop_last() =~= before.subrange(0, i as int));
            if selector.accepts(&old_entries[i].key) {
                let entry = Entry {
                    key: old_entries[i].key.clone(),
                    value: copy_bytes(&old_entries[i].value),
                };
                kept.push(entry);
            }
            i = i + 1;
        }
        assert(before.subrange(0, total as int) =~= before);
        proof {
            lemma_retain_keys(before, keep);
        }
        let removed = total - kept.len();
        self.entries = kept;
        removed
    }
}

/// The two ways in which entries are picked for removal.
enum Selector<'a> {
    /// Keep every key but this one.
    AllBut(&'a String),
    /// Keep every key that is not the key of a flow with this id.
    OfOtherFlows(i64),
}

impl<'a> Selector<'a> {
    spec fn keeps(self) -> spec_fn(Seq<char>) -> bool {
        match self {
            Selector::AllBut(key) => other_than(key@),
            Selector::OfOtherFlows(flow_id) => outside_flow(flow_id as int),
        }
    }

    fn accepts(&self, key: &String) -> (keep: bool)
        ensures
            keep == (self.keeps())(key@),
    {
        match self {
            Selector::AllBut(subject) => !(*key == **subject),
            Selector::OfOtherFlows(flow_id) => !is_key_of_flow(key, *flow_id),
        }
    }
}

/// A copy of `bytes`.
pub fn copy_bytes(bytes: &Vec<u8>) -> (copy: Vec<u8>)
    ensures
        copy@ == bytes@,
{
    let mut copy: Vec<u8> = Vec::new();
    let mut i: usize = 0;
    while i < bytes.len()
        invariant
            i <= bytes.len(),
            copy@ == bytes@.subrange(0, i as int),
        decreases bytes.len() - i,
    {
        copy.push(bytes[i]);
        i = i + 1;
    }
    copy
}

} // verus!
