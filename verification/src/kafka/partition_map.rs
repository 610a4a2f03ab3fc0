//! Values by partition.

use crate::kafka::client::TopicPartition;
use std::collections::HashMap;
use vstd::hash_map::StringHashMap;
use vstd::prelude::*;

verus! {

/// How many numbers a partition can have: those of an `i32`.
pub const PARTITION_NUMBERS: u128 = 0x1_0000_0000;

/// The lowest number that a partition can have, without its sign.
pub const LOWEST_PARTITION: i64 = 0x8000_0000;

/// A map from partitions to values that can be walked in the order in which its
/// keys were first inserted.
///
/// A topic goes by the position of its first entry, and an entry is found through
/// the number that its topic's position and its partition make.
pub struct PartitionMap<V> {
    entries: Vec<(TopicPartition, V)>,
    topics: StringHashMap<usize>,
    index: HashMap<u128, usize>,
}

/// The number under which the entry of a topic's partition is found.
spec fn slot(topic: int, partition: int) -> int {
    topic * PARTITION_NUMBERS + (partition + LOWEST_PARTITION)
}

impl<V> PartitionMap<V> {
    /// The number under which entry `i` is found.
    spec fn slot_at(&self, i: int) -> int {
        slot(self.topics@[self.entries@[i].0@.0] as int, self.entries@[i].0@.1)
    }

    /// What every operation keeps.
    pub closed spec fn wf(&self) -> bool {
        &&& forall|i: int| #![trigger self.entries@[i]]
            0 <= i < self.entries@.len() ==> {
                &&& self.topics@.contains_key(self.entries@[i].0@.0)
                &&& self.index@.contains_key(self.slot_at(i) as u128)
                &&& self.index@[self.slot_at(i) as u128] == i
            }
        &&& forall|topic: Seq<char>| #[trigger]
            self.topics@.contains_key(topic) ==> {
                &&& self.topics@[topic] < self.entries@.len()
                &&& self.entries@[self.topics@[topic] as int].0@.0 == topic
            }
        &&& forall|s: u128| #[trigger]
            self.index@.contains_key(s) ==> {
                &&& self.index@[s] < self.entries@.len()
                &&& self.slot_at(self.index@[s] as int) == s
            }
    }

    /// The keys, in the order in which they are walked.
    pub closed spec fn keys(&self) -> Seq<(Seq<char>, int)> {
        self.entries@.map_values(|e: (TopicPartition, V)| e.0@)
    }

    /// The values, in the order in which they are walked.
    pub closed spec fn values(&self) -> Seq<V> {
        self.entries@.map_values(|e: (TopicPartition, V)| e.1)
    }
}

impl<V> View for PartitionMap<V> {
    type V = Map<(Seq<char>, int), V>;

    /// The map from keys to values.
    open spec fn view(&self) -> Map<(Seq<char>, int), V> {
        Map::new(
            |key: (Seq<char>, int)| self.keys().contains(key),
            |key: (Seq<char>, int)| self.values()[self.keys().index_of(key)],
        )
    }
}

impl<V> PartitionMap<V> {
    /// Entries of different keys are found under different numbers.
    proof fn lemma_slots_differ(&self, i: int, topic: Seq<char>, partition: int)
        requires
            self.wf(),
            0 <= i < self.entries@.len(),
            self.topics@.contains_key(topic),
            i32::MIN <= partition <= i32::MAX,
        ensures
            0 <= slot(self.topics@[topic] as int, partition) <= u128::MAX,
            self.slot_at(i) == slot(self.topics@[topic] as int, partition) <==> self.entries@[i].0@
                == (topic, partition),
    {
        let entry = self.entries@[i].0@;
        assert(self.topics@.contains_key(entry.0));
        if self.slot_at(i) == slot(self.topics@[topic] as int, partition) {
            assert(self.topics@[entry.0] == self.topics@[topic]);
            assert(entry.1 == partition);
        }
    }

    /// What can be relied on when the map is walked: every key comes once, with its value.
    pub proof fn lemma_walk(&self)
        requires
            self.wf(),
        ensures
            self.keys().len() == self.values().len(),
            self.keys().no_duplicates(),
            forall|i: int| #![trigger self.keys()[i]]
                0 <= i < self.keys().len() ==> {
                    &&& self@.contains_key(self.keys()[i])
                    &&& self@[self.keys()[i]] == self.values()[i]
                },
            forall|key: (Seq<char>, int)| #[trigger]
                self@.contains_key(key) <==> self.keys().contains(key),
    {
        assert forall|i: int, j: int|
            0 <= i < self.keys().len() && 0 <= j < self.keys().len() && i != j implies self.keys()[i]
            != self.keys()[j] by {
            assert(self.index@[self.slot_at(i) as u128] == i) by {
                let _ = self.entries@[i];
            }
            assert(self.index@[self.slot_at(j) as u128] == j) by {
                let _ = self.entries@[j];
            }
        }
        assert forall|i: int| 0 <= i < self.keys().len() implies #[trigger] self@[self.keys()[i]]
            == self.values()[i] by {
            assert(self.keys().contains(self.keys()[i]));
            let at = self.keys().index_of(self.keys()[i]);
            assert(self.keys()[at] == self.keys()[i]);
        }
    }

    /// A map with the keys and values of the walk is the view.
    proof fn lemma_view_is(&self, map: Map<(Seq<char>, int), V>)
        requires
            self.wf(),
            forall|key: (Seq<char>, int)| #[trigger]
                map.contains_key(key) <==> self.keys().contains(key),
            forall|i: int| #![trigger self.keys()[i]]
                0 <= i < self.keys().len() ==> map[self.keys()[i]] == self.values()[i],
        ensures
            self@ == map,
    {
        self.lemma_walk();
        assert forall|key: (Seq<char>, int)| map.contains_key(key) implies #[trigger] self@[key]
            == map[key] by {
            let at = self.keys().index_of(key);
            assert(self.keys()[at] == key);
        }
        assert(self@ =~= map);
    }

    /// A map without entries.
    pub fn new() -> (map: Self)
        ensures
            map.wf(),
            map@ == Map::<(Seq<char>, int), V>::empty(),
    {
        let map = PartitionMap {
            entries: Vec::new(),
            topics: StringHashMap::new(),
            index: HashMap::new(),
        };
        assert(map@ =~= Map::<(Seq<char>, int), V>::empty());
        map
    }

    /// How many keys have a value.
    pub fn len(&self) -> (len: usize)
        requires
            self.wf(),
        ensures
            len == self.keys().len(),
            len == self@.len(),
    {
        proof {
            self.lemma_walk();
            self.keys().unique_seq_to_set();
            assert(self@.dom() =~= self.keys().to_set());
        }
        self.entries.len()
    }

    /// The key at a position of the walk.
    pub fn key_at(&self, i: usize) -> (key: &TopicPartition)
        requires
            i < self.keys().len(),
        ensures
            key@ == self.keys()[i as int],
    {
        &self.entries[i].0
    }

    /// The value at a position of the walk.
    pub fn value_at(&self, i: usize) -> (value: &V)
        requires
            i < self.keys().len(),
        ensures
            *value == self.values()[i as int],
    {
        &self.entries[i].1
    }

    /// The position of a key in the walk.
    fn position(&self, key: &TopicPartition) -> (at: Option<usize>)
        requires
            self.wf(),
        ensures
            match at {
                Some(i) => i < self.entries@.len() && self.entries@[i as int].0@ == key@,
                None => forall|i: int| 0 <= i < self.entries@.len() ==> #[trigger] self.entries@[i].0@
                    != key@,
            },
    {
        match self.topics.get(&*key.topic) {
            None => None,
            Some(topic) => {
                let number: u128 = *topic as u128 * PARTITION_NUMBERS + (key.partition as i64
                    + LOWEST_PARTITION) as u128;
                assert(number == slot(self.topics@[key@.0] as int, key@.1));
                assert forall|i: int| 0 <= i < self.entries@.len() implies (self.slot_at(i) == number
                    <==> #[trigger] self.entries@[i].0@ == key@) by {
                    self.lemma_slots_differ(i, key@.0, key@.1);
                }
                match self.index.get(&number) {
                    None => None,
                    Some(at) => Some(*at),
                }
            },
        }
    }

    /// The value of a key.
    pub fn get(&self, key: &TopicPartition) -> (value: Option<&V>)
        requires
            self.wf(),
        ensures
            match value {
                Some(v) => self@.contains_key(key@) && *v == self@[key@],
                None => !self@.contains_key(key@),
            },
    {
        proof {
            self.lemma_walk();
        }
        match self.position(key) {
            None => None,
            Some(at) => {
                assert(self.keys()[at as int] == key@);
                Some(&self.entries[at].1)
            },
        }
    }

    /// Sets the value of a key.
    pub fn insert(&mut self, key: TopicPartition, value: V)
        requires
            old(self).wf(),
        ensures
            final(self).wf(),
            final(self)@ == old(self)@.insert(key@, value),
            final(self).keys() == if old(self).keys().contains(key@) {
                old(self).keys()
            } else {
                old(self).keys().push(key@)
            },
    {
        let ghost before = *self;
        proof {
            before.lemma_walk();
        }
        match self.position(&key) {
            Some(at) => {
                let ghost k = key@;
                self.entries.set(at, (key, value));
                proof {
                    assert(self.keys() =~= before.keys());
                    assert(self.keys()[at as int] == k);
                    assert(forall|i: int|
                        0 <= i < self.entries@.len() ==> #[trigger] self.slot_at(i)
                            == before.slot_at(i));
                    self.lemma_view_is(before@.insert(k, value));
                }
            },
            None => {
                let end: usize = self.entries.len();
                let topic: usize = match self.topics.get(&*key.topic) {
                    Some(topic) => *topic,
                    None => {
                        self.topics.insert((*key.topic).to_owned(), end);
                        end
                    },
                };
                let number: u128 = topic as u128 * PARTITION_NUMBERS + (key.partition as i64
                    + LOWEST_PARTITION) as u128;
                self.index.insert(number, end);
                let ghost k = key@;
                self.entries.push((key, value));
                proof {
                    assert(self.keys() =~= before.keys().push(k));
                    assert(self.keys()[end as int] == k);
                    broadcast use vstd::seq_lib::lemma_seq_contains_after_push;

                    self.lemma_view_is(before@.insert(k, value));
                }
            },
        }
    }
}

} // verus!
