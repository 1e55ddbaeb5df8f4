//! The sequence-to-shots lookup table.
//!
//! A [`LevelMap`] maps each sequence name to the ordered list of its shot
//! names.  The caller builds it once and hands it to the dialog, which only
//! reads it: the keys fill the sequence selector, and a key's shots fill the
//! shot selector when that sequence is chosen.  Entries keep insertion order,
//! which is the display order of the sequence selector.

use vstd::prelude::*;

use crate::text::texts;

verus! {

use vstd::pervasive::VecAdditionalExecFns;

/// One entry as text: a sequence name with its ordered shot names.
pub type LevelEntryView = (Seq<char>, Seq<Seq<char>>);

/// The keys of the entries, in stored order.
pub open spec fn keys_of(entries: Seq<LevelEntryView>) -> Seq<Seq<char>> {
    Seq::new(entries.len(), |i: int| entries[i].0)
}

/// The shots stored under `key`: those of the first entry whose key matches,
/// or nothing when no entry does.
pub open spec fn get_of(entries: Seq<LevelEntryView>, key: Seq<char>) -> Option<Seq<Seq<char>>>
    decreases entries.len(),
{
    if entries.len() == 0 {
        None
    } else if entries[0].0 == key {
        Some(entries[0].1)
    } else {
        get_of(entries.drop_first(), key)
    }
}

/// Whether some entry's key is `key`.
pub open spec fn has_key(entries: Seq<LevelEntryView>, key: Seq<char>) -> bool {
    get_of(entries, key) is Some
}

/// The position of the first entry whose key is `key`.
pub open spec fn key_index(entries: Seq<LevelEntryView>, key: Seq<char>) -> int
    decreases entries.len(),
{
    if entries.len() == 0 {
        0
    } else if entries[0].0 == key {
        0
    } else {
        1 + key_index(entries.drop_first(), key)
    }
}

/// No two entries share a key.
pub open spec fn distinct_keys(entries: Seq<LevelEntryView>) -> bool {
    forall|i: int, j: int| 0 <= i < j < entries.len() ==> entries[i].0 != entries[j].0
}

/// How a lookup relates to the entries: a hit names the first matching
/// position, and a miss means no entry matches at all.
pub proof fn lemma_get_of_properties(entries: Seq<LevelEntryView>, key: Seq<char>)
    ensures
        has_key(entries, key) ==> {
            let at = key_index(entries, key);
            &&& 0 <= at < entries.len()
            &&& entries[at].0 == key
            &&& get_of(entries, key) == Some(entries[at].1)
            &&& forall|i: int| 0 <= i < at ==> entries[i].0 != key
        },
        !has_key(entries, key) ==> (forall|i: int|
            0 <= i < entries.len() ==> entries[i].0 != key),
    decreases entries.len(),
{
    if entries.len() > 0 && entries[0].0 != key {
        lemma_get_of_properties(entries.drop_first(), key);
        assert forall|i: int| 1 <= i < entries.len() implies entries.drop_first()[i - 1]
            == entries[i] by {}
    }
}

/// With unique keys, looking an entry's own key up finds that entry.
pub proof fn lemma_get_of_at_key(entries: Seq<LevelEntryView>, at: int)
    requires
        distinct_keys(entries),
        0 <= at < entries.len(),
    ensures
        get_of(entries, entries[at].0) == Some(entries[at].1),
    decreases entries.len(),
{
    if at > 0 {
        assert(entries[0].0 != entries[at].0);
        assert(distinct_keys(entries.drop_first())) by {
            assert forall|i: int, j: int|
                0 <= i < j < entries.drop_first().len() implies entries.drop_first()[i].0
                != entries.drop_first()[j].0 by {
                assert(entries.drop_first()[i] == entries[i + 1]);
                assert(entries.drop_first()[j] == entries[j + 1]);
            }
        }
        lemma_get_of_at_key(entries.drop_first(), at - 1);
        assert(entries.drop_first()[at - 1] == entries[at]);
    }
}

/// The sequence-to-shots table: unique sequence names in insertion order,
/// each with its ordered shot names.
pub struct LevelMap {
    entries: Vec<(String, Vec<String>)>,
}

impl View for LevelMap {
    type V = Seq<LevelEntryView>;

    closed spec fn view(&self) -> Seq<LevelEntryView> {
        Seq::new(self.entries@.len(), |i: int| (self.entries@[i].0@, texts(self.entries@[i].1@)))
    }
}

impl LevelMap {
    /// Every key appears once.
    pub open spec fn wf(self) -> bool {
        distinct_keys(self@)
    }

    /// An empty table.
    pub fn new() -> (map: LevelMap)
        ensures
            map@ == Seq::<LevelEntryView>::empty(),
            map.wf(),
    {
        let map = LevelMap { entries: Vec::new() };
        proof {
            assert(map@ =~= Seq::<LevelEntryView>::empty());
        }
        map
    }

    /// How many entries the table holds.
    pub fn len(&self) -> (n: usize)
        ensures
            n == self@.len(),
    {
        self.entries.len()
    }

    /// The position of the first entry whose key reads as `key`, if any.
    fn find_key(&self, key: &String) -> (found: Option<usize>)
        ensures
            match found {
                Some(at) => {
                    &&& has_key(self@, key@)
                    &&& at == key_index(self@, key@)
                    &&& at < self@.len()
                },
                None => !has_key(self@, key@),
            },
    {
        proof {
            lemma_get_of_properties(self@, key@);
        }
        let n: usize = self.entries.len();
        let mut i: usize = 0;
        while i < n
            invariant
                i <= n,
                n == self@.len(),
                forall|j: int| 0 <= j < i ==> self@[j].0 != key@,
            decreases n - i,
        {
            if self.entries[i].0 == *key {
                proof {
                    lemma_get_of_properties(self@, key@);
                    assert(self@[i as int].0 == key@);
                    assert(!has_key(self@, key@) ==> self@[i as int].0 != key@);
                }
                return Some(i);
            }
            i = i + 1;
        }
        None
    }

    /// Store `shots` under `key`: a fresh key goes to the end, a key already
    /// present keeps its position and has its shots replaced.
    pub fn insert(&mut self, key: String, shots: Vec<String>)
        ensures
            has_key(old(self)@, key@) ==> final(self)@ == old(self)@.update(
                key_index(old(self)@, key@),
                (key@, texts(shots@)),
            ),
            !has_key(old(self)@, key@) ==> final(self)@ == old(self)@.push(
                (key@, texts(shots@)),
            ),
            old(self).wf() ==> final(self).wf(),
    {
        proof {
            lemma_get_of_properties(self@, key@);
        }
        let found = self.find_key(&key);
        match found {
            Some(at) => {
                self.entries.set(at, (key, shots));
                proof {
                    assert(self@ =~= old(self)@.update(
                        key_index(old(self)@, key@),
                        (key@, texts(shots@)),
                    ));
                }
            },
            None => {
                self.entries.push((key, shots));
                proof {
                    assert(self@ =~= old(self)@.push((key@, texts(shots@))));
                }
            },
        }
    }

    /// The shots stored under `sequence`, if that key is present.
    pub fn get(&self, sequence: &str) -> (found: Option<&Vec<String>>)
        ensures
            match found {
                Some(shots) => get_of(self@, sequence@) == Some(texts(shots@)),
                None => !has_key(self@, sequence@),
            },
    {
        proof {
            lemma_get_of_properties(self@, sequence@);
        }
        let key: String = sequence.to_owned();
        let found = self.find_key(&key);
        match found {
            Some(at) => Some(&self.entries[at].1),
            None => None,
        }
    }

    /// Copies of the keys, in stored order.
    pub fn keys(&self) -> (keys: Vec<String>)
        ensures
            texts(keys@) == keys_of(self@),
    {
        let n: usize = self.entries.len();
        let mut keys: Vec<String> = Vec::new();
        let mut i: usize = 0;
        while i < n
            invariant
                i <= n,
                n == self@.len(),
                texts(keys@) =~= keys_of(self@).take(i as int),
            decreases n - i,
        {
            let key = self.entries[i].0.clone();
            proof {
                crate::text::lemma_texts_push(keys@, key);
            }
            keys.push(key);
            proof {
                assert(texts(keys@) =~= keys_of(self@).take(i as int + 1));
            }
            i = i + 1;
        }
        proof {
            assert(texts(keys@) =~= keys_of(self@));
        }
        keys
    }
}

} // verus!
