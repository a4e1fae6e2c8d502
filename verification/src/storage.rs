//! Per-plugin key/value storage.
use vstd::prelude::*;
use crate::text::same_text;

verus! {

/// Key/value storage kept separately for each plugin.
pub trait StorageProvider {
    /// The value stored under `key` for `plugin`.
    fn get(&self, plugin: &str, key: &str) -> Option<String>;

    /// Stores `value` under `key` for `plugin`, replacing any earlier value.
    fn set(&mut self, plugin: &str, key: &str, value: &str);
}

/// One stored value with its plugin and key.
pub struct StoredValue {
    pub plugin: String,
    pub key: String,
    pub value: String,
}

/// Storage that lives in memory for the life of the process.
pub struct InMemoryStorage {
    data: Vec<StoredValue>,
}

/// The map described by a list of stored values, later entries winning.
pub open spec fn as_map(s: Seq<StoredValue>) -> Map<(Seq<char>, Seq<char>), Seq<char>>
    decreases s.len(),
{
    if s.len() == 0 {
        Map::empty()
    } else {
        as_map(s.drop_last()).insert((s.last().plugin@, s.last().key@), s.last().value@)
    }
}

/// Each (plugin, key) pair occurs at most once.
pub open spec fn distinct_keys(s: Seq<StoredValue>) -> bool {
    forall|i: int, j: int|
        0 <= i < j < s.len() ==> ((#[trigger] s[i]).plugin@, s[i].key@) != ((#[trigger] s[j]).plugin@, s[j].key@)
}

proof fn lemma_as_map_lookup(s: Seq<StoredValue>, i: int)
    requires
        distinct_keys(s),
        0 <= i < s.len(),
    ensures
        as_map(s).contains_key((s[i].plugin@, s[i].key@)),
        as_map(s)[(s[i].plugin@, s[i].key@)] == s[i].value@,
    decreases s.len(),
{
    if i < s.len() - 1 {
        lemma_as_map_lookup(s.drop_last(), i);
        assert(s.drop_last()[i] == s[i]);
    }
}

proof fn lemma_as_map_missing(s: Seq<StoredValue>, k: (Seq<char>, Seq<char>))
    requires
        forall|i: int| 0 <= i < s.len() ==> ((#[trigger] s[i]).plugin@, s[i].key@) != k,
    ensures
        !as_map(s).contains_key(k),
    decreases s.len(),
{
    if s.len() > 0 {
        lemma_as_map_missing(s.drop_last(), k);
    }
}

proof fn lemma_as_map_update(s: Seq<StoredValue>, i: int, v: StoredValue)
    requires
        distinct_keys(s),
        0 <= i < s.len(),
        v.plugin@ == s[i].plugin@,
        v.key@ == s[i].key@,
    ensures
        as_map(s.update(i, v)) == as_map(s).insert((v.plugin@, v.key@), v.value@),
        distinct_keys(s.update(i, v)),
    decreases s.len(),
{
    let u = s.update(i, v);
    if i == s.len() - 1 {
        assert(u.drop_last() =~= s.drop_last());
        assert(as_map(u) =~= as_map(s).insert((v.plugin@, v.key@), v.value@));
    } else {
        lemma_as_map_update(s.drop_last(), i, v);
        assert(u.drop_last() =~= s.drop_last().update(i, v));
        assert(as_map(u) =~= as_map(s).insert((v.plugin@, v.key@), v.value@));
    }
}

impl InMemoryStorage {
    /// What is stored: (plugin, key) to value.
    pub closed spec fn contents(&self) -> Map<(Seq<char>, Seq<char>), Seq<char>> {
        as_map(self.data@)
    }

    #[verifier::type_invariant]
    closed spec fn keys_distinct(&self) -> bool {
        distinct_keys(self.data@)
    }

    pub fn new() -> (s: Self)
        ensures
            s.contents() == Map::<(Seq<char>, Seq<char>), Seq<char>>::empty(),
    {
        InMemoryStorage { data: Vec::new() }
    }

    fn position(&self, plugin: &str, key: &str) -> (r: Option<usize>)
        ensures
            (match r {
                Some(i) => i < self.data@.len() && self.data@[i as int].plugin@ == plugin@
                    && self.data@[i as int].key@ == key@,
                None => forall|i: int|
                    0 <= i < self.data@.len() ==> ((#[trigger] self.data@[i]).plugin@, self.data@[i].key@) != (
                    plugin@,
                    key@,
                ),
            }),
    {
        let mut i: usize = 0;
        while i < self.data.len()
            invariant
                i <= self.data@.len(),
                forall|k: int|
                    0 <= k < i ==> ((#[trigger] self.data@[k]).plugin@, self.data@[k].key@) != (plugin@, key@),
            decreases self.data@.len() - i,
        {
            if same_text(self.data[i].plugin.as_str(), plugin) && same_text(self.data[i].key.as_str(), key) {
                return Some(i);
            }
            i += 1;
        }
        None
    }
}

impl StorageProvider for InMemoryStorage {
    fn get(&self, plugin: &str, key: &str) -> (r: Option<String>)
        ensures
            (match r {
                Some(v) => self.contents().contains_key((plugin@, key@)) && self.contents()[(plugin@, key@)] == v@,
                None => !self.contents().contains_key((plugin@, key@)),
            }),
    {
        proof {
            use_type_invariant(self);
        }
        match self.position(plugin, key) {
            Some(i) => {
                proof {
                    lemma_as_map_lookup(self.data@, i as int);
                }
                Some(self.data[i].value.clone())
            },
            None => {
                proof {
                    lemma_as_map_missing(self.data@, (plugin@, key@));
                }
                None
            },
        }
    }

    fn set(&mut self, plugin: &str, key: &str, value: &str)
        ensures
            final(self).contents() == old(self).contents().insert((plugin@, key@), value@),
    {
        proof {
            use_type_invariant(&*self);
        }
        let entry = StoredValue { plugin: plugin.to_owned(), key: key.to_owned(), value: value.to_owned() };
        let pos = self.position(plugin, key);
        let mut data: Vec<StoredValue> = Vec::new();
        std::mem::swap(&mut data, &mut self.data);
        match pos {
            Some(i) => {
                proof {
                    lemma_as_map_update(data@, i as int, entry);
                }
                data.set(i, entry);
                self.data = data;
            },
            None => {
                let ghost old_data = data@;
                proof {
                    let nd = old_data.push(entry);
                    assert(nd.drop_last() =~= old_data);
                    assert forall|i: int, j: int| 0 <= i < j < nd.len() implies ((#[trigger] nd[i]).plugin@, nd[i].key@) != (
                    (#[trigger] nd[j]).plugin@,
                    nd[j].key@,
                    ) by {
                        if j == nd.len() - 1 {
                            assert(nd[i] == old_data[i]);
                        }
                    }
                }
                data.push(entry);
                proof {
                    assert(data@.drop_last() =~= old_data);
                }
                self.data = data;
            },
        }
    }
}

/// What a read gives back of a write: after storing `v` under `k`, reading
/// `k` gives `v`, and every other key reads as before.
pub proof fn law_read_after_write(
    m: Map<(Seq<char>, Seq<char>), Seq<char>>,
    k: (Seq<char>, Seq<char>),
    v: Seq<char>,
    other: (Seq<char>, Seq<char>),
)
    requires
        other != k,
    ensures
        m.insert(k, v).contains_key(k),
        m.insert(k, v)[k] == v,
        m.insert(k, v).contains_key(other) == m.contains_key(other),
        m.contains_key(other) ==> m.insert(k, v)[other] == m[other],
{
}

/// The contents after storing each `(key, value)` of `writes` in turn,
/// starting from `m`.
pub open spec fn after_writes(
    m: Map<(Seq<char>, Seq<char>), Seq<char>>,
    writes: Seq<((Seq<char>, Seq<char>), Seq<char>)>,
) -> Map<(Seq<char>, Seq<char>), Seq<char>>
    decreases writes.len(),
{
    if writes.len() == 0 {
        m
    } else {
        after_writes(m, writes.drop_last()).insert(writes.last().0, writes.last().1)
    }
}

/// A read gives back the last write to its key: after storing `v` under `k`
/// and then any number of values under other keys, reading `k` gives `v`.
pub proof fn law_last_write_wins(
    m: Map<(Seq<char>, Seq<char>), Seq<char>>,
    k: (Seq<char>, Seq<char>),
    v: Seq<char>,
    later: Seq<((Seq<char>, Seq<char>), Seq<char>)>,
)
    requires
        forall|i: int| 0 <= i < later.len() ==> (#[trigger] later[i]).0 != k,
    ensures
        after_writes(m.insert(k, v), later).contains_key(k),
        after_writes(m.insert(k, v), later)[k] == v,
    decreases later.len(),
{
    if later.len() > 0 {
        let rest = later.drop_last();
        assert forall|i: int| 0 <= i < rest.len() implies (#[trigger] rest[i]).0 != k by {
            assert(rest[i] == later[i]);
        }
        law_last_write_wins(m, k, v, rest);
        assert(later.last() == later[later.len() - 1]);
    }
}

} // verus!
