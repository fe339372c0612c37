//! The server's local key-value store.
use vstd::prelude::*;
use vstd::hash_map::StringHashMap;

use crate::messages::SetRequest;

verus! {

/// A map from keys to values, both strings.
pub struct Db {
    entries: StringHashMap<String>,
}

/// What a lookup of `key` in a store whose contents are `m` gives back.
pub open spec fn lookup(m: Map<Seq<char>, Seq<char>>, key: Seq<char>) -> Option<Seq<char>> {
    if m.contains_key(key) {
        Some(m[key])
    } else {
        None
    }
}

/// The contents `m` after storing each write of `writes`, first to last.
pub open spec fn apply_writes(m: Map<Seq<char>, Seq<char>>, writes: Seq<SetRequest>) -> Map<
    Seq<char>,
    Seq<char>,
>
    decreases writes.len(),
{
    if writes.len() == 0 {
        m
    } else {
        apply_writes(m, writes.drop_last()).insert(writes.last().key@, writes.last().value@)
    }
}

impl View for Db {
    type V = Map<Seq<char>, Seq<char>>;

    /// The store's contents, each value taken as its characters.
    closed spec fn view(&self) -> Map<Seq<char>, Seq<char>> {
        self.entries@.map_values(|v: String| v@)
    }
}

impl Db {
    /// An empty store.
    pub fn new() -> (db: Db)
        ensures
            db@ == Map::<Seq<char>, Seq<char>>::empty(),
    {
        let db = Db { entries: StringHashMap::new() };
        assert(db@ =~= Map::<Seq<char>, Seq<char>>::empty());
        db
    }

    /// The value stored under `key`, if there is one.
    pub fn get(&self, key: &str) -> (value: Option<String>)
        ensures
            match value {
                Some(v) => lookup(self@, key@) == Some(v@),
                None => lookup(self@, key@) is None,
            },
    {
        match self.entries.get(key) {
            Some(v) => Some(v.clone()),
            None => None,
        }
    }

    /// Stores `value` under `key`, replacing what was there.
    pub fn set(&mut self, key: &str, value: &str)
        ensures
            final(self)@ == old(self)@.insert(key@, value@),
    {
        let k = key.to_owned();
        let v = value.to_owned();
        self.entries.insert(k, v);
        assert(self@ =~= old(self)@.insert(key@, value@));
    }

    /// Stores each write of `writes`, first to last.
    pub fn apply(&mut self, writes: &Vec<SetRequest>)
        ensures
            final(self)@ == apply_writes(old(self)@, writes@),
    {
        let n = writes.len();
        let mut i: usize = 0;
        while i < n
            invariant
                n == writes@.len(),
                i <= n,
                self@ == apply_writes(old(self)@, writes@.take(i as int)),
            decreases n - i,
        {
            let w = &writes[i];
            self.set(w.key.as_str(), w.value.as_str());
            assert(writes@.take(i + 1).drop_last() =~= writes@.take(i as int));
            i = i + 1;
        }
        assert(writes@.take(n as int) =~= writes@);
    }
}

/// A read of a key just written gives back the value written.
pub proof fn law_read_your_write(m: Map<Seq<char>, Seq<char>>, key: Seq<char>, value: Seq<char>)
    ensures
        lookup(m.insert(key, value), key) == Some(value),
{
}

/// A write to one key leaves what a read of any other key gives back.
pub proof fn law_write_leaves_other_keys(
    m: Map<Seq<char>, Seq<char>>,
    key: Seq<char>,
    value: Seq<char>,
    other: Seq<char>,
)
    requires
        other != key,
    ensures
        lookup(m.insert(key, value), other) == lookup(m, other),
{
}

/// After a batch of writes, a key that the batch writes holds the value of
/// the last write to it, and a key that it does not write keeps its value.
pub proof fn law_batch_last_write_wins(
    m: Map<Seq<char>, Seq<char>>,
    writes: Seq<SetRequest>,
    key: Seq<char>,
)
    ensures
        forall|i: int|
            #![trigger writes[i]]
            0 <= i < writes.len() && writes[i].key@ == key && (forall|j: int|
                i < j < writes.len() ==> writes[j].key@ != key) ==> lookup(
                apply_writes(m, writes),
                key,
            ) == Some(writes[i].value@),
        (forall|i: int| 0 <= i < writes.len() ==> writes[i].key@ != key) ==> lookup(
            apply_writes(m, writes),
            key,
        ) == lookup(m, key),
    decreases writes.len(),
{
    if writes.len() > 0 {
        let init = writes.drop_last();
        law_batch_last_write_wins(m, init, key);
        let last = writes.len() - 1;
        assert forall|i: int|
            #![trigger writes[i]]
            0 <= i < writes.len() && writes[i].key@ == key && (forall|j: int|
                i < j < writes.len() ==> writes[j].key@ != key) implies lookup(
            apply_writes(m, writes),
            key,
        ) == Some(writes[i].value@) by {
            if i < last {
                assert(writes[last].key@ != key);
                assert(init[i] == writes[i]);
                assert forall|j: int| i < j < init.len() implies init[j].key@ != key by {
                    assert(init[j] == writes[j]);
                }
            }
        }
        if forall|i: int| 0 <= i < writes.len() ==> writes[i].key@ != key {
            assert(writes[last].key@ != key);
            assert forall|i: int| 0 <= i < init.len() implies init[i].key@ != key by {
                assert(init[i] == writes[i]);
            }
        }
    }
}

/// A write that a leader passes on is stored by every server that applies
/// the batch, whatever that server held before.
pub proof fn law_forwarded_write_is_stored(m: Map<Seq<char>, Seq<char>>, write: SetRequest)
    ensures
        lookup(apply_writes(m, seq![write]), write.key@) == Some(write.value@),
{
    assert(seq![write].drop_last() =~= Seq::<SetRequest>::empty());
}

/// A leader that stores a write and a follower that applies the write it
/// passes on hold the same contents afterwards, if they held the same before.
pub proof fn law_replicas_agree(m: Map<Seq<char>, Seq<char>>, write: SetRequest)
    ensures
        apply_writes(m, seq![write]) == m.insert(write.key@, write.value@),
{
    let batch = seq![write];
    assert(batch.drop_last() =~= Seq::<SetRequest>::empty());
    assert(apply_writes(m, batch.drop_last()) == m);
    assert(batch.last() == write);
}

} // verus!
