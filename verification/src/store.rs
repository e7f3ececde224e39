//! The notification record store: at most one record per (guild,
//! event-type) key.
//!
//! This is the semantic model of the persistence layer: a keyed collection
//! with find-or-default, upsert and delete, viewed as a map from key to
//! record. Durability — writing the collection out — is the caller's
//! concern; nothing here can partially apply an update.

use vstd::prelude::*;

use crate::config::NotificationConfig;
use crate::config::NotificationConfigView;

verus! {

/// The key a record is stored under.
pub open spec fn record_key(c: NotificationConfigView) -> (u64, bool) {
    (c.guild_id, c.join)
}

/// The views of a list of records.
pub open spec fn views_of(s: Seq<NotificationConfig>) -> Seq<NotificationConfigView> {
    s.map(|i: int, c: NotificationConfig| c@)
}

/// No two records share a key.
pub open spec fn distinct_keys(s: Seq<NotificationConfigView>) -> bool {
    forall|i: int, j: int|
        0 <= i < j < s.len() ==> record_key(#[trigger] s[i]) != record_key(#[trigger] s[j])
}

/// The map a list of records denotes.
pub open spec fn map_of(s: Seq<NotificationConfigView>) -> Map<(u64, bool), NotificationConfigView>
    decreases s.len(),
{
    if s.len() == 0 {
        Map::empty()
    } else {
        map_of(s.drop_last()).insert(record_key(s.last()), s.last())
    }
}

/// A key is in the map exactly when some record carries it.
proof fn lemma_map_of_contains(s: Seq<NotificationConfigView>, k: (u64, bool))
    ensures
        map_of(s).contains_key(k) <==> exists|i: int| 0 <= i < s.len() && record_key(
            #[trigger] s[i],
        ) == k,
    decreases s.len(),
{
    if s.len() > 0 {
        lemma_map_of_contains(s.drop_last(), k);
        if record_key(s.last()) == k {
            assert(record_key(s[s.len() - 1]) == k);
        } else {
            if map_of(s).contains_key(k) {
                let i = choose|i: int|
                    0 <= i < s.drop_last().len() && record_key(#[trigger] s.drop_last()[i]) == k;
                assert(record_key(s[i]) == k);
            }
            if exists|i: int| 0 <= i < s.len() && record_key(#[trigger] s[i]) == k {
                let i = choose|i: int| 0 <= i < s.len() && record_key(#[trigger] s[i]) == k;
                assert(i < s.len() - 1);
                assert(s.drop_last()[i] == s[i]);
            }
        }
    }
}

/// With distinct keys, looking a record's key up yields that record.
proof fn lemma_map_of_get(s: Seq<NotificationConfigView>, i: int)
    requires
        distinct_keys(s),
        0 <= i < s.len(),
    ensures
        map_of(s).contains_key(record_key(s[i])),
        map_of(s)[record_key(s[i])] == s[i],
    decreases s.len(),
{
    if i < s.len() - 1 {
        assert(forall|a: int| 0 <= a < s.drop_last().len() ==> #[trigger] s.drop_last()[a] == s[a]);
        lemma_map_of_get(s.drop_last(), i);
        assert(record_key(s[i]) != record_key(s[s.len() - 1]));
    }
}

/// Removing a record removes exactly its key from the map.
proof fn lemma_map_of_remove(s: Seq<NotificationConfigView>, i: int)
    requires
        distinct_keys(s),
        0 <= i < s.len(),
    ensures
        map_of(s.remove(i)) == map_of(s).remove(record_key(s[i])),
    decreases s.len(),
{
    if i == s.len() - 1 {
        assert(s.remove(i) =~= s.drop_last());
        lemma_map_of_contains(s.drop_last(), record_key(s[i]));
        assert(forall|a: int| 0 <= a < s.drop_last().len() ==> #[trigger] s.drop_last()[a] == s[a]);
        assert(map_of(s.drop_last()) =~= map_of(s).remove(record_key(s[i])));
    } else {
        assert(forall|a: int| 0 <= a < s.drop_last().len() ==> #[trigger] s.drop_last()[a] == s[a]);
        lemma_map_of_remove(s.drop_last(), i);
        assert(s.remove(i).drop_last() =~= s.drop_last().remove(i));
        assert(s.remove(i).last() == s.last());
        assert(record_key(s[i]) != record_key(s.last()));
        assert(map_of(s.remove(i)) =~= map_of(s).remove(record_key(s[i])));
    }
}

/// Distinctness of keys survives removing a record.
proof fn lemma_distinct_keys_remove(s: Seq<NotificationConfigView>, i: int)
    requires
        distinct_keys(s),
        0 <= i < s.len(),
    ensures
        distinct_keys(s.remove(i)),
{
    assert forall|a: int, b: int|
        0 <= a < b < s.remove(i).len() implies record_key(#[trigger] s.remove(i)[a]) != record_key(
        #[trigger] s.remove(i)[b],
    ) by {
        let a0 = if a < i {
            a
        } else {
            a + 1
        };
        let b0 = if b < i {
            b
        } else {
            b + 1
        };
        assert(s.remove(i)[a] == s[a0]);
        assert(s.remove(i)[b] == s[b0]);
    }
}

/// The record store. Its mathematical value is the map from (guild, join)
/// keys to record views; `wf` is the at-most-one-record-per-key invariant
/// that every operation preserves.
#[derive(Debug)]
pub struct NotificationStore {
    pub records: Vec<NotificationConfig>,
}

impl View for NotificationStore {
    type V = Map<(u64, bool), NotificationConfigView>;

    open spec fn view(&self) -> Map<(u64, bool), NotificationConfigView> {
        map_of(views_of(self.records@))
    }
}

impl NotificationStore {
    /// No two stored records share a key.
    pub open spec fn wf(&self) -> bool {
        distinct_keys(views_of(self.records@))
    }

    /// The empty store.
    pub fn new() -> (r: Self)
        ensures
            r.wf(),
            r@ == Map::<(u64, bool), NotificationConfigView>::empty(),
    {
        let r = NotificationStore { records: Vec::new() };
        proof {
            assert(views_of(r.records@) =~= Seq::<NotificationConfigView>::empty());
        }
        r
    }

    /// Index of the record under a key, if one is stored.
    fn index_of_key(&self, guild_id: u64, join: bool) -> (r: Option<usize>)
        ensures
            match r {
                Some(i) => i < self.records@.len() && record_key(self.records@[i as int]@) == (
                    guild_id,
                    join,
                ),
                None => forall|i: int|
                    0 <= i < self.records@.len() ==> record_key(#[trigger] self.records@[i]@) != (
                        guild_id,
                        join,
                    ),
            },
    {
        let n = self.records.len();
        let mut i: usize = 0;
        while i < n
            invariant
                i <= n,
                n == self.records@.len(),
                forall|k: int|
                    0 <= k < i ==> record_key(#[trigger] self.records@[k]@) != (guild_id, join),
            decreases n - i,
        {
            let c = &self.records[i];
            if c.guild_id == guild_id && c.join == join {
                return Some(i);
            }
            i = i + 1;
        }
        None
    }

    /// The record stored under a key, if any. Absence means the feature is
    /// not configured for that guild and event type.
    pub fn find_by_key(&self, guild_id: u64, join: bool) -> (r: Option<&NotificationConfig>)
        requires
            self.wf(),
        ensures
            match r {
                Some(c) => self@.contains_key((guild_id, join)) && c@ == self@[(guild_id, join)]
                    && c@.guild_id == guild_id && c@.join == join,
                None => !self@.contains_key((guild_id, join)),
            },
    {
        match self.index_of_key(guild_id, join) {
            Some(i) => {
                proof {
                    assert(views_of(self.records@)[i as int] == self.records@[i as int]@);
                    lemma_map_of_get(views_of(self.records@), i as int);
                }
                Some(&self.records[i])
            },
            None => {
                proof {
                    lemma_map_of_contains(views_of(self.records@), (guild_id, join));
                    assert forall|i: int|
                        0 <= i < views_of(self.records@).len() implies record_key(
                        #[trigger] views_of(self.records@)[i],
                    ) != (guild_id, join) by {
                        assert(views_of(self.records@)[i] == self.records@[i]@);
                    }
                }
                None
            },
        }
    }

    /// Deletes the record under a key, if one is stored.
    pub fn delete_by_key(&mut self, guild_id: u64, join: bool)
        requires
            old(self).wf(),
        ensures
            final(self).wf(),
            final(self)@ == old(self)@.remove((guild_id, join)),
    {
        match self.index_of_key(guild_id, join) {
            Some(i) => {
                let ghost s = views_of(self.records@);
                proof {
                    assert(s[i as int] == self.records@[i as int]@);
                    lemma_map_of_remove(s, i as int);
                    lemma_distinct_keys_remove(s, i as int);
                }
                self.records.remove(i);
                proof {
                    assert(views_of(self.records@) =~= s.remove(i as int));
                }
            },
            None => {
                proof {
                    lemma_map_of_contains(views_of(self.records@), (guild_id, join));
                    assert forall|i: int|
                        0 <= i < views_of(self.records@).len() implies record_key(
                        #[trigger] views_of(self.records@)[i],
                    ) != (guild_id, join) by {
                        assert(views_of(self.records@)[i] == self.records@[i]@);
                    }
                    assert(self@.remove((guild_id, join)) =~= self@);
                }
            },
        }
    }

    /// Stores a record under its key, replacing whatever was there.
    ///
    /// Either the full record is placed under its key or — on no path —
    /// the store is left touched; retrying with an identical record leaves
    /// the same map, so the operation is idempotent.
    pub fn upsert(&mut self, record: NotificationConfig)
        requires
            old(self).wf(),
        ensures
            final(self).wf(),
            final(self)@ == old(self)@.insert((record.guild_id, record.join), record@),
    {
        let ghost m0 = self@;
        self.delete_by_key(record.guild_id, record.join);
        let ghost s = views_of(self.records@);
        proof {
            lemma_map_of_contains(s, (record.guild_id, record.join));
        }
        let ghost key = (record.guild_id, record.join);
        let ghost rv = record@;
        self.records.push(record);
        proof {
            assert(views_of(self.records@) =~= s.push(rv));
            assert(views_of(self.records@).drop_last() =~= s);
            assert(record_key(rv) == key);
            assert(self@ == map_of(s).insert(key, rv));
            assert(self@ =~= m0.insert(key, rv));
            assert forall|a: int, b: int|
                0 <= a < b < views_of(self.records@).len() implies record_key(
                #[trigger] views_of(self.records@)[a],
            ) != record_key(#[trigger] views_of(self.records@)[b]) by {
                if b < views_of(self.records@).len() - 1 {
                    assert(views_of(self.records@)[a] == s[a]);
                    assert(views_of(self.records@)[b] == s[b]);
                } else {
                    assert(views_of(self.records@)[a] == s[a]);
                    assert(record_key(s[a]) != key);
                }
            }
        }
    }
}

/// Upsert is idempotent under retry: storing the same record twice leaves
/// the same map as storing it once.
pub proof fn lemma_upsert_idempotent(
    m: Map<(u64, bool), NotificationConfigView>,
    k: (u64, bool),
    v: NotificationConfigView,
)
    ensures
        m.insert(k, v).insert(k, v) == m.insert(k, v),
{
    assert(m.insert(k, v).insert(k, v) =~= m.insert(k, v));
}

} // verus!
