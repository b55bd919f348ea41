//! The latest notification bytes received per characteristic key.
use vstd::prelude::*;

verus! {

/// One stored notification: the characteristic key and the latest bytes.
pub struct Entry {
    pub key: String,
    pub data: Vec<u8>,
}

/// The map from characteristic key to the latest bytes, read off a list of
/// entries; a later entry wins over an earlier one with the same key.
pub open spec fn entries_map(s: Seq<Entry>) -> Map<Seq<char>, Seq<u8>>
    decreases s.len(),
{
    if s.len() == 0 {
        Map::empty()
    } else {
        entries_map(s.drop_last()).insert(s.last().key@, s.last().data@)
    }
}

/// No key occurs twice among the entries.
pub open spec fn keys_distinct(s: Seq<Entry>) -> bool {
    forall|i: int, j: int| 0 <= i < j < s.len() ==> s[i].key@ != s[j].key@
}

proof fn lemma_entries_map_dom(s: Seq<Entry>, k: Seq<char>)
    ensures
        entries_map(s).dom().contains(k) <==> exists|i: int| 0 <= i < s.len() && s[i].key@ == k,
    decreases s.len(),
{
    if s.len() > 0 {
        lemma_entries_map_dom(s.drop_last(), k);
        if entries_map(s).dom().contains(k) && k != s.last().key@ {
            let i = choose|i: int| 0 <= i < s.drop_last().len() && s.drop_last()[i].key@ == k;
            assert(s[i].key@ == k);
        }
        if exists|i: int| 0 <= i < s.len() && s[i].key@ == k {
            let i = choose|i: int| 0 <= i < s.len() && s[i].key@ == k;
            if i < s.len() - 1 {
                assert(s.drop_last()[i].key@ == k);
            }
        }
    }
}

proof fn lemma_entries_map_value(s: Seq<Entry>, i: int)
    requires
        keys_distinct(s),
        0 <= i < s.len(),
    ensures
        entries_map(s).dom().contains(s[i].key@),
        entries_map(s)[s[i].key@] == s[i].data@,
    decreases s.len(),
{
    if i < s.len() - 1 {
        let d = s.drop_last();
        assert(d[i] == s[i]);
        lemma_entries_map_value(d, i);
    }
}

proof fn lemma_entries_map_remove(s: Seq<Entry>, i: int)
    requires
        keys_distinct(s),
        0 <= i < s.len(),
    ensures
        keys_distinct(s.remove(i)),
        entries_map(s.remove(i)) =~= entries_map(s).remove(s[i].key@),
    decreases s.len(),
{
    let k = s[i].key@;
    let d = s.drop_last();
    if i == s.len() - 1 {
        assert(s.remove(i) =~= d);
        lemma_entries_map_dom(d, k);
        assert(!entries_map(d).dom().contains(k));
    } else {
        assert(d.remove(i) =~= s.remove(i).drop_last());
        assert(d[i] == s[i]);
        lemma_entries_map_remove(d, i);
        assert(s.remove(i).last() == s.last());
    }
}

/// The bytes that a poll of key `k` hands back from `m`: the stored bytes, or
/// nothing when no notification is stored under `k`.
pub open spec fn polled(m: Map<Seq<char>, Seq<u8>>, k: Seq<char>) -> Seq<u8> {
    if m.dom().contains(k) {
        m[k]
    } else {
        Seq::empty()
    }
}

/// One item of a characteristic's notification stream.
pub enum StreamEvent {
    /// The characteristic's value changed to these bytes.
    ValueUpdated(Vec<u8>),
    /// The stream reported an error instead of a value.
    Failed,
}

/// The latest notification bytes per characteristic key.
pub struct NotificationStore {
    entries: Vec<Entry>,
}

impl View for NotificationStore {
    type V = Map<Seq<char>, Seq<u8>>;

    closed spec fn view(&self) -> Map<Seq<char>, Seq<u8>> {
        entries_map(self.entries@)
    }
}

impl NotificationStore {
    #[verifier::type_invariant]
    closed spec fn inv(self) -> bool {
        keys_distinct(self.entries@)
    }

    /// An empty store.
    pub fn new() -> (store: Self)
        ensures
            store@ == Map::<Seq<char>, Seq<u8>>::empty(),
    {
        NotificationStore { entries: Vec::new() }
    }

    /// The position of `key` among the entries, if it is stored.
    fn find(&self, key: &String) -> (pos: Option<usize>)
        ensures
            match pos {
                Some(i) => i < self.entries@.len() && self.entries@[i as int].key@ == key@,
                None => !self@.dom().contains(key@),
            },
    {
        let mut i: usize = 0;
        while i < self.entries.len()
            invariant
                i <= self.entries@.len(),
                forall|j: int| 0 <= j < i ==> self.entries@[j].key@ != key@,
            decreases self.entries@.len() - i,
        {
            if self.entries[i].key == *key {
                return Some(i);
            }
            i = i + 1;
        }
        proof {
            lemma_entries_map_dom(self.entries@, key@);
        }
        None
    }

    /// Whether bytes are stored under `key`.
    pub fn contains(&self, key: &String) -> (found: bool)
        ensures
            found == self@.dom().contains(key@),
    {
        proof {
            use_type_invariant(self);
        }
        match self.find(key) {
            Some(i) => {
                proof {
                    lemma_entries_map_value(self.entries@, i as int);
                }
                true
            },
            None => false,
        }
    }

    /// Store `data` as the latest bytes under `key`, replacing what was there.
    pub fn insert(&mut self, key: String, data: Vec<u8>)
        ensures
            final(self)@ == old(self)@.insert(key@, data@),
    {
        proof {
            use_type_invariant(&*self);
        }
        let mut entries: Vec<Entry> = Vec::new();
        std::mem::swap(&mut entries, &mut self.entries);
        let ghost before = entries@;
        let mut i: usize = 0;
        let mut found: Option<usize> = None;
        while i < entries.len()
            invariant_except_break
                found is None,
            invariant
                entries@ == before,
                i <= before.len(),
                forall|j: int| 0 <= j < i ==> before[j].key@ != key@,
            ensures
                match found {
                    Some(p) => p < before.len() && before[p as int].key@ == key@,
                    None => forall|j: int| 0 <= j < before.len() ==> before[j].key@ != key@,
                },
            decreases before.len() - i,
        {
            if entries[i].key == key {
                found = Some(i);
                break;
            }
            i = i + 1;
        }
        let ghost kept;
        match found {
            Some(p) => {
                proof {
                    lemma_entries_map_remove(before, p as int);
                }
                let _old_entry = entries.remove(p);
                proof {
                    kept = before.remove(p as int);
                    assert forall|j: int| 0 <= j < kept.len() implies kept[j].key@ != key@ by {
                        if j < p {
                            assert(kept[j] == before[j]);
                        } else {
                            assert(kept[j] == before[j + 1]);
                        }
                    }
                }
            },
            None => {
                proof {
                    kept = before;
                    lemma_entries_map_dom(before, key@);
                }
            },
        }
        let ghost m_kept = entries_map(kept);
        assert(m_kept =~= entries_map(before).remove(key@));
        entries.push(Entry { key, data });
        assert(entries@.drop_last() =~= kept);
        assert(keys_distinct(entries@));
        self.entries = entries;
        assert(self@ =~= entries_map(before).insert(key@, data@));
    }

    /// Hand back the bytes stored under `key` and forget them; nothing when no
    /// bytes are stored under `key`.
    pub fn take(&mut self, key: &String) -> (data: Vec<u8>)
        ensures
            data@ == polled(old(self)@, key@),
            final(self)@ == old(self)@.remove(key@),
    {
        proof {
            use_type_invariant(&*self);
        }
        match self.find(key) {
            None => {
                assert(self@.remove(key@) =~= self@);
                Vec::new()
            },
            Some(p) => {
                let mut entries: Vec<Entry> = Vec::new();
                std::mem::swap(&mut entries, &mut self.entries);
                let ghost before = entries@;
                proof {
                    lemma_entries_map_value(before, p as int);
                    lemma_entries_map_remove(before, p as int);
                }
                let entry = entries.remove(p);
                self.entries = entries;
                entry.data
            },
        }
    }

    /// Take in one item of the stream listened to under `key`: new bytes
    /// become the latest under `key`; an error item changes nothing.
    pub fn record(&mut self, key: &String, event: StreamEvent)
        ensures
            match event {
                StreamEvent::ValueUpdated(data) => final(self)@ == old(self)@.insert(key@, data@),
                StreamEvent::Failed => final(self)@ == old(self)@,
            },
    {
        match event {
            StreamEvent::ValueUpdated(data) => self.insert(key.clone(), data),
            StreamEvent::Failed => {},
        }
    }
}

} // verus!
