use vstd::prelude::*;
use crate::record::{
    intent_key, merge_record, merged, opt_view, Intent, LinkRequest, RecordModel, UserRecord,
};

verus! {

/// The contents of a record store: each key maps to the record stored under it.
pub type StoreModel = Map<Seq<char>, RecordModel>;

/// Every record is stored under its own platform identifier.
pub open spec fn keyed_by_id(m: StoreModel) -> bool {
    forall|k: Seq<char>| #[trigger] m.contains_key(k) ==> m[k].platform_id == k
}

/// What is stored under `k`, if anything.
pub open spec fn lookup(m: StoreModel, k: Seq<char>) -> Option<RecordModel> {
    if m.contains_key(k) {
        Some(m[k])
    } else {
        None
    }
}

/// The store after one serialized read-modify-write for intent `i`.
pub open spec fn apply_intent(m: StoreModel, i: Intent) -> StoreModel {
    m.insert(intent_key(i), merged(lookup(m, intent_key(i)), i))
}

/// The store after the intents of `s`, applied one after another in order.
pub open spec fn apply_all(m: StoreModel, s: Seq<Intent>) -> StoreModel
    decreases s.len(),
{
    if s.len() == 0 {
        m
    } else {
        apply_intent(apply_all(m, s.drop_last()), s.last())
    }
}

/// The map that a list of records with distinct keys stands for.
pub open spec fn map_of(s: Seq<UserRecord>) -> StoreModel
    decreases s.len(),
{
    if s.len() == 0 {
        Map::empty()
    } else {
        map_of(s.drop_last()).insert(s.last().platform_id@, s.last()@)
    }
}

pub open spec fn distinct_keys(s: Seq<UserRecord>) -> bool {
    forall|i: int, j: int|
        0 <= i < j < s.len() ==> (#[trigger] s[i]).platform_id@ != (#[trigger] s[j]).platform_id@
}

proof fn lemma_map_of_keys(s: Seq<UserRecord>, k: Seq<char>)
    ensures
        map_of(s).contains_key(k) <==> exists|i: int| 0 <= i < s.len() && s[i].platform_id@ == k,
    decreases s.len(),
{
    if s.len() > 0 {
        let p = s.drop_last();
        lemma_map_of_keys(p, k);
        if exists|i: int| 0 <= i < s.len() && s[i].platform_id@ == k {
            let i = choose|i: int| 0 <= i < s.len() && s[i].platform_id@ == k;
            if i < s.len() - 1 {
                assert(p[i] == s[i]);
            }
        }
        if exists|i: int| 0 <= i < p.len() && p[i].platform_id@ == k {
            let i = choose|i: int| 0 <= i < p.len() && p[i].platform_id@ == k;
            assert(s[i] == p[i]);
        }
    }
}

proof fn lemma_map_of_at(s: Seq<UserRecord>, i: int)
    requires
        distinct_keys(s),
        0 <= i < s.len(),
    ensures
        map_of(s).contains_key(s[i].platform_id@),
        map_of(s)[s[i].platform_id@] == s[i]@,
    decreases s.len(),
{
    let p = s.drop_last();
    if i < s.len() - 1 {
        assert(p[i] == s[i]);
        assert(s[s.len() - 1].platform_id@ != s[i].platform_id@);
        lemma_map_of_at(p, i);
    }
}

proof fn lemma_map_of_update(s: Seq<UserRecord>, i: int, r: UserRecord)
    requires
        distinct_keys(s),
        0 <= i < s.len(),
        r.platform_id@ == s[i].platform_id@,
    ensures
        map_of(s.update(i, r)) == map_of(s).insert(r.platform_id@, r@),
        distinct_keys(s.update(i, r)),
    decreases s.len(),
{
    let t = s.update(i, r);
    let p = s.drop_last();
    if i == s.len() - 1 {
        assert(t.drop_last() == p);
        assert(map_of(s).insert(r.platform_id@, r@) =~= map_of(t));
    } else {
        lemma_map_of_update(p, i, r);
        assert(t.drop_last() == p.update(i, r));
        assert(s[s.len() - 1].platform_id@ != s[i].platform_id@);
        assert(map_of(t) =~= map_of(s).insert(r.platform_id@, r@));
    }
}

proof fn lemma_map_of_keyed(s: Seq<UserRecord>)
    ensures
        keyed_by_id(map_of(s)),
    decreases s.len(),
{
    if s.len() > 0 {
        lemma_map_of_keyed(s.drop_last());
    }
}

/// A keyed record table with last-write-wins per key.
///
/// Each call that changes it is one serialized step: a read-modify-write
/// through `apply` cannot interleave with another on the same key.
pub struct RecordTable {
    records: Vec<UserRecord>,
}

impl View for RecordTable {
    type V = StoreModel;

    closed spec fn view(&self) -> StoreModel {
        map_of(self.records@)
    }
}

impl RecordTable {
    pub closed spec fn wf(&self) -> bool {
        distinct_keys(self.records@)
    }

    pub proof fn lemma_keyed(&self)
        ensures
            keyed_by_id(self@),
    {
        lemma_map_of_keyed(self.records@);
    }

    /// An empty table.
    pub fn new() -> (r: RecordTable)
        ensures
            r.wf(),
            r@ == Map::<Seq<char>, RecordModel>::empty(),
    {
        RecordTable { records: Vec::new() }
    }

    fn find(&self, platform_id: &String) -> (r: Option<usize>)
        requires
            self.wf(),
        ensures
            match r {
                Some(i) => i < self.records@.len() && self.records@[i as int].platform_id@
                    == platform_id@,
                None => !self@.contains_key(platform_id@),
            },
    {
        let mut i: usize = 0;
        while i < self.records.len()
            invariant
                i <= self.records@.len(),
                forall|j: int| 0 <= j < i ==> self.records@[j].platform_id@ != platform_id@,
            decreases self.records@.len() - i,
        {
            if self.records[i].platform_id == *platform_id {
                return Some(i);
            }
            i = i + 1;
        }
        proof {
            lemma_map_of_keys(self.records@, platform_id@);
        }
        None
    }

    /// The record stored under `platform_id`, or `None` where there is none.
    pub fn get(&self, platform_id: &String) -> (r: Option<UserRecord>)
        requires
            self.wf(),
        ensures
            opt_view(r) == lookup(self@, platform_id@),
    {
        match self.find(platform_id) {
            Some(i) => {
                proof {
                    lemma_map_of_at(self.records@, i as int);
                }
                Some(self.records[i].copied())
            },
            None => None,
        }
    }

    /// Stores `record` under its platform identifier, replacing what was there.
    pub fn put(&mut self, record: UserRecord)
        requires
            old(self).wf(),
        ensures
            final(self).wf(),
            final(self)@ == old(self)@.insert(record.platform_id@, record@),
    {
        match self.find(&record.platform_id) {
            Some(i) => {
                proof {
                    lemma_map_of_update(self.records@, i as int, record);
                }
                self.records.set(i, record);
            },
            None => {
                proof {
                    lemma_map_of_keys(self.records@, record.platform_id@);
                    assert(self.records@.push(record).drop_last() == self.records@);
                }
                self.records.push(record);
            },
        }
    }

    /// Applies one intent as a read-modify-write of its key; returns the record
    /// now stored under that key.
    pub fn apply(&mut self, request: &LinkRequest) -> (r: UserRecord)
        requires
            old(self).wf(),
        ensures
            final(self).wf(),
            final(self)@ == apply_intent(old(self)@, request@),
            r@ == final(self)@[intent_key(request@)],
    {
        let current = self.get(request.platform_id());
        let rec = merge_record(current, request);
        let out = rec.copied();
        self.put(rec);
        out
    }
}

} // verus!
