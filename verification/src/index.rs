//! The in-memory, sync-scoped transaction index: a mapping from transaction
//! id to its fetched record, populated during script discovery and read
//! during the later stages. Last write wins on duplicate ids within a sync.

use vstd::prelude::*;
use crate::records::{TxRecord, TxRecordV, Txid, distinct_ids, record_views};

verus! {

/// The mapping described by a sequence of records keyed by transaction id,
/// with later records overwriting earlier ones.
pub open spec fn map_of(s: Seq<TxRecordV>) -> Map<Seq<u8>, TxRecordV>
    decreases s.len(),
{
    if s.len() == 0 {
        Map::empty()
    } else {
        map_of(s.drop_last()).insert(s.last().txid, s.last())
    }
}

/// The index holds a key exactly when some record in the sequence has it.
pub proof fn lemma_map_of_contains(s: Seq<TxRecordV>, k: Seq<u8>)
    ensures
        map_of(s).contains_key(k) <==> exists|i: int| 0 <= i < s.len() && s[i].txid == k,
    decreases s.len(),
{
    if s.len() > 0 {
        lemma_map_of_contains(s.drop_last(), k);
        if s.last().txid == k {
            assert(s[s.len() - 1].txid == k);
        } else if map_of(s).contains_key(k) {
            let i = choose|i: int| 0 <= i < s.drop_last().len() && s.drop_last()[i].txid == k;
            assert(s[i].txid == k);
        } else if exists|i: int| 0 <= i < s.len() && s[i].txid == k {
            let i = choose|i: int| 0 <= i < s.len() && s[i].txid == k;
            assert(s.drop_last()[i].txid == k);
        }
    }
}

/// Under distinct ids, the index maps each record's id to that record.
pub proof fn lemma_map_of_get(s: Seq<TxRecordV>, i: int)
    requires
        distinct_ids(s),
        0 <= i < s.len(),
    ensures
        map_of(s).contains_key(s[i].txid),
        map_of(s)[s[i].txid] == s[i],
    decreases s.len(),
{
    if i == s.len() - 1 {
    } else {
        assert(distinct_ids(s.drop_last())) by {
            assert(forall|x: int, y: int|
                0 <= x < y < s.drop_last().len() ==> s.drop_last()[x] == s[x] && s.drop_last()[y]
                    == s[y]);
        }
        lemma_map_of_get(s.drop_last(), i);
        assert(s.drop_last()[i] == s[i]);
        assert(s[i].txid != s.last().txid);
    }
}

/// Under distinct ids, the index has exactly one entry per record.
pub proof fn lemma_map_of_len(s: Seq<TxRecordV>)
    requires
        distinct_ids(s),
    ensures
        map_of(s).dom().finite(),
        map_of(s).dom().len() == s.len(),
    decreases s.len(),
{
    if s.len() > 0 {
        let d = s.drop_last();
        assert(distinct_ids(d)) by {
            assert(forall|x: int, y: int|
                0 <= x < y < d.len() ==> d[x] == s[x] && d[y] == s[y]);
        }
        lemma_map_of_len(d);
        lemma_map_of_contains(d, s.last().txid);
        assert(forall|i: int| 0 <= i < d.len() ==> #[trigger] d[i] == s[i]);
        assert(!map_of(d).contains_key(s.last().txid));
        assert(map_of(s).dom() =~= map_of(d).dom().insert(s.last().txid));
    }
}

/// In-memory, sync-scoped mapping from transaction id to its fetched record.
/// Exclusively owned by one sync invocation; discarded once the sync ends.
#[derive(Debug)]
pub struct TxIndex {
    /// The stored records, one per distinct transaction id.
    pub entries: Vec<TxRecord>,
}

impl View for TxIndex {
    type V = Map<Seq<u8>, TxRecordV>;

    open spec fn view(&self) -> Map<Seq<u8>, TxRecordV> {
        map_of(record_views(self.entries@))
    }
}

impl TxIndex {
    /// Each stored record has its own transaction id.
    pub open spec fn wf(&self) -> bool {
        distinct_ids(record_views(self.entries@))
    }

    /// An empty index, as each sync invocation starts with.
    pub fn new() -> (idx: Self)
        ensures
            idx.wf(),
            idx@ == Map::<Seq<u8>, TxRecordV>::empty(),
    {
        let idx = TxIndex { entries: Vec::new() };
        proof {
            assert(record_views(idx.entries@) =~= Seq::<TxRecordV>::empty());
        }
        idx
    }

    /// Insert a record under its transaction id; a record already stored
    /// under the same id is replaced (last write wins).
    #[verifier::loop_isolation(false)]
    pub fn insert(&mut self, r: TxRecord)
        requires
            old(self).wf(),
        ensures
            final(self).wf(),
            final(self)@ == old(self)@.insert(r@.txid, r@),
    {
        let ghost s0 = record_views(self.entries@);
        let mut i: usize = 0;
        while i < self.entries.len()
            invariant
                i <= self.entries.len(),
                record_views(self.entries@) == s0,
                distinct_ids(s0),
                forall|j: int| 0 <= j < i ==> s0[j].txid != r@.txid,
            decreases self.entries.len() - i,
        {
            if self.entries[i].txid.same_as(&r.txid) {
                assert(s0[i as int].txid == r@.txid);
                self.entries.set(i, r);
                proof {
                    assert(record_views(self.entries@) =~= s0.update(i as int, r@));
                    lemma_map_of_update(s0, i as int, r@);
                }
                return ;
            }
            i = i + 1;
        }
        self.entries.push(r);
        proof {
            assert(record_views(self.entries@) =~= s0.push(r@));
            assert(s0.push(r@).drop_last() =~= s0);
            assert(forall|x: int, y: int|
                0 <= x < y < s0.push(r@).len() ==> s0.push(r@)[x].txid != s0.push(r@)[y].txid);
        }
    }

    /// Look up a record by transaction id.
    pub fn get(&self, txid: &Txid) -> (r: Option<&TxRecord>)
        requires
            self.wf(),
        ensures
            match r {
                Some(rec) => self@.contains_key(txid@) && rec@ == self@[txid@],
                None => !self@.contains_key(txid@),
            },
    {
        let ghost s = record_views(self.entries@);
        let mut i: usize = 0;
        while i < self.entries.len()
            invariant
                i <= self.entries.len(),
                s == record_views(self.entries@),
                self.wf(),
                forall|j: int| 0 <= j < i ==> s[j].txid != txid@,
            decreases self.entries.len() - i,
        {
            if self.entries[i].txid.same_as(txid) {
                proof {
                    lemma_map_of_get(s, i as int);
                }
                return Some(&self.entries[i]);
            }
            i = i + 1;
        }
        proof {
            lemma_map_of_contains(s, txid@);
        }
        None
    }

    /// Whether the index holds a record for this transaction id.
    pub fn contains(&self, txid: &Txid) -> (b: bool)
        requires
            self.wf(),
        ensures
            b == self@.contains_key(txid@),
    {
        match self.get(txid) {
            Some(_) => true,
            None => false,
        }
    }

    /// The number of transaction ids the index holds a record for.
    pub fn len(&self) -> (n: usize)
        requires
            self.wf(),
        ensures
            n == self@.dom().len(),
    {
        proof {
            lemma_map_of_len(record_views(self.entries@));
        }
        self.entries.len()
    }
}

/// Replacing the record at a position whose id matches the new record's id
/// is, at the mapping level, an insert under that id.
proof fn lemma_map_of_update(s: Seq<TxRecordV>, i: int, r: TxRecordV)
    requires
        distinct_ids(s),
        0 <= i < s.len(),
        s[i].txid == r.txid,
    ensures
        map_of(s.update(i, r)) == map_of(s).insert(r.txid, r),
        distinct_ids(s.update(i, r)),
    decreases s.len(),
{
    let u = s.update(i, r);
    assert(distinct_ids(u)) by {
        assert(forall|x: int| 0 <= x < u.len() ==> #[trigger] u[x].txid == s[x].txid);
    }
    if i == s.len() - 1 {
        assert(u.drop_last() =~= s.drop_last());
        assert(u.last() == r);
        assert(map_of(s).insert(r.txid, r) =~= map_of(s.drop_last()).insert(r.txid, r));
    } else {
        let d = s.drop_last();
        assert(distinct_ids(d)) by {
            assert(forall|x: int, y: int|
                0 <= x < y < d.len() ==> d[x] == s[x] && d[y] == s[y]);
        }
        assert(d[i] == s[i]);
        lemma_map_of_update(d, i, r);
        assert(u.drop_last() =~= d.update(i, r));
        assert(u.last() == s.last());
        assert(s.last().txid != r.txid);
        assert(map_of(u) == map_of(d).insert(r.txid, r).insert(s.last().txid, s.last()));
        assert(map_of(d).insert(r.txid, r).insert(s.last().txid, s.last()) =~= map_of(
            d,
        ).insert(s.last().txid, s.last()).insert(r.txid, r));
    }
}

} // verus!
