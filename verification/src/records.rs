//! The data the engine reads from the remote service, held as plain values:
//! transaction identifiers, previous-output references, and the per-sync
//! snapshot of one transaction.

use vstd::prelude::*;

verus! {

/// A transaction identifier: an opaque byte string, used only as a key.
#[derive(Debug, PartialEq, Eq)]
pub struct Txid {
    /// The identifier's bytes.
    pub bytes: Vec<u8>,
}

impl View for Txid {
    type V = Seq<u8>;

    open spec fn view(&self) -> Seq<u8> {
        self.bytes@
    }
}

impl Txid {
    /// A byte-for-byte copy of the identifier.
    pub fn dup(&self) -> (r: Self)
        ensures
            r@ == self@,
    {
        Txid { bytes: clone_bytes(&self.bytes) }
    }

    /// Whether two identifiers name the same transaction.
    pub fn same_as(&self, other: &Txid) -> (r: bool)
        ensures
            r == (self@ == other@),
    {
        bytes_eq(&self.bytes, &other.bytes)
    }
}

/// A reference to a previous transaction output: the funding transaction and
/// the position of the output within it.
#[derive(Debug, PartialEq, Eq)]
pub struct OutPoint {
    /// The transaction that created the output.
    pub txid: Txid,
    /// The output's position within that transaction.
    pub vout: u32,
}

/// The mathematical value of an [`OutPoint`].
pub ghost struct OutPointV {
    /// The funding transaction's identifier.
    pub txid: Seq<u8>,
    /// The output's position.
    pub vout: u32,
}

impl View for OutPoint {
    type V = OutPointV;

    open spec fn view(&self) -> OutPointV {
        OutPointV { txid: self.txid@, vout: self.vout }
    }
}

impl OutPoint {
    /// A copy of the reference.
    pub fn dup(&self) -> (r: Self)
        ensures
            r@ == self@,
    {
        OutPoint { txid: self.txid.dup(), vout: self.vout }
    }
}

/// A confirmation timestamp: the block height and block time under which a
/// transaction was confirmed.
#[derive(Clone, Copy, Debug, PartialEq, Eq, Structural)]
pub struct ConfTime {
    /// Height of the confirming block.
    pub height: u32,
    /// Time of the confirming block.
    pub timestamp: u64,
}

/// A remote-fetched snapshot of one transaction. Once inserted into the
/// index it is treated as immutable for the remainder of the sync.
#[derive(Debug, PartialEq, Eq)]
pub struct TxRecord {
    /// The transaction's identifier.
    pub txid: Txid,
    /// Whether the service reports the transaction as confirmed.
    pub confirmed: bool,
    /// Height of the confirming block, if confirmed and known.
    pub block_height: Option<u32>,
    /// Time of the confirming block, if confirmed and known.
    pub block_time: Option<u64>,
    /// The previous outputs the transaction spends.
    pub prev_outputs: Vec<OutPoint>,
    /// The full transaction body, serialized.
    pub raw_tx: Vec<u8>,
}

/// The mathematical value of a [`TxRecord`].
pub ghost struct TxRecordV {
    /// The transaction's identifier.
    pub txid: Seq<u8>,
    /// Whether the transaction is confirmed.
    pub confirmed: bool,
    /// Height of the confirming block, if any.
    pub block_height: Option<u32>,
    /// Time of the confirming block, if any.
    pub block_time: Option<u64>,
    /// The previous outputs spent.
    pub prev_outputs: Seq<OutPointV>,
    /// The serialized transaction body.
    pub raw_tx: Seq<u8>,
}

impl View for TxRecord {
    type V = TxRecordV;

    open spec fn view(&self) -> TxRecordV {
        TxRecordV {
            txid: self.txid@,
            confirmed: self.confirmed,
            block_height: self.block_height,
            block_time: self.block_time,
            prev_outputs: outpoint_views(self.prev_outputs@),
            raw_tx: self.raw_tx@,
        }
    }
}

/// The values of a sequence of previous-output references.
pub open spec fn outpoint_views(s: Seq<OutPoint>) -> Seq<OutPointV> {
    s.map_values(|o: OutPoint| o@)
}

/// The values of a sequence of records.
pub open spec fn record_views(s: Seq<TxRecord>) -> Seq<TxRecordV> {
    s.map_values(|r: TxRecord| r@)
}

/// No transaction id occurs twice in the sequence.
pub open spec fn distinct_ids(s: Seq<TxRecordV>) -> bool {
    forall|i: int, j: int| 0 <= i < j < s.len() ==> s[i].txid != s[j].txid
}

/// The confirmation time of a record: present exactly when the service
/// reports the transaction confirmed under a known block height and time.
pub open spec fn conftime_of(r: TxRecordV) -> Option<ConfTime> {
    if r.confirmed {
        match (r.block_height, r.block_time) {
            (Some(height), Some(timestamp)) => Some(ConfTime { height, timestamp }),
            _ => None,
        }
    } else {
        None
    }
}

impl TxRecord {
    /// The record's confirmation time, present only if confirmed.
    pub fn conftime(&self) -> (r: Option<ConfTime>)
        ensures
            r == conftime_of(self@),
    {
        if self.confirmed {
            match (self.block_height, self.block_time) {
                (Some(height), Some(timestamp)) => Some(ConfTime { height, timestamp }),
                _ => None,
            }
        } else {
            None
        }
    }

    /// A field-for-field copy of the record.
    pub fn dup(&self) -> (r: Self)
        ensures
            r@ == self@,
    {
        TxRecord {
            txid: self.txid.dup(),
            confirmed: self.confirmed,
            block_height: self.block_height,
            block_time: self.block_time,
            prev_outputs: clone_outpoints(&self.prev_outputs),
            raw_tx: clone_bytes(&self.raw_tx),
        }
    }
}

/// A byte-for-byte copy of a byte vector.
pub fn clone_bytes(v: &Vec<u8>) -> (r: Vec<u8>)
    ensures
        r@ == v@,
{
    let mut r: Vec<u8> = Vec::new();
    let mut i: usize = 0;
    while i < v.len()
        invariant
            i <= v.len(),
            r@ == v@.take(i as int),
        decreases v.len() - i,
    {
        r.push(v[i]);
        proof {
            assert(v@.take(i + 1 as int) =~= v@.take(i as int).push(v@[i as int]));
        }
        i = i + 1;
    }
    proof {
        assert(v@.take(v@.len() as int) =~= v@);
    }
    r
}

/// Byte-for-byte equality of two byte vectors.
pub fn bytes_eq(a: &Vec<u8>, b: &Vec<u8>) -> (r: bool)
    ensures
        r == (a@ == b@),
{
    if a.len() != b.len() {
        return false;
    }
    let mut i: usize = 0;
    while i < a.len()
        invariant
            i <= a.len(),
            a@.len() == b@.len(),
            forall|j: int| 0 <= j < i ==> a@[j] == b@[j],
        decreases a.len() - i,
    {
        if a[i] != b[i] {
            return false;
        }
        i = i + 1;
    }
    proof {
        assert(a@ =~= b@);
    }
    true
}

/// An element-for-element copy of a sequence of previous-output references.
pub fn clone_outpoints(v: &Vec<OutPoint>) -> (r: Vec<OutPoint>)
    ensures
        outpoint_views(r@) == outpoint_views(v@),
{
    let mut r: Vec<OutPoint> = Vec::new();
    let mut i: usize = 0;
    while i < v.len()
        invariant
            i <= v.len(),
            outpoint_views(r@) == outpoint_views(v@.take(i as int)),
        decreases v.len() - i,
    {
        r.push(v[i].dup());
        proof {
            assert(outpoint_views(v@.take(i + 1 as int)) =~= outpoint_views(
                v@.take(i as int),
            ).push(v@[i as int]@));
            assert(outpoint_views(r@) =~= outpoint_views(v@.take(i as int)).push(v@[i as int]@));
        }
        i = i + 1;
    }
    proof {
        assert(v@.take(v@.len() as int) =~= v@);
    }
    r
}

/// If two stretches of history each list distinct transaction ids and share
/// no id, their concatenation lists each id at most once.
pub proof fn lemma_disjoint_append_distinct(a: Seq<TxRecordV>, b: Seq<TxRecordV>)
    requires
        distinct_ids(a),
        distinct_ids(b),
        forall|i: int, j: int|
            0 <= i < a.len() && 0 <= j < b.len() ==> #[trigger] a[i].txid != #[trigger] b[j].txid,
    ensures
        distinct_ids(a + b),
{
    assert forall|i: int, j: int| 0 <= i < j < (a + b).len() implies (a + b)[i].txid != (a
        + b)[j].txid by {
        if j < a.len() {
            assert((a + b)[i] == a[i]);
            assert((a + b)[j] == a[j]);
        } else if i < a.len() {
            assert((a + b)[i] == a[i]);
            assert((a + b)[j] == b[j - a.len()]);
        } else {
            assert((a + b)[i] == b[i - a.len()]);
            assert((a + b)[j] == b[j - a.len()]);
        }
    }
}

} // verus!
