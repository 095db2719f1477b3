//! The sync driver's stage work. The external sync-plan collaborator owns
//! the stage transitions (script discovery, confirmation resolution,
//! transaction fetch, finish); the driver fulfills each stage's request in
//! order. Script discovery populates the index and reports each script's
//! discovered transactions; the two later stages resolve requested ids
//! against the index, preserving request order exactly.

use vstd::prelude::*;
use crate::errors::SyncError;
use crate::index::TxIndex;
use crate::records::{
    ConfTime, OutPoint, TxRecord, TxRecordV, Txid, clone_bytes, clone_outpoints, conftime_of,
    outpoint_views, record_views,
};

verus! {

/// One discovered transaction, as reported back for the script stage:
/// its id and, where confirmed, the block height.
#[derive(Debug, PartialEq, Eq)]
pub struct DiscoveredTx {
    /// The discovered transaction's id.
    pub txid: Txid,
    /// Height of the confirming block, if any.
    pub height: Option<u32>,
}

/// One fully resolved transaction, as reported back for the fetch stage:
/// the previous outputs it spends and its materialized body.
#[derive(Debug, PartialEq, Eq)]
pub struct FullTx {
    /// The previous outputs the transaction spends.
    pub prev_outputs: Vec<OutPoint>,
    /// The full transaction body, serialized.
    pub raw_tx: Vec<u8>,
}

/// The values of a sequence of per-script histories.
pub open spec fn history_views(s: Seq<Vec<TxRecord>>) -> Seq<Seq<TxRecordV>> {
    s.map_values(|h: Vec<TxRecord>| record_views(h@))
}

/// The index mapping after inserting a stretch of records in order,
/// later records overwriting earlier ones.
pub open spec fn index_after_records(
    m: Map<Seq<u8>, TxRecordV>,
    rs: Seq<TxRecordV>,
) -> Map<Seq<u8>, TxRecordV>
    decreases rs.len(),
{
    if rs.len() == 0 {
        m
    } else {
        index_after_records(m, rs.drop_last()).insert(rs.last().txid, rs.last())
    }
}

/// The index mapping after inserting every record of every history, in
/// request order.
pub open spec fn index_after_histories(
    m: Map<Seq<u8>, TxRecordV>,
    hs: Seq<Seq<TxRecordV>>,
) -> Map<Seq<u8>, TxRecordV>
    decreases hs.len(),
{
    if hs.len() == 0 {
        m
    } else {
        index_after_records(index_after_histories(m, hs.drop_last()), hs.last())
    }
}

/// Inserting a stretch of records keeps every key the index already had and
/// adds the id of every inserted record.
pub proof fn lemma_records_populate(m: Map<Seq<u8>, TxRecordV>, rs: Seq<TxRecordV>)
    ensures
        forall|k: Seq<u8>|
            m.contains_key(k) ==> index_after_records(m, rs).contains_key(k),
        forall|j: int|
            0 <= j < rs.len() ==> index_after_records(m, rs).contains_key(#[trigger] rs[j].txid),
    decreases rs.len(),
{
    if rs.len() > 0 {
        lemma_records_populate(m, rs.drop_last());
        assert forall|j: int| 0 <= j < rs.len() implies index_after_records(m, rs).contains_key(
            #[trigger] rs[j].txid,
        ) by {
            if j < rs.len() - 1 {
                assert(rs.drop_last()[j] == rs[j]);
            }
        }
    }
}

/// Script discovery populates the index in full: after all histories are
/// applied, the index holds every key it held before and the id of every
/// discovered transaction. So the later stages, whose requested ids were all
/// discovered, cannot hit the invariant-violation path.
pub proof fn lemma_discovery_populates_index(m: Map<Seq<u8>, TxRecordV>, hs: Seq<Seq<TxRecordV>>)
    ensures
        forall|k: Seq<u8>|
            m.contains_key(k) ==> index_after_histories(m, hs).contains_key(k),
        forall|i: int, j: int|
            0 <= i < hs.len() && 0 <= j < hs[i].len() ==> index_after_histories(
                m,
                hs,
            ).contains_key(#[trigger] hs[i][j].txid),
    decreases hs.len(),
{
    if hs.len() > 0 {
        lemma_discovery_populates_index(m, hs.drop_last());
        lemma_records_populate(index_after_histories(m, hs.drop_last()), hs.last());
        assert forall|i: int, j: int|
            0 <= i < hs.len() && 0 <= j < hs[i].len() implies index_after_histories(
            m,
            hs,
        ).contains_key(#[trigger] hs[i][j].txid) by {
            if i < hs.len() - 1 {
                assert(hs.drop_last()[i] == hs[i]);
            } else {
                assert(hs.last() == hs[i]);
            }
        }
    }
}

/// Stage-order soundness: a later stage whose requested ids were each
/// discovered during the script stage finds every one of them in the index,
/// so its resolution is owed success.
pub proof fn lemma_discovered_ids_resolve(
    m: Map<Seq<u8>, TxRecordV>,
    hs: Seq<Seq<TxRecordV>>,
    ks: Seq<Seq<u8>>,
)
    requires
        forall|x: int|
            0 <= x < ks.len() ==> exists|i: int, j: int|
                0 <= i < hs.len() && 0 <= j < hs[i].len() && #[trigger] ks[x] == hs[i][j].txid,
    ensures
        forall|x: int|
            0 <= x < ks.len() ==> index_after_histories(m, hs).contains_key(#[trigger] ks[x]),
{
    lemma_discovery_populates_index(m, hs);
    assert forall|x: int| 0 <= x < ks.len() implies index_after_histories(m, hs).contains_key(
        #[trigger] ks[x],
    ) by {
        let (i, j) = choose|i: int, j: int|
            0 <= i < hs.len() && 0 <= j < hs[i].len() && ks[x] == hs[i][j].txid;
        assert(index_after_histories(m, hs).contains_key(hs[i][j].txid));
    }
}

/// Fulfill the script-discovery stage from already collected histories, one
/// per requested script in request order: insert every record into the index
/// keyed by its transaction id (last write wins), and report, per script, the
/// ordered (transaction id, optional block height) pairs mirroring the
/// collected order.
#[verifier::loop_isolation(false)]
pub fn apply_script_histories(index: &mut TxIndex, histories: &Vec<Vec<TxRecord>>) -> (sat: Vec<
    Vec<DiscoveredTx>,
>)
    requires
        old(index).wf(),
    ensures
        final(index).wf(),
        final(index)@ == index_after_histories(old(index)@, history_views(histories@)),
        sat@.len() == histories@.len(),
        forall|i: int|
            0 <= i < histories@.len() ==> (#[trigger] sat@[i])@.len() == histories@[i]@.len(),
        forall|i: int, j: int|
            0 <= i < histories@.len() && 0 <= j < histories@[i]@.len() ==> (#[trigger] sat@[i]@[j]).txid@
                == histories@[i]@[j]@.txid && sat@[i]@[j].height == histories@[i]@[j]@.block_height,
{
    let ghost m0 = index@;
    let ghost hv = history_views(histories@);
    let mut sat: Vec<Vec<DiscoveredTx>> = Vec::new();
    let mut i: usize = 0;
    while i < histories.len()
        invariant
            i <= histories.len(),
            index.wf(),
            index@ == index_after_histories(m0, hv.take(i as int)),
            sat@.len() == i,
            forall|x: int|
                0 <= x < i ==> (#[trigger] sat@[x])@.len() == histories@[x]@.len(),
            forall|x: int, y: int|
                0 <= x < i && 0 <= y < histories@[x]@.len() ==> (#[trigger] sat@[x]@[y]).txid@
                    == histories@[x]@[y]@.txid && sat@[x]@[y].height
                    == histories@[x]@[y]@.block_height,
        decreases histories.len() - i,
    {
        let ghost mi = index@;
        let h = &histories[i];
        let ghost rv = record_views(h@);
        let mut items: Vec<DiscoveredTx> = Vec::new();
        let mut j: usize = 0;
        while j < h.len()
            invariant
                j <= h.len(),
                index.wf(),
                index@ == index_after_records(mi, rv.take(j as int)),
                items@.len() == j,
                forall|y: int|
                    0 <= y < j ==> (#[trigger] items@[y]).txid@ == rv[y].txid && items@[y].height
                        == rv[y].block_height,
            decreases h.len() - j,
        {
            let rec = &h[j];
            items.push(DiscoveredTx { txid: rec.txid.dup(), height: rec.block_height });
            index.insert(rec.dup());
            proof {
                assert(rv.take(j + 1 as int).drop_last() =~= rv.take(j as int));
                assert(rv.take(j + 1 as int).last() == rv[j as int]);
            }
            j = j + 1;
        }
        proof {
            assert(rv.take(rv.len() as int) =~= rv);
            assert(hv.take(i + 1 as int).drop_last() =~= hv.take(i as int));
            assert(hv.take(i + 1 as int).last() == hv[i as int]);
            assert(hv[i as int] == rv);
        }
        sat.push(items);
        i = i + 1;
    }
    proof {
        assert(hv.take(hv.len() as int) =~= hv);
    }
    sat
}

/// Fulfill the confirmation-resolution stage: for each requested id, in
/// request order, the confirmation time of the indexed record, present only
/// if confirmed. An id that script discovery never returned is an internal
/// contract violation: the whole resolution fails, and it fails only then.
#[verifier::loop_isolation(false)]
pub fn resolve_conftimes(index: &TxIndex, txids: &Vec<Txid>) -> (r: Result<
    Vec<Option<ConfTime>>,
    SyncError,
>)
    requires
        index.wf(),
    ensures
        r is Ok <==> (forall|i: int|
            0 <= i < txids@.len() ==> index@.contains_key(#[trigger] txids@[i]@)),
        r is Err ==> r == Err::<Vec<Option<ConfTime>>, SyncError>(SyncError::InvariantViolation),
        r matches Ok(v) ==> v@.len() == txids@.len() && (forall|i: int|
            0 <= i < txids@.len() ==> v@[i] == conftime_of(index@[#[trigger] txids@[i]@])),
{
    let mut out: Vec<Option<ConfTime>> = Vec::new();
    let mut i: usize = 0;
    while i < txids.len()
        invariant
            i <= txids.len(),
            out@.len() == i,
            forall|x: int| 0 <= x < i ==> index@.contains_key(#[trigger] txids@[x]@),
            forall|x: int|
                0 <= x < i ==> out@[x] == conftime_of(index@[#[trigger] txids@[x]@]),
        decreases txids.len() - i,
    {
        match index.get(&txids[i]) {
            Some(rec) => {
                out.push(rec.conftime());
            },
            None => {
                return Err(SyncError::InvariantViolation);
            },
        }
        i = i + 1;
    }
    Ok(out)
}

/// Fulfill the transaction-fetch stage: for each requested id, in request
/// order, the indexed record's previous outputs and materialized body. An id
/// that script discovery never returned is an internal contract violation:
/// the whole resolution fails, and it fails only then.
#[verifier::loop_isolation(false)]
pub fn resolve_full_txs(index: &TxIndex, txids: &Vec<Txid>) -> (r: Result<Vec<FullTx>, SyncError>)
    requires
        index.wf(),
    ensures
        r is Ok <==> (forall|i: int|
            0 <= i < txids@.len() ==> index@.contains_key(#[trigger] txids@[i]@)),
        r is Err ==> r == Err::<Vec<FullTx>, SyncError>(SyncError::InvariantViolation),
        r matches Ok(v) ==> v@.len() == txids@.len() && (forall|i: int|
            0 <= i < txids@.len() ==> outpoint_views((#[trigger] v@[i]).prev_outputs@)
                == index@[txids@[i]@].prev_outputs && v@[i].raw_tx@ == index@[txids@[i]@].raw_tx),
{
    let mut out: Vec<FullTx> = Vec::new();
    let mut i: usize = 0;
    while i < txids.len()
        invariant
            i <= txids.len(),
            out@.len() == i,
            forall|x: int| 0 <= x < i ==> index@.contains_key(#[trigger] txids@[x]@),
            forall|x: int|
                0 <= x < i ==> outpoint_views((#[trigger] out@[x]).prev_outputs@)
                    == index@[txids@[x]@].prev_outputs && out@[x].raw_tx@
                    == index@[txids@[x]@].raw_tx,
        decreases txids.len() - i,
    {
        match index.get(&txids[i]) {
            Some(rec) => {
                out.push(
                    FullTx {
                        prev_outputs: clone_outpoints(&rec.prev_outputs),
                        raw_tx: clone_bytes(&rec.raw_tx),
                    },
                );
            },
            None => {
                return Err(SyncError::InvariantViolation);
            },
        }
        i = i + 1;
    }
    Ok(out)
}

} // verus!
