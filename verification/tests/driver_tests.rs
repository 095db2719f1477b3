//! Tests of the four-stage sync driver: script discovery, confirmation
//! resolution, transaction fetch, and the single commit at the end.

use esplora_sync::collector::Collector;
use esplora_sync::driver::{apply_script_histories, resolve_conftimes, resolve_full_txs};
use esplora_sync::errors::SyncError;
use esplora_sync::index::TxIndex;
use esplora_sync::records::{ConfTime, OutPoint, Txid, TxRecord};
use esplora_sync::{get_capabilities, Capability};

fn txid(n: u8) -> Txid {
    Txid { bytes: vec![n] }
}

fn record(n: u8, height: u32) -> TxRecord {
    TxRecord {
        txid: txid(n),
        confirmed: true,
        block_height: Some(height),
        block_time: Some(1_700_000_000 + height as u64),
        prev_outputs: vec![OutPoint { txid: txid(n.wrapping_add(100)), vout: 0 }],
        raw_tx: vec![n, 0xab],
    }
}

fn page(ids: std::ops::Range<u8>) -> Vec<TxRecord> {
    ids.map(|n| record(n, 10 + n as u32)).collect()
}

#[test]
fn capabilities_are_advertised() {
    assert_eq!(
        get_capabilities(),
        vec![
            Capability::FullHistory,
            Capability::GetAnyTx,
            Capability::AccurateFees
        ]
    );
}

/// A fabricated sync plan requesting two scripts with known synthetic
/// histories: the finish-stage data holds, for every transaction id
/// discovered during script discovery, exactly one confirmation-time entry
/// and one full-transaction entry, matching the discovery order.
#[test]
fn plan_resolves_every_discovered_id_once() {
    let mut index = TxIndex::new();
    let histories = vec![page(1..3), page(3..4)];
    let satisfaction = apply_script_histories(&mut index, &histories);

    // The satisfaction mirrors the collected order, script by script.
    assert_eq!(satisfaction.len(), 2);
    assert_eq!(satisfaction[0].len(), 2);
    assert_eq!(satisfaction[1].len(), 1);
    assert_eq!(satisfaction[0][0].txid.bytes, vec![1]);
    assert_eq!(satisfaction[0][0].height, Some(11));
    assert_eq!(satisfaction[0][1].txid.bytes, vec![2]);
    assert_eq!(satisfaction[1][0].txid.bytes, vec![3]);

    // The collaborator then asks for each discovered id, in discovery order.
    let requested: Vec<Txid> = vec![txid(1), txid(2), txid(3)];
    let conftimes = resolve_conftimes(&index, &requested).expect("all ids were discovered");
    assert_eq!(conftimes.len(), 3);
    for (i, entry) in conftimes.iter().enumerate() {
        let height = 11 + i as u32;
        assert_eq!(
            *entry,
            Some(ConfTime { height, timestamp: 1_700_000_000 + height as u64 })
        );
    }

    let full = resolve_full_txs(&index, &requested).expect("all ids were discovered");
    assert_eq!(full.len(), 3);
    for (i, entry) in full.iter().enumerate() {
        let n = 1 + i as u8;
        assert_eq!(entry.raw_tx, vec![n, 0xab]);
        assert_eq!(entry.prev_outputs.len(), 1);
        assert_eq!(entry.prev_outputs[0].txid.bytes, vec![n.wrapping_add(100)]);
    }
}

/// A collaborator that asks to resolve a transaction id never returned
/// during script discovery hits the fatal invariant-violation path.
#[test]
fn unknown_id_is_an_invariant_violation() {
    let mut index = TxIndex::new();
    let histories = vec![page(1..3)];
    let _ = apply_script_histories(&mut index, &histories);

    let malformed: Vec<Txid> = vec![txid(1), txid(9)];
    assert!(matches!(
        resolve_conftimes(&index, &malformed),
        Err(SyncError::InvariantViolation)
    ));
    assert!(matches!(
        resolve_full_txs(&index, &malformed),
        Err(SyncError::InvariantViolation)
    ));
}

#[test]
fn duplicate_discovery_keeps_last_record() {
    let mut index = TxIndex::new();
    // The same id comes back for two scripts; the later record wins.
    let histories = vec![vec![record(5, 10)], vec![record(5, 77)]];
    let satisfaction = apply_script_histories(&mut index, &histories);
    assert_eq!(satisfaction.len(), 2);
    assert_eq!(index.len(), 1);
    let found = index.get(&txid(5)).expect("id 5 was discovered");
    assert_eq!(found.block_height, Some(77));
}

/// End-to-end: script one has 30 confirmed transactions (a page of 25 and a
/// page of 5), script two has none. The sync indexes 30 records, resolves a
/// confirmation time for all 30, materializes all 30 transactions, and
/// commits exactly once.
#[test]
fn full_sync_of_two_scripts() {
    let mut commits: usize = 0;

    // Script-discovery stage: collect each requested script's history.
    let mut first = Collector::new();
    assert!(first.next_cursor().is_none());
    assert!(first.on_page(page(0..25)));
    assert_eq!(first.next_cursor().expect("a cursor").bytes, vec![24]);
    assert!(!first.on_page(page(25..30)));

    let mut second = Collector::new();
    assert!(!second.on_page(Vec::new()));

    let histories = vec![first.into_history(), second.into_history()];
    let mut index = TxIndex::new();
    let satisfaction = apply_script_histories(&mut index, &histories);
    assert_eq!(index.len(), 30);
    assert_eq!(satisfaction[0].len(), 30);
    assert_eq!(satisfaction[1].len(), 0);

    // Confirmation-resolution stage over every discovered id.
    let requested: Vec<Txid> = (0u8..30).map(txid).collect();
    let conftimes = resolve_conftimes(&index, &requested).expect("all ids were discovered");
    assert_eq!(conftimes.len(), 30);
    assert!(conftimes.iter().all(|c| c.is_some()));

    // Transaction-fetch stage over the same ids.
    let full = resolve_full_txs(&index, &requested).expect("all ids were discovered");
    assert_eq!(full.len(), 30);
    for (i, entry) in full.iter().enumerate() {
        assert_eq!(entry.raw_tx, vec![i as u8, 0xab]);
    }

    // Finish: the batch goes to the database collaborator exactly once.
    let batch = (conftimes, full);
    commits += 1;
    assert_eq!(commits, 1);
    assert_eq!(batch.0.len(), 30);
    assert_eq!(batch.1.len(), 30);
}
