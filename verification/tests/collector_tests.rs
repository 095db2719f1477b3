//! Tests of the paginating script-history collector.

use esplora_sync::collector::{Collector, PAGE_SIZE};
use esplora_sync::records::{Txid, TxRecord};

fn txid(n: u8) -> Txid {
    Txid { bytes: vec![n] }
}

fn record(n: u8, confirmed: bool) -> TxRecord {
    TxRecord {
        txid: txid(n),
        confirmed,
        block_height: if confirmed { Some(100) } else { None },
        block_time: if confirmed { Some(1_600_000_000) } else { None },
        prev_outputs: Vec::new(),
        raw_tx: vec![n, n],
    }
}

fn page(ids: std::ops::Range<u8>, confirmed: bool) -> Vec<TxRecord> {
    ids.map(|n| record(n, confirmed)).collect()
}

/// A script with fewer than 25 confirmed related transactions is complete
/// after exactly one page fetch.
#[test]
fn short_history_takes_one_fetch() {
    let mut collector = Collector::new();
    assert!(collector.next_cursor().is_none());
    let more = collector.on_page(page(0..24, true));
    assert!(!more);
    assert!(collector.is_done());
    let history = collector.into_history();
    assert_eq!(history.len(), 24);
}

#[test]
fn empty_first_page_takes_one_fetch() {
    let mut collector = Collector::new();
    let more = collector.on_page(Vec::new());
    assert!(!more);
    assert!(collector.is_done());
    assert_eq!(collector.into_history().len(), 0);
}

/// A large first page counts only confirmed records: 30 records of which 10
/// are confirmed do not trigger a second fetch.
#[test]
fn unconfirmed_records_do_not_page() {
    let mut collector = Collector::new();
    let mut first: Vec<TxRecord> = page(0..10, true);
    first.extend(page(10..30, false));
    let more = collector.on_page(first);
    assert!(!more);
    assert_eq!(collector.into_history().len(), 30);
}

/// A first page of exactly 25 confirmed transactions forces at least a second
/// fetch, and the reconstructed history holds no transaction id twice.
#[test]
fn full_first_page_forces_second_fetch() {
    let mut collector = Collector::new();
    let more = collector.on_page(page(0..25, true));
    assert!(more);
    assert!(!collector.is_done());
    // The second fetch uses the last collected id as cursor.
    let cursor = collector.next_cursor().expect("a cursor after a full page");
    assert_eq!(cursor.bytes, vec![24]);
    let more = collector.on_page(page(25..30, true));
    assert!(!more);
    let history = collector.into_history();
    assert_eq!(history.len(), 30);
    for i in 0..history.len() {
        for j in 0..i {
            assert_ne!(history[i].txid.bytes, history[j].txid.bytes);
        }
    }
}

/// A history whose confirmed count is an exact multiple of 25 takes one
/// additional, empty page fetch before the collector reports completion.
#[test]
fn exact_multiple_of_page_size_fetches_empty_page() {
    let mut collector = Collector::new();
    let mut fetches: usize = 1;
    let mut more = collector.on_page(page(0..25, true));
    assert!(more);
    fetches += 1;
    more = collector.on_page(page(25..50, true));
    assert!(more);
    assert_eq!(
        collector.next_cursor().expect("a cursor").bytes,
        vec![49]
    );
    fetches += 1;
    more = collector.on_page(Vec::new());
    assert!(!more);
    assert_eq!(fetches, 3);
    assert_eq!(collector.into_history().len(), 50);
}

/// Later pages go by their raw length, not the confirmed count: a full
/// continuation page of unconfirmed records still forces another fetch.
#[test]
fn continuation_pages_count_all_records() {
    let mut collector = Collector::new();
    assert!(collector.on_page(page(0..25, true)));
    let more = collector.on_page(page(25..50, false));
    assert!(more);
    assert!(!collector.on_page(page(50..51, false)));
    assert_eq!(collector.into_history().len(), 51);
}

#[test]
fn page_size_is_twenty_five() {
    assert_eq!(PAGE_SIZE, 25);
}
