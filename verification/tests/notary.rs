use notary::feed::{feed_step, should_notarize, since_lower_bound, FeedDirective, FeedSignal, FeedState};
use notary::filter::{is_eligible, FilterConfig};
use notary::ingest::{ingest_event, record_first_seen, IngestOutcome, RecordOutcome};
use notary::query::{lookup, lookup_in, LookupResult};
use notary::store::{Ledger, StoreError};
use notary::timestamp::{decode_ts, encode_ts};

const MAP_SIZE: usize = 1024 * 1024;

fn open_ledger(dir: &tempfile::TempDir) -> Ledger {
    Ledger::open(dir.path().to_str().unwrap(), MAP_SIZE).unwrap()
}

fn key(s: &str) -> Vec<u8> {
    s.as_bytes().to_vec()
}

#[test]
fn timestamp_codec_exact() {
    let v = encode_ts(1000);
    assert_eq!(v, vec![232u8, 3, 0, 0, 0, 0, 0, 0]);
    assert_eq!(decode_ts(&v), Some(1000));

    let v = encode_ts(u64::MAX);
    assert_eq!(v, vec![255u8; 8]);
    assert_eq!(decode_ts(&v), Some(u64::MAX));

    assert_eq!(decode_ts(&vec![1u8, 2, 3]), None);
    assert_eq!(decode_ts(&Vec::new()), None);
    assert_eq!(decode_ts(&encode_ts(0)), Some(0));
}

#[test]
fn filter_exclusion_range() {
    let cfg = FilterConfig::ephemeral();
    assert!(is_eligible(&cfg, 1));
    assert!(is_eligible(&cfg, 19999));
    assert!(!is_eligible(&cfg, 20000));
    assert!(!is_eligible(&cfg, 25000));
    assert!(!is_eligible(&cfg, 29999));
    assert!(is_eligible(&cfg, 30000));
    assert!(is_eligible(&cfg, u16::MAX));
}

#[test]
fn write_once_keeps_first_timestamp() {
    let dir = tempfile::tempdir().unwrap();
    let ledger = open_ledger(&dir);
    let cfg = FilterConfig::ephemeral();
    let id = key("e1");

    let first = ingest_event(&ledger, &cfg, &id, 1, 1000).unwrap();
    assert_eq!(first, IngestOutcome::Committed);

    let again = ingest_event(&ledger, &cfg, &id, 1, 2000).unwrap();
    assert_eq!(again, IngestOutcome::AlreadyRecorded);

    assert_eq!(lookup(&ledger, &id), LookupResult::Found(1000));
}

#[test]
fn write_once_survives_reopen() {
    let dir = tempfile::tempdir().unwrap();
    let cfg = FilterConfig::ephemeral();
    let id = key("restarted");
    {
        let ledger = open_ledger(&dir);
        assert_eq!(ingest_event(&ledger, &cfg, &id, 1, 42).unwrap(), IngestOutcome::Committed);
    }
    let ledger = open_ledger(&dir);
    assert_eq!(ingest_event(&ledger, &cfg, &id, 1, 99).unwrap(), IngestOutcome::AlreadyRecorded);
    assert_eq!(lookup(&ledger, &id), LookupResult::Found(42));
}

#[test]
fn excluded_category_never_creates_entry() {
    let dir = tempfile::tempdir().unwrap();
    let ledger = open_ledger(&dir);
    let cfg = FilterConfig::ephemeral();
    let id = key("ephemeral-event");

    for t in [1000u64, 2000, 3000] {
        let r = ingest_event(&ledger, &cfg, &id, 20000, t).unwrap();
        assert_eq!(r, IngestOutcome::Skipped);
    }
    assert_eq!(lookup(&ledger, &id), LookupResult::NotFound);
}

#[test]
fn lookup_correctness() {
    let dir = tempfile::tempdir().unwrap();
    let ledger = open_ledger(&dir);
    let cfg = FilterConfig::ephemeral();

    let id = key("abc123");
    assert_eq!(ingest_event(&ledger, &cfg, &id, 1, 1000).unwrap(), IngestOutcome::Committed);
    assert_eq!(lookup(&ledger, &id), LookupResult::Found(1000));
    assert_eq!(lookup(&ledger, &key("doesnotexist")), LookupResult::NotFound);
}

#[test]
fn read_snapshot_isolated_from_later_commit() {
    let dir = tempfile::tempdir().unwrap();
    let ledger = open_ledger(&dir);
    let cfg = FilterConfig::ephemeral();
    let before = key("before");
    let after = key("after");

    assert_eq!(ingest_event(&ledger, &cfg, &before, 1, 10).unwrap(), IngestOutcome::Committed);

    let snapshot = ledger.begin_read().unwrap();
    assert_eq!(ingest_event(&ledger, &cfg, &after, 1, 20).unwrap(), IngestOutcome::Committed);

    // The old snapshot still answers from the pre-commit state, even though
    // the write has committed by the time these reads complete.
    assert_eq!(lookup_in(&snapshot, &after), LookupResult::NotFound);
    assert_eq!(lookup_in(&snapshot, &before), LookupResult::Found(10));
    snapshot.close();

    // A fresh read sees the committed write.
    assert_eq!(lookup(&ledger, &after), LookupResult::Found(20));
}

#[test]
fn durability_across_restart() {
    let dir = tempfile::tempdir().unwrap();
    let cfg = FilterConfig::ephemeral();
    let id = key("durable");
    {
        let ledger = open_ledger(&dir);
        assert_eq!(ingest_event(&ledger, &cfg, &id, 1, 777).unwrap(), IngestOutcome::Committed);
    }
    // Simulated process restart: the environment was closed and is reopened
    // from the backing file alone.
    let ledger = open_ledger(&dir);
    assert_eq!(lookup(&ledger, &id), LookupResult::Found(777));
}

#[test]
fn capacity_exhaustion_reports_full() {
    let dir = tempfile::tempdir().unwrap();
    // A deliberately tiny map so that a modest number of entries fills it.
    let ledger = Ledger::open(dir.path().to_str().unwrap(), 64 * 1024).unwrap();
    let cfg = FilterConfig::ephemeral();

    let first = key("entry-0");
    assert_eq!(ingest_event(&ledger, &cfg, &first, 1, 0).unwrap(), IngestOutcome::Committed);

    let mut saw_full = false;
    for i in 1..100000u64 {
        let id = key(&format!("entry-{}", i));
        match ingest_event(&ledger, &cfg, &id, 1, i) {
            Ok(IngestOutcome::Committed) => {}
            Err(StoreError::Full) => {
                saw_full = true;
                break;
            }
            other => panic!("unexpected outcome while filling: {:?}", other),
        }
    }
    assert!(saw_full, "the store never reported the full condition");

    // The failure is distinguishable and nothing already committed is lost.
    assert!(matches!(
        ingest_event(&ledger, &cfg, &key("one-more"), 1, 1),
        Err(StoreError::Full)
    ));
    assert_eq!(lookup(&ledger, &first), LookupResult::Found(0));
}

#[test]
fn record_first_seen_within_one_transaction() {
    let dir = tempfile::tempdir().unwrap();
    let ledger = open_ledger(&dir);
    let id = key("in-txn");

    let mut txn = ledger.begin_write().unwrap();
    assert_eq!(record_first_seen(&mut txn, &id, 5).unwrap(), RecordOutcome::Recorded);
    // A redelivery inside the same transaction already sees the pending write.
    assert_eq!(record_first_seen(&mut txn, &id, 6).unwrap(), RecordOutcome::AlreadyPresent);
    txn.commit().unwrap();

    assert_eq!(lookup(&ledger, &id), LookupResult::Found(5));
}

#[test]
fn aborted_write_leaves_no_entry() {
    let dir = tempfile::tempdir().unwrap();
    let ledger = open_ledger(&dir);
    let id = key("aborted");

    let mut txn = ledger.begin_write().unwrap();
    assert_eq!(record_first_seen(&mut txn, &id, 5).unwrap(), RecordOutcome::Recorded);
    txn.abort();

    assert_eq!(lookup(&ledger, &id), LookupResult::NotFound);
}

#[test]
fn lookup_maps_stored_widths() {
    let dir = tempfile::tempdir().unwrap();
    let ledger = open_ledger(&dir);

    // An empty stored value is answered as a miss.
    let empty = key("empty-value");
    let mut txn = ledger.begin_write().unwrap();
    txn.put(&empty, &Vec::new()).unwrap();
    txn.commit().unwrap();
    assert_eq!(lookup(&ledger, &empty), LookupResult::NotFound);

    // A non-empty value of the wrong width is internal corruption.
    let bad = key("bad-width");
    let mut txn = ledger.begin_write().unwrap();
    txn.put(&bad, &vec![1u8, 2, 3]).unwrap();
    txn.commit().unwrap();
    assert_eq!(lookup(&ledger, &bad), LookupResult::InternalError);
}

#[test]
fn feed_loop_reconnects_and_handles_events() {
    // Connection established and subscribed.
    let (s, d) = feed_step(FeedState::Disconnected, FeedSignal::SubscribeOk);
    assert_eq!(s, FeedState::Subscribed);
    assert_eq!(d, FeedDirective::Ignore);

    // Events are handled only while subscribed.
    let (s, d) = feed_step(s, FeedSignal::EventArrived);
    assert_eq!(s, FeedState::Subscribed);
    assert_eq!(d, FeedDirective::HandleEvent);

    // A lost connection always leads back to a resubscribe attempt.
    let (s, d) = feed_step(s, FeedSignal::ConnectionLost);
    assert_eq!(s, FeedState::Disconnected);
    assert_eq!(d, FeedDirective::Resubscribe);

    let (s, d) = feed_step(s, FeedSignal::SubscribeFailed);
    assert_eq!(s, FeedState::Disconnected);
    assert_eq!(d, FeedDirective::Resubscribe);

    // An event arriving while disconnected is not handled.
    let (_, d) = feed_step(s, FeedSignal::EventArrived);
    assert_eq!(d, FeedDirective::Ignore);
}

#[test]
fn subscription_window_lower_bound() {
    assert_eq!(since_lower_bound(100, 30), 70);
    assert_eq!(since_lower_bound(30, 30), 0);
    assert_eq!(since_lower_bound(10, 30), 0);
    assert_eq!(since_lower_bound(0, 30), 0);
}

#[test]
fn notarize_decision_respects_subscription_and_filter() {
    let cfg = FilterConfig::ephemeral();
    assert!(should_notarize(true, &cfg, 1));
    assert!(!should_notarize(true, &cfg, 20000));
    assert!(!should_notarize(false, &cfg, 1));
}

#[test]
fn end_to_end_scenario() {
    let dir = tempfile::tempdir().unwrap();
    let ledger = open_ledger(&dir);
    let cfg = FilterConfig::ephemeral();
    let id = key("e1");
    let wall_time = 1234567890u64;

    // Before delivery the query path answers a miss.
    assert_eq!(lookup(&ledger, &id), LookupResult::NotFound);

    // The feed delivers {id: "e1", category: 1} while subscribed.
    let (state, directive) = feed_step(FeedState::Subscribed, FeedSignal::EventArrived);
    assert_eq!(state, FeedState::Subscribed);
    assert_eq!(directive, FeedDirective::HandleEvent);
    assert!(should_notarize(true, &cfg, 1));
    assert_eq!(ingest_event(&ledger, &cfg, &id, 1, wall_time).unwrap(), IngestOutcome::Committed);

    // After the commit the query path answers the observed wall time.
    assert_eq!(lookup(&ledger, &id), LookupResult::Found(wall_time));

    // A second identical delivery leaves the stored timestamp unchanged.
    assert_eq!(
        ingest_event(&ledger, &cfg, &id, 1, wall_time + 5).unwrap(),
        IngestOutcome::AlreadyRecorded
    );
    assert_eq!(lookup(&ledger, &id), LookupResult::Found(wall_time));
}
