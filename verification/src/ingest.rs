use vstd::prelude::*;

verus! {

use crate::filter::{FilterConfig, eligible, is_eligible};
use crate::store::{Ledger, StoreError, WriteTxn, write_view};
use crate::timestamp::{ts_bytes, encode_ts};

/// What one write transaction did for an identifier.
#[derive(Clone, Copy, Debug, PartialEq, Eq, Structural)]
pub enum RecordOutcome {
    /// The identifier was absent: its first-seen timestamp was written.
    Recorded,
    /// An entry already existed: nothing was written.
    AlreadyPresent,
}

/// What ingestion did with one delivered event.
#[derive(Clone, Copy, Debug, PartialEq, Eq, Structural)]
pub enum IngestOutcome {
    /// The event's category is excluded: the store was not touched.
    Skipped,
    /// The identifier already has a committed entry: the store is unchanged.
    AlreadyRecorded,
    /// A first-seen entry for the identifier was committed.
    Committed,
}

/// The effect of one first-seen record attempt on store contents: an entry
/// is created only where none exists, and an existing one is never altered.
pub open spec fn record_model(m: Map<Seq<u8>, Seq<u8>>, key: Seq<u8>, now: u64) -> Map<
    Seq<u8>,
    Seq<u8>,
> {
    if m.contains_key(key) {
        m
    } else {
        m.insert(key, ts_bytes(now))
    }
}

/// The effect of one delivered event on store contents: excluded categories
/// leave the store untouched, eligible ones record a first-seen entry.
pub open spec fn notarize_model(
    m: Map<Seq<u8>, Seq<u8>>,
    cfg: FilterConfig,
    key: Seq<u8>,
    category: u16,
    now: u64,
) -> Map<Seq<u8>, Seq<u8>> {
    if eligible(cfg, category) {
        record_model(m, key, now)
    } else {
        m
    }
}

/// The write-once commit discipline, inside one open write transaction:
/// read the entry for the identifier; if present, change nothing; if
/// absent, write the current timestamp. The single serialized writer makes
/// this check-then-act sequence atomic with respect to other writers.
pub fn record_first_seen(txn: &mut WriteTxn, key: &Vec<u8>, now: u64) -> (r: Result<
    RecordOutcome,
    StoreError,
>)
    ensures
        r is Ok ==> write_view(final(txn)) == record_model(write_view(old(txn)), key@, now),
        r == Ok::<RecordOutcome, StoreError>(RecordOutcome::Recorded) <==> r is Ok && !write_view(
            old(txn),
        ).contains_key(key@),
        r == Ok::<RecordOutcome, StoreError>(RecordOutcome::AlreadyPresent) <==> r is Ok
            && write_view(old(txn)).contains_key(key@),
        r is Err ==> write_view(final(txn)) == write_view(old(txn)),
{
    match txn.get(key) {
        Err(e) => Err(e),
        Ok(Some(_existing)) => Ok(RecordOutcome::AlreadyPresent),
        Ok(None) => {
            let value = encode_ts(now);
            match txn.put(key, &value) {
                Ok(()) => Ok(RecordOutcome::Recorded),
                Err(e) => Err(e),
            }
        },
    }
}

/// Ingestion of one delivered event: apply the event filter, then perform
/// the idempotent first-seen commit in one write transaction. An ineligible
/// event is skipped without touching the store; a redelivered identifier
/// aborts the transaction unchanged; a fresh identifier gets the current
/// wall-clock timestamp committed. Store errors (`Full` in particular) are
/// surfaced to the caller, which must treat them as fatal.
pub fn ingest_event(
    ledger: &Ledger,
    cfg: &FilterConfig,
    id: &Vec<u8>,
    category: u16,
    now: u64,
) -> (r: Result<IngestOutcome, StoreError>)
    ensures
        r == Ok::<IngestOutcome, StoreError>(IngestOutcome::Skipped) <==> !eligible(*cfg, category),
        r == Ok::<IngestOutcome, StoreError>(IngestOutcome::Committed) ==> eligible(*cfg, category),
        r == Ok::<IngestOutcome, StoreError>(IngestOutcome::AlreadyRecorded) ==> eligible(
            *cfg,
            category,
        ),
        r is Err ==> eligible(*cfg, category),
{
    if !is_eligible(cfg, category) {
        return Ok(IngestOutcome::Skipped);
    }
    let mut txn = match ledger.begin_write() {
        Ok(t) => t,
        Err(e) => return Err(e),
    };
    match record_first_seen(&mut txn, id, now) {
        Ok(RecordOutcome::AlreadyPresent) => {
            txn.abort();
            Ok(IngestOutcome::AlreadyRecorded)
        },
        Ok(RecordOutcome::Recorded) => {
            match txn.commit() {
                Ok(()) => Ok(IngestOutcome::Committed),
                Err(e) => Err(e),
            }
        },
        Err(e) => {
            txn.abort();
            Err(e)
        },
    }
}

} // verus!
