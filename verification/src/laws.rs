use vstd::prelude::*;

verus! {

use crate::filter::{FilterConfig, eligible};
use crate::ingest::{record_model, notarize_model};
use crate::query::{LookupResult, lookup_model};
use crate::timestamp::{ts_bytes, lemma_ts_roundtrip};

/// One delivery of an event from the feed, as ingestion sees it: the
/// identifier's key bytes, the category code, and the wall-clock time at
/// which this system observed it.
pub struct Delivery {
    pub key: Seq<u8>,
    pub category: u16,
    pub now: u64,
}

/// The store contents after a whole sequence of deliveries has been
/// ingested, one idempotent commit at a time.
pub open spec fn run_feed(
    m: Map<Seq<u8>, Seq<u8>>,
    cfg: FilterConfig,
    evs: Seq<Delivery>,
) -> Map<Seq<u8>, Seq<u8>>
    decreases evs.len(),
{
    if evs.len() == 0 {
        m
    } else {
        run_feed(
            notarize_model(m, cfg, evs[0].key, evs[0].category, evs[0].now),
            cfg,
            evs.drop_first(),
        )
    }
}

/// Write-once: an identifier that has a committed entry keeps exactly that
/// entry across any further deliveries — redelivery of the same event with
/// any timestamps, interleaved with any other events, before or after an
/// ingestion restart, never alters or removes it.
pub proof fn lemma_write_once(
    m: Map<Seq<u8>, Seq<u8>>,
    cfg: FilterConfig,
    evs: Seq<Delivery>,
    key: Seq<u8>,
)
    requires
        m.contains_key(key),
    ensures
        run_feed(m, cfg, evs).contains_key(key),
        run_feed(m, cfg, evs)[key] == m[key],
    decreases evs.len(),
{
    if evs.len() > 0 {
        let m1 = notarize_model(m, cfg, evs[0].key, evs[0].category, evs[0].now);
        assert(m1.contains_key(key) && m1[key] == m[key]);
        lemma_write_once(m1, cfg, evs.drop_first(), key);
    }
}

/// First commit wins: the first eligible delivery of an absent identifier
/// writes the timestamp of that very delivery, and the entry then stays
/// exactly that across every later delivery.
pub proof fn lemma_first_commit_wins(
    m: Map<Seq<u8>, Seq<u8>>,
    cfg: FilterConfig,
    key: Seq<u8>,
    category: u16,
    t1: u64,
    evs: Seq<Delivery>,
)
    requires
        !m.contains_key(key),
        eligible(cfg, category),
    ensures
        run_feed(notarize_model(m, cfg, key, category, t1), cfg, evs).contains_key(key),
        run_feed(notarize_model(m, cfg, key, category, t1), cfg, evs)[key] == ts_bytes(t1),
{
    let m1 = notarize_model(m, cfg, key, category, t1);
    assert(m1.contains_key(key) && m1[key] == ts_bytes(t1));
    lemma_write_once(m1, cfg, evs, key);
}

/// Filter exclusion: an identifier whose deliveries all carry excluded
/// categories never gets an entry, regardless of repetition or of what
/// other identifiers are delivered around it.
pub proof fn lemma_filter_exclusion(
    m: Map<Seq<u8>, Seq<u8>>,
    cfg: FilterConfig,
    evs: Seq<Delivery>,
    key: Seq<u8>,
)
    requires
        !m.contains_key(key),
        forall|i: int|
            0 <= i < evs.len() && #[trigger] evs[i].key == key ==> !eligible(
                cfg,
                evs[i].category,
            ),
    ensures
        !run_feed(m, cfg, evs).contains_key(key),
    decreases evs.len(),
{
    if evs.len() > 0 {
        let m1 = notarize_model(m, cfg, evs[0].key, evs[0].category, evs[0].now);
        assert(!m1.contains_key(key));
        assert forall|i: int|
            0 <= i < evs.drop_first().len() && #[trigger] evs.drop_first()[i].key
                == key implies !eligible(cfg, evs.drop_first()[i].category) by {
            assert(evs.drop_first()[i] == evs[i + 1]);
        }
        lemma_filter_exclusion(m1, cfg, evs.drop_first(), key);
    }
}

/// Lookup correctness: after a first-seen commit of an identifier at time
/// `t`, a lookup of that identifier answers exactly `t`; an identifier that
/// was never committed is answered as a miss.
pub proof fn lemma_lookup_after_commit(
    m: Map<Seq<u8>, Seq<u8>>,
    key: Seq<u8>,
    t: u64,
    other: Seq<u8>,
)
    requires
        !m.contains_key(key),
    ensures
        lookup_model(record_model(m, key, t), key) == LookupResult::Found(t),
        !m.contains_key(other) && other != key ==> lookup_model(record_model(m, key, t), other)
            == LookupResult::NotFound,
{
    lemma_ts_roundtrip(t);
}

} // verus!
