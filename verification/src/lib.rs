//! A first-seen timestamping notary: records, durably and exactly once, the
//! moment each distinct event identifier was first observed, and answers
//! point lookups of that moment. Ingestion deduplicates by identifier and
//! filters out excluded event categories; the ledger is an embedded
//! transactional key-value store that is never updated in place.

pub mod feed;
pub mod filter;
pub mod ingest;
pub mod laws;
pub mod query;
pub mod store;
pub mod timestamp;
