use vstd::prelude::*;

verus! {

use crate::store::{Ledger, ReadTxn, StoreError, read_snapshot};
use crate::timestamp::{le64_u64, decode_ts};

/// The answer of the query service for one identifier.
#[derive(Clone, Copy, Debug, PartialEq, Eq, Structural)]
pub enum LookupResult {
    /// The identifier has a committed entry: its first-seen timestamp.
    Found(u64),
    /// No committed entry exists for the identifier.
    NotFound,
    /// The store failed, or holds an undecodable entry; no internal detail
    /// is exposed to the caller.
    InternalError,
}

/// What a lookup answers, given the store state it reads: a well-formed
/// entry decodes to its timestamp, an absent or empty one is a miss, and an
/// entry of any other width is internal corruption.
pub open spec fn lookup_model(m: Map<Seq<u8>, Seq<u8>>, key: Seq<u8>) -> LookupResult {
    if !m.contains_key(key) {
        LookupResult::NotFound
    } else if m[key].len() == 8 {
        LookupResult::Found(le64_u64(m[key]))
    } else if m[key].len() == 0 {
        LookupResult::NotFound
    } else {
        LookupResult::InternalError
    }
}

/// Answers a lookup against the snapshot of an already-open read
/// transaction. Never writes. Unless the store itself fails, the answer is
/// exactly what the snapshot holds for the key.
pub fn lookup_in(txn: &ReadTxn, key: &Vec<u8>) -> (r: LookupResult)
    ensures
        !(r is InternalError) ==> r == lookup_model(read_snapshot(txn), key@),
        lookup_model(read_snapshot(txn), key@) is InternalError ==> r is InternalError,
{
    match txn.get(key) {
        Err(_) => LookupResult::InternalError,
        Ok(None) => LookupResult::NotFound,
        Ok(Some(value)) => {
            if value.len() == 0 {
                LookupResult::NotFound
            } else {
                match decode_ts(&value) {
                    Some(t) => LookupResult::Found(t),
                    None => LookupResult::InternalError,
                }
            }
        },
    }
}

/// The query service's read path: opens a read transaction, looks the
/// identifier up in its snapshot, and releases the transaction on every
/// path. Never writes, never retries; a store failure is answered as an
/// internal error at once.
pub fn lookup(ledger: &Ledger, key: &Vec<u8>) -> (r: LookupResult) {
    let txn = match ledger.begin_read() {
        Ok(t) => t,
        Err(_) => return LookupResult::InternalError,
    };
    let r = lookup_in(&txn, key);
    txn.close();
    r
}

} // verus!
