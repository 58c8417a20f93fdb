use vstd::prelude::*;

verus! {

/// The durable ledger's environment handle: an embedded, memory-mapped,
/// transactional key-value store with a maximum size fixed at open time.
#[verifier::external_type_specification]
#[verifier::external_body]
pub struct ExEnvironment(lmdb::Environment);

/// A handle to one database inside the environment.
#[verifier::external_type_specification]
#[verifier::external_body]
pub struct ExDatabase(lmdb::Database);

/// A read-only store transaction of the embedded store.
#[verifier::external_type_specification]
#[verifier::external_body]
pub struct ExRoTransaction<'a>(lmdb::RoTransaction<'a>);

/// A read-write store transaction of the embedded store.
#[verifier::external_type_specification]
#[verifier::external_body]
pub struct ExRwTransaction<'a>(lmdb::RwTransaction<'a>);

/// Errors surfaced by the ledger. `Full` is the distinguished "store full"
/// condition reached when the configured maximum size is exhausted; every
/// other store failure is reported as `Other`, without internal detail.
#[derive(Clone, Copy, Debug, PartialEq, Eq, Structural)]
pub enum StoreError {
    Full,
    Other,
}

/// The durable ledger: an identifier-to-timestamp store. All access goes
/// through transactions; committed entries survive process restarts.
pub struct Ledger {
    env: lmdb::Environment,
    db: lmdb::Database,
}

/// A snapshot-isolated read transaction: it observes one consistent,
/// committed state of the ledger, unaffected by writes that commit later.
pub struct ReadTxn<'a> {
    inner: lmdb::RoTransaction<'a>,
    db: lmdb::Database,
}

/// The single serialized write transaction: reads see the committed state
/// plus this transaction's own pending writes.
pub struct WriteTxn<'a> {
    inner: lmdb::RwTransaction<'a>,
    db: lmdb::Database,
}

/// The committed store state that a read transaction observes, as a map
/// from key bytes to value bytes. Fixed for the transaction's lifetime.
pub uninterp spec fn read_snapshot(t: &ReadTxn) -> Map<Seq<u8>, Seq<u8>>;

/// The store state as seen from inside a write transaction: the committed
/// state at its start plus its own pending writes.
pub uninterp spec fn write_view(t: &WriteTxn) -> Map<Seq<u8>, Seq<u8>>;

impl Ledger {
    /// Opens (creating if absent) the ledger at `path`, an existing
    /// directory, with the given maximum map size in bytes.
    ///
    /// Relies on lmdb's `Environment::new`, `EnvironmentBuilder::set_map_size`,
    /// `EnvironmentBuilder::open` and `Environment::create_db`: together they
    /// open the memory-mapped store at that path with that size ceiling and
    /// hand back the default database, creating the files when missing.
    #[verifier::external_body]
    pub fn open(path: &str, map_size: usize) -> (r: Result<Ledger, StoreError>) {
        let built = lmdb::Environment::new().set_map_size(map_size).open(
            std::path::Path::new(path),
        );
        let env = match built {
            Ok(e) => e,
            Err(_) => return Err(StoreError::Other),
        };
        let db = match env.create_db(None, lmdb::DatabaseFlags::empty()) {
            Ok(d) => d,
            Err(_) => return Err(StoreError::Other),
        };
        Ok(Ledger { env, db })
    }

    /// Opens a snapshot-isolated read transaction. Any number may be open
    /// at once, concurrently with the writer.
    ///
    /// Relies on lmdb's `Environment::begin_ro_txn`: the transaction sees
    /// one consistent committed state of the store.
    #[verifier::external_body]
    pub fn begin_read<'a>(&'a self) -> (r: Result<ReadTxn<'a>, StoreError>) {
        match self.env.begin_ro_txn() {
            Ok(t) => Ok(ReadTxn { inner: t, db: self.db }),
            Err(_) => Err(StoreError::Other),
        }
    }

    /// Opens the write transaction. The store serializes writers: this
    /// blocks while another write transaction is open elsewhere.
    ///
    /// Relies on lmdb's `Environment::begin_rw_txn`: at most one write
    /// transaction runs at a time, and it sees the latest committed state.
    #[verifier::external_body]
    pub fn begin_write<'a>(&'a self) -> (r: Result<WriteTxn<'a>, StoreError>) {
        match self.env.begin_rw_txn() {
            Ok(t) => Ok(WriteTxn { inner: t, db: self.db }),
            Err(_) => Err(StoreError::Other),
        }
    }
}

impl<'a> ReadTxn<'a> {
    /// Looks a key up in this transaction's snapshot.
    ///
    /// Relies on lmdb's `Transaction::get`: it returns the value stored
    /// under the key in the state this transaction observes, and
    /// `Error::NotFound` exactly when the key is absent from it.
    #[verifier::external_body]
    pub fn get(&self, key: &Vec<u8>) -> (r: Result<Option<Vec<u8>>, StoreError>)
        ensures
            r matches Ok(v) ==> (v is Some <==> read_snapshot(self).contains_key(key@)),
            r matches Ok(Some(v)) ==> v@ == read_snapshot(self)[key@],
    {
        match lmdb::Transaction::get(&self.inner, self.db, key) {
            Ok(bytes) => Ok(Some(bytes.to_vec())),
            Err(lmdb::Error::NotFound) => Ok(None),
            Err(_) => Err(StoreError::Other),
        }
    }

    /// Releases the read transaction and its snapshot.
    ///
    /// Relies on lmdb's `Transaction::abort`: a read transaction holds no
    /// writes, so releasing it changes nothing.
    #[verifier::external_body]
    pub fn close(self) {
        lmdb::Transaction::abort(self.inner)
    }
}

impl<'a> WriteTxn<'a> {
    /// Looks a key up in this transaction's view of the store.
    ///
    /// Relies on lmdb's `Transaction::get`: it returns the value stored
    /// under the key as this transaction sees it (committed state plus its
    /// own writes), and `Error::NotFound` exactly when the key is absent.
    #[verifier::external_body]
    pub fn get(&self, key: &Vec<u8>) -> (r: Result<Option<Vec<u8>>, StoreError>)
        ensures
            r matches Ok(v) ==> (v is Some <==> write_view(self).contains_key(key@)),
            r matches Ok(Some(v)) ==> v@ == write_view(self)[key@],
    {
        match lmdb::Transaction::get(&self.inner, self.db, key) {
            Ok(bytes) => Ok(Some(bytes.to_vec())),
            Err(lmdb::Error::NotFound) => Ok(None),
            Err(_) => Err(StoreError::Other),
        }
    }

    /// Stores a key/value pair in this transaction. The pair becomes
    /// durable only if the transaction later commits.
    ///
    /// Relies on lmdb's `RwTransaction::put` with empty write flags: on
    /// success the pair is entered in this transaction's view, replacing any
    /// previous value under the key; `Error::MapFull` reports the configured
    /// maximum size exhausted, and on any error nothing is entered.
    #[verifier::external_body]
    pub fn put(&mut self, key: &Vec<u8>, value: &Vec<u8>) -> (r: Result<(), StoreError>)
        ensures
            r is Ok ==> write_view(final(self)) == write_view(old(self)).insert(key@, value@),
            r is Err ==> write_view(final(self)) == write_view(old(self)),
    {
        match self.inner.put(self.db, key, value, lmdb::WriteFlags::empty()) {
            Ok(()) => Ok(()),
            Err(lmdb::Error::MapFull) => Err(StoreError::Full),
            Err(_) => Err(StoreError::Other),
        }
    }

    /// Commits the transaction: on success its writes are durable, flushed
    /// to the backing file before the call returns.
    ///
    /// Relies on lmdb's `Transaction::commit`: pending writes are saved
    /// durably on success; on an error nothing of the transaction is saved.
    #[verifier::external_body]
    pub fn commit(self) -> (r: Result<(), StoreError>) {
        match lmdb::Transaction::commit(self.inner) {
            Ok(()) => Ok(()),
            Err(lmdb::Error::MapFull) => Err(StoreError::Full),
            Err(_) => Err(StoreError::Other),
        }
    }

    /// Aborts the transaction: none of its pending writes is saved.
    ///
    /// Relies on lmdb's `Transaction::abort`.
    #[verifier::external_body]
    pub fn abort(self) {
        lmdb::Transaction::abort(self.inner)
    }
}

} // verus!
