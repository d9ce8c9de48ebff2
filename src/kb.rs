//! The key-value store adapter: named partitions of a `sled` database, with
//! every failure mapped onto the library's own error taxonomy.

use vstd::prelude::*;

verus! {

#[verifier::external_type_specification]
#[verifier::external_body]
pub struct ExDb(sled::Db);

#[verifier::external_type_specification]
#[verifier::external_body]
pub struct ExTree(sled::Tree);

#[verifier::external_type_specification]
#[verifier::external_body]
pub struct ExSledError(sled::Error);

/// The ways a store operation can fail.
#[derive(Debug, Clone, Copy, PartialEq, Eq, Structural)]
pub enum StoreError {
    StoreUnavailable,
    WriteFailed,
    FlushFailed,
    SerializationFailed,
    IdGenerationFailed,
}

/// Relies on `sled::Db::open_tree`: opens (or creates) the named tree.
/// Whether it succeeds depends on the disk, so nothing is promised.
#[verifier::external_body]
fn sled_open_tree(db: &sled::Db, name: &str) -> (r: Result<sled::Tree, sled::Error>) {
    db.open_tree(name)
}

/// Relies on `sled::Tree::get`: the value stored under `key`, copied out.
#[verifier::external_body]
fn sled_get(tree: &sled::Tree, key: &[u8]) -> (r: Result<Option<Vec<u8>>, sled::Error>) {
    tree.get(key).map(|found| found.map(|v| v.to_vec()))
}

/// Relies on `sled::Tree::insert`: stores `value` under `key`; the previous
/// value it hands back is dropped.
#[verifier::external_body]
fn sled_insert(tree: &sled::Tree, key: &[u8], value: &[u8]) -> (r: Result<(), sled::Error>) {
    tree.insert(key, value).map(|_previous| ())
}

/// Relies on `sled::Tree::flush`: a durability barrier for prior inserts.
#[verifier::external_body]
fn sled_flush(tree: &sled::Tree) -> (r: Result<usize, sled::Error>) {
    tree.flush()
}

/// A write: partition name and key, then value.
pub type Entry = ((Seq<char>, Seq<u8>), Seq<u8>);

/// An opened `sled` database, with a ghost record of what was done through
/// this handle: every write asked for, in order; the values written (the
/// last successful insert under each partition name and key); how many
/// identifiers were asked for; and those drawn.
pub struct KnowledgeBase {
    db: sled::Db,
    requested: Ghost<Seq<Entry>>,
    written: Ghost<Map<(Seq<char>, Seq<u8>), Seq<u8>>>,
    draw_attempts: Ghost<nat>,
    drawn: Ghost<Set<u64>>,
}

/// An opened partition, with the name it was opened under.
pub struct Partition {
    tree: sled::Tree,
    name: Ghost<Seq<char>>,
}

/// Relies on `sled::Db::generate_id`, which its documentation says never
/// gives out the same counter twice, even across restarts: a value it
/// returns was not drawn before through this handle.
#[verifier::external_body]
fn sled_generate_id(kb: &mut KnowledgeBase) -> (r: Result<u64, sled::Error>)
    ensures
        final(kb).db() == old(kb).db(),
        final(kb).requested() == old(kb).requested(),
        final(kb).written() == old(kb).written(),
        final(kb).draw_attempts() == old(kb).draw_attempts(),
        r is Ok ==> !old(kb).drawn().contains(r->Ok_0),
        r is Ok ==> final(kb).drawn() == old(kb).drawn().insert(r->Ok_0),
        r is Err ==> final(kb).drawn() == old(kb).drawn(),
{
    kb.db.generate_id()
}

impl KnowledgeBase {
    /// The database this handle reaches.
    pub closed spec fn db(&self) -> sled::Db {
        self.db
    }

    /// The writes asked for through this handle, in order.
    pub closed spec fn requested(&self) -> Seq<Entry> {
        self.requested@
    }

    /// The values written through this handle, by partition name and key.
    pub closed spec fn written(&self) -> Map<(Seq<char>, Seq<u8>), Seq<u8>> {
        self.written@
    }

    /// How many identifiers were asked for through this handle.
    pub closed spec fn draw_attempts(&self) -> nat {
        self.draw_attempts@
    }

    /// The identifiers drawn through this handle.
    pub closed spec fn drawn(&self) -> Set<u64> {
        self.drawn@
    }

    /// A handle on `db` through which nothing was done yet.
    pub fn new(db: sled::Db) -> (r: Self)
        ensures
            r.db() == db,
            r.requested().len() == 0,
            r.written().is_empty(),
            r.draw_attempts() == 0,
            r.drawn().is_empty(),
    {
        KnowledgeBase {
            db,
            requested: Ghost(Seq::empty()),
            written: Ghost(Map::empty()),
            draw_attempts: Ghost(0),
            drawn: Ghost(Set::empty()),
        }
    }
}

impl Partition {
    /// The name this partition was opened under.
    pub closed spec fn name(&self) -> Seq<char> {
        self.name@
    }
}

/// The written values after `key` was set to `value` in partition `name`.
pub open spec fn with_entry(
    before: Map<(Seq<char>, Seq<u8>), Seq<u8>>,
    name: Seq<char>,
    key: Seq<u8>,
    value: Seq<u8>,
) -> Map<(Seq<char>, Seq<u8>), Seq<u8>> {
    before.insert((name, key), value)
}

/// The effect of asking for one write: it is logged, and the value stands
/// under its key unless the write failed (`done` tells which).
pub open spec fn wrote(
    before: KnowledgeBase,
    after: KnowledgeBase,
    name: Seq<char>,
    key: Seq<u8>,
    value: Seq<u8>,
    done: bool,
) -> bool {
    &&& after.db() == before.db()
    &&& after.draw_attempts() == before.draw_attempts()
    &&& after.drawn() == before.drawn()
    &&& after.requested() == before.requested().push(((name, key), value))
    &&& after.written() == if done {
        with_entry(before.written(), name, key, value)
    } else {
        before.written()
    }
}

/// Opens a partition; any failure is `StoreUnavailable`.
pub fn open_partition(kb: &KnowledgeBase, name: &str) -> (r: Result<Partition, StoreError>)
    ensures
        r is Ok ==> r->Ok_0.name() == name@,
        r is Err ==> r->Err_0 == StoreError::StoreUnavailable,
{
    match sled_open_tree(&kb.db, name) {
        Ok(tree) => Ok(Partition { tree, name: Ghost(name@) }),
        Err(_) => Err(StoreError::StoreUnavailable),
    }
}

/// Reads a key; a failed read is `StoreUnavailable`.
pub fn partition_get(p: &Partition, key: &[u8]) -> (r: Result<Option<Vec<u8>>, StoreError>)
    ensures
        r is Err ==> r->Err_0 == StoreError::StoreUnavailable,
{
    match sled_get(&p.tree, key) {
        Ok(found) => Ok(found),
        Err(_) => Err(StoreError::StoreUnavailable),
    }
}

/// Inserts and then flushes. A failed insert skips the flush; a failed flush
/// leaves the value inserted.
fn insert_and_flush(kb: &mut KnowledgeBase, p: &Partition, key: &[u8], value: &[u8]) -> (r: Result<(), StoreError>)
    ensures
        final(kb).db() == old(kb).db(),
        final(kb).requested() == old(kb).requested(),
        final(kb).draw_attempts() == old(kb).draw_attempts(),
        final(kb).drawn() == old(kb).drawn(),
        r is Err ==> r->Err_0 == StoreError::WriteFailed || r->Err_0 == StoreError::FlushFailed,
        final(kb).written() == if r is Err && r->Err_0 == StoreError::WriteFailed {
            old(kb).written()
        } else {
            with_entry(old(kb).written(), p.name(), key@, value@)
        },
{
    match sled_insert(&p.tree, key, value) {
        Ok(()) => {
            kb.written = Ghost(kb.written@.insert((p.name@, key@), value@));
            match sled_flush(&p.tree) {
                Ok(_bytes) => Ok(()),
                Err(_) => Err(StoreError::FlushFailed),
            }
        },
        Err(_) => Err(StoreError::WriteFailed),
    }
}

/// Writes `value` under `key` in an opened partition and flushes; the first
/// failure is returned.
pub fn partition_write(kb: &mut KnowledgeBase, p: &Partition, key: &[u8], value: &[u8]) -> (r: Result<(), StoreError>)
    ensures
        r is Err ==> r->Err_0 == StoreError::WriteFailed || r->Err_0 == StoreError::FlushFailed,
        wrote(*old(kb), *final(kb), p.name(), key@, value@, !(r is Err && r->Err_0 == StoreError::WriteFailed)),
{
    kb.requested = Ghost(kb.requested@.push(((p.name@, key@), value@)));
    insert_and_flush(kb, p, key, value)
}

/// Opens partition `name`, writes `value` under `key` and flushes; the first
/// failure is returned. A partition that cannot be opened is left alone.
pub fn write_entry(kb: &mut KnowledgeBase, name: &str, key: &[u8], value: &[u8]) -> (r: Result<(), StoreError>)
    ensures
        r is Err ==> r->Err_0 == StoreError::StoreUnavailable || r->Err_0 == StoreError::WriteFailed
            || r->Err_0 == StoreError::FlushFailed,
        wrote(
            *old(kb),
            *final(kb),
            name@,
            key@,
            value@,
            !(r is Err && (r->Err_0 == StoreError::StoreUnavailable || r->Err_0 == StoreError::WriteFailed)),
        ),
{
    kb.requested = Ghost(kb.requested@.push(((name@, key@), value@)));
    match open_partition(kb, name) {
        Ok(p) => insert_and_flush(kb, &p, key, value),
        Err(e) => Err(e),
    }
}

/// Draws a fresh identifier; any failure is `IdGenerationFailed`.
pub fn generate_id(kb: &mut KnowledgeBase) -> (r: Result<u64, StoreError>)
    ensures
        final(kb).db() == old(kb).db(),
        final(kb).requested() == old(kb).requested(),
        final(kb).written() == old(kb).written(),
        final(kb).draw_attempts() == old(kb).draw_attempts() + 1,
        r is Ok ==> !old(kb).drawn().contains(r->Ok_0) && final(kb).drawn() == old(kb).drawn().insert(
            r->Ok_0,
        ),
        r is Err ==> final(kb).drawn() == old(kb).drawn() && r->Err_0 == StoreError::IdGenerationFailed,
{
    kb.draw_attempts = Ghost(kb.draw_attempts@ + 1);
    match sled_generate_id(kb) {
        Ok(n) => Ok(n),
        Err(_) => Err(StoreError::IdGenerationFailed),
    }
}

} // verus!
