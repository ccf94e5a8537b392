//! The mathematical model of a database: what it holds, and what each
//! operation makes of it. The executable database in [`crate::database`] is
//! proved to do exactly what this model says.

use crate::document::{ConcurrencyControl, DocumentView, RevisionId};
use crate::error::{CouchbaseLiteError, Error, ErrorCode};
use crate::index::{IndexKind, QueryLanguage};
use crate::seqs::position;
use crate::text::spec_valid_name;
use crate::value::DictView;
use vstd::prelude::*;

verus! {

/// A document as a collection stores it: its current revision only.
pub struct RecordView {
    pub id: Seq<char>,
    pub revision: RevisionId,
    /// The revisions that led to the current one, oldest first.
    pub history: Seq<RevisionId>,
    pub sequence: u64,
    /// True for a tombstone, the marker that a deleted document leaves.
    pub deleted: bool,
    pub properties: DictView,
    /// When the document expires, in milliseconds since the epoch; 0 for
    /// never.
    pub expiration: i64,
}

/// What an index is built from.
pub struct IndexDefinition {
    pub kind: IndexKind,
    pub language: QueryLanguage,
    /// The path to the array, for an array index; empty for a value index.
    pub path: Seq<char>,
    pub expressions: Seq<char>,
}

/// A named index of a collection.
pub struct IndexView {
    pub name: Seq<char>,
    pub definition: IndexDefinition,
}

/// A collection: a named container of documents within a scope.
pub struct CollectionView {
    /// The key by which handles find this collection. It is never reused.
    pub key: u64,
    pub scope: Seq<char>,
    pub name: Seq<char>,
    pub records: Seq<RecordView>,
    pub indexes: Seq<IndexView>,
}

/// A registered listener: a token, the collection it listens to, and the
/// one document it listens to, or `None` for all of them.
pub struct ListenerView {
    pub token: u64,
    pub collection: u64,
    pub doc_id: Option<Seq<char>>,
}

/// A change of one document, to be told to one listener.
pub struct ChangeView {
    pub token: u64,
    pub collection: u64,
    pub doc_id: Seq<char>,
}

/// What a transaction puts back when it is rolled back.
pub struct SnapshotView {
    pub collections: Seq<CollectionView>,
    pub last_sequence: u64,
    pub next_key: u64,
}

/// A revision of a document as a replicator transfers it.
pub struct RevisionView {
    pub id: Seq<char>,
    pub revision: RevisionId,
    /// The revisions that led to this one, oldest first.
    pub history: Seq<RevisionId>,
    pub deleted: bool,
    /// True where the revision tells that the replicating user lost access
    /// to the document.
    pub access_removed: bool,
    pub properties: DictView,
}

/// What a database makes of a revision that a replicator pulled.
#[derive(Clone, Copy, Debug, PartialEq, Eq, Structural)]
pub enum PullStep {
    /// The document was new to the collection and is stored.
    Inserted,
    /// The revision descends from the stored one and has replaced it.
    Updated,
    /// The collection has this revision or a later one: nothing changed.
    Ignored,
    /// The user lost access to the document, and the local copy is purged.
    Purged,
    /// The revision and the stored one have diverged: neither descends
    /// from the other. Nothing changed; the conflict is to be resolved.
    Conflict,
}

/// What is to become of a document whose local and remote revisions have
/// diverged.
pub enum ResolutionView {
    /// The local revision stays.
    KeepLocal,
    /// The remote revision becomes the current one.
    TakeRemote,
    /// A new revision with these properties follows on both.
    Merge(DictView),
    /// A new revision that deletes the document follows on both.
    Delete,
}

/// A database.
pub struct DatabaseView {
    pub name: Seq<char>,
    pub directory: Seq<char>,
    /// The collections in the order in which they were created.
    pub collections: Seq<CollectionView>,
    /// The sequence number of the last write; 0 before the first.
    pub last_sequence: u64,
    /// The key that the next new collection gets.
    pub next_key: u64,
    /// The current time, in milliseconds since the epoch.
    pub clock: i64,
    /// How many transactions are open, one inside the other.
    pub depth: u64,
    /// The state at the start of the outermost open transaction.
    pub snapshot: Option<SnapshotView>,
    pub listeners: Seq<ListenerView>,
    /// The token that the next listener gets.
    pub next_token: u64,
    /// True in buffered-notification mode.
    pub buffering: bool,
    /// True once the owner was told that notifications wait.
    pub signalled: bool,
    /// The notifications that wait to be delivered.
    pub outbox: Seq<ChangeView>,
}

/// The name of the default scope and of the default collection.
pub open spec fn default_name() -> Seq<char> {
    "_default"@
}

/// An error of the engine itself, without internal tag.
pub open spec fn engine_error(e: CouchbaseLiteError) -> Error {
    Error { code: ErrorCode::CouchbaseLite(e), internal_info: None }
}

/// True for the name of a scope: the default name, or a name that meets the
/// naming rule.
pub open spec fn valid_scope_name(scope: Seq<char>) -> bool {
    scope == default_name() || spec_valid_name(scope)
}

/// True for a scope and a collection name that can name a collection: both
/// meet the naming rule, where the default name is a scope's name anywhere
/// but a collection's name in the default scope only.
pub open spec fn valid_collection_path(scope: Seq<char>, name: Seq<char>) -> bool {
    &&& valid_scope_name(scope)
    &&& (spec_valid_name(name) || (name == default_name() && scope == default_name()))
}

/// The changes that `listeners` are told of when document `id` of collection
/// `key` changes: one for each listener of that collection that listens to
/// all documents or to this one, in the order of registration.
pub open spec fn changes_for(listeners: Seq<ListenerView>, key: u64, id: Seq<char>) -> Seq<
    ChangeView,
>
    decreases listeners.len(),
{
    if listeners.len() == 0 {
        Seq::empty()
    } else {
        let before = changes_for(listeners.drop_last(), key, id);
        let l = listeners.last();
        if l.collection == key && (l.doc_id is None || l.doc_id == Some(id)) {
            before.push(ChangeView { token: l.token, collection: key, doc_id: id })
        } else {
            before
        }
    }
}

/// The listeners other than the one with `token`, in order.
pub open spec fn listeners_without(listeners: Seq<ListenerView>, token: u64) -> Seq<ListenerView>
    decreases listeners.len(),
{
    if listeners.len() == 0 {
        Seq::empty()
    } else {
        let before = listeners_without(listeners.drop_last(), token);
        if listeners.last().token == token {
            before
        } else {
            before.push(listeners.last())
        }
    }
}

/// The changes other than those for the listener with `token`, in order.
pub open spec fn changes_without(changes: Seq<ChangeView>, token: u64) -> Seq<ChangeView>
    decreases changes.len(),
{
    if changes.len() == 0 {
        Seq::empty()
    } else {
        let before = changes_without(changes.drop_last(), token);
        if changes.last().token == token {
            before
        } else {
            before.push(changes.last())
        }
    }
}

/// The scope names of `collections`, each once, in the order of first
/// appearance.
pub open spec fn scopes_of(collections: Seq<CollectionView>) -> Seq<Seq<char>>
    decreases collections.len(),
{
    if collections.len() == 0 {
        Seq::empty()
    } else {
        let before = scopes_of(collections.drop_last());
        let scope = collections.last().scope;
        if before.contains(scope) {
            before
        } else {
            before.push(scope)
        }
    }
}

/// The names of the collections of `scope`, in order.
pub open spec fn names_in(collections: Seq<CollectionView>, scope: Seq<char>) -> Seq<Seq<char>>
    decreases collections.len(),
{
    if collections.len() == 0 {
        Seq::empty()
    } else {
        let before = names_in(collections.drop_last(), scope);
        if collections.last().scope == scope {
            before.push(collections.last().name)
        } else {
            before
        }
    }
}

/// The number of documents among `records` that are not tombstones.
pub open spec fn live_count(records: Seq<RecordView>) -> nat
    decreases records.len(),
{
    if records.len() == 0 {
        0
    } else {
        let before = live_count(records.drop_last());
        if records.last().deleted {
            before
        } else {
            before + 1
        }
    }
}

/// True for a record whose expiration time has come at time `now`.
pub open spec fn expired(r: RecordView, now: i64) -> bool {
    r.expiration != 0 && r.expiration <= now
}

/// The records that have not expired at time `now`, in order.
pub open spec fn unexpired(records: Seq<RecordView>, now: i64) -> Seq<RecordView>
    decreases records.len(),
{
    if records.len() == 0 {
        Seq::empty()
    } else {
        let before = unexpired(records.drop_last(), now);
        if expired(records.last(), now) {
            before
        } else {
            before.push(records.last())
        }
    }
}

/// The collections with the records dropped that have expired at `now`.
pub open spec fn sweep(collections: Seq<CollectionView>, now: i64) -> Seq<CollectionView> {
    Seq::new(
        collections.len(),
        |i: int| CollectionView { records: unexpired(collections[i].records, now), ..collections[i] },
    )
}

impl RecordView {
    /// The in-memory copy that a read of this record gives.
    pub open spec fn document(self) -> DocumentView {
        DocumentView {
            id: self.id,
            revision: Some(self.revision),
            sequence: self.sequence,
            deleted: self.deleted,
            properties: self.properties,
        }
    }
}

impl CollectionView {
    /// The IDs of the stored documents, in order.
    pub open spec fn ids(self) -> Seq<Seq<char>> {
        self.records.map_values(|r: RecordView| r.id)
    }

    /// The index of the record of `id`, or the number of records.
    pub open spec fn find(self, id: Seq<char>) -> int {
        position(self.ids(), id)
    }

    /// The record of `id`, if there is one.
    pub open spec fn record(self, id: Seq<char>) -> Option<RecordView> {
        if self.find(id) < self.records.len() {
            Some(self.records[self.find(id)])
        } else {
            None
        }
    }

    /// The names of the indexes, in order.
    pub open spec fn index_names(self) -> Seq<Seq<char>> {
        self.indexes.map_values(|x: IndexView| x.name)
    }

    /// The index of the index named `name`, or the number of indexes.
    pub open spec fn find_index(self, name: Seq<char>) -> int {
        position(self.index_names(), name)
    }

    /// This collection with the record of `record.id` replaced, or with the
    /// record added at the end where the ID is new.
    pub open spec fn put(self, record: RecordView) -> CollectionView {
        let at = self.find(record.id);
        CollectionView {
            records: if at < self.records.len() {
                self.records.update(at, record)
            } else {
                self.records.push(record)
            },
            ..self
        }
    }
}

/// True when a save or delete of `doc` meets a stored revision other than
/// the one that `doc` was read from. A new document (one without revision)
/// does not conflict with a tombstone: it brings the document back.
pub open spec fn conflicts(stored: Option<RecordView>, doc: DocumentView) -> bool {
    match stored {
        Some(r) => doc.revision != Some(r.revision) && !(r.deleted && doc.revision is None),
        None => false,
    }
}

/// The generation that a save or delete of `doc` over `stored` gives the new
/// revision, less one: the greater of the generations of the two.
pub open spec fn parent_generation(stored: Option<RecordView>, doc: DocumentView) -> u64 {
    let a = match stored {
        Some(r) => r.revision.generation,
        None => 0,
    };
    let b = match doc.revision {
        Some(r) => r.generation,
        None => 0,
    };
    if a >= b {
        a
    } else {
        b
    }
}

impl DatabaseView {
    /// The keys of the collections, in order.
    pub open spec fn keys(self) -> Seq<u64> {
        self.collections.map_values(|c: CollectionView| c.key)
    }

    /// The scope and name of each collection, in order.
    pub open spec fn paths(self) -> Seq<(Seq<char>, Seq<char>)> {
        self.collections.map_values(|c: CollectionView| (c.scope, c.name))
    }

    /// The index of the collection with `key`, or the number of collections.
    pub open spec fn find_key(self, key: u64) -> int {
        position(self.keys(), key)
    }

    /// The index of the collection `name` of `scope`, or the number of
    /// collections.
    pub open spec fn find_path(self, scope: Seq<char>, name: Seq<char>) -> int {
        position(self.paths(), (scope, name))
    }

    /// True when a handle with `key` names a collection of this database.
    pub open spec fn has_key(self, key: u64) -> bool {
        self.find_key(key) < self.collections.len()
    }

    /// The collection with `key`.
    pub open spec fn collection(self, key: u64) -> CollectionView
        recommends
            self.has_key(key),
    {
        self.collections[self.find_key(key)]
    }

    /// This database with the collection `key` replaced by `c`.
    pub open spec fn with_collection(self, key: u64, c: CollectionView) -> DatabaseView
        recommends
            self.has_key(key),
    {
        DatabaseView { collections: self.collections.update(self.find_key(key), c), ..self }
    }

    /// This database after the listeners were told that document `id` of
    /// collection `key` changed.
    pub open spec fn notify(self, key: u64, id: Seq<char>) -> DatabaseView {
        DatabaseView { outbox: self.outbox + changes_for(self.listeners, key, id), ..self }
    }

    /// A new database: the default collection in the default scope, no
    /// document, the clock at 0.
    pub open spec fn empty(name: Seq<char>, directory: Seq<char>) -> DatabaseView {
        DatabaseView {
            name,
            directory,
            collections: seq![
                CollectionView {
                    key: 0,
                    scope: default_name(),
                    name: default_name(),
                    records: Seq::empty(),
                    indexes: Seq::empty(),
                },
            ],
            last_sequence: 0,
            next_key: 1,
            clock: 0,
            depth: 0,
            snapshot: None,
            listeners: Seq::empty(),
            next_token: 1,
            buffering: false,
            signalled: false,
            outbox: Seq::empty(),
        }
    }

    /// The key of the default collection, if the database has one.
    pub open spec fn default_key(self) -> Option<u64> {
        if self.find_path(default_name(), default_name()) < self.collections.len() {
            Some(self.collections[self.find_path(default_name(), default_name())].key)
        } else {
            None
        }
    }

    /// The names of the scopes: the default scope, and each scope that holds
    /// a collection.
    pub open spec fn scope_names(self) -> Seq<Seq<char>> {
        scopes_of(self.collections)
    }

    /// True when the scope exists.
    pub open spec fn has_scope(self, scope: Seq<char>) -> bool {
        self.scope_names().contains(scope)
    }

    /// The names of the collections of a scope.
    pub open spec fn collection_names(self, scope: Seq<char>) -> Seq<Seq<char>> {
        names_in(self.collections, scope)
    }

    /// Looks a collection up by scope and name: its key, `None` where there
    /// is no such collection, an error where the names break the naming rule.
    pub open spec fn lookup(self, scope: Seq<char>, name: Seq<char>) -> Result<Option<u64>, Error> {
        if !valid_collection_path(scope, name) {
            Err(engine_error(CouchbaseLiteError::InvalidParameter))
        } else if self.find_path(scope, name) < self.collections.len() {
            Ok(Some(self.collections[self.find_path(scope, name)].key))
        } else {
            Ok(None)
        }
    }

    /// Creates a collection, or finds it where it exists: the database after
    /// it, and the collection's key.
    pub open spec fn create_collection(self, scope: Seq<char>, name: Seq<char>) -> (
        DatabaseView,
        Result<u64, Error>,
    ) {
        if !valid_collection_path(scope, name) {
            (self, Err(engine_error(CouchbaseLiteError::InvalidParameter)))
        } else if self.find_path(scope, name) < self.collections.len() {
            (self, Ok(self.collections[self.find_path(scope, name)].key))
        } else if self.next_key == u64::MAX {
            (self, Err(engine_error(CouchbaseLiteError::MemoryError)))
        } else {
            (
                DatabaseView {
                    collections: self.collections.push(
                        CollectionView {
                            key: self.next_key,
                            scope,
                            name,
                            records: Seq::empty(),
                            indexes: Seq::empty(),
                        },
                    ),
                    next_key: (self.next_key + 1) as u64,
                    ..self
                },
                Ok(self.next_key),
            )
        }
    }

    /// Deletes a collection with its documents and indexes. The default
    /// collection cannot be deleted; a collection that does not exist is
    /// deleted with success.
    pub open spec fn delete_collection(self, scope: Seq<char>, name: Seq<char>) -> (
        DatabaseView,
        Result<(), Error>,
    ) {
        if !valid_collection_path(scope, name) {
            (self, Err(engine_error(CouchbaseLiteError::InvalidParameter)))
        } else if scope == default_name() && name == default_name() {
            (self, Err(engine_error(CouchbaseLiteError::InvalidParameter)))
        } else if self.find_path(scope, name) < self.collections.len() {
            (
                DatabaseView {
                    collections: self.collections.remove(self.find_path(scope, name)),
                    ..self
                },
                Ok(()),
            )
        } else {
            (self, Ok(()))
        }
    }

    /// Reads a document: the stored revision with its deleted flag, so a
    /// tombstone too; `NotFound` where the collection holds no document of
    /// that ID, `NotOpen` where the handle names no collection.
    pub open spec fn get(self, key: u64, id: Seq<char>) -> Result<DocumentView, Error> {
        if !self.has_key(key) {
            Err(engine_error(CouchbaseLiteError::NotOpen))
        } else {
            match self.collection(key).record(id) {
                Some(r) => Ok(r.document()),
                None => Err(engine_error(CouchbaseLiteError::NotFound)),
            }
        }
    }

    /// The sequence number that a write of `doc` gets: the number above the
    /// last one that the database gave out and above the one that `doc`
    /// bears, so that a document's sequence number grows with every save,
    /// wherever the document came from.
    pub open spec fn next_sequence(self, doc: DocumentView) -> u64 {
        if self.last_sequence >= doc.sequence {
            (self.last_sequence + 1) as u64
        } else {
            (doc.sequence + 1) as u64
        }
    }

    /// The record that a write of `doc` stores: a new revision with the next
    /// sequence number, and the expiration that the document had.
    pub open spec fn next_record(self, key: u64, doc: DocumentView, deleted: bool) -> RecordView
        recommends
            self.has_key(key),
    {
        let stored = self.collection(key).record(doc.id);
        let sequence = self.next_sequence(doc);
        RecordView {
            id: doc.id,
            revision: RevisionId {
                generation: (parent_generation(stored, doc) + 1) as u64,
                digest: sequence,
            },
            history: match stored {
                Some(r) => r.history.push(r.revision),
                None => Seq::empty(),
            },
            sequence,
            deleted,
            properties: if deleted {
                Seq::empty()
            } else {
                doc.properties
            },
            expiration: match stored {
                Some(r) => r.expiration,
                None => 0,
            },
        }
    }

    /// The database after `record` was written to collection `key`.
    pub open spec fn write(self, key: u64, record: RecordView) -> DatabaseView
        recommends
            self.has_key(key),
    {
        DatabaseView { last_sequence: record.sequence, ..self }.with_collection(
            key,
            self.collection(key).put(record),
        ).notify(key, record.id)
    }

    /// True when the database has no sequence number or generation left for
    /// a write of `doc`.
    pub open spec fn exhausted(self, key: u64, doc: DocumentView) -> bool
        recommends
            self.has_key(key),
    {
        ||| self.last_sequence == u64::MAX
        ||| doc.sequence == u64::MAX
        ||| parent_generation(self.collection(key).record(doc.id), doc) == u64::MAX
    }

    /// Saves a document: the database after it, and the in-memory copy as
    /// saved, with its new revision and sequence number. What is saved is
    /// a live document, with or without properties: saving the copy of a
    /// deleted document brings the document back.
    ///
    /// - `NotOpen` where the handle names no collection.
    /// - `BadDocID` where the ID is empty.
    /// - `Conflict` where the stored revision is not the one that `doc` was
    ///   read from and the policy is `FailOnConflict`; nothing is written.
    ///   Under `LastWriteWins` the save overwrites the stored revision.
    /// - `MemoryError` where no sequence number or generation is left.
    pub open spec fn save(self, key: u64, doc: DocumentView, policy: ConcurrencyControl) -> (
        DatabaseView,
        Result<DocumentView, Error>,
    ) {
        if !self.has_key(key) {
            (self, Err(engine_error(CouchbaseLiteError::NotOpen)))
        } else if doc.id.len() == 0 {
            (self, Err(engine_error(CouchbaseLiteError::BadDocID)))
        } else if conflicts(self.collection(key).record(doc.id), doc) && policy
            == ConcurrencyControl::FailOnConflict {
            (self, Err(engine_error(CouchbaseLiteError::Conflict)))
        } else if self.exhausted(key, doc) {
            (self, Err(engine_error(CouchbaseLiteError::MemoryError)))
        } else {
            let record = self.next_record(key, doc, false);
            (self.write(key, record), Ok(record.document()))
        }
    }

    /// Deletes a document: its record becomes a tombstone, a new revision
    /// without properties.
    ///
    /// - `NotOpen` where the handle names no collection.
    /// - `NotFound` where the collection holds no document of that ID.
    /// - `Conflict` as for a save.
    /// - `MemoryError` where no sequence number or generation is left.
    pub open spec fn delete(self, key: u64, doc: DocumentView, policy: ConcurrencyControl) -> (
        DatabaseView,
        Result<(), Error>,
    ) {
        if !self.has_key(key) {
            (self, Err(engine_error(CouchbaseLiteError::NotOpen)))
        } else if self.collection(key).record(doc.id) is None {
            (self, Err(engine_error(CouchbaseLiteError::NotFound)))
        } else if conflicts(self.collection(key).record(doc.id), doc) && policy
            == ConcurrencyControl::FailOnConflict {
            (self, Err(engine_error(CouchbaseLiteError::Conflict)))
        } else if self.exhausted(key, doc) {
            (self, Err(engine_error(CouchbaseLiteError::MemoryError)))
        } else {
            (self.write(key, self.next_record(key, doc, true)), Ok(()))
        }
    }

    /// Purges a document: its record is removed, and no trace is left.
    ///
    /// - `NotOpen` where the handle names no collection.
    /// - `NotFound` where the collection holds no document of that ID.
    pub open spec fn purge(self, key: u64, id: Seq<char>) -> (DatabaseView, Result<(), Error>) {
        if !self.has_key(key) {
            (self, Err(engine_error(CouchbaseLiteError::NotOpen)))
        } else if self.collection(key).record(id) is None {
            (self, Err(engine_error(CouchbaseLiteError::NotFound)))
        } else {
            let c = self.collection(key);
            (
                self.with_collection(
                    key,
                    CollectionView { records: c.records.remove(c.find(id)), ..c },
                ).notify(key, id),
                Ok(()),
            )
        }
    }

    /// The number of documents in a collection, tombstones not counted; 0
    /// where the handle names no collection.
    pub open spec fn count(self, key: u64) -> nat {
        if self.has_key(key) {
            live_count(self.collection(key).records)
        } else {
            0
        }
    }

    /// When a document expires: `None` for never.
    pub open spec fn expiration(self, key: u64, id: Seq<char>) -> Result<Option<i64>, Error> {
        if !self.has_key(key) {
            Err(engine_error(CouchbaseLiteError::NotOpen))
        } else {
            match self.collection(key).record(id) {
                Some(r) => Ok(
                    if r.expiration == 0 {
                        None
                    } else {
                        Some(r.expiration)
                    },
                ),
                None => Err(engine_error(CouchbaseLiteError::NotFound)),
            }
        }
    }

    /// Sets when a document expires; `when` 0 clears it. A time that has
    /// come already purges the document at once.
    ///
    /// - `NotOpen` where the handle names no collection.
    /// - `InvalidParameter` where `when` is negative.
    /// - `NotFound` where the collection holds no document of that ID.
    pub open spec fn set_expiration(self, key: u64, id: Seq<char>, when: i64) -> (
        DatabaseView,
        Result<(), Error>,
    ) {
        if !self.has_key(key) {
            (self, Err(engine_error(CouchbaseLiteError::NotOpen)))
        } else if when < 0 {
            (self, Err(engine_error(CouchbaseLiteError::InvalidParameter)))
        } else if self.collection(key).record(id) is None {
            (self, Err(engine_error(CouchbaseLiteError::NotFound)))
        } else {
            let c = self.collection(key);
            let r = c.records[c.find(id)];
            if when != 0 && when <= self.clock {
                (
                    self.with_collection(
                        key,
                        CollectionView { records: c.records.remove(c.find(id)), ..c },
                    ),
                    Ok(()),
                )
            } else {
                (
                    self.with_collection(
                        key,
                        CollectionView {
                            records: c.records.update(
                                c.find(id),
                                RecordView { expiration: when, ..r },
                            ),
                            ..c
                        },
                    ),
                    Ok(()),
                )
            }
        }
    }

    /// Moves the clock to `now` and drops every document that has expired by
    /// then, also from what a rollback would put back. The clock never goes
    /// back: an earlier `now` changes nothing.
    pub open spec fn advance_clock(self, now: i64) -> DatabaseView {
        if now <= self.clock {
            self
        } else {
            DatabaseView {
                clock: now,
                collections: sweep(self.collections, now),
                snapshot: match self.snapshot {
                    Some(s) => Some(SnapshotView { collections: sweep(s.collections, now), ..s }),
                    None => None,
                },
                ..self
            }
        }
    }

    /// Creates an index. Where the collection has an index of that name with
    /// the same definition, nothing changes; one with another definition is
    /// replaced at its place.
    ///
    /// - `NotOpen` where the handle names no collection.
    /// - `InvalidParameter` where the name or the expressions are empty
    ///   (for an array index: where the name or the path is empty).
    pub open spec fn create_index(self, key: u64, name: Seq<char>, definition: IndexDefinition) -> (
        DatabaseView,
        Result<bool, Error>,
    ) {
        if !self.has_key(key) {
            (self, Err(engine_error(CouchbaseLiteError::NotOpen)))
        } else if name.len() == 0 || !valid_definition(definition) {
            (self, Err(engine_error(CouchbaseLiteError::InvalidParameter)))
        } else {
            let c = self.collection(key);
            let at = c.find_index(name);
            let index = IndexView { name, definition };
            (
                self.with_collection(
                    key,
                    CollectionView {
                        indexes: if at < c.indexes.len() {
                            c.indexes.update(at, index)
                        } else {
                            c.indexes.push(index)
                        },
                        ..c
                    },
                ),
                Ok(true),
            )
        }
    }

    /// Deletes an index. Where the collection has no index of that name,
    /// nothing changes, and the deletion succeeds.
    pub open spec fn delete_index(self, key: u64, name: Seq<char>) -> (
        DatabaseView,
        Result<bool, Error>,
    ) {
        if !self.has_key(key) {
            (self, Err(engine_error(CouchbaseLiteError::NotOpen)))
        } else {
            let c = self.collection(key);
            let at = c.find_index(name);
            if at < c.indexes.len() {
                (
                    self.with_collection(key, CollectionView { indexes: c.indexes.remove(at), ..c }),
                    Ok(true),
                )
            } else {
                (self, Ok(true))
            }
        }
    }

    /// The names of the indexes of a collection, in the order of creation.
    pub open spec fn index_names(self, key: u64) -> Result<Seq<Seq<char>>, Error> {
        if !self.has_key(key) {
            Err(engine_error(CouchbaseLiteError::NotOpen))
        } else {
            Ok(self.collection(key).index_names())
        }
    }

    /// The index of a collection by name; `MissingIndex` where there is none.
    pub open spec fn index(self, key: u64, name: Seq<char>) -> Result<IndexView, Error> {
        if !self.has_key(key) {
            Err(engine_error(CouchbaseLiteError::NotOpen))
        } else {
            let c = self.collection(key);
            if c.find_index(name) < c.indexes.len() {
                Ok(c.indexes[c.find_index(name)])
            } else {
                Err(engine_error(CouchbaseLiteError::MissingIndex))
            }
        }
    }

    /// The record that stores a pulled revision: the revision as it came,
    /// under the next sequence number.
    pub open spec fn pulled_record(self, key: u64, incoming: RevisionView) -> RecordView
        recommends
            self.has_key(key),
    {
        RecordView {
            id: incoming.id,
            revision: incoming.revision,
            history: incoming.history,
            sequence: (self.last_sequence + 1) as u64,
            deleted: incoming.deleted,
            properties: if incoming.deleted {
                Seq::empty()
            } else {
                incoming.properties
            },
            expiration: match self.collection(key).record(incoming.id) {
                Some(r) => r.expiration,
                None => 0,
            },
        }
    }

    /// Takes in a revision that a replicator pulled.
    ///
    /// - A revision that tells of lost access purges the local copy where
    ///   `auto_purge` is true and there is one, and changes nothing else.
    /// - A document that is new to the collection is stored.
    /// - A revision that descends from the stored one replaces it.
    /// - A revision that the collection has, or has gone beyond, changes
    ///   nothing.
    /// - Otherwise the two have diverged: nothing changes, and the step
    ///   is `Conflict`.
    ///
    /// `NotOpen` where the handle names no collection, `BadDocID` where the
    /// ID is empty, `MemoryError` where no sequence number is left.
    pub open spec fn pull(self, key: u64, incoming: RevisionView, auto_purge: bool) -> (
        DatabaseView,
        Result<PullStep, Error>,
    ) {
        if !self.has_key(key) {
            (self, Err(engine_error(CouchbaseLiteError::NotOpen)))
        } else if incoming.id.len() == 0 {
            (self, Err(engine_error(CouchbaseLiteError::BadDocID)))
        } else {
            let c = self.collection(key);
            match c.record(incoming.id) {
                None => if incoming.access_removed {
                    (self, Ok(PullStep::Ignored))
                } else if self.last_sequence == u64::MAX {
                    (self, Err(engine_error(CouchbaseLiteError::MemoryError)))
                } else {
                    (self.write(key, self.pulled_record(key, incoming)), Ok(PullStep::Inserted))
                },
                Some(r) => if incoming.access_removed {
                    if auto_purge {
                        (self.purge(key, incoming.id).0, Ok(PullStep::Purged))
                    } else {
                        (self, Ok(PullStep::Ignored))
                    }
                } else if r.revision == incoming.revision || r.history.contains(
                    incoming.revision,
                ) {
                    (self, Ok(PullStep::Ignored))
                } else if !incoming.history.contains(r.revision) {
                    (self, Ok(PullStep::Conflict))
                } else if self.last_sequence == u64::MAX {
                    (self, Err(engine_error(CouchbaseLiteError::MemoryError)))
                } else {
                    (self.write(key, self.pulled_record(key, incoming)), Ok(PullStep::Updated))
                },
            }
        }
    }

    /// Settles a conflict between the stored revision and a pulled one as
    /// `choice` says. A merge and a deletion are saved as a new revision
    /// whose generation is above both.
    pub open spec fn settle(self, key: u64, incoming: RevisionView, choice: ResolutionView) -> (
        DatabaseView,
        Result<(), Error>,
    ) {
        let doc = DocumentView {
            id: incoming.id,
            revision: Some(incoming.revision),
            sequence: 0,
            deleted: false,
            properties: match choice {
                ResolutionView::Merge(p) => p,
                _ => Seq::empty(),
            },
        };
        match choice {
            ResolutionView::KeepLocal => if !self.has_key(key) {
                (self, Err(engine_error(CouchbaseLiteError::NotOpen)))
            } else {
                (self, Ok(()))
            },
            ResolutionView::TakeRemote => if !self.has_key(key) {
                (self, Err(engine_error(CouchbaseLiteError::NotOpen)))
            } else if incoming.id.len() == 0 {
                (self, Err(engine_error(CouchbaseLiteError::BadDocID)))
            } else if self.last_sequence == u64::MAX {
                (self, Err(engine_error(CouchbaseLiteError::MemoryError)))
            } else {
                (self.write(key, self.pulled_record(key, incoming)), Ok(()))
            },
            ResolutionView::Merge(_) => {
                let saved = self.save(key, doc, ConcurrencyControl::LastWriteWins);
                (
                    saved.0,
                    match saved.1 {
                        Ok(_) => Ok(()),
                        Err(e) => Err(e),
                    },
                )
            },
            ResolutionView::Delete => self.delete(key, doc, ConcurrencyControl::LastWriteWins),
        }
    }

    /// What a rollback puts back.
    pub open spec fn snapshot_now(self) -> SnapshotView {
        SnapshotView {
            collections: self.collections,
            last_sequence: self.last_sequence,
            next_key: self.next_key,
        }
    }

    /// Opens a transaction; inside an open one, a nested one. `MemoryError`
    /// where transactions are nested too deeply to count.
    pub open spec fn begin(self) -> (DatabaseView, Result<(), Error>) {
        if self.depth == 0 {
            (DatabaseView { depth: 1, snapshot: Some(self.snapshot_now()), ..self }, Ok(()))
        } else if self.depth == u64::MAX {
            (self, Err(engine_error(CouchbaseLiteError::MemoryError)))
        } else {
            (DatabaseView { depth: (self.depth + 1) as u64, ..self }, Ok(()))
        }
    }

    /// Ends the innermost open transaction. Only the end of the outermost
    /// one takes effect: it keeps the writes where `commit` is true, and
    /// puts the state of its start back otherwise. The end of a transaction
    /// inside another changes nothing but the count of open transactions.
    /// `NotInTransaction` where none is open.
    pub open spec fn end(self, commit: bool) -> (DatabaseView, Result<(), Error>) {
        if self.depth == 0 {
            (self, Err(engine_error(CouchbaseLiteError::NotInTransaction)))
        } else if self.depth > 1 {
            (DatabaseView { depth: (self.depth - 1) as u64, ..self }, Ok(()))
        } else if commit {
            (DatabaseView { depth: 0, snapshot: None, ..self }, Ok(()))
        } else {
            match self.snapshot {
                Some(s) => (
                    DatabaseView {
                        depth: 0,
                        snapshot: None,
                        collections: s.collections,
                        last_sequence: s.last_sequence,
                        next_key: s.next_key,
                        ..self
                    },
                    Ok(()),
                ),
                None => (DatabaseView { depth: 0, ..self }, Ok(())),
            }
        }
    }

    /// Registers a listener: the database after it, and the listener's
    /// token. `MemoryError` where no token is left.
    pub open spec fn add_listener(self, key: u64, doc_id: Option<Seq<char>>) -> (
        DatabaseView,
        Result<u64, Error>,
    ) {
        if self.next_token == u64::MAX {
            (self, Err(engine_error(CouchbaseLiteError::MemoryError)))
        } else {
            (
                DatabaseView {
                    listeners: self.listeners.push(
                        ListenerView { token: self.next_token, collection: key, doc_id },
                    ),
                    next_token: (self.next_token + 1) as u64,
                    ..self
                },
                Ok(self.next_token),
            )
        }
    }

    /// Removes the listener with `token`, and what waits for it.
    pub open spec fn remove_listener(self, token: u64) -> DatabaseView {
        DatabaseView {
            listeners: listeners_without(self.listeners, token),
            outbox: changes_without(self.outbox, token),
            ..self
        }
    }

    /// True when the owner is to be told now that notifications wait: in
    /// buffered mode, once for each batch.
    pub open spec fn ready(self) -> bool {
        self.buffering && !self.signalled && self.outbox.len() > 0
    }

    /// The database in buffered-notification mode.
    pub open spec fn buffer(self) -> DatabaseView {
        DatabaseView { buffering: true, ..self }
    }

    /// The database once the owner was told, if it was to be told, that
    /// notifications wait.
    pub open spec fn signal(self) -> DatabaseView {
        DatabaseView { signalled: self.signalled || self.ready(), ..self }
    }

    /// The database once the waiting notifications were delivered.
    pub open spec fn delivered(self) -> DatabaseView {
        DatabaseView { outbox: Seq::empty(), signalled: false, ..self }
    }

    /// The notifications that are delivered without being asked for: none
    /// in buffered mode, all that wait otherwise.
    pub open spec fn due(self) -> Seq<ChangeView> {
        if self.buffering {
            Seq::empty()
        } else {
            self.outbox
        }
    }
}

/// True where the remote revision wins over the local one when nobody
/// else decides: the higher generation wins, and between revisions of one
/// generation the higher digest.
pub open spec fn remote_wins(local: RevisionId, remote: RevisionId) -> bool {
    remote.generation > local.generation || (remote.generation == local.generation
        && remote.digest > local.digest)
}

/// The IDs of the records that changed after sequence number `checkpoint`,
/// in order.
pub open spec fn pending_ids(records: Seq<RecordView>, checkpoint: u64) -> Seq<Seq<char>>
    decreases records.len(),
{
    if records.len() == 0 {
        Seq::empty()
    } else {
        let before = pending_ids(records.drop_last(), checkpoint);
        if records.last().sequence > checkpoint {
            before.push(records.last().id)
        } else {
            before
        }
    }
}

/// True for a definition that an index can be built from.
pub open spec fn valid_definition(definition: IndexDefinition) -> bool {
    match definition.kind {
        IndexKind::Value => definition.expressions.len() > 0,
        IndexKind::Array => definition.path.len() > 0,
    }
}

/// Every scope of the first `n` collections is a scope of all of them.
pub proof fn lemma_scopes_grow(collections: Seq<CollectionView>, n: int)
    requires
        0 <= n <= collections.len(),
    ensures
        forall|s: Seq<char>|
            scopes_of(collections.take(n)).contains(s) ==> scopes_of(collections).contains(s),
    decreases collections.len() - n,
{
    if n < collections.len() {
        let before = collections.take(n);
        let now = collections.take(n + 1);
        assert(now.drop_last() =~= before);
        lemma_scopes_grow(collections, n + 1);
        assert forall|s: Seq<char>| scopes_of(before).contains(s) implies scopes_of(
            collections,
        ).contains(s) by {
            let j = choose|j: int| 0 <= j < scopes_of(before).len() && scopes_of(before)[j] == s;
            if !scopes_of(before).contains(now.last().scope) {
                assert(scopes_of(now)[j] == s);
            }
            assert(scopes_of(now).contains(s));
        }
    } else {
        assert(collections.take(n) =~= collections);
    }
}

} // verus!
