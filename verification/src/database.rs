//! The database: scopes, collections, documents, indexes, transactions and
//! listeners, held in memory. Every operation is proved to do what the model
//! in [`crate::model`] says.

use crate::collection::Collection;
use crate::document::{Document, RevisionId};
use crate::error::{CouchbaseLiteError, Error, Result};
use crate::index::{IndexKind, QueryLanguage};
use crate::model::{
    default_name, names_in, scopes_of, valid_collection_path, valid_scope_name, ChangeView,
    CollectionView, DatabaseView, IndexDefinition, IndexView, ListenerView, RecordView,
    SnapshotView,
};
use crate::scope::Scope;
use crate::seqs::lemma_position_is;
use crate::text::{is_valid_name, str_equal};
use crate::value::Dict;
use vstd::prelude::*;

verus! {

/// The number of bytes of an AES-256 key.
pub const ENCRYPTION_KEY_SIZE_AES256: usize = 32;

/// Database encryption algorithms.
#[derive(Clone, Copy, Debug, PartialEq, Eq, Structural)]
pub enum EncryptionAlgorithm {
    /// No encryption.
    Unencrypted,
    /// AES with a 256-bit key.
    AES256,
}

impl EncryptionAlgorithm {
    /// The number that the engine knows this algorithm by.
    pub fn code(self) -> (res: u32)
        ensures
            res == match self {
                EncryptionAlgorithm::Unencrypted => 0u32,
                EncryptionAlgorithm::AES256 => 1u32,
            },
    {
        match self {
            EncryptionAlgorithm::Unencrypted => 0,
            EncryptionAlgorithm::AES256 => 1,
        }
    }
}

/// An encryption key: an algorithm and 32 bytes of key material.
#[derive(Clone, Debug)]
pub struct EncryptionKey {
    pub algorithm: EncryptionAlgorithm,
    pub bytes: Vec<u8>,
}

impl EncryptionKey {
    /// A key from its bytes; `None` unless there are exactly 32 of them.
    pub fn new(algorithm: EncryptionAlgorithm, bytes: Vec<u8>) -> (res: Option<EncryptionKey>)
        ensures
            res is Some <==> bytes.len() == ENCRYPTION_KEY_SIZE_AES256,
            res is Some ==> res->Some_0.algorithm == algorithm && res->Some_0.bytes == bytes,
    {
        if bytes.len() == ENCRYPTION_KEY_SIZE_AES256 {
            Some(EncryptionKey { algorithm, bytes })
        } else {
            None
        }
    }
}

/// Database configuration options.
#[derive(Clone, Debug)]
pub struct DatabaseConfiguration {
    /// The directory that holds the database.
    pub directory: String,
    pub encryption_key: Option<EncryptionKey>,
}

/// The kinds of maintenance that a database can perform.
#[derive(Clone, Copy, Debug, PartialEq, Eq, Structural)]
pub enum MaintenanceType {
    /// Compact the database file and delete unused attachments.
    Compact,
    /// Rebuild the database's indexes.
    Reindex,
    /// Check the database for corruption.
    IntegrityCheck,
    /// Gather statistics that help optimize queries, scanning part of the
    /// indexes.
    Optimize,
    /// Gather statistics that help optimize queries, scanning all indexes.
    FullOptimize,
}

impl MaintenanceType {
    /// The number that the engine knows this kind of maintenance by.
    pub fn code(self) -> (res: u32)
        ensures
            res == match self {
                MaintenanceType::Compact => 0u32,
                MaintenanceType::Reindex => 1u32,
                MaintenanceType::IntegrityCheck => 2u32,
                MaintenanceType::Optimize => 3u32,
                MaintenanceType::FullOptimize => 4u32,
            },
    {
        match self {
            MaintenanceType::Compact => 0,
            MaintenanceType::Reindex => 1,
            MaintenanceType::IntegrityCheck => 2,
            MaintenanceType::Optimize => 3,
            MaintenanceType::FullOptimize => 4,
        }
    }
}

/// A stored document: its current revision.
#[derive(Debug)]
pub struct Record {
    pub id: String,
    pub revision: RevisionId,
    pub history: Vec<RevisionId>,
    pub sequence: u64,
    pub deleted: bool,
    pub properties: Dict,
    pub expiration: i64,
}

impl View for Record {
    type V = RecordView;

    open spec fn view(&self) -> RecordView {
        RecordView {
            id: self.id@,
            revision: self.revision,
            history: self.history@,
            sequence: self.sequence,
            deleted: self.deleted,
            properties: self.properties@,
            expiration: self.expiration,
        }
    }
}

/// A stored index.
#[derive(Debug)]
pub struct IndexEntry {
    pub name: String,
    pub kind: IndexKind,
    pub language: QueryLanguage,
    pub path: String,
    pub expressions: String,
}

impl View for IndexEntry {
    type V = IndexView;

    open spec fn view(&self) -> IndexView {
        IndexView {
            name: self.name@,
            definition: IndexDefinition {
                kind: self.kind,
                language: self.language,
                path: self.path@,
                expressions: self.expressions@,
            },
        }
    }
}

/// A stored collection.
#[derive(Debug)]
pub struct CollectionData {
    pub key: u64,
    pub scope: String,
    pub name: String,
    pub records: Vec<Record>,
    pub indexes: Vec<IndexEntry>,
}

/// The mathematical values of the elements of a sequence.
pub open spec fn views<T: View>(s: Seq<T>) -> Seq<T::V> {
    s.map_values(|x: T| x@)
}

impl View for CollectionData {
    type V = CollectionView;

    open spec fn view(&self) -> CollectionView {
        CollectionView {
            key: self.key,
            scope: self.scope@,
            name: self.name@,
            records: views(self.records@),
            indexes: views(self.indexes@),
        }
    }
}

/// A copy of a list of revisions.
pub fn copy_revisions(revisions: &Vec<RevisionId>) -> (res: Vec<RevisionId>)
    ensures
        res@ == revisions@,
{
    let mut out: Vec<RevisionId> = Vec::new();
    let mut i: usize = 0;
    while i < revisions.len()
        invariant
            i <= revisions.len(),
            out@ == revisions@.take(i as int),
        decreases revisions.len() - i,
    {
        out.push(revisions[i]);
        assert(out@ =~= revisions@.take(i + 1));
        i += 1;
    }
    assert(revisions@.take(i as int) =~= revisions@);
    out
}

impl Record {
    /// A copy of this record.
    pub fn deep_clone(&self) -> (res: Record)
        ensures
            res@ == self@,
    {
        Record {
            id: self.id.clone(),
            revision: self.revision,
            history: copy_revisions(&self.history),
            sequence: self.sequence,
            deleted: self.deleted,
            properties: self.properties.deep_clone(),
            expiration: self.expiration,
        }
    }

    /// The in-memory copy that a read of this record gives.
    pub fn document(&self) -> (res: Document)
        ensures
            res@ == self@.document(),
    {
        Document {
            id: self.id.clone(),
            revision: Some(self.revision),
            sequence: self.sequence,
            deleted: self.deleted,
            properties: self.properties.deep_clone(),
        }
    }
}

impl IndexEntry {
    /// A copy of this index.
    pub fn deep_clone(&self) -> (res: IndexEntry)
        ensures
            res@ == self@,
    {
        IndexEntry {
            name: self.name.clone(),
            kind: self.kind,
            language: self.language,
            path: self.path.clone(),
            expressions: self.expressions.clone(),
        }
    }
}

impl CollectionData {
    /// The index of the record of `id`, or the number of records.
    pub fn find(&self, id: &str) -> (res: usize)
        ensures
            res == self@.find(id@),
            res <= self.records.len(),
    {
        let mut i: usize = 0;
        while i < self.records.len()
            invariant
                i <= self.records.len(),
                forall|j: int| 0 <= j < i ==> self.records[j].id@ != id@,
            decreases self.records.len() - i,
        {
            if str_equal(self.records[i].id.as_str(), id) {
                proof {
                    lemma_position_is(self@.ids(), id@, i as int);
                }
                return i;
            }
            i += 1;
        }
        proof {
            lemma_position_is(self@.ids(), id@, i as int);
        }
        i
    }

    /// The index of the index named `name`, or the number of indexes.
    pub fn find_index(&self, name: &str) -> (res: usize)
        ensures
            res == self@.find_index(name@),
            res <= self.indexes.len(),
    {
        let mut i: usize = 0;
        while i < self.indexes.len()
            invariant
                i <= self.indexes.len(),
                forall|j: int| 0 <= j < i ==> self.indexes[j].name@ != name@,
            decreases self.indexes.len() - i,
        {
            if str_equal(self.indexes[i].name.as_str(), name) {
                proof {
                    lemma_position_is(self@.index_names(), name@, i as int);
                }
                return i;
            }
            i += 1;
        }
        proof {
            lemma_position_is(self@.index_names(), name@, i as int);
        }
        i
    }

    /// A copy of this collection with its documents and indexes.
    pub fn deep_clone(&self) -> (res: CollectionData)
        ensures
            res@ == self@,
    {
        let mut records: Vec<Record> = Vec::new();
        let mut i: usize = 0;
        while i < self.records.len()
            invariant
                i <= self.records.len(),
                records.len() == i,
                forall|j: int| 0 <= j < i ==> (#[trigger] records[j])@ == self.records[j]@,
            decreases self.records.len() - i,
        {
            records.push(self.records[i].deep_clone());
            i += 1;
        }
        let mut indexes: Vec<IndexEntry> = Vec::new();
        let mut k: usize = 0;
        while k < self.indexes.len()
            invariant
                k <= self.indexes.len(),
                indexes.len() == k,
                forall|j: int| 0 <= j < k ==> (#[trigger] indexes[j])@ == self.indexes[j]@,
            decreases self.indexes.len() - k,
        {
            indexes.push(self.indexes[k].deep_clone());
            k += 1;
        }
        let res = CollectionData {
            key: self.key,
            scope: self.scope.clone(),
            name: self.name.clone(),
            records,
            indexes,
        };
        assert(res@.records =~= self@.records);
        assert(res@.indexes =~= self@.indexes);
        res
    }
}

/// A copy of the collections with what they hold.
pub fn clone_collections(collections: &Vec<CollectionData>) -> (res: Vec<CollectionData>)
    ensures
        views(res@) == views(collections@),
{
    let mut out: Vec<CollectionData> = Vec::new();
    let mut i: usize = 0;
    while i < collections.len()
        invariant
            i <= collections.len(),
            out.len() == i,
            forall|j: int| 0 <= j < i ==> (#[trigger] out[j])@ == collections[j]@,
        decreases collections.len() - i,
    {
        out.push(collections[i].deep_clone());
        i += 1;
    }
    assert(views(out@) =~= views(collections@));
    out
}

/// A registered listener.
#[derive(Debug)]
pub struct ListenerEntry {
    pub token: u64,
    pub collection: u64,
    pub doc_id: Option<String>,
}

impl View for ListenerEntry {
    type V = ListenerView;

    open spec fn view(&self) -> ListenerView {
        ListenerView {
            token: self.token,
            collection: self.collection,
            doc_id: match self.doc_id {
                Some(id) => Some(id@),
                None => None,
            },
        }
    }
}

/// A change of one document, to be told to the listener with the token.
#[derive(Debug)]
pub struct Change {
    pub token: u64,
    pub collection: u64,
    pub doc_id: String,
}

impl View for Change {
    type V = ChangeView;

    open spec fn view(&self) -> ChangeView {
        ChangeView { token: self.token, collection: self.collection, doc_id: self.doc_id@ }
    }
}

/// What a transaction puts back when it is rolled back.
#[derive(Debug)]
pub struct Snapshot {
    pub collections: Vec<CollectionData>,
    pub last_sequence: u64,
    pub next_key: u64,
}

impl View for Snapshot {
    type V = SnapshotView;

    open spec fn view(&self) -> SnapshotView {
        SnapshotView {
            collections: views(self.collections@),
            last_sequence: self.last_sequence,
            next_key: self.next_key,
        }
    }
}

/// A database held in memory.
#[derive(Debug)]
pub struct Database {
    pub(crate) name: String,
    pub(crate) directory: String,
    pub(crate) encryption_key: Option<EncryptionKey>,
    pub(crate) collections: Vec<CollectionData>,
    pub(crate) last_sequence: u64,
    pub(crate) next_key: u64,
    pub(crate) clock: i64,
    pub(crate) depth: u64,
    pub(crate) snapshot: Option<Snapshot>,
    pub(crate) listeners: Vec<ListenerEntry>,
    pub(crate) next_token: u64,
    pub(crate) buffering: bool,
    pub(crate) signalled: bool,
    pub(crate) outbox: Vec<Change>,
}

/// An error of the engine itself, without internal tag.
pub fn engine_failure<T>(e: CouchbaseLiteError) -> (res: Result<T>)
    ensures
        res == Err::<T, Error>(crate::model::engine_error(e)),
{
    Err(Error::cbl_error(e))
}

/// True for the name of a scope.
pub fn is_valid_scope_name(scope: &str) -> (res: bool)
    ensures
        res == valid_scope_name(scope@),
{
    str_equal(scope, "_default") || is_valid_name(scope)
}

/// True for a scope and a collection name that can name a collection.
pub fn is_valid_collection_path(scope: &str, name: &str) -> (res: bool)
    ensures
        res == valid_collection_path(scope@, name@),
{
    is_valid_scope_name(scope) && (is_valid_name(name) || (str_equal(name, "_default")
        && str_equal(scope, "_default")))
}

impl Database {
    /// The mathematical value of the database.
    pub open(crate) spec fn view(&self) -> DatabaseView {
        DatabaseView {
            name: self.name@,
            directory: self.directory@,
            collections: views(self.collections@),
            last_sequence: self.last_sequence,
            next_key: self.next_key,
            clock: self.clock,
            depth: self.depth,
            snapshot: match self.snapshot {
                Some(s) => Some(s@),
                None => None,
            },
            listeners: views(self.listeners@),
            next_token: self.next_token,
            buffering: self.buffering,
            signalled: self.signalled,
            outbox: views(self.outbox@),
        }
    }

    /// The key that the database is encrypted with, if it is encrypted.
    pub open(crate) spec fn spec_encryption_key(&self) -> Option<EncryptionKey> {
        self.encryption_key
    }

    /// Opens a new, empty database. Without a configuration the directory
    /// is empty and the database is not encrypted. `InvalidParameter` where
    /// the name is empty.
    pub fn open(name: &str, config: Option<DatabaseConfiguration>) -> (res: Result<Database>)
        ensures
            match res {
                Ok(db) => name@.len() > 0 && db@ == DatabaseView::empty(
                    name@,
                    match config {
                        Some(c) => c.directory@,
                        None => Seq::empty(),
                    },
                ) && db.spec_encryption_key() == match config {
                    Some(c) => c.encryption_key,
                    None => None,
                } && db@.wf(),
                Err(e) => name@.len() == 0 && e == crate::model::engine_error(
                    CouchbaseLiteError::InvalidParameter,
                ),
            },
    {
        if name.is_empty() {
            return engine_failure(CouchbaseLiteError::InvalidParameter);
        }
        let (directory, encryption_key) = match config {
            Some(c) => (c.directory, c.encryption_key),
            None => (String::new(), None),
        };
        let mut collections: Vec<CollectionData> = Vec::new();
        collections.push(
            CollectionData {
                key: 0,
                scope: "_default".to_owned(),
                name: "_default".to_owned(),
                records: Vec::new(),
                indexes: Vec::new(),
            },
        );
        let db = Database {
            name: name.to_owned(),
            directory,
            encryption_key,
            collections,
            last_sequence: 0,
            next_key: 1,
            clock: 0,
            depth: 0,
            snapshot: None,
            listeners: Vec::new(),
            next_token: 1,
            buffering: false,
            signalled: false,
            outbox: Vec::new(),
        };
        proof {
            let m = DatabaseView::empty(name@, db.directory@);
            crate::laws::lemma_empty_wf(name@, db.directory@);
            assert(db@.collections[0].records =~= m.collections[0].records);
            assert(db@.collections[0].indexes =~= m.collections[0].indexes);
            assert(db@.collections =~= m.collections);
            assert(db@.listeners =~= m.listeners);
            assert(db@.outbox =~= m.outbox);
        }
        Ok(db)
    }

    /// The database's name.
    pub fn name(&self) -> (res: &str)
        ensures
            res@ == self@.name,
    {
        self.name.as_str()
    }

    /// The directory that holds the database.
    pub fn directory(&self) -> (res: &str)
        ensures
            res@ == self@.directory,
    {
        self.directory.as_str()
    }

    /// The sequence number of the last write; 0 before the first.
    pub fn last_sequence(&self) -> (res: u64)
        ensures
            res == self@.last_sequence,
    {
        self.last_sequence
    }

    /// The current time of the database's clock.
    pub fn clock(&self) -> (res: i64)
        ensures
            res == self@.clock,
    {
        self.clock
    }

    /// The index of the collection with `key`, or the number of collections.
    pub(crate) fn find_key(&self, key: u64) -> (res: usize)
        ensures
            res == self@.find_key(key),
            res <= self.collections.len(),
    {
        let mut i: usize = 0;
        while i < self.collections.len()
            invariant
                i <= self.collections.len(),
                forall|j: int| 0 <= j < i ==> self.collections[j].key != key,
            decreases self.collections.len() - i,
        {
            if self.collections[i].key == key {
                proof {
                    lemma_position_is(self@.keys(), key, i as int);
                }
                return i;
            }
            i += 1;
        }
        proof {
            lemma_position_is(self@.keys(), key, i as int);
        }
        i
    }

    /// The index of the collection `name` of `scope`, or the number of
    /// collections.
    pub(crate) fn find_path(&self, scope: &str, name: &str) -> (res: usize)
        ensures
            res == self@.find_path(scope@, name@),
            res <= self.collections.len(),
    {
        let mut i: usize = 0;
        while i < self.collections.len()
            invariant
                i <= self.collections.len(),
                forall|j: int|
                    0 <= j < i ==> (#[trigger] self.collections[j]).scope@ != scope@
                        || self.collections[j].name@ != name@,
            decreases self.collections.len() - i,
        {
            if str_equal(self.collections[i].scope.as_str(), scope) && str_equal(
                self.collections[i].name.as_str(),
                name,
            ) {
                proof {
                    assert forall|j: int| 0 <= j < i implies self@.paths()[j] != (
                        scope@,
                        name@,
                    ) by {
                        assert(self.collections[j].scope@ != scope@ || self.collections[j].name@
                            != name@);
                    }
                    lemma_position_is(self@.paths(), (scope@, name@), i as int);
                }
                return i;
            }
            i += 1;
        }
        proof {
            assert forall|j: int| 0 <= j < i implies self@.paths()[j] != (scope@, name@) by {
                assert(self.collections[j].scope@ != scope@ || self.collections[j].name@ != name@);
            }
            lemma_position_is(self@.paths(), (scope@, name@), i as int);
        }
        i
    }

    /// The handle of the collection at index `i`.
    pub(crate) fn handle(&self, i: usize) -> (res: Collection)
        requires
            i < self.collections.len(),
        ensures
            res.key == self@.collections[i as int].key,
            res.scope@ == self@.collections[i as int].scope,
            res.name@ == self@.collections[i as int].name,
    {
        Collection {
            key: self.collections[i].key,
            scope: self.collections[i].scope.clone(),
            name: self.collections[i].name.clone(),
        }
    }

    /// The names of the scopes: each scope that holds a collection, in the
    /// order in which they came to hold one. The default scope is the first.
    pub fn scope_names(&self) -> (res: Result<Vec<String>>)
        ensures
            res is Ok,
            views(res->Ok_0@) == self@.scope_names(),
    {
        let mut out: Vec<String> = Vec::new();
        let mut i: usize = 0;
        while i < self.collections.len()
            invariant
                i <= self.collections.len(),
                views(out@) == scopes_of(self@.collections.take(i as int)),
            decreases self.collections.len() - i,
        {
            let ghost before = self@.collections.take(i as int);
            let ghost now = self@.collections.take(i + 1);
            assert(now.drop_last() =~= before);
            assert(now.last().scope == self.collections[i as int].scope@);
            let scope = &self.collections[i].scope;
            let mut seen = false;
            let mut k: usize = 0;
            while k < out.len()
                invariant
                    k <= out.len(),
                    seen == exists|j: int| 0 <= j < k && out[j]@ == scope@,
                decreases out.len() - k,
            {
                if str_equal(out[k].as_str(), scope.as_str()) {
                    seen = true;
                }
                k += 1;
            }
            proof {
                if seen {
                    let j = choose|j: int| 0 <= j < out.len() && out[j]@ == scope@;
                    assert(views(out@)[j] == scope@);
                } else if views(out@).contains(scope@) {
                    let j = choose|j: int| 0 <= j < views(out@).len() && views(out@)[j] == scope@;
                    assert(out[j]@ == scope@);
                }
            }
            if !seen {
                out.push(scope.clone());
                assert(views(out@) =~= scopes_of(before).push(scope@));
            }
            i += 1;
        }
        assert(self@.collections.take(i as int) =~= self@.collections);
        Ok(out)
    }

    /// The names of the collections of a scope, in the order of creation;
    /// none where the scope does not exist.
    pub fn collection_names(&self, scope_name: String) -> (res: Result<Vec<String>>)
        ensures
            res is Ok,
            views(res->Ok_0@) == self@.collection_names(scope_name@),
    {
        let mut out: Vec<String> = Vec::new();
        let mut i: usize = 0;
        while i < self.collections.len()
            invariant
                i <= self.collections.len(),
                views(out@) == names_in(self@.collections.take(i as int), scope_name@),
            decreases self.collections.len() - i,
        {
            let ghost before = self@.collections.take(i as int);
            let ghost now = self@.collections.take(i + 1);
            assert(now.drop_last() =~= before);
            assert(now.last() == self.collections[i as int]@);
            if str_equal(self.collections[i].scope.as_str(), scope_name.as_str()) {
                out.push(self.collections[i].name.clone());
                assert(views(out@) =~= names_in(before, scope_name@).push(
                    self.collections[i as int].name@,
                ));
            }
            i += 1;
        }
        assert(self@.collections.take(i as int) =~= self@.collections);
        Ok(out)
    }

    /// The scope of that name, if it exists. `InvalidParameter` where the
    /// name breaks the naming rule.
    pub fn scope(&self, scope_name: String) -> (res: Result<Option<Scope>>)
        ensures
            match res {
                Ok(Some(s)) => valid_scope_name(scope_name@) && self@.has_scope(scope_name@)
                    && s.name@ == scope_name@,
                Ok(None) => valid_scope_name(scope_name@) && !self@.has_scope(scope_name@),
                Err(e) => !valid_scope_name(scope_name@) && e == crate::model::engine_error(
                    CouchbaseLiteError::InvalidParameter,
                ),
            },
    {
        if !is_valid_scope_name(scope_name.as_str()) {
            return engine_failure(CouchbaseLiteError::InvalidParameter);
        }
        let mut i: usize = 0;
        while i < self.collections.len()
            invariant
                i <= self.collections.len(),
                valid_scope_name(scope_name@),
                !scopes_of(self@.collections.take(i as int)).contains(scope_name@),
            decreases self.collections.len() - i,
        {
            let ghost before = self@.collections.take(i as int);
            let ghost now = self@.collections.take(i + 1);
            assert(now.drop_last() =~= before);
            assert(now.last() == self.collections[i as int]@);
            if str_equal(self.collections[i].scope.as_str(), scope_name.as_str()) {
                proof {
                    assert(scopes_of(now) == scopes_of(before).push(scope_name@));
                    assert(scopes_of(now)[scopes_of(now).len() - 1] == scope_name@);
                    assert(scopes_of(now).contains(scope_name@));
                    crate::model::lemma_scopes_grow(self@.collections, i + 1);
                }
                return Ok(Some(Scope { name: scope_name }));
            }
            proof {
                let s = self.collections[i as int].scope@;
                if scopes_of(before).contains(s) {
                } else {
                    assert(scopes_of(now) == scopes_of(before).push(s));
                    if scopes_of(now).contains(scope_name@) {
                        let j = choose|j: int|
                            0 <= j < scopes_of(now).len() && scopes_of(now)[j] == scope_name@;
                        if j < scopes_of(before).len() {
                            assert(scopes_of(before)[j] == scope_name@);
                        }
                    }
                }
            }
            i += 1;
        }
        assert(self@.collections.take(i as int) =~= self@.collections);
        Ok(None)
    }

    /// The default scope.
    pub fn default_scope(&self) -> (res: Result<Scope>)
        ensures
            res is Ok,
            res->Ok_0.name@ == default_name(),
    {
        Ok(Scope { name: "_default".to_owned() })
    }

    /// The collection `collection_name` of scope `scope_name`, if it
    /// exists. `InvalidParameter` where the names break the naming rule.
    pub fn collection(&self, collection_name: String, scope_name: String) -> (res: Result<
        Option<Collection>,
    >)
        ensures
            match res {
                Ok(Some(c)) => self@.lookup(scope_name@, collection_name@) == Ok::<
                    Option<u64>,
                    Error,
                >(Some(c.key)) && c.scope@ == scope_name@ && c.name@ == collection_name@,
                Ok(None) => self@.lookup(scope_name@, collection_name@) == Ok::<
                    Option<u64>,
                    Error,
                >(None),
                Err(e) => self@.lookup(scope_name@, collection_name@) == Err::<
                    Option<u64>,
                    Error,
                >(e),
            },
    {
        if !is_valid_collection_path(scope_name.as_str(), collection_name.as_str()) {
            return engine_failure(CouchbaseLiteError::InvalidParameter);
        }
        let i = self.find_path(scope_name.as_str(), collection_name.as_str());
        if i < self.collections.len() {
            proof {
                crate::seqs::lemma_position(self@.paths(), (scope_name@, collection_name@));
            }
            Ok(Some(self.handle(i)))
        } else {
            Ok(None)
        }
    }

    /// The default collection.
    pub fn default_collection(&self) -> (res: Result<Option<Collection>>)
        ensures
            match res {
                Ok(Some(c)) => self@.default_key() == Some(c.key) && c.scope@ == default_name()
                    && c.name@ == default_name(),
                Ok(None) => self@.default_key() is None,
                Err(_) => false,
            },
    {
        let i = self.find_path("_default", "_default");
        if i < self.collections.len() {
            proof {
                crate::seqs::lemma_position(self@.paths(), (default_name(), default_name()));
            }
            Ok(Some(self.handle(i)))
        } else {
            Ok(None)
        }
    }

    /// The default collection; `NotFound` where the database has none.
    pub fn default_collection_or_error(&self) -> (res: Result<Collection>)
        ensures
            match res {
                Ok(c) => self@.default_key() == Some(c.key) && c.scope@ == default_name()
                    && c.name@ == default_name(),
                Err(e) => self@.default_key() is None && e == crate::model::engine_error(
                    CouchbaseLiteError::NotFound,
                ),
            },
    {
        match self.default_collection() {
            Ok(Some(c)) => Ok(c),
            _ => engine_failure(CouchbaseLiteError::NotFound),
        }
    }

    /// Creates a collection, or finds it where it exists.
    ///
    /// - `InvalidParameter` where the names break the naming rule.
    /// - `MemoryError` where no key is left for a new collection.
    pub fn create_collection(&mut self, collection_name: String, scope_name: String) -> (res:
        Result<Collection>)
        ensures
            final(self)@ == old(self)@.create_collection(scope_name@, collection_name@).0,
            match res {
                Ok(c) => old(self)@.create_collection(scope_name@, collection_name@).1 == Ok::<
                    u64,
                    Error,
                >(c.key) && c.scope@ == scope_name@ && c.name@ == collection_name@,
                Err(e) => old(self)@.create_collection(scope_name@, collection_name@).1 == Err::<
                    u64,
                    Error,
                >(e),
            },
    {
        if !is_valid_collection_path(scope_name.as_str(), collection_name.as_str()) {
            return engine_failure(CouchbaseLiteError::InvalidParameter);
        }
        let i = self.find_path(scope_name.as_str(), collection_name.as_str());
        if i < self.collections.len() {
            proof {
                crate::seqs::lemma_position(self@.paths(), (scope_name@, collection_name@));
            }
            return Ok(self.handle(i));
        }
        if self.next_key == u64::MAX {
            return engine_failure(CouchbaseLiteError::MemoryError);
        }
        let key = self.next_key;
        let handle = Collection { key, scope: scope_name.clone(), name: collection_name.clone() };
        self.collections.push(
            CollectionData {
                key,
                scope: scope_name,
                name: collection_name,
                records: Vec::new(),
                indexes: Vec::new(),
            },
        );
        self.next_key = key + 1;
        proof {
            let m = old(self)@.create_collection(scope_name@, collection_name@).0;
            assert(self@.collections.last().records =~= m.collections.last().records);
            assert(self@.collections.last().indexes =~= m.collections.last().indexes);
            assert(self@.collections =~= m.collections);
        }
        Ok(handle)
    }

    /// Deletes a collection with its documents and indexes. A collection
    /// that does not exist is deleted with success.
    ///
    /// - `InvalidParameter` where the names break the naming rule, and for
    ///   the default collection, which cannot be deleted.
    pub fn delete_collection(&mut self, collection_name: String, scope_name: String) -> (res:
        Result<()>)
        ensures
            final(self)@ == old(self)@.delete_collection(scope_name@, collection_name@).0,
            res == old(self)@.delete_collection(scope_name@, collection_name@).1,
    {
        if !is_valid_collection_path(scope_name.as_str(), collection_name.as_str()) {
            return engine_failure(CouchbaseLiteError::InvalidParameter);
        }
        if str_equal(scope_name.as_str(), "_default") && str_equal(
            collection_name.as_str(),
            "_default",
        ) {
            return engine_failure(CouchbaseLiteError::InvalidParameter);
        }
        let i = self.find_path(scope_name.as_str(), collection_name.as_str());
        if i < self.collections.len() {
            self.collections.remove(i);
            proof {
                let m = old(self)@.delete_collection(scope_name@, collection_name@).0;
                assert(self@.collections =~= m.collections);
            }
        }
        Ok(())
    }
}

} // verus!
