//! Collections: named containers of documents within a scope.

use crate::database::{Database, IndexEntry};
use crate::document::{ConcurrencyControl, Document, DocumentView, Timestamp};
use crate::error::{CouchbaseLiteError, Error, Result};
use crate::index::{ArrayIndexConfiguration, IndexKind, QueryIndex, ValueIndexConfiguration};
use crate::listener::ListenerToken;
use crate::model::{engine_error, DatabaseView, IndexView};
use crate::scope::Scope;
use crate::store::spec_expiration;
use vstd::prelude::*;
use vstd::string::StringExecFns;

verus! {

/// The name of the default collection.
pub const DEFAULT_NAME: &'static str = "_default";

/// The full name of the default collection.
pub const DEFAULT_FULL_NAME: &'static str = "_default._default";

/// A handle to a collection of a database. It names the collection by a key
/// that the database gave it when it was created, so that a handle to a
/// deleted collection never comes to name a later one. Every operation
/// takes the database that the handle came from; on a handle that names no
/// collection of that database (any more) the operations that return a
/// `Result` fail with `NotOpen`.
#[derive(Debug)]
pub struct Collection {
    pub key: u64,
    pub scope: String,
    pub name: String,
}

/// The document that a failed save with `FailOnConflict` conflicted with,
/// as the conflict handler sees it: the stored revision, or `None` where
/// that is a tombstone.
pub open spec fn conflicting(db: DatabaseView, key: u64, id: Seq<char>) -> Option<DocumentView> {
    match db.collection(key).record(id) {
        Some(r) => if r.deleted {
            None
        } else {
            Some(r.document())
        },
        None => None,
    }
}

/// The document that is saved once a conflict handler has merged: the
/// merged properties, under the ID of the document being saved, as a change
/// to the stored revision.
pub open spec fn rebased(db: DatabaseView, key: u64, mine: DocumentView, merged: DocumentView) -> DocumentView {
    match db.collection(key).record(mine.id) {
        Some(r) => DocumentView {
            id: mine.id,
            revision: Some(r.revision),
            sequence: r.sequence,
            deleted: mine.deleted,
            properties: merged.properties,
        },
        None => DocumentView { properties: merged.properties, ..mine },
    }
}

/// True when a resolving save of the document `given` has made `after`
/// of the database `before`, left the caller's document as `left`, and
/// returned `res`.
///
/// Without a conflict this is a save with `FailOnConflict`. On a conflict
/// the handler is asked, with a copy of the document and the stored
/// document (`None` where that is deleted). Where it returns no document,
/// nothing changes and the save fails with `Conflict`; where it returns
/// one, that document's properties are saved as a change to the stored
/// revision.
pub open spec fn saved_resolving<F: FnOnce(Document, Option<Document>) -> Option<Document>>(
    conflict_handler: F,
    before: DatabaseView,
    key: u64,
    given: DocumentView,
    after: DatabaseView,
    left: DocumentView,
    res: Result<Document>,
) -> bool {
    match before.save(key, given, ConcurrencyControl::FailOnConflict).1 {
        Ok(saved) => {
            &&& after == before.save(
                key,
                given,
                ConcurrencyControl::FailOnConflict,
            ).0
            &&& left == saved
            &&& res is Ok
            &&& res->Ok_0@ == saved
        },
        Err(e) => if e != engine_error(CouchbaseLiteError::Conflict) {
            after == before && left == given && res == Err::<
                Document,
                Error,
            >(e)
        } else {
            exists|mine: Document, theirs: Option<Document>, merged: Option<Document>|
                {
                    &&& mine@ == given
                    &&& spec_view_of(theirs) == conflicting(
                        before,
                        key,
                        given.id,
                    )
                    &&& #[trigger] conflict_handler.ensures((mine, theirs), merged)
                    &&& match merged {
                        None => after == before && left == given && res
                            == Err::<Document, Error>(e),
                        Some(m) => {
                            let based = rebased(before, key, given, m@);
                            let outcome = before.save(
                                key,
                                based,
                                ConcurrencyControl::FailOnConflict,
                            );
                            &&& after == outcome.0
                            &&& match res {
                                Ok(d) => outcome.1 == Ok::<DocumentView, Error>(d@)
                                    && left == d@,
                                Err(x) => outcome.1 == Err::<DocumentView, Error>(x)
                                    && left == based,
                            }
                        },
                    }
                }
        },
    }
}

impl Collection {
    /// The name of the collection.
    pub fn name(&self) -> (res: String)
        ensures
            res@ == self.name@,
    {
        self.name.clone()
    }

    /// The name of the scope, a dot, and the name of the collection.
    pub fn full_name(&self) -> (res: String)
        ensures
            res@ == self.scope@ + "."@ + self.name@,
    {
        let mut out = self.scope.clone();
        out.append(".");
        out.append(self.name.as_str());
        out
    }

    /// The scope of the collection.
    pub fn scope(&self) -> (res: Scope)
        ensures
            res.name@ == self.scope@,
    {
        Scope { name: self.scope.clone() }
    }

    /// True when the handle names a collection of `db`.
    pub fn is_valid(&self, db: &Database) -> (res: bool)
        ensures
            res == db@.has_key(self.key),
    {
        db.find_key(self.key) < db.collections.len()
    }

    /// The number of documents in the collection, tombstones not counted; 0
    /// where the handle names no collection.
    pub fn count(&self, db: &Database) -> (res: u64)
        ensures
            res == db@.count(self.key),
    {
        db.count_in(self.key)
    }

    /// Reads a document: a new in-memory copy of the stored revision. A
    /// deleted document is read as a deleted document without properties.
    /// `NotFound` where the collection holds no document of that ID.
    pub fn get_document(&self, db: &Database, id: &str) -> (res: Result<Document>)
        ensures
            match res {
                Ok(d) => db@.get(self.key, id@) == Ok::<DocumentView, Error>(d@),
                Err(e) => db@.get(self.key, id@) == Err::<DocumentView, Error>(e),
            },
    {
        db.get_in(self.key, id)
    }

    /// Saves a document, overwriting a revision that was saved since the
    /// document was read.
    pub fn save_document(&self, db: &mut Database, doc: &mut Document) -> (res: Result<()>)
        ensures
            final(db)@ == old(db)@.save(self.key, old(doc)@, ConcurrencyControl::LastWriteWins).0,
            match res {
                Ok(()) => old(db)@.save(self.key, old(doc)@, ConcurrencyControl::LastWriteWins).1
                    == Ok::<DocumentView, Error>(final(doc)@),
                Err(e) => old(db)@.save(self.key, old(doc)@, ConcurrencyControl::LastWriteWins).1
                    == Err::<DocumentView, Error>(e) && final(doc)@ == old(doc)@,
            },
    {
        db.save_in(self.key, doc, ConcurrencyControl::LastWriteWins)
    }

    /// Saves a document. Where a revision was saved since the document was
    /// read, `concurrency` decides: the save fails with `Conflict`, or it
    /// overwrites that revision. On success the document has its new
    /// revision and sequence number.
    pub fn save_document_with_concurency_control(
        &self,
        db: &mut Database,
        doc: &mut Document,
        concurrency: ConcurrencyControl,
    ) -> (res: Result<()>)
        ensures
            final(db)@ == old(db)@.save(self.key, old(doc)@, concurrency).0,
            match res {
                Ok(()) => old(db)@.save(self.key, old(doc)@, concurrency).1 == Ok::<
                    DocumentView,
                    Error,
                >(final(doc)@),
                Err(e) => old(db)@.save(self.key, old(doc)@, concurrency).1 == Err::<
                    DocumentView,
                    Error,
                >(e) && final(doc)@ == old(doc)@,
            },
    {
        db.save_in(self.key, doc, concurrency)
    }

    /// Saves a document, and on a conflict asks `conflict_handler` to merge.
    /// The handler gets a copy of the document being saved and the stored
    /// document (`None` where that was deleted). Where it returns a merged
    /// document, its properties are saved as a change to the stored
    /// revision; where it returns `None`, the save fails with `Conflict`.
    /// Returns a copy of the document as saved.
    pub fn save_document_resolving<F: FnOnce(Document, Option<Document>) -> Option<Document>>(
        &self,
        db: &mut Database,
        doc: &mut Document,
        conflict_handler: F,
    ) -> (res: Result<Document>)
        requires
            forall|mine: Document, theirs: Option<Document>|
                conflict_handler.requires((mine, theirs)),
        ensures
            saved_resolving(
                conflict_handler,
                old(db)@,
                self.key,
                old(doc)@,
                final(db)@,
                final(doc)@,
                res,
            ),
    {
        match db.save_in(self.key, doc, ConcurrencyControl::FailOnConflict) {
            Ok(()) => Ok(doc.deep_clone()),
            Err(e) => {
                if !is_conflict(&e) {
                    return Err(e);
                }
                let ci = db.find_key(self.key);
                assert(ci < db.collections.len());
                let ri = db.collections[ci].find(doc.id.as_str());
                assert(ri < db.collections[ci as int].records.len());
                let stored = &db.collections[ci].records[ri];
                let theirs = if stored.deleted {
                    None
                } else {
                    Some(stored.document())
                };
                let revision = stored.revision;
                let sequence = stored.sequence;
                let mine = doc.deep_clone();
                let ghost given = (mine, theirs);
                let merged = conflict_handler(mine, theirs);
                let ghost returned = merged;
                assert(conflict_handler.ensures(given, returned));
                match merged {
                    None => Err(e),
                    Some(m) => {
                        doc.revision = Some(revision);
                        doc.sequence = sequence;
                        doc.properties = m.properties;
                        match db.save_in(self.key, doc, ConcurrencyControl::FailOnConflict) {
                            Ok(()) => Ok(doc.deep_clone()),
                            Err(x) => Err(x),
                        }
                    },
                }
            },
        }
    }

    /// Deletes a document, overwriting a revision that was saved since the
    /// document was read. The document stays as a tombstone.
    pub fn delete_document(&self, db: &mut Database, doc: &Document) -> (res: Result<()>)
        ensures
            final(db)@ == old(db)@.delete(self.key, doc@, ConcurrencyControl::LastWriteWins).0,
            res == old(db)@.delete(self.key, doc@, ConcurrencyControl::LastWriteWins).1,
    {
        db.delete_in(self.key, doc, ConcurrencyControl::LastWriteWins)
    }

    /// Deletes a document. Where a revision was saved since the document
    /// was read, `concurrency` decides as for a save.
    pub fn delete_document_with_concurency_control(
        &self,
        db: &mut Database,
        doc: &Document,
        concurrency: ConcurrencyControl,
    ) -> (res: Result<()>)
        ensures
            final(db)@ == old(db)@.delete(self.key, doc@, concurrency).0,
            res == old(db)@.delete(self.key, doc@, concurrency).1,
    {
        db.delete_in(self.key, doc, concurrency)
    }

    /// Purges a document: removes it without leaving a tombstone.
    pub fn purge_document(&self, db: &mut Database, doc: &Document) -> (res: Result<()>)
        ensures
            final(db)@ == old(db)@.purge(self.key, doc@.id).0,
            res == old(db)@.purge(self.key, doc@.id).1,
    {
        db.purge_in(self.key, doc.id.as_str())
    }

    /// Purges a document, given its ID.
    pub fn purge_document_by_id(&self, db: &mut Database, id: &str) -> (res: Result<()>)
        ensures
            final(db)@ == old(db)@.purge(self.key, id@).0,
            res == old(db)@.purge(self.key, id@).1,
    {
        db.purge_in(self.key, id)
    }

    /// When a document expires; `None` for never.
    pub fn document_expiration(&self, db: &Database, doc_id: &str) -> (res: Result<
        Option<Timestamp>,
    >)
        ensures
            match res {
                Ok(Some(t)) => db@.expiration(self.key, doc_id@) == Ok::<Option<i64>, Error>(
                    Some(t.timestamp),
                ),
                Ok(None) => db@.expiration(self.key, doc_id@) == Ok::<Option<i64>, Error>(None),
                Err(e) => db@.expiration(self.key, doc_id@) == Err::<Option<i64>, Error>(e),
            },
    {
        db.expiration_in(self.key, doc_id)
    }

    /// Sets or clears the time at which a document expires.
    pub fn set_document_expiration(
        &self,
        db: &mut Database,
        doc_id: &str,
        when: Option<Timestamp>,
    ) -> (res: Result<()>)
        ensures
            final(db)@ == old(db)@.set_expiration(self.key, doc_id@, spec_expiration(when)).0,
            res == old(db)@.set_expiration(self.key, doc_id@, spec_expiration(when)).1,
    {
        db.set_expiration_in(self.key, doc_id, when)
    }

    /// Registers a listener for the changes of all documents of the
    /// collection.
    pub fn add_listener(&self, db: &mut Database) -> (res: Result<ListenerToken>)
        ensures
            final(db)@ == old(db)@.add_listener(self.key, None).0,
            match res {
                Ok(t) => old(db)@.add_listener(self.key, None).1 == Ok::<u64, Error>(t.token),
                Err(e) => old(db)@.add_listener(self.key, None).1 == Err::<u64, Error>(e),
            },
    {
        db.add_listener_in(self.key, None)
    }

    /// Registers a listener for the changes of one document.
    pub fn add_document_change_listener(&self, db: &mut Database, document: &Document) -> (res:
        Result<ListenerToken>)
        ensures
            final(db)@ == old(db)@.add_listener(self.key, Some(document@.id)).0,
            match res {
                Ok(t) => old(db)@.add_listener(self.key, Some(document@.id)).1 == Ok::<u64, Error>(
                    t.token,
                ),
                Err(e) => old(db)@.add_listener(self.key, Some(document@.id)).1 == Err::<
                    u64,
                    Error,
                >(e),
            },
    {
        db.add_listener_in(self.key, Some(document.id.clone()))
    }

    /// Creates a value index. Where the collection has an index of that
    /// name with the same configuration, nothing changes; one with another
    /// configuration is replaced.
    pub fn create_index(&self, db: &mut Database, name: &str, config: &ValueIndexConfiguration) -> (res:
        Result<bool>)
        ensures
            final(db)@ == old(db)@.create_index(self.key, name@, config.definition()).0,
            res == old(db)@.create_index(self.key, name@, config.definition()).1,
    {
        db.create_index_in(
            self.key,
            IndexEntry {
                name: name.to_owned(),
                kind: IndexKind::Value,
                language: config.query_language,
                path: String::new(),
                expressions: config.expressions.clone(),
            },
        )
    }

    /// Creates an array index. Where the collection has an index of that
    /// name with the same configuration, nothing changes; one with another
    /// configuration is replaced.
    pub fn create_array_index(
        &self,
        db: &mut Database,
        name: &str,
        config: &ArrayIndexConfiguration,
    ) -> (res: Result<bool>)
        ensures
            final(db)@ == old(db)@.create_index(self.key, name@, config.definition()).0,
            res == old(db)@.create_index(self.key, name@, config.definition()).1,
    {
        db.create_index_in(
            self.key,
            IndexEntry {
                name: name.to_owned(),
                kind: IndexKind::Array,
                language: config.query_language,
                path: config.path.clone(),
                expressions: config.expressions.clone(),
            },
        )
    }

    /// Deletes an index by name. Deleting an index that does not exist
    /// succeeds and changes nothing.
    pub fn delete_index(&self, db: &mut Database, name: &str) -> (res: Result<bool>)
        ensures
            final(db)@ == old(db)@.delete_index(self.key, name@).0,
            res == old(db)@.delete_index(self.key, name@).1,
    {
        db.delete_index_in(self.key, name)
    }

    /// The names of the indexes of the collection, in the order of creation.
    pub fn get_index_names(&self, db: &Database) -> (res: Result<Vec<String>>)
        ensures
            match res {
                Ok(names) => db@.index_names(self.key) == Ok::<Seq<Seq<char>>, Error>(
                    crate::database::views(names@),
                ),
                Err(e) => db@.index_names(self.key) == Err::<Seq<Seq<char>>, Error>(e),
            },
    {
        db.index_names_in(self.key)
    }

    /// The index of that name; `MissingIndex` where the collection has none.
    pub fn get_index(&self, db: &Database, name: &str) -> (res: Result<QueryIndex>)
        ensures
            match res {
                Ok(x) => db@.index(self.key, name@) is Ok && x.name@ == name@ && x.collection.key
                    == self.key && x.collection.scope@ == self.scope@ && x.collection.name@
                    == self.name@,
                Err(e) => db@.index(self.key, name@) == Err::<IndexView, Error>(e),
            },
    {
        db.index_in(self, name)
    }
}

/// The mathematical value of an optional document.
pub open spec fn spec_view_of(doc: Option<Document>) -> Option<DocumentView> {
    match doc {
        Some(d) => Some(d@),
        None => None,
    }
}

/// True for the error `Conflict` of the engine, without internal tag.
pub fn is_conflict(e: &Error) -> (res: bool)
    ensures
        res == (*e == engine_error(CouchbaseLiteError::Conflict)),
{
    let tagged = match e.internal_info {
        Some(_) => true,
        None => false,
    };
    let conflict = match e.code {
        crate::error::ErrorCode::CouchbaseLite(CouchbaseLiteError::Conflict) => true,
        _ => false,
    };
    conflict && !tagged
}

} // verus!
