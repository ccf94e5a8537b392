//! The operations of a database on its default collection, and on itself as
//! a whole: maintenance, the encryption key, closing, and copying.

use crate::database::{
    clone_collections, views, Database, DatabaseConfiguration, EncryptionKey, MaintenanceType,
};
use crate::document::{ConcurrencyControl, Document, DocumentView, Timestamp};
use crate::error::{CouchbaseLiteError, Error, Result};
use crate::index::ValueIndexConfiguration;
use crate::listener::ListenerToken;
use crate::model::{engine_error, DatabaseView};
use crate::store::spec_expiration;
use vstd::prelude::*;
use vstd::string::StringExecFns;

verus! {

/// What an operation on the default collection gives: what the operation
/// gives on the collection with the default collection's key, or `NotFound`
/// where the database has no default collection.
pub open spec fn on_default<T>(db: DatabaseView, outcome: spec_fn(u64) -> Result<T>) -> Result<T> {
    match db.default_key() {
        Some(key) => outcome(key),
        None => Err(engine_error(CouchbaseLiteError::NotFound)),
    }
}

/// The database after an operation on the default collection: what the
/// operation makes of it on the collection with the default collection's
/// key, or the database unchanged where it has no default collection.
pub open spec fn after_default(db: DatabaseView, outcome: spec_fn(u64) -> DatabaseView) -> DatabaseView {
    match db.default_key() {
        Some(key) => outcome(key),
        None => db,
    }
}

impl Database {
    /// The number of documents in the default collection, tombstones not
    /// counted.
    pub fn count(&self) -> (res: u64)
        ensures
            res == match self@.default_key() {
                Some(key) => self@.count(key),
                None => 0,
            },
    {
        match self.default_collection_or_error() {
            Ok(c) => self.count_in(c.key),
            Err(_) => 0,
        }
    }

    /// Reads a document from the default collection.
    pub fn get_document(&self, id: &str) -> (res: Result<Document>)
        ensures
            match res {
                Ok(d) => on_default(self@, |key: u64| self@.get(key, id@)) == Ok::<
                    DocumentView,
                    Error,
                >(d@),
                Err(e) => on_default(self@, |key: u64| self@.get(key, id@)) == Err::<
                    DocumentView,
                    Error,
                >(e),
            },
    {
        match self.default_collection_or_error() {
            Ok(c) => self.get_in(c.key, id),
            Err(e) => Err(e),
        }
    }

    /// Saves a document to the default collection, overwriting a revision
    /// that was saved since the document was read.
    pub fn save_document(&mut self, doc: &mut Document) -> (res: Result<()>)
        ensures
            final(self)@ == after_default(
                old(self)@,
                |key: u64| old(self)@.save(key, old(doc)@, ConcurrencyControl::LastWriteWins).0,
            ),
            match res {
                Ok(()) => on_default(
                    old(self)@,
                    |key: u64| old(self)@.save(key, old(doc)@, ConcurrencyControl::LastWriteWins).1,
                ) == Ok::<DocumentView, Error>(final(doc)@),
                Err(e) => on_default(
                    old(self)@,
                    |key: u64| old(self)@.save(key, old(doc)@, ConcurrencyControl::LastWriteWins).1,
                ) == Err::<DocumentView, Error>(e) && final(doc)@ == old(doc)@,
            },
    {
        match self.default_collection_or_error() {
            Ok(c) => self.save_in(c.key, doc, ConcurrencyControl::LastWriteWins),
            Err(e) => Err(e),
        }
    }

    /// Saves a document to the default collection. Where a revision was
    /// saved since the document was read, `concurrency` decides: the save
    /// fails with `Conflict`, or it overwrites that revision.
    pub fn save_document_with_concurency_control(
        &mut self,
        doc: &mut Document,
        concurrency: ConcurrencyControl,
    ) -> (res: Result<()>)
        ensures
            final(self)@ == after_default(
                old(self)@,
                |key: u64| old(self)@.save(key, old(doc)@, concurrency).0,
            ),
            match res {
                Ok(()) => on_default(
                    old(self)@,
                    |key: u64| old(self)@.save(key, old(doc)@, concurrency).1,
                ) == Ok::<DocumentView, Error>(final(doc)@),
                Err(e) => on_default(
                    old(self)@,
                    |key: u64| old(self)@.save(key, old(doc)@, concurrency).1,
                ) == Err::<DocumentView, Error>(e) && final(doc)@ == old(doc)@,
            },
    {
        match self.default_collection_or_error() {
            Ok(c) => self.save_in(c.key, doc, concurrency),
            Err(e) => Err(e),
        }
    }

    /// Saves a document to the default collection, and on a conflict asks
    /// `conflict_handler` to merge, as `Collection::save_document_resolving`
    /// does. `NotFound` where the database has no default collection.
    pub fn save_document_resolving<F: FnOnce(Document, Option<Document>) -> Option<Document>>(
        &mut self,
        doc: &mut Document,
        conflict_handler: F,
    ) -> (res: Result<Document>)
        requires
            forall|mine: Document, theirs: Option<Document>|
                conflict_handler.requires((mine, theirs)),
        ensures
            match old(self)@.default_key() {
                None => final(self)@ == old(self)@ && final(doc)@ == old(doc)@ && res == Err::<
                    Document,
                    Error,
                >(engine_error(CouchbaseLiteError::NotFound)),
                Some(key) => crate::collection::saved_resolving(
                    conflict_handler,
                    old(self)@,
                    key,
                    old(doc)@,
                    final(self)@,
                    final(doc)@,
                    res,
                ),
            },
    {
        match self.default_collection_or_error() {
            Ok(c) => c.save_document_resolving(self, doc, conflict_handler),
            Err(e) => Err(e),
        }
    }

    /// Deletes a document from the default collection, overwriting a
    /// revision that was saved since the document was read.
    pub fn delete_document(&mut self, doc: &Document) -> (res: Result<()>)
        ensures
            final(self)@ == after_default(
                old(self)@,
                |key: u64| old(self)@.delete(key, doc@, ConcurrencyControl::LastWriteWins).0,
            ),
            res == on_default(
                old(self)@,
                |key: u64| old(self)@.delete(key, doc@, ConcurrencyControl::LastWriteWins).1,
            ),
    {
        match self.default_collection_or_error() {
            Ok(c) => self.delete_in(c.key, doc, ConcurrencyControl::LastWriteWins),
            Err(e) => Err(e),
        }
    }

    /// Deletes a document from the default collection. Where a revision
    /// was saved since the document was read, `concurrency` decides as for
    /// a save.
    pub fn delete_document_with_concurency_control(
        &mut self,
        doc: &Document,
        concurrency: ConcurrencyControl,
    ) -> (res: Result<()>)
        ensures
            final(self)@ == after_default(
                old(self)@,
                |key: u64| old(self)@.delete(key, doc@, concurrency).0,
            ),
            res == on_default(old(self)@, |key: u64| old(self)@.delete(key, doc@, concurrency).1),
    {
        match self.default_collection_or_error() {
            Ok(c) => self.delete_in(c.key, doc, concurrency),
            Err(e) => Err(e),
        }
    }

    /// Purges a document from the default collection.
    pub fn purge_document(&mut self, doc: &Document) -> (res: Result<()>)
        ensures
            final(self)@ == after_default(
                old(self)@,
                |key: u64| old(self)@.purge(key, doc@.id).0,
            ),
            res == on_default(old(self)@, |key: u64| old(self)@.purge(key, doc@.id).1),
    {
        match self.default_collection_or_error() {
            Ok(c) => self.purge_in(c.key, doc.id.as_str()),
            Err(e) => Err(e),
        }
    }

    /// Purges a document from the default collection, given its ID.
    pub fn purge_document_by_id(&mut self, id: &str) -> (res: Result<()>)
        ensures
            final(self)@ == after_default(old(self)@, |key: u64| old(self)@.purge(key, id@).0),
            res == on_default(old(self)@, |key: u64| old(self)@.purge(key, id@).1),
    {
        match self.default_collection_or_error() {
            Ok(c) => self.purge_in(c.key, id),
            Err(e) => Err(e),
        }
    }

    /// When a document of the default collection expires; `None` for never.
    pub fn document_expiration(&self, doc_id: &str) -> (res: Result<Option<Timestamp>>)
        ensures
            match res {
                Ok(Some(t)) => on_default(self@, |key: u64| self@.expiration(key, doc_id@))
                    == Ok::<Option<i64>, Error>(Some(t.timestamp)),
                Ok(None) => on_default(self@, |key: u64| self@.expiration(key, doc_id@)) == Ok::<
                    Option<i64>,
                    Error,
                >(None),
                Err(e) => on_default(self@, |key: u64| self@.expiration(key, doc_id@)) == Err::<
                    Option<i64>,
                    Error,
                >(e),
            },
    {
        match self.default_collection_or_error() {
            Ok(c) => self.expiration_in(c.key, doc_id),
            Err(e) => Err(e),
        }
    }

    /// Sets or clears the time at which a document of the default
    /// collection expires.
    pub fn set_document_expiration(&mut self, doc_id: &str, when: Option<Timestamp>) -> (res:
        Result<()>)
        ensures
            final(self)@ == after_default(
                old(self)@,
                |key: u64| old(self)@.set_expiration(key, doc_id@, spec_expiration(when)).0,
            ),
            res == on_default(
                old(self)@,
                |key: u64| old(self)@.set_expiration(key, doc_id@, spec_expiration(when)).1,
            ),
    {
        match self.default_collection_or_error() {
            Ok(c) => self.set_expiration_in(c.key, doc_id, when),
            Err(e) => Err(e),
        }
    }

    /// Registers a listener for the changes of all documents of the
    /// default collection.
    pub fn add_listener(&mut self) -> (res: Result<ListenerToken>)
        ensures
            final(self)@ == after_default(
                old(self)@,
                |key: u64| old(self)@.add_listener(key, None).0,
            ),
            match res {
                Ok(t) => on_default(old(self)@, |key: u64| old(self)@.add_listener(key, None).1)
                    == Ok::<u64, Error>(t.token),
                Err(e) => on_default(old(self)@, |key: u64| old(self)@.add_listener(key, None).1)
                    == Err::<u64, Error>(e),
            },
    {
        match self.default_collection_or_error() {
            Ok(c) => self.add_listener_in(c.key, None),
            Err(e) => Err(e),
        }
    }

    /// Registers a listener for the changes of one document of the default
    /// collection.
    pub fn add_document_change_listener(&mut self, document: &Document) -> (res: Result<
        ListenerToken,
    >)
        ensures
            final(self)@ == after_default(
                old(self)@,
                |key: u64| old(self)@.add_listener(key, Some(document@.id)).0,
            ),
            match res {
                Ok(t) => on_default(
                    old(self)@,
                    |key: u64| old(self)@.add_listener(key, Some(document@.id)).1,
                ) == Ok::<u64, Error>(t.token),
                Err(e) => on_default(
                    old(self)@,
                    |key: u64| old(self)@.add_listener(key, Some(document@.id)).1,
                ) == Err::<u64, Error>(e),
            },
    {
        match self.default_collection_or_error() {
            Ok(c) => self.add_listener_in(c.key, Some(document.id.clone())),
            Err(e) => Err(e),
        }
    }

    /// Creates a value index in the default collection.
    pub fn create_index(&mut self, name: &str, config: &ValueIndexConfiguration) -> (res: Result<
        bool,
    >)
        ensures
            final(self)@ == after_default(
                old(self)@,
                |key: u64| old(self)@.create_index(key, name@, config.definition()).0,
            ),
            res == on_default(
                old(self)@,
                |key: u64| old(self)@.create_index(key, name@, config.definition()).1,
            ),
    {
        match self.default_collection_or_error() {
            Ok(c) => c.create_index(self, name, config),
            Err(e) => Err(e),
        }
    }

    /// Deletes an index of the default collection by name.
    pub fn delete_index(&mut self, name: &str) -> (res: Result<bool>)
        ensures
            final(self)@ == after_default(
                old(self)@,
                |key: u64| old(self)@.delete_index(key, name@).0,
            ),
            res == on_default(old(self)@, |key: u64| old(self)@.delete_index(key, name@).1),
    {
        match self.default_collection_or_error() {
            Ok(c) => self.delete_index_in(c.key, name),
            Err(e) => Err(e),
        }
    }

    /// The names of the indexes of the default collection; none where the
    /// database has no default collection.
    pub fn get_index_names(&self) -> (res: Vec<String>)
        ensures
            views(res@) == match self@.default_key() {
                Some(key) => match self@.index_names(key) {
                    Ok(names) => names,
                    Err(_) => Seq::empty(),
                },
                None => Seq::empty(),
            },
    {
        let names = match self.default_collection_or_error() {
            Ok(c) => self.index_names_in(c.key),
            Err(e) => Err(e),
        };
        match names {
            Ok(list) => list,
            Err(_) => {
                let none: Vec<String> = Vec::new();
                assert(views(none@) =~= Seq::<Seq<char>>::empty());
                none
            },
        }
    }

    /// Performs maintenance. It changes nothing of what the database
    /// holds.
    pub fn perform_maintenance(&mut self, of_type: MaintenanceType) -> (res: Result<()>)
        ensures
            final(self)@ == old(self)@,
            res is Ok,
    {
        Ok(())
    }

    /// Whether the database is encrypted.
    pub fn is_encrypted(&self) -> (res: bool)
        ensures
            res == (self.spec_encryption_key() is Some),
    {
        self.encryption_key.is_some()
    }

    /// Encrypts or decrypts the database, or changes its encryption key.
    /// It changes nothing of what the database holds.
    pub fn change_encryption_key(&mut self, encryption_key: Option<EncryptionKey>) -> (res: Result<
        (),
    >)
        ensures
            final(self)@ == old(self)@,
            final(self).spec_encryption_key() == encryption_key,
            res is Ok,
    {
        self.encryption_key = encryption_key;
        Ok(())
    }

    /// The path of the database: its directory, its name, and the
    /// extension of a database.
    pub fn path(&self) -> (res: String)
        ensures
            res@ == self@.directory + "/"@ + self@.name + ".cblite2/"@,
    {
        let mut out = self.directory.clone();
        out.append("/");
        out.append(self.name.as_str());
        out.append(".cblite2/");
        out
    }

    /// Closes the database. `TransactionNotClosed` while a transaction is
    /// open: the database is handed back, still open.
    pub fn close(self) -> (res: core::result::Result<(), (Database, Error)>)
        ensures
            match res {
                Ok(()) => self@.depth == 0,
                Err((db, e)) => self@.depth > 0 && db@ == self@ && e == engine_error(
                    CouchbaseLiteError::TransactionNotClosed,
                ),
            },
    {
        if self.depth > 0 {
            let e = Error::cbl_error(CouchbaseLiteError::TransactionNotClosed);
            return Err((self, e));
        }
        Ok(())
    }

    /// A copy of the database under a new name: the collections with their
    /// documents and indexes, and the sequence numbers. The copy has no
    /// listener and no open transaction, and the directory and the
    /// encryption key of `config`. `InvalidParameter` where the new name is
    /// empty.
    pub fn copy(&self, new_db_name: &str, config: Option<DatabaseConfiguration>) -> (res: Result<
        Database,
    >)
        ensures
            match res {
                Ok(db) => new_db_name@.len() > 0 && db@ == (DatabaseView {
                    collections: self@.collections,
                    last_sequence: self@.last_sequence,
                    next_key: self@.next_key,
                    clock: self@.clock,
                    ..DatabaseView::empty(
                        new_db_name@,
                        match config {
                            Some(c) => c.directory@,
                            None => Seq::empty(),
                        },
                    )
                }) && (self@.wf() ==> db@.wf()) && db.spec_encryption_key() == match config {
                    Some(c) => c.encryption_key,
                    None => None,
                },
                Err(e) => new_db_name@.len() == 0 && e == engine_error(
                    CouchbaseLiteError::InvalidParameter,
                ),
            },
    {
        match Database::open(new_db_name, config) {
            Ok(mut db) => {
                db.collections = clone_collections(&self.collections);
                db.last_sequence = self.last_sequence;
                db.next_key = self.next_key;
                db.clock = self.clock;
                proof {
                    if self@.wf() {
                        crate::laws::lemma_copy_wf(self@, db@.name, db@.directory);
                    }
                }
                Ok(db)
            },
            Err(e) => Err(e),
        }
    }
}

} // verus!
