//! What holds of every database: the invariant that every operation keeps,
//! and the laws that follow from the model.

use crate::document::{ConcurrencyControl, DocumentView};
use crate::error::{CouchbaseLiteError, Error};
use crate::model::{
    default_name, engine_error, expired, sweep, unexpired, CollectionView, DatabaseView,
    IndexDefinition, PullStep, RecordView, ResolutionView, RevisionView,
};
use crate::transfer::{outgoing, push_model};
use crate::seqs::{
    distinct, lemma_position, lemma_position_is, lemma_position_push, lemma_position_remove,
};
use vstd::prelude::*;

verus! {

/// True for a record as a database with the last sequence number
/// `last_sequence` and the time `clock` can hold it: it has an ID, its
/// sequence number was given out, a tombstone has no properties, and its
/// expiration time has not come.
pub open spec fn record_wf(r: RecordView, last_sequence: u64, clock: i64) -> bool {
    &&& r.id.len() > 0
    &&& 1 <= r.sequence <= last_sequence
    &&& r.deleted ==> r.properties.len() == 0
    &&& !expired(r, clock)
    &&& r.expiration >= 0
}

/// True for a collection as a database can hold it: no two of its
/// documents share an ID, no two of its indexes share a name, and each
/// record is well-formed.
pub open spec fn collection_wf(c: CollectionView, last_sequence: u64, clock: i64) -> bool {
    &&& distinct(c.ids())
    &&& distinct(c.index_names())
    &&& forall|i: int|
        0 <= i < c.records.len() ==> record_wf(#[trigger] c.records[i], last_sequence, clock)
}

/// True for collections as a database can hold them: the default
/// collection is the first, no two collections share a key or a scope and
/// name, every key was given out, and each collection is well-formed.
pub open spec fn collections_wf(
    collections: Seq<CollectionView>,
    last_sequence: u64,
    next_key: u64,
    clock: i64,
) -> bool {
    &&& collections.len() > 0
    &&& collections[0].scope == default_name()
    &&& collections[0].name == default_name()
    &&& distinct(collections.map_values(|c: CollectionView| c.key))
    &&& distinct(collections.map_values(|c: CollectionView| (c.scope, c.name)))
    &&& forall|i: int| 0 <= i < collections.len() ==> (#[trigger] collections[i]).key < next_key
    &&& forall|i: int|
        0 <= i < collections.len() ==> collection_wf(
            #[trigger] collections[i],
            last_sequence,
            clock,
        )
}

impl DatabaseView {
    /// The invariant of a database. Every database that `open` gives has
    /// it, and every operation keeps it.
    pub open spec fn wf(self) -> bool {
        &&& collections_wf(self.collections, self.last_sequence, self.next_key, self.clock)
        &&& self.snapshot is Some <==> self.depth > 0
        &&& match self.snapshot {
            Some(s) => collections_wf(s.collections, s.last_sequence, s.next_key, self.clock),
            None => true,
        }
    }
}

/// A new database has the invariant.
pub proof fn lemma_empty_wf(name: Seq<char>, directory: Seq<char>)
    ensures
        DatabaseView::empty(name, directory).wf(),
{
    let db = DatabaseView::empty(name, directory);
    assert(db.collections[0].ids() =~= Seq::<Seq<char>>::empty());
    assert(db.collections[0].index_names() =~= Seq::<Seq<char>>::empty());
}

/// After a write of a record to a collection, the record is the one that
/// is found under its ID, every other ID is found as before, and the
/// other collections are as they were.
pub proof fn lemma_write(db: DatabaseView, key: u64, record: RecordView)
    requires
        db.has_key(key),
    ensures
        db.write(key, record).has_key(key),
        db.write(key, record).collection(key).record(record.id) == Some(record),
        db.write(key, record).last_sequence == record.sequence,
        db.write(key, record).collections.len() == db.collections.len(),
        forall|id: Seq<char>|
            id != record.id ==> db.write(key, record).collection(key).record(id) == db.collection(
                key,
            ).record(id),
        forall|i: int|
            0 <= i < db.collections.len() && i != db.find_key(key) ==> db.write(
                key,
                record,
            ).collections[i] == db.collections[i],
{
    let c = db.collection(key);
    let at = c.find(record.id);
    let after = db.write(key, record);
    let ci = db.find_key(key);
    lemma_position(db.keys(), key);
    assert(after.keys() =~= db.keys());
    let c2 = after.collection(key);
    assert(c2 == c.put(record));
    lemma_position(c.ids(), record.id);
    if at < c.records.len() {
        assert(c2.ids() =~= c.ids());
    } else {
        assert(c2.ids() =~= c.ids().push(record.id));
        lemma_position_push(c.ids(), record.id, record.id);
    }
    assert forall|id: Seq<char>| id != record.id implies c2.record(id) == c.record(id) by {
        lemma_position(c.ids(), id);
        if at >= c.records.len() {
            lemma_position_push(c.ids(), record.id, id);
        }
    }
}

/// For all documents `d`: after a successful save of `d`, reading the
/// document gives a revision other than the one `d` had before the save,
/// and a sequence number above the one that `d` bore before the save and
/// above every sequence number that the database had given out before, so
/// above the one that the document had in the database. The document that
/// is read is not deleted, whether it has properties or not.
pub proof fn lemma_save_advances(
    db: DatabaseView,
    key: u64,
    d: DocumentView,
    policy: ConcurrencyControl,
)
    requires
        db.wf(),
        db.save(key, d, policy).1 is Ok,
    ensures
        db.save(key, d, policy).0.get(key, d.id) == db.save(key, d, policy).1,
        db.save(key, d, policy).1->Ok_0.revision != d.revision,
        db.save(key, d, policy).1->Ok_0.sequence > d.sequence,
        db.save(key, d, policy).1->Ok_0.sequence > db.last_sequence,
        !db.save(key, d, policy).1->Ok_0.deleted,
        db.save(key, d, policy).1->Ok_0.properties == d.properties,
        db.get(key, d.id) is Ok ==> db.save(key, d, policy).1->Ok_0.sequence > db.get(
            key,
            d.id,
        )->Ok_0.sequence,
        db.get(key, d.id) is Ok ==> db.save(key, d, policy).1->Ok_0.revision != db.get(
            key,
            d.id,
        )->Ok_0.revision,
        db.save(key, d, policy).0.last_sequence == db.save(key, d, policy).1->Ok_0.sequence,
{
    let record = db.next_record(key, d, false);
    lemma_write(db, key, record);
    let c = db.collection(key);
    lemma_position(db.keys(), key);
    lemma_position(c.ids(), d.id);
    if c.find(d.id) < c.records.len() {
        assert(record_wf(c.records[c.find(d.id)], db.last_sequence, db.clock));
    }
}

/// Two copies of one document are read. The first is saved with
/// `FailOnConflict`: the save succeeds, and the stored revision is a new
/// one. Then a save of the second copy with `FailOnConflict` fails with
/// `Conflict` and changes nothing, and a save of it with `LastWriteWins`
/// succeeds, after which the document is read with the properties of the
/// second copy. This holds as long as the database has sequence numbers
/// and generations left.
pub proof fn lemma_stale_save(db: DatabaseView, key: u64, first: DocumentView, second: DocumentView)
    requires
        db.wf(),
        db.get(key, first.id) is Ok,
        first.id == second.id,
        first.revision == db.get(key, first.id)->Ok_0.revision,
        second.revision == first.revision,
        !db.exhausted(key, first),
        !db.save(key, first, ConcurrencyControl::FailOnConflict).0.exhausted(key, second),
    ensures
        ({
            let after = db.save(key, first, ConcurrencyControl::FailOnConflict).0;
            &&& db.save(key, first, ConcurrencyControl::FailOnConflict).1 is Ok
            &&& after.get(key, first.id) is Ok
            &&& after.get(key, first.id)->Ok_0.revision != first.revision
            &&& after.save(key, second, ConcurrencyControl::FailOnConflict) == (
                after,
                Err::<DocumentView, Error>(engine_error(CouchbaseLiteError::Conflict)),
            )
            &&& after.save(key, second, ConcurrencyControl::LastWriteWins).1 is Ok
            &&& after.save(key, second, ConcurrencyControl::LastWriteWins).0.get(key, second.id)
                is Ok
            &&& after.save(key, second, ConcurrencyControl::LastWriteWins).0.get(
                key,
                second.id,
            )->Ok_0.properties == second.properties
        }),
{
    let after = db.save(key, first, ConcurrencyControl::FailOnConflict).0;
    lemma_stored_record_wf(db, key, first.id);
    lemma_save_advances(db, key, first, ConcurrencyControl::FailOnConflict);
    let record = db.next_record(key, first, false);
    lemma_write(db, key, record);
    assert(after.collection(key).record(second.id) == Some(record));
    let again = after.next_record(key, second, false);
    lemma_write(after, key, again);
}

/// Deleting a document makes it a tombstone: it is read as a deleted
/// document without properties. Purging a document removes it: reading it
/// fails with `NotFound`.
pub proof fn lemma_tombstone_lifecycle(
    db: DatabaseView,
    key: u64,
    d: DocumentView,
    policy: ConcurrencyControl,
)
    requires
        db.wf(),
    ensures
        db.delete(key, d, policy).1 is Ok ==> db.delete(key, d, policy).0.get(key, d.id) is Ok
            && db.delete(key, d, policy).0.get(key, d.id)->Ok_0.deleted
            && db.delete(key, d, policy).0.get(key, d.id)->Ok_0.properties.len() == 0
            && db.delete(key, d, policy).0.collection(key).record(d.id)->Some_0.deleted,
        db.purge(key, d.id).1 is Ok ==> db.purge(key, d.id).0.get(key, d.id) == Err::<
            DocumentView,
            Error,
        >(engine_error(CouchbaseLiteError::NotFound)),
{
    if db.delete(key, d, policy).1 is Ok {
        lemma_write(db, key, db.next_record(key, d, true));
    }
    if db.purge(key, d.id).1 is Ok {
        let c = db.collection(key);
        let at = c.find(d.id);
        let after = db.purge(key, d.id).0;
        lemma_position(db.keys(), key);
        lemma_position(c.ids(), d.id);
        assert(c.record(d.id) is Some);
        assert(0 <= at < c.records.len());
        assert(after.keys() =~= db.keys());
        assert(collection_wf(db.collections[db.find_key(key)], db.last_sequence, db.clock));
        let c2 = after.collection(key);
        assert(c2.records == c.records.remove(at));
        assert(c2.ids() =~= c.ids().remove(at));
        lemma_position_remove(c.ids(), at, d.id);
    }
}

/// A deletion is replicated and a purge is not: after a document was
/// deleted, a push that lets it pass transfers its tombstone; after it was
/// purged, a push transfers nothing of it.
pub proof fn lemma_delete_is_pushed_purge_is_not(
    db: DatabaseView,
    key: u64,
    d: DocumentView,
    policy: ConcurrencyControl,
    checkpoint: u64,
)
    requires
        db.wf(),
        checkpoint <= db.last_sequence,
    ensures
        db.delete(key, d, policy).1 is Ok ==> push_model(
            db.delete(key, d, policy).0,
            key,
            d.id,
            checkpoint,
            true,
        ) == Ok::<Option<RevisionView>, Error>(
            Some(outgoing(db.next_record(key, d, true))),
        ) && db.next_record(key, d, true).deleted,
        db.purge(key, d.id).1 is Ok ==> push_model(
            db.purge(key, d.id).0,
            key,
            d.id,
            checkpoint,
            true,
        ) == Ok::<Option<RevisionView>, Error>(None),
{
    lemma_tombstone_lifecycle(db, key, d, policy);
    if db.delete(key, d, policy).1 is Ok {
        lemma_write(db, key, db.next_record(key, d, true));
    }
    if db.purge(key, d.id).1 is Ok {
        let c = db.collection(key);
        let at = c.find(d.id);
        let after = db.purge(key, d.id).0;
        lemma_position(db.keys(), key);
        lemma_position(c.ids(), d.id);
        assert(after.keys() =~= db.keys());
        assert(collection_wf(db.collections[db.find_key(key)], db.last_sequence, db.clock));
        let c2 = after.collection(key);
        assert(c2.records == c.records.remove(at));
        assert(c2.ids() =~= c.ids().remove(at));
        lemma_position_remove(c.ids(), at, d.id);
    }
}

/// A copy of a database has the invariant of the database that it was
/// copied from.
pub proof fn lemma_copy_wf(db: DatabaseView, name: Seq<char>, directory: Seq<char>)
    requires
        db.wf(),
    ensures
        (DatabaseView {
            collections: db.collections,
            last_sequence: db.last_sequence,
            next_key: db.next_key,
            clock: db.clock,
            ..DatabaseView::empty(name, directory)
        }).wf(),
{
}

/// Creating an index twice with the same name and definition gives the
/// state that creating it once gives, and succeeds both times. Deleting an
/// index that does not exist succeeds and changes nothing.
pub proof fn lemma_index_idempotent(
    db: DatabaseView,
    key: u64,
    name: Seq<char>,
    definition: IndexDefinition,
    other: Seq<char>,
)
    ensures
        db.create_index(key, name, definition).1 is Ok ==> db.create_index(
            key,
            name,
            definition,
        ).0.create_index(key, name, definition) == db.create_index(key, name, definition),
        db.has_key(key) && db.collection(key).find_index(other) >= db.collection(
            key,
        ).indexes.len() ==> db.delete_index(key, other) == (db, Ok::<bool, Error>(true)),
{
    if db.create_index(key, name, definition).1 is Ok {
        let once = db.create_index(key, name, definition).0;
        let c = db.collection(key);
        let at = c.find_index(name);
        lemma_position(db.keys(), key);
        assert(once.keys() =~= db.keys());
        let c1 = once.collection(key);
        lemma_position(c.index_names(), name);
        if at < c.indexes.len() {
            assert(c1.index_names() =~= c.index_names());
        } else {
            assert(c1.index_names() =~= c.index_names().push(name));
            lemma_position_push(c.index_names(), name, name);
        }
        let twice = once.create_index(key, name, definition).0;
        assert(once.has_key(key));
        assert(c1.find_index(name) == at);
        assert(c1.indexes[at] == (crate::model::IndexView { name, definition }));
        assert(twice.keys() =~= once.keys());
        assert(twice.collection(key).indexes =~= c1.indexes);
        assert(twice.collections =~= once.collections);
    }
}

/// A rollback puts back what the outermost transaction found: ending it
/// without commit gives the collections and the sequence numbers of its
/// start. The end of a transaction inside another changes neither.
pub proof fn lemma_rollback(db: DatabaseView, commit: bool)
    requires
        db.wf(),
        db.depth > 0,
    ensures
        db.depth == 1 && !commit ==> db.end(commit).0.collections == db.snapshot->Some_0.collections
            && db.end(commit).0.last_sequence == db.snapshot->Some_0.last_sequence,
        db.depth > 1 ==> db.end(commit).0.collections == db.collections && db.end(
            commit,
        ).0.snapshot == db.snapshot,
        db.depth == 0 ==> db.begin().0.end(false).0 == db,
{
}

/// Pulling a revision a second time changes nothing: once a revision is
/// stored, the same revision is ignored.
pub proof fn lemma_pull_idempotent(db: DatabaseView, key: u64, incoming: RevisionView, auto_purge: bool)
    requires
        db.wf(),
        db.pull(key, incoming, auto_purge).1 == Ok::<PullStep, Error>(PullStep::Inserted)
            || db.pull(key, incoming, auto_purge).1 == Ok::<PullStep, Error>(PullStep::Updated),
    ensures
        db.pull(key, incoming, auto_purge).0.pull(key, incoming, auto_purge) == (
            db.pull(key, incoming, auto_purge).0,
            Ok::<PullStep, Error>(PullStep::Ignored),
        ),
{
    let record = db.pulled_record(key, incoming);
    lemma_write(db, key, record);
}

/// Collections that are well-formed stay so when more sequence numbers
/// and keys are given out.
pub proof fn lemma_wf_grows(
    collections: Seq<CollectionView>,
    last_sequence: u64,
    next_key: u64,
    clock: i64,
    later_sequence: u64,
    later_key: u64,
)
    requires
        collections_wf(collections, last_sequence, next_key, clock),
        last_sequence <= later_sequence,
        next_key <= later_key,
    ensures
        collections_wf(collections, later_sequence, later_key, clock),
{
    assert forall|i: int| 0 <= i < collections.len() implies collection_wf(
        #[trigger] collections[i],
        later_sequence,
        clock,
    ) by {
        let c = collections[i];
        assert(collection_wf(c, last_sequence, clock));
        assert forall|j: int| 0 <= j < c.records.len() implies record_wf(
            #[trigger] c.records[j],
            later_sequence,
            clock,
        ) by {
            assert(record_wf(c.records[j], last_sequence, clock));
        }
    }
}

/// Writing a well-formed record under a sequence number above the last one
/// keeps the invariant.
pub proof fn lemma_write_wf(db: DatabaseView, key: u64, record: RecordView)
    requires
        db.wf(),
        db.has_key(key),
        record.sequence > db.last_sequence,
        record_wf(record, record.sequence, db.clock),
    ensures
        db.write(key, record).wf(),
{
    let after = db.write(key, record);
    let ci = db.find_key(key);
    let c = db.collection(key);
    let at = c.find(record.id);
    lemma_position(db.keys(), key);
    lemma_position(c.ids(), record.id);
    lemma_wf_grows(
        db.collections,
        db.last_sequence,
        db.next_key,
        db.clock,
        record.sequence,
        db.next_key,
    );
    assert(after.collections.map_values(|c: CollectionView| c.key) =~= db.collections.map_values(
        |c: CollectionView| c.key,
    ));
    assert(after.collections.map_values(|c: CollectionView| (c.scope, c.name))
        =~= db.collections.map_values(|c: CollectionView| (c.scope, c.name)));
    let c2 = c.put(record);
    assert(after.collections[ci] == c2);
    assert(collection_wf(c, record.sequence, db.clock));
    assert(c2.index_names() =~= c.index_names());
    if at < c.records.len() {
        assert(c2.ids() =~= c.ids());
    } else {
        assert(c2.ids() =~= c.ids().push(record.id));
        assert forall|i: int, j: int| 0 <= i < j < c2.ids().len() implies c2.ids()[i]
            != c2.ids()[j] by {
            if j == c.ids().len() {
                assert(c.ids()[i] != record.id);
            } else {
                assert(c.ids()[i] != c.ids()[j]);
            }
        }
    }
    assert forall|i: int| 0 <= i < c2.records.len() implies record_wf(
        #[trigger] c2.records[i],
        record.sequence,
        db.clock,
    ) by {
        if i != at {
            assert(record_wf(c.records[i], record.sequence, db.clock));
        }
    }
    assert forall|i: int| 0 <= i < after.collections.len() implies collection_wf(
        #[trigger] after.collections[i],
        after.last_sequence,
        after.clock,
    ) by {
        if i != ci {
            assert(after.collections[i] == db.collections[i]);
        }
    }
}

/// Removing a record keeps a collection well-formed.
pub proof fn lemma_remove_record_wf(db: DatabaseView, key: u64, id: Seq<char>)
    requires
        db.wf(),
        db.has_key(key),
        db.collection(key).record(id) is Some,
    ensures
        db.with_collection(
            key,
            CollectionView {
                records: db.collection(key).records.remove(db.collection(key).find(id)),
                ..db.collection(key)
            },
        ).wf(),
{
    let c = db.collection(key);
    let at = c.find(id);
    let c2 = CollectionView { records: c.records.remove(at), ..c };
    let after = db.with_collection(key, c2);
    let ci = db.find_key(key);
    lemma_position(db.keys(), key);
    lemma_position(c.ids(), id);
    assert(after.collections.map_values(|c: CollectionView| c.key) =~= db.collections.map_values(
        |c: CollectionView| c.key,
    ));
    assert(after.collections.map_values(|c: CollectionView| (c.scope, c.name))
        =~= db.collections.map_values(|c: CollectionView| (c.scope, c.name)));
    assert(collection_wf(c, db.last_sequence, db.clock));
    assert(c2.ids() =~= c.ids().remove(at));
    assert(c2.index_names() =~= c.index_names());
    lemma_position_remove(c.ids(), at, id);
    assert forall|i: int| 0 <= i < c2.records.len() implies record_wf(
        #[trigger] c2.records[i],
        db.last_sequence,
        db.clock,
    ) by {
        let x = if i < at {
            i
        } else {
            i + 1
        };
        assert(record_wf(c.records[x], db.last_sequence, db.clock));
    }
    assert forall|i: int| 0 <= i < after.collections.len() implies collection_wf(
        #[trigger] after.collections[i],
        after.last_sequence,
        after.clock,
    ) by {
        if i != ci {
            assert(after.collections[i] == db.collections[i]);
        }
    }
}

/// Saving, deleting and purging a document keep the invariant.
pub proof fn lemma_documents_keep_wf(
    db: DatabaseView,
    key: u64,
    d: DocumentView,
    policy: ConcurrencyControl,
)
    requires
        db.wf(),
    ensures
        db.save(key, d, policy).0.wf(),
        db.delete(key, d, policy).0.wf(),
        db.purge(key, d.id).0.wf(),
{
    if db.save(key, d, policy).1 is Ok {
        let record = db.next_record(key, d, false);
        lemma_stored_record_wf(db, key, d.id);
        lemma_write_wf(db, key, record);
    }
    if db.delete(key, d, policy).1 is Ok {
        let record = db.next_record(key, d, true);
        lemma_stored_record_wf(db, key, d.id);
        lemma_position(db.collection(key).ids(), d.id);
        assert(record_wf(
            db.collection(key).records[db.collection(key).find(d.id)],
            db.last_sequence,
            db.clock,
        ));
        lemma_write_wf(db, key, record);
    }
    if db.purge(key, d.id).1 is Ok {
        lemma_remove_record_wf(db, key, d.id);
    }
}

/// The record that a well-formed database holds of a document is
/// well-formed.
pub proof fn lemma_stored_record_wf(db: DatabaseView, key: u64, id: Seq<char>)
    requires
        db.wf(),
        db.has_key(key),
    ensures
        match db.collection(key).record(id) {
            Some(r) => record_wf(r, db.last_sequence, db.clock) && r.id == id,
            None => true,
        },
{
    let c = db.collection(key);
    lemma_position(db.keys(), key);
    lemma_position(c.ids(), id);
    assert(collection_wf(db.collections[db.find_key(key)], db.last_sequence, db.clock));
    if c.find(id) < c.records.len() {
        assert(record_wf(c.records[c.find(id)], db.last_sequence, db.clock));
    }
}

/// Taking in a pulled revision and settling a conflict keep the invariant.
pub proof fn lemma_pull_keeps_wf(
    db: DatabaseView,
    key: u64,
    incoming: RevisionView,
    auto_purge: bool,
    choice: ResolutionView,
)
    requires
        db.wf(),
    ensures
        db.pull(key, incoming, auto_purge).0.wf(),
        db.settle(key, incoming, choice).0.wf(),
{
    let d = DocumentView {
        id: incoming.id,
        revision: Some(incoming.revision),
        sequence: 0,
        deleted: false,
        properties: match choice {
            ResolutionView::Merge(p) => p,
            _ => Seq::empty(),
        },
    };
    lemma_documents_keep_wf(db, key, d, ConcurrencyControl::LastWriteWins);
    if db.has_key(key) && incoming.id.len() > 0 && db.last_sequence < u64::MAX {
        lemma_stored_record_wf(db, key, incoming.id);
        lemma_write_wf(db, key, db.pulled_record(key, incoming));
    }
    if db.has_key(key) && db.collection(key).record(incoming.id) is Some {
        lemma_remove_record_wf(db, key, incoming.id);
    }
}

/// Setting the expiration of a document keeps the invariant.
pub proof fn lemma_set_expiration_keeps_wf(db: DatabaseView, key: u64, id: Seq<char>, when: i64)
    requires
        db.wf(),
    ensures
        db.set_expiration(key, id, when).0.wf(),
{
    if db.set_expiration(key, id, when).1 is Ok {
        let c = db.collection(key);
        let at = c.find(id);
        let ci = db.find_key(key);
        lemma_position(db.keys(), key);
        lemma_position(c.ids(), id);
        lemma_stored_record_wf(db, key, id);
        if when != 0 && when <= db.clock {
            lemma_remove_record_wf(db, key, id);
        } else {
            let r = c.records[at];
            let c2 = CollectionView {
                records: c.records.update(at, RecordView { expiration: when, ..r }),
                ..c
            };
            let after = db.with_collection(key, c2);
            assert(after.collections.map_values(|c: CollectionView| c.key)
                =~= db.collections.map_values(|c: CollectionView| c.key));
            assert(after.collections.map_values(|c: CollectionView| (c.scope, c.name))
                =~= db.collections.map_values(|c: CollectionView| (c.scope, c.name)));
            assert(collection_wf(c, db.last_sequence, db.clock));
            assert(c2.ids() =~= c.ids());
            assert(c2.index_names() =~= c.index_names());
            assert forall|i: int| 0 <= i < c2.records.len() implies record_wf(
                #[trigger] c2.records[i],
                db.last_sequence,
                db.clock,
            ) by {
                if i != at {
                    assert(record_wf(c.records[i], db.last_sequence, db.clock));
                }
            }
            assert forall|i: int| 0 <= i < after.collections.len() implies collection_wf(
                #[trigger] after.collections[i],
                after.last_sequence,
                after.clock,
            ) by {
                if i != ci {
                    assert(after.collections[i] == db.collections[i]);
                }
            }
        }
    }
}

/// Among records with distinct IDs, each record is the one that is found
/// under its ID.
pub proof fn lemma_record_found(c: CollectionView, i: int)
    requires
        distinct(c.ids()),
        0 <= i < c.records.len(),
    ensures
        c.record(c.records[i].id) == Some(c.records[i]),
{
    let ids = c.ids();
    assert(ids[i] == c.records[i].id);
    assert forall|j: int| 0 <= j < i implies ids[j] != ids[i] by {}
    lemma_position_is(ids, c.records[i].id, i);
}

/// A document is never dropped before its expiration time, and is gone
/// once that time has come: after the expiration of a document was set to
/// a time ahead, the document is read as before at every time of the clock
/// before that time, and reading it fails with `NotFound` at every time
/// from then on.
pub proof fn lemma_expiration(db: DatabaseView, key: u64, id: Seq<char>, expiry: i64, now: i64)
    requires
        db.wf(),
        expiry > 0,
        expiry > db.clock,
        db.set_expiration(key, id, expiry).1 is Ok,
    ensures
        db.get(key, id) is Ok,
        now < expiry ==> db.set_expiration(key, id, expiry).0.advance_clock(now).get(key, id)
            == db.get(key, id),
        now >= expiry ==> db.set_expiration(key, id, expiry).0.advance_clock(now).get(key, id)
            == Err::<DocumentView, Error>(engine_error(CouchbaseLiteError::NotFound)),
{
    let set = db.set_expiration(key, id, expiry).0;
    let c = db.collection(key);
    let at = c.find(id);
    let ci = db.find_key(key);
    lemma_position(db.keys(), key);
    lemma_position(c.ids(), id);
    lemma_set_expiration_keeps_wf(db, key, id, expiry);
    let r = c.records[at];
    let timed = RecordView { expiration: expiry, ..r };
    assert(set.keys() =~= db.keys());
    let c2 = set.collection(key);
    assert(c2.records == c.records.update(at, timed));
    assert(c2.ids() =~= c.ids());
    assert(collection_wf(set.collections[ci], set.last_sequence, set.clock));
    assert(c2.records[at] == timed);
    lemma_record_found(c2, at);
    assert(timed.document() == r.document());
    if now > set.clock {
        let late = set.advance_clock(now);
        assert(late.keys() =~= set.keys());
        let c3 = late.collection(key);
        assert(c3.records == unexpired(c2.records, now));
        lemma_unexpired(c2.records, now);
        if now < expiry {
            assert(!expired(c2.records[at], now));
            assert(c3.records.contains(timed));
            let k = choose|k: int| 0 <= k < c3.records.len() && c3.records[k] == timed;
            lemma_record_found(c3, k);
        } else {
            lemma_position(c3.ids(), id);
            if c3.find(id) < c3.records.len() {
                let x = c3.records[c3.find(id)];
                assert(c3.ids()[c3.find(id)] == x.id);
                assert(c2.records.contains(x));
                let j = choose|j: int| 0 <= j < c2.records.len() && c2.records[j] == x;
                assert(c2.ids()[j] == id);
                assert(c2.ids()[at] == id);
                if j != at {
                    if j < at {
                        assert(c2.ids()[j] != c2.ids()[at]);
                    } else {
                        assert(c2.ids()[at] != c2.ids()[j]);
                    }
                }
                assert(expired(timed, now));
            }
        }
    }
}

/// What is left of distinct records when the expired ones are dropped: the
/// IDs are still distinct, each record left was there before, none is
/// expired, and every record that is not expired is left.
pub proof fn lemma_unexpired(records: Seq<RecordView>, now: i64)
    requires
        distinct(records.map_values(|r: RecordView| r.id)),
    ensures
        distinct(unexpired(records, now).map_values(|r: RecordView| r.id)),
        forall|i: int|
            0 <= i < unexpired(records, now).len() ==> records.contains(
                #[trigger] unexpired(records, now)[i],
            ) && !expired(unexpired(records, now)[i], now),
        forall|i: int|
            0 <= i < records.len() && !expired(#[trigger] records[i], now) ==> unexpired(
                records,
                now,
            ).contains(records[i]),
    decreases records.len(),
{
    if records.len() > 0 {
        let front = records.drop_last();
        let ids = records.map_values(|r: RecordView| r.id);
        let front_ids = front.map_values(|r: RecordView| r.id);
        assert forall|i: int, j: int| 0 <= i < j < front_ids.len() implies front_ids[i]
            != front_ids[j] by {
            assert(ids[i] != ids[j]);
        }
        lemma_unexpired(front, now);
        let kept = unexpired(front, now);
        let out = unexpired(records, now);
        let out_ids = out.map_values(|r: RecordView| r.id);
        assert forall|i: int| 0 <= i < out.len() implies records.contains(#[trigger] out[i])
            && !expired(out[i], now) by {
            if i < kept.len() {
                assert(front.contains(kept[i]));
                let k = choose|k: int| 0 <= k < front.len() && front[k] == kept[i];
                assert(records[k] == kept[i]);
            } else {
                assert(out[i] == records.last());
                assert(records[records.len() - 1] == out[i]);
            }
        }
        assert forall|i: int, j: int| 0 <= i < j < out_ids.len() implies out_ids[i]
            != out_ids[j] by {
            if j < kept.len() {
                assert(kept.map_values(|r: RecordView| r.id)[i] != kept.map_values(
                    |r: RecordView| r.id,
                )[j]);
            } else {
                assert(front.contains(kept[i]));
                let k = choose|k: int| 0 <= k < front.len() && front[k] == kept[i];
                assert(ids[k] != ids[records.len() - 1]);
            }
        }
        assert forall|i: int| 0 <= i < records.len() && !expired(
            #[trigger] records[i],
            now,
        ) implies out.contains(records[i]) by {
            if i < front.len() {
                assert(front[i] == records[i]);
                assert(kept.contains(front[i]));
                let k = choose|k: int| 0 <= k < kept.len() && kept[k] == front[i];
                assert(out[k] == records[i]);
            } else {
                assert(out[out.len() - 1] == records[i]);
            }
        }
    }
}

/// Collections that are well-formed are so after the expired records were
/// dropped at a later time.
pub proof fn lemma_sweep_wf(
    collections: Seq<CollectionView>,
    last_sequence: u64,
    next_key: u64,
    clock: i64,
    now: i64,
)
    requires
        collections_wf(collections, last_sequence, next_key, clock),
        clock <= now,
    ensures
        collections_wf(sweep(collections, now), last_sequence, next_key, now),
{
    let swept = sweep(collections, now);
    assert(swept.map_values(|c: CollectionView| c.key) =~= collections.map_values(
        |c: CollectionView| c.key,
    ));
    assert(swept.map_values(|c: CollectionView| (c.scope, c.name)) =~= collections.map_values(
        |c: CollectionView| (c.scope, c.name),
    ));
    assert forall|i: int| 0 <= i < swept.len() implies collection_wf(
        #[trigger] swept[i],
        last_sequence,
        now,
    ) by {
        let c = collections[i];
        assert(collection_wf(c, last_sequence, clock));
        lemma_unexpired(c.records, now);
        assert(swept[i].index_names() =~= c.index_names());
        assert forall|j: int| 0 <= j < swept[i].records.len() implies record_wf(
            #[trigger] swept[i].records[j],
            last_sequence,
            now,
        ) by {
            let r = swept[i].records[j];
            assert(c.records.contains(r));
            let k = choose|k: int| 0 <= k < c.records.len() && c.records[k] == r;
            assert(record_wf(c.records[k], last_sequence, clock));
        }
    }
}

/// Moving the clock keeps the invariant.
pub proof fn lemma_advance_clock_keeps_wf(db: DatabaseView, now: i64)
    requires
        db.wf(),
    ensures
        db.advance_clock(now).wf(),
{
    if now > db.clock {
        lemma_sweep_wf(db.collections, db.last_sequence, db.next_key, db.clock, now);
        match db.snapshot {
            Some(s) => {
                lemma_sweep_wf(s.collections, s.last_sequence, s.next_key, db.clock, now);
            },
            None => {},
        }
    }
}

/// Creating and deleting a collection keep the invariant, and the key of a
/// new collection is one that no collection of the database has had.
pub proof fn lemma_collections_keep_wf(db: DatabaseView, scope: Seq<char>, name: Seq<char>)
    requires
        db.wf(),
    ensures
        db.create_collection(scope, name).0.wf(),
        db.delete_collection(scope, name).0.wf(),
        db.create_collection(scope, name).0.next_key >= db.next_key,
        db.delete_collection(scope, name).0.next_key == db.next_key,
{
    let paths = db.paths();
    let at = db.find_path(scope, name);
    lemma_position(paths, (scope, name));
    let created = db.create_collection(scope, name).0;
    if created != db {
        let added = created.collections.last();
        let keys = created.collections.map_values(|c: CollectionView| c.key);
        let new_paths = created.collections.map_values(|c: CollectionView| (c.scope, c.name));
        assert(added.ids() =~= Seq::<Seq<char>>::empty());
        assert(added.index_names() =~= Seq::<Seq<char>>::empty());
        assert forall|i: int, j: int| 0 <= i < j < keys.len() implies keys[i] != keys[j] by {
            if j == db.collections.len() {
                assert(db.collections[i].key < db.next_key);
            } else {
                assert(db.keys()[i] != db.keys()[j]);
            }
        }
        assert forall|i: int, j: int| 0 <= i < j < new_paths.len() implies new_paths[i]
            != new_paths[j] by {
            if j == db.collections.len() {
                assert(paths[i] != (scope, name));
            } else {
                assert(paths[i] != paths[j]);
            }
        }
        assert forall|i: int| 0 <= i < created.collections.len() implies collection_wf(
            #[trigger] created.collections[i],
            created.last_sequence,
            created.clock,
        ) by {
            if i < db.collections.len() {
                assert(created.collections[i] == db.collections[i]);
            }
        }
        assert forall|i: int| 0 <= i < created.collections.len() implies (
        #[trigger] created.collections[i]).key < created.next_key by {
            if i < db.collections.len() {
                assert(db.collections[i].key < db.next_key);
            }
        }
    }
    let deleted = db.delete_collection(scope, name).0;
    if deleted != db {
        assert(paths[0] == (default_name(), default_name()));
        assert(at != 0);
        let keys = db.keys();
        assert(deleted.collections.map_values(|c: CollectionView| c.key) =~= keys.remove(at));
        assert(deleted.collections.map_values(|c: CollectionView| (c.scope, c.name))
            =~= paths.remove(at));
        lemma_position_remove(keys, at, keys[at]);
        lemma_position_remove(paths, at, paths[at]);
        assert forall|i: int| 0 <= i < deleted.collections.len() implies collection_wf(
            #[trigger] deleted.collections[i],
            deleted.last_sequence,
            deleted.clock,
        ) && deleted.collections[i].key < deleted.next_key by {
            let x = if i < at {
                i
            } else {
                i + 1
            };
            assert(deleted.collections[i] == db.collections[x]);
            assert(collection_wf(db.collections[x], db.last_sequence, db.clock));
        }
    }
}

/// Creating and deleting an index keep the invariant.
pub proof fn lemma_indexes_keep_wf(
    db: DatabaseView,
    key: u64,
    name: Seq<char>,
    definition: IndexDefinition,
)
    requires
        db.wf(),
    ensures
        db.create_index(key, name, definition).0.wf(),
        db.delete_index(key, name).0.wf(),
{
    if db.has_key(key) {
        let c = db.collection(key);
        let at = c.find_index(name);
        let ci = db.find_key(key);
        lemma_position(db.keys(), key);
        lemma_position(c.index_names(), name);
        assert(collection_wf(c, db.last_sequence, db.clock));
        let created = db.create_index(key, name, definition).0;
        if created != db {
            let c2 = created.collections[ci];
            assert(created.collections.map_values(|c: CollectionView| c.key)
                =~= db.collections.map_values(|c: CollectionView| c.key));
            assert(created.collections.map_values(|c: CollectionView| (c.scope, c.name))
                =~= db.collections.map_values(|c: CollectionView| (c.scope, c.name)));
            assert(c2.ids() =~= c.ids());
            if at < c.indexes.len() {
                assert(c2.index_names() =~= c.index_names());
            } else {
                assert(c2.index_names() =~= c.index_names().push(name));
                assert forall|i: int, j: int|
                    0 <= i < j < c2.index_names().len() implies c2.index_names()[i]
                    != c2.index_names()[j] by {
                    if j == c.indexes.len() {
                        assert(c.index_names()[i] != name);
                    } else {
                        assert(c.index_names()[i] != c.index_names()[j]);
                    }
                }
            }
            assert forall|i: int| 0 <= i < c2.records.len() implies record_wf(
                #[trigger] c2.records[i],
                db.last_sequence,
                db.clock,
            ) by {
                assert(record_wf(c.records[i], db.last_sequence, db.clock));
            }
            assert forall|i: int| 0 <= i < created.collections.len() implies collection_wf(
                #[trigger] created.collections[i],
                created.last_sequence,
                created.clock,
            ) by {
                if i != ci {
                    assert(created.collections[i] == db.collections[i]);
                }
            }
        }
        let deleted = db.delete_index(key, name).0;
        if deleted != db {
            let c3 = deleted.collections[ci];
            assert(deleted.collections.map_values(|c: CollectionView| c.key)
                =~= db.collections.map_values(|c: CollectionView| c.key));
            assert(deleted.collections.map_values(|c: CollectionView| (c.scope, c.name))
                =~= db.collections.map_values(|c: CollectionView| (c.scope, c.name)));
            assert(c3.ids() =~= c.ids());
            assert(c3.index_names() =~= c.index_names().remove(at));
            lemma_position_remove(c.index_names(), at, name);
            assert forall|i: int| 0 <= i < c3.records.len() implies record_wf(
                #[trigger] c3.records[i],
                db.last_sequence,
                db.clock,
            ) by {
                assert(record_wf(c.records[i], db.last_sequence, db.clock));
            }
            assert forall|i: int| 0 <= i < deleted.collections.len() implies collection_wf(
                #[trigger] deleted.collections[i],
                deleted.last_sequence,
                deleted.clock,
            ) by {
                if i != ci {
                    assert(deleted.collections[i] == db.collections[i]);
                }
            }
        }
    }
}

/// Opening and ending a transaction keep the invariant, and so does what
/// is done with listeners and notifications.
pub proof fn lemma_brackets_keep_wf(
    db: DatabaseView,
    commit: bool,
    key: u64,
    doc_id: Option<Seq<char>>,
    token: u64,
)
    requires
        db.wf(),
    ensures
        db.begin().0.wf(),
        db.end(commit).0.wf(),
        db.add_listener(key, doc_id).0.wf(),
        db.remove_listener(token).wf(),
        db.buffer().wf(),
        db.signal().wf(),
        db.delivered().wf(),
{
}

} // verus!
