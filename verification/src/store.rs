//! Documents in the database: reading, saving, deleting, purging, counting
//! and expiring them.

use crate::database::{
    copy_revisions, engine_failure, views, Change, CollectionData, Database, Record,
};
use crate::document::{ConcurrencyControl, Document, DocumentView, RevisionId, Timestamp};
use crate::error::{CouchbaseLiteError, Error, Result};
use crate::model::{
    changes_for, conflicts, live_count, parent_generation, sweep, unexpired, ChangeView,
    CollectionView, DatabaseView, RecordView,
};
use crate::text::str_equal;
use crate::value::Dict;
use vstd::prelude::*;

verus! {

impl Database {
    /// Queues, for each listener that listens to document `id` of collection
    /// `key`, the news that the document changed.
    pub(crate) fn enqueue(&mut self, key: u64, id: &str)
        ensures
            final(self)@ == old(self)@.notify(key, id@),
    {
        let mut i: usize = 0;
        while i < self.listeners.len()
            invariant
                i <= self.listeners.len(),
                self@ == (DatabaseView {
                    outbox: old(self)@.outbox + changes_for(
                        old(self)@.listeners.take(i as int),
                        key,
                        id@,
                    ),
                    ..old(self)@
                }),
            decreases self.listeners.len() - i,
        {
            let ghost before = old(self)@.listeners.take(i as int);
            let ghost now = old(self)@.listeners.take(i + 1);
            assert(now.drop_last() =~= before);
            assert(now.last() == self.listeners[i as int]@);
            let ghost queued = self@.outbox;
            let listens = self.listeners[i].collection == key && match &self.listeners[i].doc_id {
                Some(d) => str_equal(d.as_str(), id),
                None => true,
            };
            assert(self@.listeners[i as int] == self.listeners[i as int]@);
            if listens {
                let token = self.listeners[i].token;
                self.outbox.push(Change { token, collection: key, doc_id: id.to_owned() });
                assert(changes_for(now, key, id@) == changes_for(before, key, id@).push(
                    ChangeView { token, collection: key, doc_id: id@ },
                ));
                assert(self@.outbox =~= queued.push(
                    ChangeView { token, collection: key, doc_id: id@ },
                ));
                assert(self@.outbox =~= old(self)@.outbox + changes_for(now, key, id@));
            } else {
                assert(changes_for(now, key, id@) == changes_for(before, key, id@));
            }
            i += 1;
        }
        assert(old(self)@.listeners.take(i as int) =~= old(self)@.listeners);
    }

    /// Reads a document from the collection with `key`.
    pub(crate) fn get_in(&self, key: u64, id: &str) -> (res: Result<Document>)
        ensures
            match res {
                Ok(d) => self@.get(key, id@) == Ok::<DocumentView, Error>(d@),
                Err(e) => self@.get(key, id@) == Err::<DocumentView, Error>(e),
            },
    {
        let ci = self.find_key(key);
        if ci >= self.collections.len() {
            return engine_failure(CouchbaseLiteError::NotOpen);
        }
        let ri = self.collections[ci].find(id);
        if ri >= self.collections[ci].records.len() {
            return engine_failure(CouchbaseLiteError::NotFound);
        }
        Ok(self.collections[ci].records[ri].document())
    }

    /// True when a write of `doc` to the collection at index `ci` meets a
    /// revision other than the one that `doc` was read from; with it, the
    /// greater of the generations of the stored revision and of `doc`.
    fn examine(&self, ci: usize, doc: &Document) -> (res: (bool, u64))
        requires
            ci < self.collections.len(),
        ensures
            res.0 == conflicts(self@.collections[ci as int].record(doc@.id), doc@),
            res.1 == parent_generation(self@.collections[ci as int].record(doc@.id), doc@),
    {
        let ri = self.collections[ci].find(doc.id.as_str());
        let doc_generation: u64 = match doc.revision {
            Some(r) => r.generation,
            None => 0,
        };
        if ri < self.collections[ci].records.len() {
            let r = &self.collections[ci].records[ri];
            let conflict = match doc.revision {
                Some(rev) => rev.generation != r.revision.generation || rev.digest
                    != r.revision.digest,
                None => !r.deleted,
            };
            let parent = if r.revision.generation >= doc_generation {
                r.revision.generation
            } else {
                doc_generation
            };
            (conflict, parent)
        } else {
            (false, doc_generation)
        }
    }

    /// Stores a new revision of `doc` in the collection at index `ci`, as a
    /// tombstone where `deleted` is true, and tells the listeners. Returns
    /// the new revision.
    fn commit(&mut self, ci: usize, key: u64, doc: &Document, deleted: bool) -> (res: RevisionId)
        requires
            ci < old(self).collections.len(),
            ci == old(self)@.find_key(key),
            !old(self)@.exhausted(key, doc@),
        ensures
            final(self)@ == old(self)@.write(key, old(self)@.next_record(key, doc@, deleted)),
            res == old(self)@.next_record(key, doc@, deleted).revision,
            res.digest == old(self)@.next_sequence(doc@),
    {
        let ghost model = old(self)@;
        let ghost target = model.next_record(key, doc@, deleted);
        let (_, parent) = self.examine(ci, doc);
        let ri = self.collections[ci].find(doc.id.as_str());
        let found = ri < self.collections[ci].records.len();
        let expiration: i64 = if found {
            self.collections[ci].records[ri].expiration
        } else {
            0
        };
        let history = if found {
            let mut h = copy_revisions(&self.collections[ci].records[ri].history);
            h.push(self.collections[ci].records[ri].revision);
            h
        } else {
            Vec::new()
        };
        let sequence = if self.last_sequence >= doc.sequence {
            self.last_sequence + 1
        } else {
            doc.sequence + 1
        };
        let revision = RevisionId { generation: parent + 1, digest: sequence };
        let properties = if deleted {
            Dict::new()
        } else {
            doc.properties.deep_clone()
        };
        let record = Record {
            id: doc.id.clone(),
            revision,
            history,
            sequence,
            deleted,
            properties,
            expiration,
        };
        assert(record@ == target);
        self.last_sequence = sequence;
        if found {
            self.collections[ci].records[ri] = record;
        } else {
            self.collections[ci].records.push(record);
        }
        proof {
            let written = (DatabaseView { last_sequence: sequence, ..model }).with_collection(
                key,
                model.collection(key).put(target),
            );
            assert((DatabaseView { last_sequence: sequence, ..model }).find_key(key) == ci);
            assert(self@.collections[ci as int].records =~= written.collections[ci as int].records);
            assert(self@.collections[ci as int].indexes =~= written.collections[ci as int].indexes);
            assert(self@.collections =~= written.collections);
            assert(self@ == written);
        }
        self.enqueue(key, doc.id.as_str());
        revision
    }

    /// Saves `doc` to the collection with `key`. On success `doc` has its
    /// new revision and sequence number; on failure it is unchanged.
    pub(crate) fn save_in(&mut self, key: u64, doc: &mut Document, policy: ConcurrencyControl) -> (res:
        Result<()>)
        ensures
            final(self)@ == old(self)@.save(key, old(doc)@, policy).0,
            match res {
                Ok(()) => old(self)@.save(key, old(doc)@, policy).1 == Ok::<DocumentView, Error>(
                    final(doc)@,
                ),
                Err(e) => old(self)@.save(key, old(doc)@, policy).1 == Err::<DocumentView, Error>(
                    e,
                ) && final(doc)@ == old(doc)@,
            },
    {
        let ci = self.find_key(key);
        if ci >= self.collections.len() {
            return engine_failure(CouchbaseLiteError::NotOpen);
        }
        if doc.id.as_str().is_empty() {
            return engine_failure(CouchbaseLiteError::BadDocID);
        }
        let (conflict, parent) = self.examine(ci, doc);
        let fail = match policy {
            ConcurrencyControl::FailOnConflict => true,
            ConcurrencyControl::LastWriteWins => false,
        };
        if conflict && fail {
            return engine_failure(CouchbaseLiteError::Conflict);
        }
        if self.last_sequence == u64::MAX || doc.sequence == u64::MAX || parent == u64::MAX {
            return engine_failure(CouchbaseLiteError::MemoryError);
        }
        let revision = self.commit(ci, key, doc, false);
        doc.revision = Some(revision);
        doc.sequence = revision.digest;
        doc.deleted = false;
        Ok(())
    }

    /// Deletes `doc` from the collection with `key`, leaving a tombstone.
    pub(crate) fn delete_in(&mut self, key: u64, doc: &Document, policy: ConcurrencyControl) -> (res:
        Result<()>)
        ensures
            final(self)@ == old(self)@.delete(key, doc@, policy).0,
            res == old(self)@.delete(key, doc@, policy).1,
    {
        let ci = self.find_key(key);
        if ci >= self.collections.len() {
            return engine_failure(CouchbaseLiteError::NotOpen);
        }
        let ri = self.collections[ci].find(doc.id.as_str());
        if ri >= self.collections[ci].records.len() {
            return engine_failure(CouchbaseLiteError::NotFound);
        }
        let (conflict, parent) = self.examine(ci, doc);
        let fail = match policy {
            ConcurrencyControl::FailOnConflict => true,
            ConcurrencyControl::LastWriteWins => false,
        };
        if conflict && fail {
            return engine_failure(CouchbaseLiteError::Conflict);
        }
        if self.last_sequence == u64::MAX || doc.sequence == u64::MAX || parent == u64::MAX {
            return engine_failure(CouchbaseLiteError::MemoryError);
        }
        self.commit(ci, key, doc, true);
        Ok(())
    }

    /// Purges the document `id` from the collection with `key`.
    pub(crate) fn purge_in(&mut self, key: u64, id: &str) -> (res: Result<()>)
        ensures
            final(self)@ == old(self)@.purge(key, id@).0,
            res == old(self)@.purge(key, id@).1,
    {
        let ci = self.find_key(key);
        if ci >= self.collections.len() {
            return engine_failure(CouchbaseLiteError::NotOpen);
        }
        let ri = self.collections[ci].find(id);
        if ri >= self.collections[ci].records.len() {
            return engine_failure(CouchbaseLiteError::NotFound);
        }
        self.collections[ci].records.remove(ri);
        proof {
            let model = old(self)@;
            let c = model.collection(key);
            let purged = model.with_collection(
                key,
                CollectionView { records: c.records.remove(c.find(id@)), ..c },
            );
            assert(self@.collections[ci as int].records =~= purged.collections[ci as int].records);
            assert(self@.collections =~= purged.collections);
            assert(self@ == purged);
        }
        self.enqueue(key, id);
        Ok(())
    }

    /// The number of documents in the collection with `key`, tombstones not
    /// counted.
    pub(crate) fn count_in(&self, key: u64) -> (res: u64)
        ensures
            res == self@.count(key),
    {
        let ci = self.find_key(key);
        if ci >= self.collections.len() {
            return 0;
        }
        let records = &self.collections[ci].records;
        let mut n: u64 = 0;
        let mut i: usize = 0;
        while i < records.len()
            invariant
                i <= records.len(),
                n <= i,
                n == live_count(views(records@).take(i as int)),
            decreases records.len() - i,
        {
            let ghost before = views(records@).take(i as int);
            let ghost now = views(records@).take(i + 1);
            assert(now.drop_last() =~= before);
            assert(now.last() == records[i as int]@);
            if !records[i].deleted {
                n += 1;
            }
            i += 1;
        }
        assert(views(records@).take(i as int) =~= views(records@));
        n
    }

    /// When the document `id` of the collection with `key` expires.
    pub(crate) fn expiration_in(&self, key: u64, id: &str) -> (res: Result<Option<Timestamp>>)
        ensures
            match res {
                Ok(Some(t)) => self@.expiration(key, id@) == Ok::<Option<i64>, Error>(
                    Some(t.timestamp),
                ),
                Ok(None) => self@.expiration(key, id@) == Ok::<Option<i64>, Error>(None),
                Err(e) => self@.expiration(key, id@) == Err::<Option<i64>, Error>(e),
            },
    {
        let ci = self.find_key(key);
        if ci >= self.collections.len() {
            return engine_failure(CouchbaseLiteError::NotOpen);
        }
        let ri = self.collections[ci].find(id);
        if ri >= self.collections[ci].records.len() {
            return engine_failure(CouchbaseLiteError::NotFound);
        }
        let when = self.collections[ci].records[ri].expiration;
        if when == 0 {
            Ok(None)
        } else {
            Ok(Some(Timestamp::new(when)))
        }
    }

    /// Sets when the document `id` of the collection with `key` expires;
    /// `None` and the time 0 clear it.
    pub(crate) fn set_expiration_in(&mut self, key: u64, id: &str, when: Option<Timestamp>) -> (res:
        Result<()>)
        ensures
            final(self)@ == old(self)@.set_expiration(key, id@, spec_expiration(when)).0,
            res == old(self)@.set_expiration(key, id@, spec_expiration(when)).1,
    {
        let at: i64 = match when {
            Some(t) => t.timestamp,
            None => 0,
        };
        let ci = self.find_key(key);
        if ci >= self.collections.len() {
            return engine_failure(CouchbaseLiteError::NotOpen);
        }
        if at < 0 {
            return engine_failure(CouchbaseLiteError::InvalidParameter);
        }
        let ri = self.collections[ci].find(id);
        if ri >= self.collections[ci].records.len() {
            return engine_failure(CouchbaseLiteError::NotFound);
        }
        let ghost model = old(self)@;
        let ghost c = model.collection(key);
        if at != 0 && at <= self.clock {
            self.collections[ci].records.remove(ri);
            proof {
                let after = model.with_collection(
                    key,
                    CollectionView { records: c.records.remove(c.find(id@)), ..c },
                );
                assert(self@.collections[ci as int].records =~= after.collections[ci
                    as int].records);
                assert(self@.collections =~= after.collections);
            }
        } else {
            self.collections[ci].records[ri].expiration = at;
            proof {
                let r = c.records[c.find(id@)];
                let after = model.with_collection(
                    key,
                    CollectionView {
                        records: c.records.update(c.find(id@), RecordView { expiration: at, ..r }),
                        ..c
                    },
                );
                assert(self@.collections[ci as int].records =~= after.collections[ci
                    as int].records);
                assert(self@.collections =~= after.collections);
            }
        }
        Ok(())
    }

    /// Moves the clock to `now` and drops every document that has expired
    /// by then, also from what a rollback would put back. The clock never
    /// goes back: an earlier `now` changes nothing.
    pub fn advance_clock(&mut self, now: Timestamp)
        ensures
            final(self)@ == old(self)@.advance_clock(now.timestamp),
    {
        let at = now.timestamp;
        if at <= self.clock {
            return ;
        }
        self.clock = at;
        sweep_collections(&mut self.collections, at);
        match self.snapshot.take() {
            Some(mut s) => {
                sweep_collections(&mut s.collections, at);
                self.snapshot = Some(s);
            },
            None => {},
        }
    }
}

/// Drops, from each of the collections, the records that have expired at
/// time `at`.
pub fn sweep_collections(collections: &mut Vec<CollectionData>, at: i64)
    ensures
        views(final(collections)@) == sweep(views(old(collections)@), at),
{
    let ghost given = views(old(collections)@);
    let mut ci: usize = 0;
    while ci < collections.len()
        invariant
            ci <= collections.len(),
            collections.len() == given.len(),
            forall|j: int| 0 <= j < ci ==> (#[trigger] collections[j])@ == sweep(given, at)[j],
            forall|j: int| ci <= j < collections.len() ==> (#[trigger] collections[j])@ == given[j],
        decreases collections.len() - ci,
    {
        let ghost entry = collections@;
        assert(collections[ci as int]@ == given[ci as int]);
        drop_expired(&mut collections[ci].records, at);
        proof {
            assert(collections[ci as int]@ == sweep(given, at)[ci as int]);
            assert forall|j: int| ci < j < collections.len() implies (#[trigger] collections[j])@
                == given[j] by {
                assert(collections[j] == entry[j]);
            }
            assert forall|j: int| 0 <= j < ci implies (#[trigger] collections[j])@ == sweep(
                given,
                at,
            )[j] by {
                assert(collections[j] == entry[j]);
            }
        }
        ci += 1;
    }
    assert(views(collections@) =~= sweep(given, at));
}

/// Drops the records that have expired at time `at`.
pub fn drop_expired(records: &mut Vec<Record>, at: i64)
    ensures
        views(final(records)@) == unexpired(views(old(records)@), at),
{
    let ghost stored = views(old(records)@);
    let total = records.len();
    let mut kept: usize = 0;
    let mut seen: usize = 0;
    while seen < total
        invariant
            total == stored.len(),
            kept <= seen <= total,
            records.len() == kept + (total - seen),
            views(records@) == unexpired(stored.take(seen as int), at) + stored.skip(seen as int),
            unexpired(stored.take(seen as int), at).len() == kept,
        decreases total - seen,
    {
        let ghost before = stored.take(seen as int);
        let ghost next = stored.take(seen + 1);
        assert(next.drop_last() =~= before);
        assert(next.last() == stored[seen as int]);
        let ghost held = views(records@);
        assert(held[kept as int] == stored.skip(seen as int)[0]);
        assert(records[kept as int]@ == held[kept as int]);
        let when = records[kept].expiration;
        if when != 0 && when <= at {
            records.remove(kept);
            assert(unexpired(next, at) == unexpired(before, at));
            let ghost joined = unexpired(next, at) + stored.skip(seen + 1);
            let ghost left = views(records@);
            assert(left =~= held.remove(kept as int));
            assert(left.len() == joined.len());
            assert forall|i: int| 0 <= i < left.len() implies left[i] == joined[i] by {
                if i < kept {
                    assert(left[i] == held[i]);
                    assert(held[i] == unexpired(before, at)[i]);
                } else {
                    assert(left[i] == held[i + 1]);
                    assert(held[i + 1] == stored.skip(seen as int)[i + 1 - kept]);
                    assert(joined[i] == stored.skip(seen + 1)[i - kept]);
                }
            }
            assert(views(records@) =~= joined);
        } else {
            assert(unexpired(next, at) == unexpired(before, at).push(stored[seen as int]));
            let ghost joined = unexpired(next, at) + stored.skip(seen + 1);
            assert(held.len() == joined.len());
            assert forall|i: int| 0 <= i < held.len() implies held[i] == joined[i] by {
                if i < kept {
                    assert(held[i] == unexpired(before, at)[i]);
                } else if i == kept {
                } else {
                    assert(held[i] == stored.skip(seen as int)[i - kept]);
                    assert(joined[i] == stored.skip(seen + 1)[i - kept - 1]);
                }
            }
            assert(views(records@) =~= joined);
            kept += 1;
        }
        seen += 1;
    }
    proof {
        assert(stored.take(seen as int) =~= stored);
        assert(views(records@) =~= unexpired(stored, at));
    }
}

/// The time that stands for an optional expiration: 0 for none.
pub open spec fn spec_expiration(when: Option<Timestamp>) -> i64 {
    match when {
        Some(t) => t.timestamp,
        None => 0,
    }
}

} // verus!
