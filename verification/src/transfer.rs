//! Transferring one document. Pulling: the filter is asked, the database
//! takes the revision in, and a conflict is resolved. Pushing: the filter
//! is asked whether a changed document leaves.

use crate::collection::Collection;
use crate::database::Database;
use crate::document::{Document, DocumentView};
use crate::error::{CouchbaseLiteError, Error, Result};
use crate::model::{
    engine_error, remote_wins, DatabaseView, PullStep, RecordView, ResolutionView, RevisionView,
};
use crate::replication::{
    c_replication_conflict_resolver, c_replication_pull_filter, default_resolution, document_flags,
    spec_document_flags, ReplicatedDocument, Resolution, Revision,
};
use vstd::prelude::*;

verus! {

/// The document that a filter or a resolver is shown for a revision.
pub open spec fn shown(r: RevisionView) -> DocumentView {
    DocumentView {
        id: r.id,
        revision: Some(r.revision),
        sequence: 0,
        deleted: r.deleted,
        properties: if r.deleted {
            Seq::empty()
        } else {
            r.properties
        },
    }
}

/// What a resolver's answer means for a conflict between the stored record
/// `local` and the pulled revision `remote`: no document deletes; the
/// local or the remote document, unchanged, keeps that one; any other
/// document is a merge.
pub open spec fn classify(answer: Option<DocumentView>, local: RecordView, remote: RevisionView) -> ResolutionView {
    match answer {
        None => ResolutionView::Delete,
        Some(d) => if d.revision == Some(local.revision) && d.properties == local.properties {
            ResolutionView::KeepLocal
        } else if d.revision == Some(remote.revision) && d.properties == shown(remote).properties {
            ResolutionView::TakeRemote
        } else {
            ResolutionView::Merge(d.properties)
        },
    }
}

/// The database after a document was pulled, and the error that is
/// reported for the document, if any.
///
/// A document that the filter rejects is passed by without error. A
/// conflict is settled as the resolver's answer says or, without a
/// resolver, in favour of the higher generation.
pub open spec fn pull_document_model(
    db: DatabaseView,
    key: u64,
    incoming: RevisionView,
    auto_purge: bool,
    pass: bool,
    resolver: bool,
    answer: Option<DocumentView>,
) -> (DatabaseView, Result<()>) {
    if !pass {
        (db, Ok(()))
    } else {
        let pulled = db.pull(key, incoming, auto_purge);
        match pulled.1 {
            Err(e) => (pulled.0, Err(e)),
            Ok(PullStep::Conflict) => {
                let local = db.collection(key).record(incoming.id)->Some_0;
                let choice = if resolver {
                    classify(answer, local, incoming)
                } else if remote_wins(local.revision, incoming.revision) {
                    ResolutionView::TakeRemote
                } else {
                    ResolutionView::KeepLocal
                };
                pulled.0.settle(key, incoming, choice)
            },
            Ok(_) => (pulled.0, Ok(())),
        }
    }
}

/// True when `pass` is what the filter says of the revision: yes without a
/// filter, and the filter's answer with one.
pub open spec fn filter_says<L: Fn(&Document, bool, bool) -> bool>(
    filter: Option<L>,
    incoming: RevisionView,
    pass: bool,
) -> bool {
    match filter {
        None => pass,
        Some(f) => exists|d: Document|
            d@ == shown(incoming) && #[trigger] f.ensures(
                (&d, incoming.deleted, incoming.access_removed),
                pass,
            ),
    }
}

/// True when `answer` is what the resolver says of a conflict between the
/// stored document and the revision: the resolver is shown the ID, the
/// local document and the remote one, each absent where it is deleted.
pub open spec fn resolver_says<R: Fn(&str, Option<Document>, Option<Document>) -> Option<Document>>(
    resolver: Option<R>,
    local: RecordView,
    incoming: RevisionView,
    answer: Option<Document>,
) -> bool {
    match resolver {
        None => true,
        Some(f) => exists|id: &str, mine: Option<Document>, theirs: Option<Document>|
            {
                &&& id@ == incoming.id
                &&& crate::collection::spec_view_of(mine) == (if local.deleted {
                    None
                } else {
                    Some(local.document())
                })
                &&& crate::collection::spec_view_of(theirs) == (if incoming.deleted {
                    None
                } else {
                    Some(shown(incoming))
                })
                &&& #[trigger] f.ensures((id, mine, theirs), answer)
            },
    }
}

/// True when a pull of `incoming` has made `after` of the database
/// `before` and reported `error`, where the filter said `pass` and the
/// resolver, if it was asked, answered `answer`.
pub open spec fn pulled_as<
    L: Fn(&Document, bool, bool) -> bool,
    R: Fn(&str, Option<Document>, Option<Document>) -> Option<Document>,
>(
    filter: Option<L>,
    resolver: Option<R>,
    before: DatabaseView,
    key: u64,
    incoming: RevisionView,
    auto_purge: bool,
    pass: bool,
    answer: Option<Document>,
    after: DatabaseView,
    error: Result<()>,
) -> bool {
    &&& filter_says(filter, incoming, pass)
    &&& (pass && before.pull(key, incoming, auto_purge).1 == Ok::<PullStep, Error>(
        PullStep::Conflict,
    )) ==> resolver_says(
        resolver,
        before.collection(key).record(incoming.id)->Some_0,
        incoming,
        answer,
    )
    &&& (after, error) == pull_document_model(
        before,
        key,
        incoming,
        auto_purge,
        pass,
        resolver is Some,
        crate::collection::spec_view_of(answer),
    )
}

impl Revision {
    /// The document that a filter or a resolver is shown for this revision.
    pub fn document(&self) -> (res: Document)
        ensures
            res@ == shown(self@),
    {
        Document {
            id: self.id.clone(),
            revision: Some(self.revision),
            sequence: 0,
            deleted: self.deleted,
            properties: if self.deleted {
                crate::value::Dict::new()
            } else {
                self.properties.deep_clone()
            },
        }
    }
}

/// Pulls one document into a collection and reports what came of it. The
/// pull filter, if there is one, decides whether the document is pulled at
/// all. A revision that has diverged from the stored one is settled by the
/// conflict resolver or, without one, in favour of the higher generation.
pub fn pull_document<
    L: Fn(&Document, bool, bool) -> bool,
    R: Fn(&str, Option<Document>, Option<Document>) -> Option<Document>,
>(
    db: &mut Database,
    collection: &Collection,
    incoming: &Revision,
    auto_purge: bool,
    pull_filter: &Option<L>,
    conflict_resolver: &Option<R>,
) -> (res: ReplicatedDocument)
    requires
        pull_filter is Some ==> forall|d: &Document, a: bool, b: bool|
            pull_filter->Some_0.requires((d, a, b)),
        conflict_resolver is Some ==> forall|
            id: &str,
            mine: Option<Document>,
            theirs: Option<Document>,
        | conflict_resolver->Some_0.requires((id, mine, theirs)),
    ensures
        res@.id == incoming@.id,
        res.flags == spec_document_flags(incoming.deleted, incoming.access_removed),
        res@.scope == Some(collection.scope@),
        res@.collection == Some(collection.name@),
        exists|pass: bool, answer: Option<Document>| #[trigger]
            pulled_as(
                *pull_filter,
                *conflict_resolver,
                old(db)@,
                collection.key,
                incoming@,
                auto_purge,
                pass,
                answer,
                final(db)@,
                res.error,
            ),
{
    let flags = document_flags(incoming.deleted, incoming.access_removed);
    let candidate = incoming.document();
    let pass = match pull_filter {
        None => true,
        Some(_) => c_replication_pull_filter(pull_filter, &candidate, flags),
    };
    assert(filter_says(*pull_filter, incoming@, pass)) by {
        if pull_filter is Some {
            assert(pull_filter->Some_0.ensures(
                (&candidate, incoming.deleted, incoming.access_removed),
                pass,
            ));
        }
    }
    let mut answered: Option<Document> = None;
    let ghost mut answer: Option<Document> = None;
    let error: Result<()> = if !pass {
        Ok(())
    } else {
        let ghost before = db@;
        let ci = db.find_key(collection.key);
        let ri = if ci < db.collections.len() {
            db.collections[ci].find(incoming.id.as_str())
        } else {
            0
        };
        match db.pull_in(collection.key, incoming, auto_purge) {
            Err(e) => Err(e),
            Ok(PullStep::Conflict) => {
                assert(db@ == before);
                assert(ci < db.collections.len());
                assert(ri < db.collections[ci as int].records.len());
                let stored = &db.collections[ci].records[ri];
                let ghost local = stored@;
                let local_revision = stored.revision;
                let choice = match conflict_resolver {
                    None => default_resolution(local_revision, incoming.revision),
                    Some(_) => {
                        let mine = if stored.deleted {
                            None
                        } else {
                            Some(stored.document())
                        };
                        let theirs = if incoming.deleted {
                            None
                        } else {
                            Some(incoming.document())
                        };
                        let ghost shown_mine = mine;
                        let ghost shown_theirs = theirs;
                        let id = incoming.id.as_str();
                        let kept = c_replication_conflict_resolver(
                            conflict_resolver,
                            id,
                            mine,
                            theirs,
                        );
                        proof {
                            answer = kept;
                            assert(conflict_resolver->Some_0.ensures(
                                (id, shown_mine, shown_theirs),
                                kept,
                            ));
                            assert(resolver_says(*conflict_resolver, local, incoming@, answer));
                        }
                        match kept {
                            None => Resolution::Delete,
                            Some(d) => {
                                let is_local = match d.revision {
                                    Some(r) => r.generation == stored.revision.generation
                                        && r.digest == stored.revision.digest,
                                    None => false,
                                } && d.properties.equals(&stored.properties);
                                let is_remote = match d.revision {
                                    Some(r) => r.generation == incoming.revision.generation
                                        && r.digest == incoming.revision.digest,
                                    None => false,
                                } && d.properties.equals(&candidate.properties);
                                if is_local {
                                    Resolution::KeepLocal
                                } else if is_remote {
                                    Resolution::TakeRemote
                                } else {
                                    Resolution::Merge(d.properties)
                                }
                            },
                        }
                    },
                };
                db.settle_in(collection.key, incoming, choice)
            },
            Ok(_) => Ok(()),
        }
    };
    let report = ReplicatedDocument {
        id: incoming.id.clone(),
        flags,
        error,
        scope: Some(collection.scope.clone()),
        collection: Some(collection.name.clone()),
    };
    assert(pulled_as(
        *pull_filter,
        *conflict_resolver,
        old(db)@,
        collection.key,
        incoming@,
        auto_purge,
        pass,
        answer,
        db@,
        report.error,
    ));
    report
}

/// The revision that a push transfers of a stored record.
pub open spec fn outgoing(r: RecordView) -> RevisionView {
    RevisionView {
        id: r.id,
        revision: r.revision,
        history: r.history,
        deleted: r.deleted,
        access_removed: false,
        properties: r.properties,
    }
}

/// What a push of the document `id` transfers: the stored revision, a
/// tombstone too, where it changed after sequence number `checkpoint` and
/// the filter lets it pass; nothing otherwise. A purged document is not
/// stored, so a purge is never pushed.
pub open spec fn push_model(
    db: DatabaseView,
    key: u64,
    id: Seq<char>,
    checkpoint: u64,
    pass: bool,
) -> Result<Option<RevisionView>> {
    if !db.has_key(key) {
        Err(engine_error(CouchbaseLiteError::NotOpen))
    } else {
        match db.collection(key).record(id) {
            Some(r) => if r.sequence > checkpoint && pass {
                Ok(Some(outgoing(r)))
            } else {
                Ok(None)
            },
            None => Ok(None),
        }
    }
}

/// The mathematical value of what a push transfers.
pub open spec fn pushed_view(res: Result<Option<Revision>>) -> Result<Option<RevisionView>> {
    match res {
        Ok(Some(r)) => Ok(Some(r@)),
        Ok(None) => Ok(None),
        Err(e) => Err(e),
    }
}

/// True when a push of document `id` has given `res`, where the filter,
/// if it was asked, said `pass`.
pub open spec fn pushed_as<P: Fn(&Document, bool, bool) -> bool>(
    filter: Option<P>,
    db: DatabaseView,
    key: u64,
    id: Seq<char>,
    checkpoint: u64,
    pass: bool,
    res: Result<Option<RevisionView>>,
) -> bool {
    &&& res == push_model(db, key, id, checkpoint, pass)
    &&& (db.has_key(key) && db.collection(key).record(id) is Some && db.collection(key).record(
        id,
    )->Some_0.sequence > checkpoint) ==> filter_says(
        filter,
        outgoing(db.collection(key).record(id)->Some_0),
        pass,
    )
}

/// Decides what a push transfers of one document: the stored revision
/// where the document changed after sequence number `checkpoint` and the
/// push filter, if there is one, lets it pass.
pub fn push_document<P: Fn(&Document, bool, bool) -> bool>(
    db: &Database,
    collection: &Collection,
    id: &str,
    checkpoint: u64,
    push_filter: &Option<P>,
) -> (res: Result<Option<Revision>>)
    requires
        push_filter is Some ==> forall|d: &Document, a: bool, b: bool|
            push_filter->Some_0.requires((d, a, b)),
    ensures
        exists|pass: bool| #[trigger]
            pushed_as(*push_filter, db@, collection.key, id@, checkpoint, pass, pushed_view(res)),
{
    let ci = db.find_key(collection.key);
    if ci >= db.collections.len() {
        assert(pushed_as(
            *push_filter,
            db@,
            collection.key,
            id@,
            checkpoint,
            true,
            pushed_view(Err::<Option<Revision>, Error>(engine_error(CouchbaseLiteError::NotOpen))),
        ));
        return Err(Error::cbl_error(CouchbaseLiteError::NotOpen));
    }
    let ri = db.collections[ci].find(id);
    if ri >= db.collections[ci].records.len() || db.collections[ci].records[ri].sequence
        <= checkpoint {
        assert(pushed_as(
            *push_filter,
            db@,
            collection.key,
            id@,
            checkpoint,
            true,
            pushed_view(Ok::<Option<Revision>, Error>(None)),
        ));
        return Ok(None);
    }
    let revision = db.collections[ci].records[ri].revision();
    let candidate = revision.document();
    let flags = document_flags(revision.deleted, false);
    let pass = match push_filter {
        None => true,
        Some(_) => crate::replication::c_replication_push_filter(push_filter, &candidate, flags),
    };
    assert(filter_says(*push_filter, revision@, pass)) by {
        if push_filter is Some {
            assert(push_filter->Some_0.ensures((&candidate, revision.deleted, false), pass));
        }
    }
    let res = if pass {
        Ok(Some(revision))
    } else {
        Ok(None)
    };
    assert(pushed_as(
        *push_filter,
        db@,
        collection.key,
        id@,
        checkpoint,
        pass,
        pushed_view(res),
    ));
    res
}

} // verus!
