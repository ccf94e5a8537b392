//! What a replicator does with one document: the flags and events that it
//! reports, the filters and the conflict resolver that it asks, what it
//! does with the answer of the callbacks that encrypt and decrypt, and how
//! a database takes in a revision that was pulled.

use crate::database::{copy_revisions, engine_failure, views, Database, Record};
use crate::document::{ConcurrencyControl, Document, RevisionId};
use crate::error::{
    check_error, spec_check_error, CBLError, CouchbaseLiteError, Error, ErrorCode, Result,
    WEBSOCKET_UNAVAILABLE,
};
use crate::model::{
    engine_error, pending_ids, remote_wins, DatabaseView, PullStep, ResolutionView, RevisionView,
};
use crate::replicator::{copy_text, text_of};
use crate::value::Dict;
use vstd::prelude::*;

verus! {

/// Flag of a replicated document: the document was deleted.
pub const DELETED: u32 = 1;

/// Flag of a replicated document: the replicating user lost access to it.
pub const ACCESS_REMOVED: u32 = 2;

/// What the flags of a replicated document say: whether it was deleted,
/// and whether access to it was removed.
pub fn read_document_flags(flags: u32) -> (res: (bool, bool))
    ensures
        res.0 == (flags & DELETED != 0),
        res.1 == (flags & ACCESS_REMOVED != 0),
{
    (flags & DELETED != 0, flags & ACCESS_REMOVED != 0)
}

/// The flags that say whether a document was deleted and whether access to
/// it was removed.
pub open spec fn spec_document_flags(deleted: bool, access_removed: bool) -> u32 {
    if deleted && access_removed {
        3
    } else if deleted {
        1
    } else if access_removed {
        2
    } else {
        0
    }
}

/// The flags that say whether a document was deleted and whether access to
/// it was removed. Reading them gives the two back.
pub fn document_flags(deleted: bool, access_removed: bool) -> (res: u32)
    ensures
        res == spec_document_flags(deleted, access_removed),
        (res & DELETED != 0) == deleted,
        (res & ACCESS_REMOVED != 0) == access_removed,
{
    assert(3u32 & 1u32 != 0 && 3u32 & 2u32 != 0 && 1u32 & 1u32 != 0 && 1u32 & 2u32 == 0 && 2u32
        & 1u32 == 0 && 2u32 & 2u32 != 0 && 0u32 & 1u32 == 0 && 0u32 & 2u32 == 0) by (bit_vector);
    if deleted && access_removed {
        3
    } else if deleted {
        1
    } else if access_removed {
        2
    } else {
        0
    }
}

/// Direction of document transfer.
#[derive(Clone, Copy, Debug, PartialEq, Eq, Structural)]
pub enum Direction {
    Pulled,
    Pushed,
}

/// Information about a document that's been pushed or pulled.
#[derive(Debug)]
pub struct ReplicatedDocument {
    /// The document ID
    pub id: String,
    /// Indicates whether the document was deleted or removed
    pub flags: u32,
    /// Error, if document failed to replicate
    pub error: Result<()>,
    pub scope: Option<String>,
    pub collection: Option<String>,
}

/// A replicated document as the engine reports it: each string present or
/// absent, and the error in numeric form.
#[derive(Debug)]
pub struct RawReplicatedDocument {
    pub id: Option<String>,
    pub flags: u32,
    pub error: CBLError,
    pub scope: Option<String>,
    pub collection: Option<String>,
}

/// The mathematical value of a [`ReplicatedDocument`].
pub struct ReplicatedDocumentView {
    pub id: Seq<char>,
    pub flags: u32,
    pub error: Result<()>,
    pub scope: Option<Seq<char>>,
    pub collection: Option<Seq<char>>,
}

impl View for ReplicatedDocument {
    type V = ReplicatedDocumentView;

    open spec fn view(&self) -> ReplicatedDocumentView {
        ReplicatedDocumentView {
            id: self.id@,
            flags: self.flags,
            error: self.error,
            scope: text_of(self.scope),
            collection: text_of(self.collection),
        }
    }
}

/// What is told of the documents that the engine reports: each document
/// that has an ID, in order, with its error translated.
pub open spec fn reported(raw: Seq<RawReplicatedDocument>) -> Seq<ReplicatedDocumentView>
    decreases raw.len(),
{
    if raw.len() == 0 {
        Seq::empty()
    } else {
        let before = reported(raw.drop_last());
        let d = raw.last();
        match d.id {
            Some(id) => before.push(
                ReplicatedDocumentView {
                    id: id@,
                    flags: d.flags,
                    error: spec_check_error(d.error),
                    scope: text_of(d.scope),
                    collection: text_of(d.collection),
                },
            ),
            None => before,
        }
    }
}

/// The direction of a transfer that the engine reports as a push or not.
pub fn direction(is_push: bool) -> (res: Direction)
    ensures
        res == if is_push {
            Direction::Pushed
        } else {
            Direction::Pulled
        },
{
    if is_push {
        Direction::Pushed
    } else {
        Direction::Pulled
    }
}

/// Turns the engine's report of replicated documents into what the
/// listeners are told: the direction, and each document that has an ID.
pub fn replicated_documents(is_push: bool, documents: &Vec<RawReplicatedDocument>) -> (res: (
    Direction,
    Vec<ReplicatedDocument>,
))
    ensures
        res.0 == if is_push {
            Direction::Pushed
        } else {
            Direction::Pulled
        },
        views(res.1@) == reported(documents@),
{
    let mut out: Vec<ReplicatedDocument> = Vec::new();
    let mut i: usize = 0;
    while i < documents.len()
        invariant
            i <= documents.len(),
            views(out@) == reported(documents@.take(i as int)),
        decreases documents.len() - i,
    {
        let ghost before = documents@.take(i as int);
        let ghost now = documents@.take(i + 1);
        assert(now.drop_last() =~= before);
        assert(now.last() == documents[i as int]);
        let d = &documents[i];
        match &d.id {
            Some(id) => {
                let doc = ReplicatedDocument {
                    id: id.clone(),
                    flags: d.flags,
                    error: check_error(&d.error),
                    scope: copy_text(&d.scope),
                    collection: copy_text(&d.collection),
                };
                let ghost v = doc@;
                out.push(doc);
                assert(views(out@) =~= reported(before).push(v));
            },
            None => {},
        }
        i += 1;
    }
    assert(documents@.take(i as int) =~= documents@);
    (direction(is_push), out)
}

/// Asks a filter whether a document is to be pushed. Without a filter the
/// answer is no; with one it is the filter's, which is told whether the
/// document was deleted and whether access to it was removed.
pub fn c_replication_push_filter<F: Fn(&Document, bool, bool) -> bool>(
    filter: &Option<F>,
    document: &Document,
    flags: u32,
) -> (res: bool)
    requires
        filter is Some ==> filter->Some_0.requires(
            (document, flags & DELETED != 0, flags & ACCESS_REMOVED != 0),
        ),
    ensures
        match *filter {
            Some(f) => f.ensures(
                (document, flags & DELETED != 0, flags & ACCESS_REMOVED != 0),
                res,
            ),
            None => !res,
        },
{
    let (is_deleted, is_access_removed) = read_document_flags(flags);
    match filter {
        Some(f) => f(document, is_deleted, is_access_removed),
        None => false,
    }
}

/// Asks a filter whether a document is to be pulled. Without a filter the
/// answer is no; with one it is the filter's.
pub fn c_replication_pull_filter<F: Fn(&Document, bool, bool) -> bool>(
    filter: &Option<F>,
    document: &Document,
    flags: u32,
) -> (res: bool)
    requires
        filter is Some ==> filter->Some_0.requires(
            (document, flags & DELETED != 0, flags & ACCESS_REMOVED != 0),
        ),
    ensures
        match *filter {
            Some(f) => f.ensures(
                (document, flags & DELETED != 0, flags & ACCESS_REMOVED != 0),
                res,
            ),
            None => !res,
        },
{
    let (is_deleted, is_access_removed) = read_document_flags(flags);
    match filter {
        Some(f) => f(document, is_deleted, is_access_removed),
        None => false,
    }
}

/// Asks a resolver which document is to stay where the local and the
/// remote revision have diverged. Without a resolver there is no answer;
/// with one the answer is the resolver's: the document to keep, or `None`
/// to delete it.
pub fn c_replication_conflict_resolver<
    F: Fn(&str, Option<Document>, Option<Document>) -> Option<Document>,
>(
    resolver: &Option<F>,
    document_id: &str,
    local_document: Option<Document>,
    remote_document: Option<Document>,
) -> (res: Option<Document>)
    requires
        resolver is Some ==> resolver->Some_0.requires(
            (document_id, local_document, remote_document),
        ),
    ensures
        match *resolver {
            Some(f) => f.ensures((document_id, local_document, remote_document), res),
            None => res is None,
        },
{
    match resolver {
        Some(f) => f(document_id, local_document, remote_document),
        None => None,
    }
}

/// Why a callback could not encrypt or decrypt.
#[derive(Clone, Copy, Debug, PartialEq, Eq, Structural)]
pub enum EncryptionError {
    /// The replicator stops, restarts, and tries the document again.
    Temporary,
    /// The replicator passes the document by until a new revision of it is
    /// created.
    Permanent,
}

/// What a callback that encrypts or decrypts is asked: the document and
/// the property, the bytes to work on, and the algorithm and key
/// identifier. The scope and the collection are absent where the callback
/// is one for the default collection.
#[derive(Debug)]
pub struct EncryptionRequest {
    pub scope: Option<String>,
    pub collection: Option<String>,
    pub document_id: Option<String>,
    pub properties: Dict,
    pub key_path: Option<String>,
    pub input: Vec<u8>,
    pub algorithm: Option<String>,
    pub kid: Option<String>,
}

/// What the engine is given back for a property to encrypt or decrypt: the
/// resulting bytes, or none; and the numeric error to report, or none.
#[derive(Debug)]
pub struct EncryptionReply {
    /// `Some` for a result, which may be empty; `None` for the null result.
    pub result: Option<Vec<u8>>,
    /// `Some` for an error that is to be written back to the engine.
    pub error: Option<CBLError>,
}

/// How far the encryption or decryption of a property came.
pub enum CryptoOutcome {
    /// The engine handed over no bytes to work on.
    NoInput,
    /// There is no callback.
    NoCallback,
    /// The callback has answered.
    Answered(core::result::Result<Vec<u8>, EncryptionError>),
}

/// The error with which the replicator goes on after a callback answered:
/// a temporary failure is a transport error that a retry may mend, a
/// permanent one a crypto error; no input is a crypto error too; and
/// otherwise the error is the one that the engine came with.
pub open spec fn spec_crypto_error(incoming: Option<CBLError>, outcome: CryptoOutcome) -> Error {
    match outcome {
        CryptoOutcome::NoInput => engine_error(CouchbaseLiteError::Crypto),
        CryptoOutcome::Answered(Err(EncryptionError::Temporary)) => Error {
            code: ErrorCode::WebSocket(WEBSOCKET_UNAVAILABLE),
            internal_info: None,
        },
        CryptoOutcome::Answered(Err(EncryptionError::Permanent)) => engine_error(
            CouchbaseLiteError::Crypto,
        ),
        _ => match incoming {
            Some(e) => Error::spec_new(e),
            None => Error::spec_new(CBLError::spec_default()),
        },
    }
}

/// The bytes that the engine is given back: what the callback made, the
/// null result where it failed, and an empty result where it was not asked.
pub open spec fn spec_crypto_result(outcome: CryptoOutcome) -> Option<Seq<u8>> {
    match outcome {
        CryptoOutcome::Answered(Ok(bytes)) => Some(bytes@),
        CryptoOutcome::Answered(Err(_)) => None,
        _ => Some(Seq::empty()),
    }
}

/// Makes the reply to the engine of how far the encryption or decryption
/// of a property came. The error is written back unless it is the one that
/// stands for "no error".
pub fn encryption_reply(incoming: Option<CBLError>, outcome: CryptoOutcome) -> (res:
    EncryptionReply)
    ensures
        crate::replicator::bytes_of(res.result) == spec_crypto_result(outcome),
        res.error == if spec_crypto_error(incoming, outcome) == Error::spec_new(
            CBLError::spec_default(),
        ) {
            None
        } else {
            Some(spec_crypto_error(incoming, outcome).spec_as_cbl_error())
        },
{
    let entry = match incoming {
        Some(e) => Error::new(&e),
        None => Error::default(),
    };
    let (result, error) = match outcome {
        CryptoOutcome::NoInput => (
            Some(Vec::new()),
            Error::cbl_error(CouchbaseLiteError::Crypto),
        ),
        CryptoOutcome::NoCallback => (Some(Vec::new()), entry),
        CryptoOutcome::Answered(Ok(bytes)) => (Some(bytes), entry),
        CryptoOutcome::Answered(Err(EncryptionError::Temporary)) => (
            None,
            Error { code: ErrorCode::WebSocket(WEBSOCKET_UNAVAILABLE), internal_info: None },
        ),
        CryptoOutcome::Answered(Err(EncryptionError::Permanent)) => (
            None,
            Error::cbl_error(CouchbaseLiteError::Crypto),
        ),
    };
    let unset = Error::default();
    let same = error.code == unset.code && match (error.internal_info, unset.internal_info) {
        (Some(a), Some(b)) => a == b,
        (None, None) => true,
        _ => false,
    };
    EncryptionReply {
        result,
        error: if same {
            None
        } else {
            Some(error.as_cbl_error())
        },
    }
}

/// The error that a callback is shown: the one that the engine came with.
pub fn entry_error(incoming: &Option<CBLError>) -> (res: Error)
    ensures
        res == match *incoming {
            Some(e) => Error::spec_new(e),
            None => Error::spec_new(CBLError::spec_default()),
        },
{
    match incoming {
        Some(e) => Error::new(e),
        None => Error::default(),
    }
}

/// Runs a callback that encrypts or decrypts, if there is one and there are
/// bytes to work on, and makes the reply to the engine.
pub fn run_crypto<F: FnOnce(EncryptionRequest, &Error) -> core::result::Result<
    Vec<u8>,
    EncryptionError,
>>(
    callback: Option<F>,
    scope: Option<String>,
    collection: Option<String>,
    document_id: Option<String>,
    properties: Dict,
    key_path: Option<String>,
    input: Option<Vec<u8>>,
    algorithm: Option<String>,
    kid: Option<String>,
    cbl_error: Option<CBLError>,
) -> (res: EncryptionReply)
    requires
        callback is Some ==> forall|request: EncryptionRequest, e: &Error|
            callback->Some_0.requires((request, e)),
    ensures
        exists|outcome: CryptoOutcome|
            {
                &&& #[trigger] crypto_outcome_of(
                    callback,
                    scope,
                    collection,
                    document_id,
                    properties,
                    key_path,
                    input,
                    algorithm,
                    kid,
                    cbl_error,
                    outcome,
                )
                &&& crate::replicator::bytes_of(res.result) == spec_crypto_result(outcome)
                &&& res.error == if spec_crypto_error(cbl_error, outcome) == Error::spec_new(
                    CBLError::spec_default(),
                ) {
                    None
                } else {
                    Some(spec_crypto_error(cbl_error, outcome).spec_as_cbl_error())
                }
            },
{
    let entry = entry_error(&cbl_error);
    let outcome = match input {
        None => CryptoOutcome::NoInput,
        Some(bytes) => match callback {
            None => CryptoOutcome::NoCallback,
            Some(f) => {
                let request = EncryptionRequest {
                    scope,
                    collection,
                    document_id,
                    properties,
                    key_path,
                    input: bytes,
                    algorithm,
                    kid,
                };
                let ghost asked = request;
                let answer = f(request, &entry);
                assert(callback->Some_0.ensures((asked, &entry), answer));
                CryptoOutcome::Answered(answer)
            },
        },
    };
    assert(crypto_outcome_of(
        callback,
        scope,
        collection,
        document_id,
        properties,
        key_path,
        input,
        algorithm,
        kid,
        cbl_error,
        outcome,
    ));
    encryption_reply(cbl_error, outcome)
}

/// True where `outcome` is how far the encryption or decryption came: no
/// input where there were no bytes, no callback where there was none, and
/// otherwise an answer of the callback to the request made of the
/// arguments, shown the error that the engine came with.
pub open spec fn crypto_outcome_of<F: FnOnce(EncryptionRequest, &Error) -> core::result::Result<
    Vec<u8>,
    EncryptionError,
>>(
    callback: Option<F>,
    scope: Option<String>,
    collection: Option<String>,
    document_id: Option<String>,
    properties: Dict,
    key_path: Option<String>,
    input: Option<Vec<u8>>,
    algorithm: Option<String>,
    kid: Option<String>,
    cbl_error: Option<CBLError>,
    outcome: CryptoOutcome,
) -> bool {
    match input {
        None => outcome is NoInput,
        Some(bytes) => match callback {
            None => outcome is NoCallback,
            Some(f) => outcome is Answered && exists|e: &Error|
                *e == (match cbl_error {
                    Some(x) => Error::spec_new(x),
                    None => Error::spec_new(CBLError::spec_default()),
                }) && #[trigger] f.ensures(
                    (
                        EncryptionRequest {
                            scope,
                            collection,
                            document_id,
                            properties,
                            key_path,
                            input: bytes,
                            algorithm,
                            kid,
                        },
                        e,
                    ),
                    outcome->Answered_0,
                ),
        },
    }
}

/// Encrypts a property of a document of the default collection that is
/// pushed: asks the callback, and makes the reply to the engine.
pub fn c_default_collection_property_encryptor<F: FnOnce(
    EncryptionRequest,
    &Error,
) -> core::result::Result<Vec<u8>, EncryptionError>>(
    callback: Option<F>,
    document_id: Option<String>,
    properties: Dict,
    key_path: Option<String>,
    input: Option<Vec<u8>>,
    algorithm: Option<String>,
    kid: Option<String>,
    cbl_error: Option<CBLError>,
) -> (res: EncryptionReply)
    requires
        callback is Some ==> forall|request: EncryptionRequest, e: &Error|
            callback->Some_0.requires((request, e)),
    ensures
        exists|outcome: CryptoOutcome|
            {
                &&& #[trigger] crypto_outcome_of(
                    callback,
                    None,
                    None,
                    document_id,
                    properties,
                    key_path,
                    input,
                    algorithm,
                    kid,
                    cbl_error,
                    outcome,
                )
                &&& crate::replicator::bytes_of(res.result) == spec_crypto_result(outcome)
                &&& res.error == if spec_crypto_error(cbl_error, outcome) == Error::spec_new(
                    CBLError::spec_default(),
                ) {
                    None
                } else {
                    Some(spec_crypto_error(cbl_error, outcome).spec_as_cbl_error())
                }
            },
{
    run_crypto(
        callback,
        None,
        None,
        document_id,
        properties,
        key_path,
        input,
        algorithm,
        kid,
        cbl_error,
    )
}

/// Decrypts a property of a document of the default collection that is
/// pulled: asks the callback, and makes the reply to the engine.
pub fn c_default_collection_property_decryptor<F: FnOnce(
    EncryptionRequest,
    &Error,
) -> core::result::Result<Vec<u8>, EncryptionError>>(
    callback: Option<F>,
    document_id: Option<String>,
    properties: Dict,
    key_path: Option<String>,
    input: Option<Vec<u8>>,
    algorithm: Option<String>,
    kid: Option<String>,
    cbl_error: Option<CBLError>,
) -> (res: EncryptionReply)
    requires
        callback is Some ==> forall|request: EncryptionRequest, e: &Error|
            callback->Some_0.requires((request, e)),
    ensures
        exists|outcome: CryptoOutcome|
            {
                &&& #[trigger] crypto_outcome_of(
                    callback,
                    None,
                    None,
                    document_id,
                    properties,
                    key_path,
                    input,
                    algorithm,
                    kid,
                    cbl_error,
                    outcome,
                )
                &&& crate::replicator::bytes_of(res.result) == spec_crypto_result(outcome)
                &&& res.error == if spec_crypto_error(cbl_error, outcome) == Error::spec_new(
                    CBLError::spec_default(),
                ) {
                    None
                } else {
                    Some(spec_crypto_error(cbl_error, outcome).spec_as_cbl_error())
                }
            },
{
    run_crypto(
        callback,
        None,
        None,
        document_id,
        properties,
        key_path,
        input,
        algorithm,
        kid,
        cbl_error,
    )
}

/// Encrypts a property of a document that is pushed: asks the callback,
/// and makes the reply to the engine.
pub fn c_collection_property_encryptor<F: FnOnce(EncryptionRequest, &Error) -> core::result::Result<
    Vec<u8>,
    EncryptionError,
>>(
    callback: Option<F>,
    scope: Option<String>,
    collection: Option<String>,
    document_id: Option<String>,
    properties: Dict,
    key_path: Option<String>,
    input: Option<Vec<u8>>,
    algorithm: Option<String>,
    kid: Option<String>,
    cbl_error: Option<CBLError>,
) -> (res: EncryptionReply)
    requires
        callback is Some ==> forall|request: EncryptionRequest, e: &Error|
            callback->Some_0.requires((request, e)),
    ensures
        exists|outcome: CryptoOutcome|
            {
                &&& #[trigger] crypto_outcome_of(
                    callback,
                    scope,
                    collection,
                    document_id,
                    properties,
                    key_path,
                    input,
                    algorithm,
                    kid,
                    cbl_error,
                    outcome,
                )
                &&& crate::replicator::bytes_of(res.result) == spec_crypto_result(outcome)
                &&& res.error == if spec_crypto_error(cbl_error, outcome) == Error::spec_new(
                    CBLError::spec_default(),
                ) {
                    None
                } else {
                    Some(spec_crypto_error(cbl_error, outcome).spec_as_cbl_error())
                }
            },
{
    run_crypto(
        callback,
        scope,
        collection,
        document_id,
        properties,
        key_path,
        input,
        algorithm,
        kid,
        cbl_error,
    )
}

/// Decrypts a property of a document that is pulled: asks the callback,
/// and makes the reply to the engine.
pub fn c_collection_property_decryptor<F: FnOnce(EncryptionRequest, &Error) -> core::result::Result<
    Vec<u8>,
    EncryptionError,
>>(
    callback: Option<F>,
    scope: Option<String>,
    collection: Option<String>,
    document_id: Option<String>,
    properties: Dict,
    key_path: Option<String>,
    input: Option<Vec<u8>>,
    algorithm: Option<String>,
    kid: Option<String>,
    cbl_error: Option<CBLError>,
) -> (res: EncryptionReply)
    requires
        callback is Some ==> forall|request: EncryptionRequest, e: &Error|
            callback->Some_0.requires((request, e)),
    ensures
        exists|outcome: CryptoOutcome|
            {
                &&& #[trigger] crypto_outcome_of(
                    callback,
                    scope,
                    collection,
                    document_id,
                    properties,
                    key_path,
                    input,
                    algorithm,
                    kid,
                    cbl_error,
                    outcome,
                )
                &&& crate::replicator::bytes_of(res.result) == spec_crypto_result(outcome)
                &&& res.error == if spec_crypto_error(cbl_error, outcome) == Error::spec_new(
                    CBLError::spec_default(),
                ) {
                    None
                } else {
                    Some(spec_crypto_error(cbl_error, outcome).spec_as_cbl_error())
                }
            },
{
    run_crypto(
        callback,
        scope,
        collection,
        document_id,
        properties,
        key_path,
        input,
        algorithm,
        kid,
        cbl_error,
    )
}

/// A revision of a document as a replicator transfers it.
#[derive(Debug)]
pub struct Revision {
    pub id: String,
    pub revision: RevisionId,
    /// The revisions that led to this one, oldest first.
    pub history: Vec<RevisionId>,
    pub deleted: bool,
    /// True where the revision tells that the replicating user lost access
    /// to the document.
    pub access_removed: bool,
    pub properties: Dict,
}

impl View for Revision {
    type V = RevisionView;

    open spec fn view(&self) -> RevisionView {
        RevisionView {
            id: self.id@,
            revision: self.revision,
            history: self.history@,
            deleted: self.deleted,
            access_removed: self.access_removed,
            properties: self.properties@,
        }
    }
}

/// What is to become of a document whose local and remote revisions have
/// diverged.
#[derive(Debug)]
pub enum Resolution {
    /// The local revision stays.
    KeepLocal,
    /// The remote revision becomes the current one.
    TakeRemote,
    /// A new revision with these properties follows on both.
    Merge(Dict),
    /// A new revision that deletes the document follows on both.
    Delete,
}

impl View for Resolution {
    type V = ResolutionView;

    open spec fn view(&self) -> ResolutionView {
        match self {
            Resolution::KeepLocal => ResolutionView::KeepLocal,
            Resolution::TakeRemote => ResolutionView::TakeRemote,
            Resolution::Merge(p) => ResolutionView::Merge(p@),
            Resolution::Delete => ResolutionView::Delete,
        }
    }
}

/// True when `revisions` holds `revision`.
pub fn has_revision(revisions: &Vec<RevisionId>, revision: RevisionId) -> (res: bool)
    ensures
        res == revisions@.contains(revision),
{
    let mut i: usize = 0;
    while i < revisions.len()
        invariant
            i <= revisions.len(),
            forall|j: int| 0 <= j < i ==> revisions[j] != revision,
        decreases revisions.len() - i,
    {
        if revisions[i].generation == revision.generation && revisions[i].digest
            == revision.digest {
            return true;
        }
        i += 1;
    }
    false
}

/// Which of two revisions that have diverged stays when no resolver
/// decides: the one with the higher generation, and between revisions of
/// one generation the one with the higher digest.
pub fn default_resolution(local: RevisionId, remote: RevisionId) -> (res: Resolution)
    ensures
        res@ == if remote_wins(local, remote) {
            ResolutionView::TakeRemote
        } else {
            ResolutionView::KeepLocal
        },
{
    if remote.generation > local.generation || (remote.generation == local.generation
        && remote.digest > local.digest) {
        Resolution::TakeRemote
    } else {
        Resolution::KeepLocal
    }
}

impl Record {
    /// This record as a revision to transfer.
    pub fn revision(&self) -> (res: Revision)
        ensures
            res@ == (RevisionView {
                id: self@.id,
                revision: self@.revision,
                history: self@.history,
                deleted: self@.deleted,
                access_removed: false,
                properties: self@.properties,
            }),
    {
        Revision {
            id: self.id.clone(),
            revision: self.revision,
            history: copy_revisions(&self.history),
            deleted: self.deleted,
            access_removed: false,
            properties: self.properties.deep_clone(),
        }
    }
}

impl Database {
    /// Stores a pulled revision as the current one of its document.
    fn accept(&mut self, ci: usize, key: u64, incoming: &Revision)
        requires
            ci < old(self).collections.len(),
            ci == old(self)@.find_key(key),
            old(self)@.last_sequence < u64::MAX,
        ensures
            final(self)@ == old(self)@.write(key, old(self)@.pulled_record(key, incoming@)),
    {
        let ghost model = old(self)@;
        let ghost target = model.pulled_record(key, incoming@);
        let ri = self.collections[ci].find(incoming.id.as_str());
        let found = ri < self.collections[ci].records.len();
        let expiration: i64 = if found {
            self.collections[ci].records[ri].expiration
        } else {
            0
        };
        let sequence = self.last_sequence + 1;
        let record = Record {
            id: incoming.id.clone(),
            revision: incoming.revision,
            history: copy_revisions(&incoming.history),
            sequence,
            deleted: incoming.deleted,
            properties: if incoming.deleted {
                Dict::new()
            } else {
                incoming.properties.deep_clone()
            },
            expiration,
        };
        assert(record@ == target);
        self.last_sequence = sequence;
        if found {
            self.collections[ci].records[ri] = record;
        } else {
            self.collections[ci].records.push(record);
        }
        proof {
            let written = (DatabaseView { last_sequence: sequence, ..model }).with_collection(
                key,
                model.collection(key).put(target),
            );
            assert((DatabaseView { last_sequence: sequence, ..model }).find_key(key) == ci);
            assert(self@.collections[ci as int].records =~= written.collections[ci as int].records);
            assert(self@.collections[ci as int].indexes =~= written.collections[ci as int].indexes);
            assert(self@.collections =~= written.collections);
            assert(self@ == written);
        }
        self.enqueue(key, incoming.id.as_str());
    }

    /// Takes in a revision that a replicator pulled for the collection with
    /// `key`. With auto-purge, a revision that tells of lost access purges
    /// the local copy.
    pub fn pull_in(&mut self, key: u64, incoming: &Revision, auto_purge: bool) -> (res: Result<
        PullStep,
    >)
        ensures
            final(self)@ == old(self)@.pull(key, incoming@, auto_purge).0,
            res == old(self)@.pull(key, incoming@, auto_purge).1,
    {
        let ci = self.find_key(key);
        if ci >= self.collections.len() {
            return engine_failure(CouchbaseLiteError::NotOpen);
        }
        if incoming.id.as_str().is_empty() {
            return engine_failure(CouchbaseLiteError::BadDocID);
        }
        let ri = self.collections[ci].find(incoming.id.as_str());
        if ri >= self.collections[ci].records.len() {
            if incoming.access_removed {
                return Ok(PullStep::Ignored);
            }
            if self.last_sequence == u64::MAX {
                return engine_failure(CouchbaseLiteError::MemoryError);
            }
            self.accept(ci, key, incoming);
            return Ok(PullStep::Inserted);
        }
        if incoming.access_removed {
            if auto_purge {
                let purged = self.purge_in(key, incoming.id.as_str());
                return Ok(PullStep::Purged);
            }
            return Ok(PullStep::Ignored);
        }
        let stored = &self.collections[ci].records[ri];
        let same = stored.revision.generation == incoming.revision.generation
            && stored.revision.digest == incoming.revision.digest;
        if same || has_revision(&stored.history, incoming.revision) {
            return Ok(PullStep::Ignored);
        }
        if !has_revision(&incoming.history, stored.revision) {
            return Ok(PullStep::Conflict);
        }
        if self.last_sequence == u64::MAX {
            return engine_failure(CouchbaseLiteError::MemoryError);
        }
        self.accept(ci, key, incoming);
        Ok(PullStep::Updated)
    }

    /// Settles a conflict between the stored revision and a pulled one as
    /// `choice` says.
    pub fn settle_in(&mut self, key: u64, incoming: &Revision, choice: Resolution) -> (res: Result<
        (),
    >)
        ensures
            final(self)@ == old(self)@.settle(key, incoming@, choice@).0,
            res == old(self)@.settle(key, incoming@, choice@).1,
    {
        match choice {
            Resolution::KeepLocal => {
                if self.find_key(key) >= self.collections.len() {
                    return engine_failure(CouchbaseLiteError::NotOpen);
                }
                Ok(())
            },
            Resolution::TakeRemote => {
                let ci = self.find_key(key);
                if ci >= self.collections.len() {
                    return engine_failure(CouchbaseLiteError::NotOpen);
                }
                if incoming.id.as_str().is_empty() {
                    return engine_failure(CouchbaseLiteError::BadDocID);
                }
                if self.last_sequence == u64::MAX {
                    return engine_failure(CouchbaseLiteError::MemoryError);
                }
                self.accept(ci, key, incoming);
                Ok(())
            },
            Resolution::Merge(properties) => {
                let mut doc = Document {
                    id: incoming.id.clone(),
                    revision: Some(incoming.revision),
                    sequence: 0,
                    deleted: false,
                    properties,
                };
                let ghost given = doc@;
                let saved = self.save_in(key, &mut doc, ConcurrencyControl::LastWriteWins);
                assert(old(self)@.settle(key, incoming@, choice@).0 == old(self)@.save(
                    key,
                    given,
                    ConcurrencyControl::LastWriteWins,
                ).0);
                match saved {
                    Ok(()) => Ok(()),
                    Err(e) => Err(e),
                }
            },
            Resolution::Delete => {
                let doc = Document {
                    id: incoming.id.clone(),
                    revision: Some(incoming.revision),
                    sequence: 0,
                    deleted: false,
                    properties: Dict::new(),
                };
                self.delete_in(key, &doc, ConcurrencyControl::LastWriteWins)
            },
        }
    }

    /// The IDs of the documents of the collection with `key` that changed
    /// after sequence number `checkpoint`: those that a push has yet to
    /// transfer.
    pub fn pending_in(&self, key: u64, checkpoint: u64) -> (res: Result<Vec<String>>)
        ensures
            match res {
                Ok(ids) => self@.has_key(key) && views(ids@) == pending_ids(
                    self@.collection(key).records,
                    checkpoint,
                ),
                Err(e) => !self@.has_key(key) && e == engine_error(CouchbaseLiteError::NotOpen),
            },
    {
        let ci = self.find_key(key);
        if ci >= self.collections.len() {
            return engine_failure(CouchbaseLiteError::NotOpen);
        }
        let records = &self.collections[ci].records;
        let mut out: Vec<String> = Vec::new();
        let mut i: usize = 0;
        while i < records.len()
            invariant
                i <= records.len(),
                views(out@) == pending_ids(views(records@).take(i as int), checkpoint),
            decreases records.len() - i,
        {
            let ghost before = views(records@).take(i as int);
            let ghost now = views(records@).take(i + 1);
            assert(now.drop_last() =~= before);
            assert(now.last() == records[i as int]@);
            if records[i].sequence > checkpoint {
                out.push(records[i].id.clone());
                assert(views(out@) =~= pending_ids(before, checkpoint).push(records[i as int]@.id));
            }
            i += 1;
        }
        assert(views(records@).take(i as int) =~= views(records@));
        Ok(out)
    }

    /// Whether the document `id` of the collection with `key` changed
    /// after sequence number `checkpoint`.
    pub fn is_pending_in(&self, key: u64, id: &str, checkpoint: u64) -> (res: Result<bool>)
        ensures
            match res {
                Ok(b) => self@.has_key(key) && b == match self@.collection(key).record(id@) {
                    Some(r) => r.sequence > checkpoint,
                    None => false,
                },
                Err(e) => !self@.has_key(key) && e == engine_error(CouchbaseLiteError::NotOpen),
            },
    {
        let ci = self.find_key(key);
        if ci >= self.collections.len() {
            return engine_failure(CouchbaseLiteError::NotOpen);
        }
        let ri = self.collections[ci].find(id);
        if ri >= self.collections[ci].records.len() {
            return Ok(false);
        }
        Ok(self.collections[ci].records[ri].sequence > checkpoint)
    }
}

} // verus!
