use couchbase_lite::collection::Collection;
use couchbase_lite::database::Database;
use couchbase_lite::document::{Document, RevisionId};
use couchbase_lite::error::{CBLError, CouchbaseLiteError, Error, ErrorCode, NetworkError};
use couchbase_lite::model::PullStep;
use couchbase_lite::transfer::pull_document;
use couchbase_lite::replication::{
    c_collection_property_decryptor, c_collection_property_encryptor,
    c_default_collection_property_decryptor, c_default_collection_property_encryptor,
    c_replication_conflict_resolver, c_replication_pull_filter, c_replication_push_filter,
    default_resolution, document_flags, encryption_reply, read_document_flags,
    replicated_documents, CryptoOutcome, Direction, EncryptionError, EncryptionRequest,
    RawReplicatedDocument, Resolution, Revision, ACCESS_REMOVED, DELETED,
};
use couchbase_lite::replicator::{
    Authenticator, Endpoint, Header, ProxySettings, ProxyType, ReplicationCollection,
    ReplicationConfigurationContext, ReplicatorActivityLevel, ReplicatorConfiguration,
    ReplicatorStatus, ReplicatorType,
};
use couchbase_lite::sync::{
    effective_heartbeat, retry_delay, stop_confirmed, stop_must_wait, stop_timeout, Replicator,
    ReplicatorAction, ReplicatorEvent, ReplicatorState, RetryPolicy,
};
use couchbase_lite::value::{Dict, Value};

type Filter = fn(&Document, bool, bool) -> bool;
type Resolver = fn(&str, Option<Document>, Option<Document>) -> Option<Document>;
type Cryptor = fn(EncryptionRequest, &Error) -> Result<Vec<u8>, EncryptionError>;
type Context =
    ReplicationConfigurationContext<Filter, Filter, Resolver, Cryptor, Cryptor, Cryptor, Cryptor>;
type Config = ReplicatorConfiguration<Filter, Filter, Resolver>;

fn config() -> Config {
    ReplicatorConfiguration {
        database: Some("db".to_string()),
        endpoint: Endpoint::new_with_url("ws://localhost:4984/db", &no_error()).unwrap(),
        replicator_type: ReplicatorType::PushAndPull,
        continuous: true,
        disable_auto_purge: false,
        max_attempts: 3,
        max_attempt_wait_time: 0,
        heartbeat: 0,
        authenticator: None,
        proxy: None,
        headers: Vec::new(),
        pinned_server_certificate: None,
        trusted_root_certificates: None,
        channels: Vec::new(),
        document_ids: Vec::new(),
        collections: None,
        accept_parent_domain_cookies: false,
        accept_only_self_signed_server_certificate: false,
    }
}

fn no_error() -> CBLError {
    CBLError { domain: 0, code: 0, internal_info: 0 }
}

fn revision(id: &str, generation: u64, digest: u64, value: i64) -> Revision {
    let mut properties = Dict::new();
    properties.set("n".to_string(), Value::Int(value));
    Revision {
        id: id.to_string(),
        revision: RevisionId { generation, digest },
        history: Vec::new(),
        deleted: false,
        access_removed: false,
        properties,
    }
}

fn open() -> (Database, Collection) {
    let db = Database::open("local", None).unwrap();
    let c = db.default_collection().unwrap().unwrap();
    (db, c)
}

#[test]
fn replication_flags() {
    assert_eq!(DELETED, 1);
    assert_eq!(ACCESS_REMOVED, 2);
    assert_eq!(read_document_flags(0), (false, false));
    assert_eq!(read_document_flags(1), (true, false));
    assert_eq!(read_document_flags(2), (false, true));
    assert_eq!(read_document_flags(3), (true, true));
    assert_eq!(read_document_flags(4), (false, false));
    assert_eq!(read_document_flags(0xffff_fffd), (true, false));
    assert_eq!(document_flags(false, false), 0);
    assert_eq!(document_flags(true, false), 1);
    assert_eq!(document_flags(false, true), 2);
    assert_eq!(document_flags(true, true), 3);
}

#[test]
fn replication_access_removed_scenario() {
    let (mut db, c) = open();
    let none_filter: Option<Filter> = None;
    let none_resolver: Option<Resolver> = None;
    // A document in a channel that the user can access replicates with flags 0.
    let created = revision("doc", 1, 10, 1);
    let report = pull_document(&mut db, &c, &created, true, &none_filter, &none_resolver);
    assert_eq!(report.flags, 0);
    assert_eq!(report.error, Ok(()));
    assert_eq!(report.id, "doc");
    assert_eq!(report.scope, Some("_default".to_string()));
    assert_eq!(report.collection, Some("_default".to_string()));
    assert!(c.get_document(&db, "doc").is_ok());
    // Moved out of all accessible channels, with auto-purge: purged, flag set.
    let mut removed = revision("doc", 2, 11, 1);
    removed.access_removed = true;
    let report = pull_document(&mut db, &c, &removed, true, &none_filter, &none_resolver);
    assert_eq!(report.flags, ACCESS_REMOVED);
    assert_eq!(report.error, Ok(()));
    assert_eq!(
        c.get_document(&db, "doc").unwrap_err().code,
        ErrorCode::CouchbaseLite(CouchbaseLiteError::NotFound)
    );
    // Without auto-purge the document stays, and the flag is still reported.
    pull_document(&mut db, &c, &created, false, &none_filter, &none_resolver);
    let report = pull_document(&mut db, &c, &removed, false, &none_filter, &none_resolver);
    assert_eq!(report.flags, ACCESS_REMOVED);
    assert!(c.get_document(&db, "doc").is_ok());
}

#[test]
fn pull_steps() {
    let (mut db, c) = open();
    let first = revision("doc", 1, 10, 1);
    assert_eq!(db.pull_in(c.key, &first, true), Ok(PullStep::Inserted));
    assert_eq!(db.last_sequence(), 1);
    // The same revision again changes nothing.
    assert_eq!(db.pull_in(c.key, &first, true), Ok(PullStep::Ignored));
    assert_eq!(db.last_sequence(), 1);
    // A revision that descends from the stored one replaces it.
    let mut second = revision("doc", 2, 20, 2);
    second.history = vec![first.revision];
    assert_eq!(db.pull_in(c.key, &second, true), Ok(PullStep::Updated));
    let doc = c.get_document(&db, "doc").unwrap();
    assert_eq!(doc.revision_id(), Some(second.revision));
    assert_eq!(doc.sequence(), 2);
    assert_eq!(doc.properties().get("n").unwrap().as_i64_or_0(), 2);
    // An ancestor of the stored revision is ignored.
    assert_eq!(db.pull_in(c.key, &first, true), Ok(PullStep::Ignored));
    // A revision that has diverged is a conflict, and nothing changes.
    let diverged = revision("doc", 2, 21, 3);
    assert_eq!(db.pull_in(c.key, &diverged, true), Ok(PullStep::Conflict));
    assert_eq!(db.last_sequence(), 2);
    // A deleted revision leaves a tombstone.
    let mut gone = revision("doc", 3, 30, 0);
    gone.history = vec![first.revision, second.revision];
    gone.deleted = true;
    assert_eq!(db.pull_in(c.key, &gone, true), Ok(PullStep::Updated));
    assert!(c.get_document(&db, "doc").unwrap().is_deleted());
    assert_eq!(c.count(&db), 0);
    // Errors
    let nameless = revision("", 1, 1, 1);
    assert_eq!(
        db.pull_in(c.key, &nameless, true).unwrap_err().code,
        ErrorCode::CouchbaseLite(CouchbaseLiteError::BadDocID)
    );
    assert_eq!(
        db.pull_in(99, &first, true).unwrap_err().code,
        ErrorCode::CouchbaseLite(CouchbaseLiteError::NotOpen)
    );
    // Lost access to a document that is not here changes nothing.
    let mut stranger = revision("other", 1, 1, 1);
    stranger.access_removed = true;
    assert_eq!(db.pull_in(c.key, &stranger, true), Ok(PullStep::Ignored));
}

#[test]
fn pull_conflict_resolution() {
    let none_filter: Option<Filter> = None;
    // Without a resolver the higher generation wins, then the higher digest.
    let none_resolver: Option<Resolver> = None;
    for (remote_gen, remote_digest, expect) in [(2u64, 5u64, 7i64), (1, 999, 7), (1, 3, 1)] {
        let (mut db, c) = open();
        pull_document(&mut db, &c, &revision("doc", 1, 500, 1), true, &none_filter, &none_resolver);
        let remote = revision("doc", remote_gen, remote_digest, 7);
        let report = pull_document(&mut db, &c, &remote, true, &none_filter, &none_resolver);
        assert_eq!(report.error, Ok(()));
        let doc = c.get_document(&db, "doc").unwrap();
        assert_eq!(doc.properties().get("n").unwrap().as_i64_or_0(), expect);
    }
    // A resolver that merges.
    let (mut db, c) = open();
    pull_document(&mut db, &c, &revision("doc", 1, 500, 1), true, &none_filter, &none_resolver);
    let merge: Option<Resolver> = Some(|id, mine, theirs| {
        let a = mine.unwrap().properties().get("n").unwrap().as_i64_or_0();
        let b = theirs.unwrap().properties().get("n").unwrap().as_i64_or_0();
        let mut merged = Document::new_with_id(id);
        merged.set_property("n".to_string(), Value::Int(a + b));
        Some(merged)
    });
    let remote = revision("doc", 4, 3, 10);
    let report = pull_document(&mut db, &c, &remote, true, &none_filter, &merge);
    assert_eq!(report.error, Ok(()));
    let doc = c.get_document(&db, "doc").unwrap();
    assert_eq!(doc.properties().get("n").unwrap().as_i64_or_0(), 11);
    assert_eq!(doc.revision_id().unwrap().generation, 5);
    // A resolver that keeps its own, takes theirs, or deletes.
    let keep: Option<Resolver> = Some(|_, mine, _| mine);
    let take: Option<Resolver> = Some(|_, _, theirs| theirs);
    let drop: Option<Resolver> = Some(|_, _, _| None);
    let (mut db, c) = open();
    pull_document(&mut db, &c, &revision("doc", 1, 500, 1), true, &none_filter, &none_resolver);
    pull_document(&mut db, &c, &revision("doc", 9, 9, 9), true, &none_filter, &keep);
    assert_eq!(
        c.get_document(&db, "doc").unwrap().properties().get("n").unwrap().as_i64_or_0(),
        1
    );
    pull_document(&mut db, &c, &revision("doc", 1, 2, 9), true, &none_filter, &take);
    let doc = c.get_document(&db, "doc").unwrap();
    assert_eq!(doc.properties().get("n").unwrap().as_i64_or_0(), 9);
    assert_eq!(doc.revision_id(), Some(RevisionId { generation: 1, digest: 2 }));
    pull_document(&mut db, &c, &revision("doc", 1, 3, 4), true, &none_filter, &drop);
    assert!(c.get_document(&db, "doc").unwrap().is_deleted());
}

#[test]
fn pull_filter_skips_without_error() {
    let (mut db, c) = open();
    let none_resolver: Option<Resolver> = None;
    let only_a: Option<Filter> = Some(|doc, _, _| doc.id() == "a");
    let report = pull_document(&mut db, &c, &revision("b", 1, 1, 1), true, &only_a, &none_resolver);
    assert_eq!(report.error, Ok(()));
    assert!(c.get_document(&db, "b").is_err());
    assert_eq!(db.last_sequence(), 0);
    let report = pull_document(&mut db, &c, &revision("a", 1, 1, 1), true, &only_a, &none_resolver);
    assert_eq!(report.error, Ok(()));
    assert!(c.get_document(&db, "a").is_ok());
    // The trampolines say no where there is no filter.
    let none_filter: Option<Filter> = None;
    let doc = Document::new_with_id("a");
    assert!(!c_replication_push_filter(&none_filter, &doc, 0));
    assert!(!c_replication_pull_filter(&none_filter, &doc, 0));
    assert!(c_replication_pull_filter(&only_a, &doc, 0));
    let flagged: Option<Filter> = Some(|_, deleted, removed| deleted && !removed);
    assert!(c_replication_pull_filter(&flagged, &doc, 1));
    assert!(!c_replication_pull_filter(&flagged, &doc, 3));
    assert!(c_replication_conflict_resolver(&none_resolver, "a", None, None).is_none());
    let echo: Option<Resolver> = Some(|id, _, _| Some(Document::new_with_id(id)));
    assert_eq!(
        c_replication_conflict_resolver(&echo, "zz", None, None).unwrap().id(),
        "zz"
    );
}

#[test]
fn default_resolution_policy() {
    let local = RevisionId { generation: 3, digest: 10 };
    let take = |r: Resolution| matches!(r, Resolution::TakeRemote);
    assert!(take(default_resolution(local, RevisionId { generation: 4, digest: 0 })));
    assert!(take(default_resolution(local, RevisionId { generation: 3, digest: 11 })));
    assert!(!take(default_resolution(local, RevisionId { generation: 3, digest: 10 })));
    assert!(!take(default_resolution(local, RevisionId { generation: 3, digest: 9 })));
    assert!(!take(default_resolution(local, RevisionId { generation: 2, digest: 99 })));
}

#[test]
fn replicated_documents_report() {
    let raw = vec![
        RawReplicatedDocument {
            id: Some("a".to_string()),
            flags: 1,
            error: CBLError { domain: 0, code: 0, internal_info: 0 },
            scope: Some("s".to_string()),
            collection: None,
        },
        RawReplicatedDocument {
            id: None,
            flags: 0,
            error: CBLError { domain: 0, code: 0, internal_info: 0 },
            scope: None,
            collection: None,
        },
        RawReplicatedDocument {
            id: Some("b".to_string()),
            flags: 2,
            error: CBLError { domain: 1, code: 8, internal_info: 0 },
            scope: None,
            collection: Some("c".to_string()),
        },
    ];
    let (direction, documents) = replicated_documents(true, &raw);
    assert_eq!(direction, Direction::Pushed);
    assert_eq!(documents.len(), 2);
    assert_eq!(documents[0].id, "a");
    assert_eq!(documents[0].flags, 1);
    assert_eq!(documents[0].error, Ok(()));
    assert_eq!(documents[0].scope, Some("s".to_string()));
    assert_eq!(documents[0].collection, None);
    assert_eq!(documents[1].id, "b");
    assert_eq!(
        documents[1].error.unwrap_err().code,
        ErrorCode::CouchbaseLite(CouchbaseLiteError::Conflict)
    );
    assert_eq!(documents[1].collection, Some("c".to_string()));
    let (direction, documents) = replicated_documents(false, &Vec::new());
    assert_eq!(direction, Direction::Pulled);
    assert!(documents.is_empty());
}

#[test]
fn encryption_replies() {
    let reply = encryption_reply(None, CryptoOutcome::Answered(Ok(vec![1, 2, 3])));
    assert_eq!(reply.result, Some(vec![1, 2, 3]));
    assert_eq!(reply.error, None);
    let reply = encryption_reply(None, CryptoOutcome::NoCallback);
    assert_eq!(reply.result, Some(vec![]));
    assert_eq!(reply.error, None);
    let reply = encryption_reply(None, CryptoOutcome::NoInput);
    assert_eq!(reply.result, Some(vec![]));
    assert_eq!(
        reply.error,
        Some(CBLError { domain: 1, code: 22, internal_info: 0 })
    );
    let reply = encryption_reply(None, CryptoOutcome::Answered(Err(EncryptionError::Temporary)));
    assert_eq!(reply.result, None);
    assert_eq!(
        reply.error,
        Some(CBLError { domain: 6, code: 503, internal_info: 0 })
    );
    let reply = encryption_reply(None, CryptoOutcome::Answered(Err(EncryptionError::Permanent)));
    assert_eq!(reply.result, None);
    assert_eq!(
        reply.error,
        Some(CBLError { domain: 1, code: 22, internal_info: 0 })
    );
    // An error that the engine came with is written back as it came.
    let came = CBLError { domain: 5, code: 3, internal_info: 4 };
    let reply = encryption_reply(Some(came), CryptoOutcome::Answered(Ok(vec![9])));
    assert_eq!(reply.result, Some(vec![9]));
    assert_eq!(reply.error, Some(came));
    // The unset error is not.
    let unset = CBLError { domain: 0, code: 0, internal_info: 0 };
    let reply = encryption_reply(Some(unset), CryptoOutcome::NoCallback);
    assert_eq!(reply.error, None);
}

#[test]
fn encryption_callbacks() {
    let reverse: Option<Cryptor> = Some(|request, _| {
        let mut out = request.input.clone();
        out.reverse();
        if request.scope.is_some() {
            out.push(1);
        }
        Ok(out)
    });
    let reply = c_collection_property_encryptor(
        reverse,
        Some("s".to_string()),
        Some("c".to_string()),
        Some("doc".to_string()),
        Dict::new(),
        Some("secret".to_string()),
        Some(vec![1, 2, 3]),
        None,
        None,
        None,
    );
    assert_eq!(reply.result, Some(vec![3, 2, 1, 1]));
    assert_eq!(reply.error, None);
    let reply = c_default_collection_property_encryptor(
        reverse,
        Some("doc".to_string()),
        Dict::new(),
        None,
        Some(vec![1, 2, 3]),
        None,
        None,
        None,
    );
    assert_eq!(reply.result, Some(vec![3, 2, 1]));
    let failing: Option<Cryptor> = Some(|request, shown| {
        if shown.is_untranslatable() && request.algorithm.as_deref() == Some("AES") {
            Err(EncryptionError::Temporary)
        } else {
            Err(EncryptionError::Permanent)
        }
    });
    let reply = c_collection_property_decryptor(
        failing,
        None,
        None,
        None,
        Dict::new(),
        None,
        Some(vec![]),
        Some("AES".to_string()),
        None,
        None,
    );
    assert_eq!(reply.result, None);
    assert_eq!(reply.error.unwrap().code, 503);
    let reply = c_default_collection_property_decryptor(
        failing,
        None,
        Dict::new(),
        None,
        Some(vec![]),
        None,
        None,
        None,
    );
    assert_eq!(reply.error.unwrap().code, 22);
    let none: Option<Cryptor> = None;
    let reply = c_collection_property_encryptor(
        none,
        None,
        None,
        None,
        Dict::new(),
        None,
        Some(vec![5]),
        None,
        None,
        None,
    );
    assert_eq!(reply.result, Some(vec![]));
    assert_eq!(reply.error, None);
    let reply = c_collection_property_encryptor(
        reverse,
        None,
        None,
        None,
        Dict::new(),
        None,
        None,
        None,
        None,
        None,
    );
    assert_eq!(reply.result, Some(vec![]));
    assert_eq!(reply.error.unwrap().code, 22);
}

#[test]
fn replicator_configuration() {
    // The engine decides whether a URL names an endpoint.
    assert_eq!(
        Endpoint::new_with_url("wss://h/db", &no_error()).unwrap().url,
        Some("wss://h/db".to_string())
    );
    assert_eq!(
        Endpoint::new_with_url("", &no_error()).unwrap().url,
        Some(String::new())
    );
    let refused = CBLError { domain: 5, code: 4, internal_info: 0 };
    assert_eq!(
        Endpoint::new_with_url("http://h/db", &refused).unwrap_err().code,
        ErrorCode::Network(NetworkError::InvalidURL)
    );
    assert!(Endpoint::new_with_url("ws://h/db", &refused).is_err());
    // An error without domain or without code is none.
    let half = CBLError { domain: 0, code: 4, internal_info: 0 };
    assert!(Endpoint::new_with_url("ws://h/db", &half).is_ok());
    assert_eq!(Endpoint::new_with_local_db().url, None);
    let a = Authenticator::create_password("user", "pw");
    assert!(!a.session);
    assert_eq!(a.name, "user");
    assert_eq!(a.secret, "pw");
    let a = Authenticator::create_session("sid", "cookie");
    assert!(a.session);
    assert_eq!(ReplicatorType::from_code(0), Some(ReplicatorType::PushAndPull));
    assert_eq!(ReplicatorType::from_code(1), Some(ReplicatorType::Push));
    assert_eq!(ReplicatorType::from_code(2), Some(ReplicatorType::Pull));
    assert_eq!(ReplicatorType::from_code(3), None);
    assert_eq!(ReplicatorType::Pull.code(), 2);
    assert!(ReplicatorType::Push.pushes() && !ReplicatorType::Push.pulls());
    assert!(ReplicatorType::Pull.pulls() && !ReplicatorType::Pull.pushes());
    assert!(ReplicatorType::PushAndPull.pulls() && ReplicatorType::PushAndPull.pushes());
    assert_eq!(ProxyType::from_code(0), Some(ProxyType::HTTP));
    assert_eq!(ProxyType::from_code(1), Some(ProxyType::HTTPS));
    assert_eq!(ProxyType::from_code(2), None);
    assert_eq!(ProxyType::HTTPS.code(), 1);
    let p = ProxySettings::new(
        ProxyType::HTTPS,
        Some("proxy".to_string()),
        8080,
        None,
        Some("pw".to_string()),
    );
    let native = p.to_cbl_proxy_settings();
    assert_eq!(native.type_, 1);
    assert_eq!(native.hostname, Some("proxy".to_string()));
    assert_eq!(native.port, 8080);
    assert_eq!(native.username, None);
    assert_eq!(native.password, Some("pw".to_string()));

    let rc: ReplicationCollection<Filter, Filter, Resolver> = ReplicationCollection {
        collection: Collection { key: 5, scope: "s".to_string(), name: "c".to_string() },
        conflict_resolver: None,
        push_filter: Some(|_, _, _| true),
        pull_filter: None,
        channels: vec!["ch1".to_string()],
        document_ids: vec!["d1".to_string(), "d2".to_string()],
    };
    let native = rc.to_cbl_replication_collection();
    assert_eq!(native.collection, 5);
    assert!(!native.conflict_resolver);
    assert!(native.push_filter);
    assert!(!native.pull_filter);
    assert_eq!(native.channels, vec!["ch1".to_string()]);
    assert_eq!(native.document_ids, vec!["d1".to_string(), "d2".to_string()]);

    let mut cfg = config();
    cfg.proxy = Some(p);
    cfg.headers = vec![Header { name: "X".to_string(), value: "1".to_string() }];
    cfg.pinned_server_certificate = Some(vec![1, 2]);
    cfg.authenticator = Some(Authenticator::create_password("u", "p"));
    let mut context: Context = ReplicationConfigurationContext::new();
    context.pull_filter = Some(|_, _, _| true);
    context.collection_property_encryptor = Some(|r, _| Ok(r.input));
    let native = cfg.to_cbl_configuration(&context);
    assert_eq!(native.database, Some("db".to_string()));
    assert_eq!(native.endpoint_url, Some("ws://localhost:4984/db".to_string()));
    assert_eq!(native.replicator_type, 0);
    assert!(native.continuous);
    assert!(!native.disable_auto_purge);
    assert_eq!(native.max_attempts, 3);
    assert!(native.authenticator);
    assert_eq!(native.proxy.unwrap().port, 8080);
    assert_eq!(native.headers.len(), 1);
    assert_eq!(native.headers[0].name, "X");
    assert_eq!(native.pinned_server_certificate, Some(vec![1, 2]));
    assert_eq!(native.trusted_root_certificates, None);
    assert!(!native.push_filter);
    assert!(native.pull_filter);
    assert!(!native.conflict_resolver);
    assert!(!native.property_encryptor);
    assert!(native.document_property_encryptor);
    assert!(!native.document_property_decryptor);
    assert!(native.collections.is_none());
    assert_eq!(native.collection_count, 0);

    cfg.database = None;
    cfg.collections = Some(vec![rc]);
    let native = cfg.to_cbl_configuration(&context);
    assert_eq!(native.collection_count, 1);
    assert_eq!(native.collections.unwrap()[0].collection, 5);
}

#[test]
fn replicator_new_follows_engine() {
    let context: Context = ReplicationConfigurationContext::new();
    let r = Replicator::new(config(), context, &no_error()).unwrap();
    assert_eq!(r.status().activity, ReplicatorActivityLevel::Stopped);
    assert_eq!(r.status().error, None);
    assert_eq!(r.status().progress.document_count, 0);
    assert_eq!(r.config.max_attempts, 3);
    assert_eq!(r.config.database, Some("db".to_string()));

    // Whatever the configuration holds, the engine's answer decides.
    let mut neither = config();
    neither.database = None;
    let context: Context = ReplicationConfigurationContext::new();
    assert!(Replicator::new(neither, context, &no_error()).is_ok());
    let mut port = config();
    port.proxy = Some(ProxySettings::new(
        ProxyType::HTTP,
        Some("h".to_string()),
        0,
        None,
        None,
    ));
    let context: Context = ReplicationConfigurationContext::new();
    assert!(Replicator::new(port, context, &no_error()).is_ok());

    let refused = CBLError { domain: 1, code: 9, internal_info: 2 };
    let context: Context = ReplicationConfigurationContext::new();
    let e = Replicator::new(config(), context, &refused).err().unwrap();
    assert_eq!(
        e.code,
        ErrorCode::CouchbaseLite(CouchbaseLiteError::InvalidParameter)
    );
    assert_eq!(e.internal_info, Some(2));
    let half = CBLError { domain: 1, code: 0, internal_info: 0 };
    let context: Context = ReplicationConfigurationContext::new();
    assert!(Replicator::new(config(), context, &half).is_ok());
}

#[test]
fn replicator_state_machine() {
    let context: Context = ReplicationConfigurationContext::new();
    let mut r = Replicator::new(config(), context, &no_error()).unwrap();
    let level = |r: &Replicator<Filter, Filter, Resolver, Cryptor, Cryptor, Cryptor, Cryptor>| {
        r.status().activity
    };
    // Events do not start a stopped replicator.
    assert_eq!(r.handle(ReplicatorEvent::Connected), ReplicatorAction::Nothing);
    assert_eq!(level(&r), ReplicatorActivityLevel::Stopped);
    assert_eq!(r.stop(), ReplicatorAction::Nothing);
    // Stopped -> Connecting -> Idle <-> Busy
    assert_eq!(r.start(false), ReplicatorAction::Connect);
    assert_eq!(level(&r), ReplicatorActivityLevel::Connecting);
    assert_eq!(r.start(true), ReplicatorAction::Nothing);
    assert_eq!(r.handle(ReplicatorEvent::Connected), ReplicatorAction::Nothing);
    assert_eq!(level(&r), ReplicatorActivityLevel::Idle);
    r.handle(ReplicatorEvent::ChangesDetected);
    assert_eq!(level(&r), ReplicatorActivityLevel::Busy);
    r.handle(ReplicatorEvent::CaughtUp);
    assert_eq!(level(&r), ReplicatorActivityLevel::Idle);
    // Network loss: offline, retry with a wait that doubles: 1, 2, then give up.
    assert_eq!(
        r.handle(ReplicatorEvent::ConnectionLost),
        ReplicatorAction::RetryAfter(1)
    );
    assert_eq!(level(&r), ReplicatorActivityLevel::Offline);
    assert_eq!(r.handle(ReplicatorEvent::RetryTimer), ReplicatorAction::Connect);
    assert_eq!(level(&r), ReplicatorActivityLevel::Connecting);
    assert_eq!(
        r.handle(ReplicatorEvent::ConnectionLost),
        ReplicatorAction::RetryAfter(2)
    );
    assert_eq!(r.handle(ReplicatorEvent::RetryTimer), ReplicatorAction::Connect);
    assert_eq!(
        r.handle(ReplicatorEvent::ConnectionLost),
        ReplicatorAction::RetryAfter(4)
    );
    assert_eq!(r.handle(ReplicatorEvent::RetryTimer), ReplicatorAction::Connect);
    assert_eq!(r.state.attempts, 3);
    assert_eq!(r.handle(ReplicatorEvent::ConnectionLost), ReplicatorAction::Nothing);
    assert_eq!(level(&r), ReplicatorActivityLevel::Stopped);
    // Stop of a busy replicator is confirmed by Closed.
    r.start(false);
    r.handle(ReplicatorEvent::Connected);
    r.handle(ReplicatorEvent::ChangesDetected);
    assert_eq!(r.stop(), ReplicatorAction::Disconnect);
    assert_eq!(level(&r), ReplicatorActivityLevel::Busy);
    assert_eq!(r.handle(ReplicatorEvent::Closed), ReplicatorAction::Nothing);
    assert_eq!(level(&r), ReplicatorActivityLevel::Stopped);
    // A fatal error stops the replicator and shows in the status.
    r.start(false);
    let fatal = Error { code: ErrorCode::Network(NetworkError::TLSCertUntrusted), internal_info: None };
    r.handle(ReplicatorEvent::Failed(fatal));
    assert_eq!(level(&r), ReplicatorActivityLevel::Stopped);
    assert_eq!(r.status().error, Some(fatal));
    r.start(false);
    assert_eq!(r.status().error, None);
}

#[test]
fn replicator_suspend_and_reachability() {
    let policy = RetryPolicy { continuous: true, max_attempts: 0, max_attempt_wait_time: 0 };
    let mut s = ReplicatorState::new();
    assert!(s.host_reachable && !s.suspended);
    s.start(false);
    s.handle(ReplicatorEvent::Connected, policy);
    // Suspending disconnects and holds offline without retrying.
    assert_eq!(s.set_suspended(true), ReplicatorAction::Disconnect);
    assert_eq!(s.activity, ReplicatorActivityLevel::Offline);
    assert_eq!(s.handle(ReplicatorEvent::RetryTimer, policy), ReplicatorAction::Nothing);
    assert_eq!(s.set_host_reachable(true), ReplicatorAction::Nothing);
    assert_eq!(s.activity, ReplicatorActivityLevel::Offline);
    // Resuming reconnects.
    assert_eq!(s.set_suspended(false), ReplicatorAction::Connect);
    assert_eq!(s.activity, ReplicatorActivityLevel::Connecting);
    s.handle(ReplicatorEvent::Connected, policy);
    // An unreachable host does not disconnect an active session.
    assert_eq!(s.set_host_reachable(false), ReplicatorAction::Nothing);
    assert_eq!(s.activity, ReplicatorActivityLevel::Idle);
    // But it suppresses the retry once offline.
    assert_eq!(s.handle(ReplicatorEvent::ConnectionLost, policy), ReplicatorAction::Nothing);
    assert_eq!(s.activity, ReplicatorActivityLevel::Offline);
    assert_eq!(s.handle(ReplicatorEvent::RetryTimer, policy), ReplicatorAction::Nothing);
    // Reachable again: immediate retry.
    assert_eq!(s.set_host_reachable(true), ReplicatorAction::Connect);
    assert_eq!(s.activity, ReplicatorActivityLevel::Connecting);
    // Offline and told unreachable: the retry is cancelled.
    s.handle(ReplicatorEvent::ConnectionLost, policy);
    assert_eq!(s.set_host_reachable(false), ReplicatorAction::CancelRetry);
    assert_eq!(s.stop(), ReplicatorAction::CancelRetry);
    assert_eq!(s.activity, ReplicatorActivityLevel::Stopped);
    // One-shot: caught up means stop.
    let once = RetryPolicy { continuous: false, max_attempts: 0, max_attempt_wait_time: 0 };
    let mut s = ReplicatorState::new();
    s.start(false);
    s.handle(ReplicatorEvent::Connected, once);
    s.handle(ReplicatorEvent::ChangesDetected, once);
    assert_eq!(s.handle(ReplicatorEvent::CaughtUp, once), ReplicatorAction::Disconnect);
    s.handle(ReplicatorEvent::Closed, once);
    assert_eq!(s.activity, ReplicatorActivityLevel::Stopped);
}

#[test]
fn retry_policy_defaults() {
    let p = RetryPolicy { continuous: false, max_attempts: 0, max_attempt_wait_time: 0 };
    assert_eq!(p.attempts(), 10);
    assert_eq!(p.wait(), 300);
    let p = RetryPolicy { continuous: true, max_attempts: 0, max_attempt_wait_time: 7 };
    assert_eq!(p.attempts(), u32::MAX);
    assert_eq!(p.wait(), 7);
    let p = RetryPolicy { continuous: true, max_attempts: 1, max_attempt_wait_time: 0 };
    assert_eq!(p.attempts(), 1);
    assert_eq!(effective_heartbeat(0), 300);
    assert_eq!(effective_heartbeat(15), 15);
    assert_eq!(retry_delay(0, 300), 1);
    assert_eq!(retry_delay(1, 300), 2);
    assert_eq!(retry_delay(8, 300), 256);
    assert_eq!(retry_delay(9, 300), 300);
    assert_eq!(retry_delay(31, u32::MAX), 1 << 31);
    assert_eq!(retry_delay(32, u32::MAX), u32::MAX);
    assert_eq!(retry_delay(u32::MAX, 300), 300);
    assert_eq!(retry_delay(5, 0), 0);
    assert_eq!(stop_timeout(None), 10);
    assert_eq!(stop_timeout(Some(3)), 3);
    assert!(!stop_must_wait(ReplicatorActivityLevel::Stopped));
    assert!(stop_must_wait(ReplicatorActivityLevel::Busy));
    assert!(stop_confirmed(ReplicatorActivityLevel::Stopped, false));
    assert!(stop_confirmed(ReplicatorActivityLevel::Idle, true));
    assert!(!stop_confirmed(ReplicatorActivityLevel::Idle, false));
}

#[test]
fn replicator_status_from_native() {
    let clear = CBLError { domain: 0, code: 0, internal_info: 0 };
    let s = ReplicatorStatus::from_native(4, 12, &clear).unwrap();
    assert_eq!(s.activity, ReplicatorActivityLevel::Busy);
    assert_eq!(s.progress.document_count, 12);
    assert_eq!(s.error, None);
    let err = CBLError { domain: 5, code: 2, internal_info: 0 };
    let s = ReplicatorStatus::from_native(0, 0, &err).unwrap();
    assert_eq!(s.activity, ReplicatorActivityLevel::Stopped);
    assert_eq!(s.error.unwrap().code, ErrorCode::Network(NetworkError::UnknownHost));
    assert!(ReplicatorStatus::from_native(5, 0, &clear).is_none());
    for code in 0..5u8 {
        assert_eq!(ReplicatorActivityLevel::from_code(code).unwrap().code(), code);
    }
    assert_eq!(ReplicatorActivityLevel::from_code(1), Some(ReplicatorActivityLevel::Offline));
    assert_eq!(ReplicatorActivityLevel::from_code(2), Some(ReplicatorActivityLevel::Connecting));
    assert_eq!(ReplicatorActivityLevel::from_code(3), Some(ReplicatorActivityLevel::Idle));
}

#[test]
fn replicator_pending_documents() {
    let (mut db, c) = open();
    let context: Context = ReplicationConfigurationContext::new();
    let mut r = Replicator::new(config(), context, &no_error()).unwrap();
    let mut a = Document::new_with_id("a");
    let mut b = Document::new_with_id("b");
    c.save_document(&mut db, &mut a).unwrap();
    c.save_document(&mut db, &mut b).unwrap();
    assert_eq!(
        r.pending_document_ids(&db).unwrap(),
        vec!["a".to_string(), "b".to_string()]
    );
    assert_eq!(r.is_document_pending_2(&db, &c, "a"), Ok(true));
    assert_eq!(r.is_document_pending(&db, "a"), Ok(true));
    assert_eq!(r.is_document_pending(&db, "none"), Ok(false));
    r.acknowledge_push(1, 1);
    assert_eq!(r.is_document_pending(&db, "a"), Ok(false));
    assert_eq!(r.status().progress.document_count, 1);
    assert_eq!(r.pending_document_ids_2(&db, &c).unwrap(), vec!["b".to_string()]);
    assert_eq!(r.is_document_pending_2(&db, &c, "a"), Ok(false));
    assert_eq!(r.is_document_pending_2(&db, &c, "b"), Ok(true));
    assert_eq!(r.is_document_pending_2(&db, &c, "zz"), Ok(false));
    c.save_document(&mut db, &mut a).unwrap();
    assert_eq!(
        r.pending_document_ids_2(&db, &c).unwrap(),
        vec!["a".to_string(), "b".to_string()]
    );
    r.acknowledge_push(3, 2);
    r.acknowledge_push(2, 0);
    assert!(r.pending_document_ids_2(&db, &c).unwrap().is_empty());
    // A start that resets the checkpoint forgets what was pushed.
    r.start(true);
    assert_eq!(r.pending_document_ids_2(&db, &c).unwrap().len(), 2);
    let gone = Collection { key: 77, scope: "s".to_string(), name: "c".to_string() };
    assert_eq!(
        r.pending_document_ids_2(&db, &gone).unwrap_err().code,
        ErrorCode::CouchbaseLite(CouchbaseLiteError::NotOpen)
    );
    // Pulling through the replicator counts the document.
    let before = r.status().progress.document_count;
    let report = r.pull(&mut db, &c, &revision("pulled", 1, 1, 1));
    assert_eq!(report.error, Ok(()));
    assert_eq!(r.status().progress.document_count, before + 1);
}
