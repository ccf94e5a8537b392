use couchbase_lite::collection::Collection;
use couchbase_lite::database::Database;
use couchbase_lite::document::Document;
use couchbase_lite::error::{CouchbaseLiteError, Error, ErrorCode};
use couchbase_lite::listener::{changed_document_ids, names_or_empty};
use couchbase_lite::document::{expiration_from_native, expiration_to_native, Timestamp};
use couchbase_lite::error::{
    check_deleted, check_found, check_optional, check_required, check_value, CBLError,
};
use couchbase_lite::transfer::push_document;
use couchbase_lite::replication::{EncryptionError, EncryptionRequest};
use couchbase_lite::replicator::{
    Endpoint, ReplicationConfigurationContext, ReplicatorConfiguration, ReplicatorType,
};
use couchbase_lite::sync::Replicator;
use couchbase_lite::value::Value;

type Filter = fn(&Document, bool, bool) -> bool;
type Resolver = fn(&str, Option<Document>, Option<Document>) -> Option<Document>;
type Cryptor = fn(EncryptionRequest, &Error) -> Result<Vec<u8>, EncryptionError>;
type Peer = Replicator<Filter, Filter, Resolver, Cryptor, Cryptor, Cryptor, Cryptor>;

fn peer(push_filter: Option<Filter>) -> Peer {
    let config = ReplicatorConfiguration {
        database: Some("db".to_string()),
        endpoint: Endpoint::new_with_local_db(),
        replicator_type: ReplicatorType::PushAndPull,
        continuous: false,
        disable_auto_purge: false,
        max_attempts: 0,
        max_attempt_wait_time: 0,
        heartbeat: 0,
        authenticator: None,
        proxy: None,
        headers: Vec::new(),
        pinned_server_certificate: None,
        trusted_root_certificates: None,
        channels: Vec::new(),
        document_ids: Vec::new(),
        collections: None,
        accept_parent_domain_cookies: false,
        accept_only_self_signed_server_certificate: false,
    };
    let mut context = ReplicationConfigurationContext::new();
    context.push_filter = push_filter;
    Replicator::new(config, context, &CBLError { domain: 0, code: 0, internal_info: 0 }).unwrap()
}

fn sync(from: &Database, to: &mut Database, c: &Collection, sender: &mut Peer, receiver: &mut Peer) {
    let pending = sender.pending_document_ids_2(from, c).unwrap();
    let mut count = 0;
    for id in pending {
        if let Some(revision) = sender.push(from, c, &id).unwrap() {
            let report = receiver.pull(to, c, &revision);
            assert_eq!(report.error, Ok(()));
            count += 1;
        }
    }
    sender.acknowledge_push(from.last_sequence(), count);
}

fn number(db: &Database, c: &Collection, id: &str) -> i64 {
    c.get_document(db, id).unwrap().properties().get("n").unwrap().as_i64_or_0()
}

#[test]
fn replicate_between_two_databases() {
    let mut local = Database::open("local", None).unwrap();
    let mut central = Database::open("central", None).unwrap();
    let c = local.default_collection().unwrap().unwrap();
    let mut up = peer(None);
    let mut down = peer(None);
    // Save doc 'foo' locally; it is replicated to central.
    let mut foo = Document::new_with_id("foo");
    foo.set_property("n".to_string(), Value::Int(1234));
    c.save_document(&mut local, &mut foo).unwrap();
    sync(&local, &mut central, &c, &mut up, &mut down);
    assert_eq!(number(&central, &c, "foo"), 1234);
    assert!(up.pending_document_ids_2(&local, &c).unwrap().is_empty());
    // A change travels as an update, not as a conflict.
    foo.set_property("n".to_string(), Value::Int(2));
    c.save_document(&mut local, &mut foo).unwrap();
    sync(&local, &mut central, &c, &mut up, &mut down);
    assert_eq!(number(&central, &c, "foo"), 2);
    assert_eq!(
        c.get_document(&central, "foo").unwrap().revision_id(),
        foo.revision_id()
    );
    // A deletion is replicated.
    c.delete_document(&mut local, &foo).unwrap();
    sync(&local, &mut central, &c, &mut up, &mut down);
    assert!(c.get_document(&central, "foo").unwrap().is_deleted());
    // A purge is not.
    let mut bar = Document::new_with_id("bar");
    bar.set_property("n".to_string(), Value::Int(5));
    c.save_document(&mut local, &mut bar).unwrap();
    sync(&local, &mut central, &c, &mut up, &mut down);
    c.purge_document(&mut local, &bar).unwrap();
    sync(&local, &mut central, &c, &mut up, &mut down);
    assert!(c.get_document(&local, "bar").is_err());
    assert_eq!(number(&central, &c, "bar"), 5);
    assert_eq!(up.status().progress.document_count, 4);
    assert_eq!(down.status().progress.document_count, 4);
}

#[test]
fn push_filter_holds_documents_back() {
    let mut local = Database::open("local", None).unwrap();
    let mut central = Database::open("central", None).unwrap();
    let c = local.default_collection().unwrap().unwrap();
    let mut up = peer(Some(|doc, deleted, _| !deleted && doc.id() != "secret"));
    let mut down = peer(None);
    for id in ["open", "secret"] {
        let mut d = Document::new_with_id(id);
        d.set_property("n".to_string(), Value::Int(1));
        c.save_document(&mut local, &mut d).unwrap();
    }
    sync(&local, &mut central, &c, &mut up, &mut down);
    assert!(c.get_document(&central, "open").is_ok());
    assert!(c.get_document(&central, "secret").is_err());
    let open = c.get_document(&local, "open").unwrap();
    c.delete_document(&mut local, &open).unwrap();
    sync(&local, &mut central, &c, &mut up, &mut down);
    assert!(!c.get_document(&central, "open").unwrap().is_deleted());
    // One document at a time
    let none: Option<Filter> = None;
    assert!(push_document(&local, &c, "open", 0, &none).unwrap().unwrap().deleted);
    assert!(push_document(&local, &c, "open", local.last_sequence(), &none).unwrap().is_none());
    assert!(push_document(&local, &c, "missing", 0, &none).unwrap().is_none());
    let gone = Collection { key: 9, scope: "s".to_string(), name: "c".to_string() };
    assert_eq!(
        push_document(&local, &gone, "open", 0, &none).unwrap_err().code,
        ErrorCode::CouchbaseLite(CouchbaseLiteError::NotOpen)
    );
}

#[test]
fn edge_translations() {
    let clear = CBLError { domain: 0, code: 0, internal_info: 0 };
    let busy = CBLError { domain: 1, code: 16, internal_info: 0 };
    let not_found = Error::cbl_error(CouchbaseLiteError::NotFound);
    assert_eq!(check_found(Some(5), &busy), Ok(5));
    assert_eq!(check_found(None::<u8>, &clear), Err(not_found));
    assert_eq!(
        check_found(None::<u8>, &busy).unwrap_err().code,
        ErrorCode::CouchbaseLite(CouchbaseLiteError::Busy)
    );
    assert_eq!(check_value(true, &clear), Ok(true));
    assert_eq!(check_value(false, &clear), Ok(false));
    assert!(check_value(true, &busy).is_err());
    assert_eq!(check_optional(Some(1), &clear), Ok(Some(1)));
    assert_eq!(check_optional(None::<u8>, &clear), Ok(None));
    assert!(check_optional(Some(1), &busy).is_err());
    assert_eq!(check_required(Some(1), &clear, not_found), Ok(1));
    assert_eq!(check_required(None::<u8>, &clear, not_found), Err(not_found));
    assert_eq!(
        check_required(Some(1), &busy, not_found).unwrap_err().code,
        ErrorCode::CouchbaseLite(CouchbaseLiteError::Busy)
    );
    assert_eq!(check_deleted(true, &busy), Ok(true));
    assert_eq!(check_deleted(false, &clear), Ok(false));
    assert!(check_deleted(false, &busy).is_err());
    assert_eq!(expiration_from_native(0, &busy), Ok(None));
    assert_eq!(expiration_from_native(17, &busy), Ok(Some(Timestamp::new(17))));
    assert_eq!(
        expiration_from_native(-1, &busy).unwrap_err().code,
        ErrorCode::CouchbaseLite(CouchbaseLiteError::Busy)
    );
    assert_eq!(expiration_to_native(None), 0);
    assert_eq!(expiration_to_native(Some(Timestamp::new(9))), 9);
    let raw = vec![Some("a".to_string()), None, Some("b".to_string())];
    assert_eq!(changed_document_ids(&raw), vec!["a".to_string(), "b".to_string()]);
    assert_eq!(
        names_or_empty(&raw),
        vec!["a".to_string(), String::new(), "b".to_string()]
    );
}

#[test]
fn replicator_direction() {
    let mut db = Database::open("db", None).unwrap();
    let c = db.default_collection().unwrap().unwrap();
    let mut d = Document::new_with_id("a");
    c.save_document(&mut db, &mut d).unwrap();
    let mut only_pull = peer(None);
    only_pull.config.replicator_type = ReplicatorType::Pull;
    assert!(only_pull.push(&db, &c, "a").unwrap().is_none());
    let mut only_push = peer(None);
    only_push.config.replicator_type = ReplicatorType::Push;
    let revision = only_push.push(&db, &c, "a").unwrap().unwrap();
    assert_eq!(revision.id, "a");
    let mut other = Database::open("other", None).unwrap();
    let report = only_push.pull(&mut other, &c, &revision);
    assert_eq!(
        report.error.unwrap_err().code,
        ErrorCode::CouchbaseLite(CouchbaseLiteError::Unsupported)
    );
    assert!(c.get_document(&other, "a").is_err());
    assert_eq!(only_push.status().progress.document_count, 0);
    let report = only_pull.pull(&mut other, &c, &revision);
    assert_eq!(report.error, Ok(()));
    assert!(c.get_document(&other, "a").is_ok());
}
