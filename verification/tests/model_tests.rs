use couchbase_lite::database::{
    Database, DatabaseConfiguration, EncryptionAlgorithm, EncryptionKey, MaintenanceType,
};
use couchbase_lite::document::{ConcurrencyControl, Document, Timestamp};
use couchbase_lite::error::{CouchbaseLiteError, ErrorCode};
use couchbase_lite::logging::{ConsoleLogSink, CustomLogSink, Domain, DomainMask, Level};
use couchbase_lite::value::Value;

fn open() -> Database {
    Database::open("db", None).unwrap()
}

fn code(e: couchbase_lite::error::Error) -> ErrorCode {
    e.code
}

#[test]
fn database_open_and_path() {
    assert_eq!(
        code(Database::open("", None).unwrap_err()),
        ErrorCode::CouchbaseLite(CouchbaseLiteError::InvalidParameter)
    );
    let key = EncryptionKey::new(EncryptionAlgorithm::AES256, vec![7; 32]);
    assert!(key.is_some());
    assert!(EncryptionKey::new(EncryptionAlgorithm::AES256, vec![7; 31]).is_none());
    assert!(EncryptionKey::new(EncryptionAlgorithm::AES256, vec![]).is_none());
    assert_eq!(EncryptionAlgorithm::Unencrypted.code(), 0);
    assert_eq!(EncryptionAlgorithm::AES256.code(), 1);
    let mut db = Database::open(
        "mydb",
        Some(DatabaseConfiguration { directory: "/tmp/dbs".to_string(), encryption_key: key }),
    )
    .unwrap();
    assert_eq!(db.name(), "mydb");
    assert_eq!(db.directory(), "/tmp/dbs");
    assert_eq!(db.path(), "/tmp/dbs/mydb.cblite2/");
    assert!(db.is_encrypted());
    db.change_encryption_key(None).unwrap();
    assert!(!db.is_encrypted());
    assert_eq!(db.count(), 0);
    assert_eq!(db.last_sequence(), 0);
    assert_eq!(db.clock(), 0);
    for (kind, number) in [
        (MaintenanceType::Compact, 0),
        (MaintenanceType::Reindex, 1),
        (MaintenanceType::IntegrityCheck, 2),
        (MaintenanceType::Optimize, 3),
        (MaintenanceType::FullOptimize, 4),
    ] {
        assert_eq!(kind.code(), number);
        assert!(db.perform_maintenance(kind).is_ok());
    }
    assert!(db.close().is_ok());
}

#[test]
fn save_advances_revision_and_sequence() {
    let mut db = open();
    let mut other = Document::new_with_id("other");
    db.save_document(&mut other).unwrap();
    let mut d = Document::new_with_id("d");
    for round in 1..=5u64 {
        let revision_before = d.revision_id();
        let previous_sequence = db.last_sequence();
        d.set_property("round".to_string(), Value::UInt(round));
        db.save_document(&mut d).unwrap();
        let read = db.get_document("d").unwrap();
        assert_ne!(read.revision_id(), revision_before);
        assert!(read.sequence() > previous_sequence);
        assert_eq!(read.sequence(), round + 1);
        assert_eq!(read.revision_id().unwrap().generation, round);
        assert_eq!(read.revision_id(), d.revision_id());
    }
    assert_eq!(db.count(), 2);
}

#[test]
fn save_errors() {
    let mut db = open();
    let mut nameless = Document::new_with_id("");
    assert_eq!(
        code(db.save_document(&mut nameless).unwrap_err()),
        ErrorCode::CouchbaseLite(CouchbaseLiteError::BadDocID)
    );
    assert_eq!(nameless.revision_id(), None);
    let ghost = Document::new_with_id("ghost");
    assert_eq!(
        code(db.delete_document(&ghost).unwrap_err()),
        ErrorCode::CouchbaseLite(CouchbaseLiteError::NotFound)
    );
    assert_eq!(
        code(db.purge_document_by_id("ghost").unwrap_err()),
        ErrorCode::CouchbaseLite(CouchbaseLiteError::NotFound)
    );
    assert_eq!(
        code(db.document_expiration("ghost").unwrap_err()),
        ErrorCode::CouchbaseLite(CouchbaseLiteError::NotFound)
    );
    let mut d = Document::new_with_id("d");
    db.save_document(&mut d).unwrap();
    assert_eq!(
        code(db.set_document_expiration("d", Some(Timestamp::new(-5))).unwrap_err()),
        ErrorCode::CouchbaseLite(CouchbaseLiteError::InvalidParameter)
    );
    // A new document of the same ID conflicts with the stored one.
    let mut again = Document::new_with_id("d");
    assert_eq!(
        code(
            db.save_document_with_concurency_control(&mut again, ConcurrencyControl::FailOnConflict)
                .unwrap_err()
        ),
        ErrorCode::CouchbaseLite(CouchbaseLiteError::Conflict)
    );
    // A stale delete conflicts too.
    let stale = db.get_document("d").unwrap();
    db.save_document(&mut d).unwrap();
    assert_eq!(
        code(
            db.delete_document_with_concurency_control(&stale, ConcurrencyControl::FailOnConflict)
                .unwrap_err()
        ),
        ErrorCode::CouchbaseLite(CouchbaseLiteError::Conflict)
    );
    assert!(db
        .delete_document_with_concurency_control(&stale, ConcurrencyControl::LastWriteWins)
        .is_ok());
    // A new document brings a deleted one back.
    let mut back = Document::new_with_id("d");
    back.set_property("alive".to_string(), Value::Bool(true));
    db.save_document_with_concurency_control(&mut back, ConcurrencyControl::FailOnConflict)
        .unwrap();
    assert!(!db.get_document("d").unwrap().is_deleted());
    assert_eq!(ConcurrencyControl::LastWriteWins.code(), 0);
    assert_eq!(ConcurrencyControl::FailOnConflict.code(), 1);
}

#[test]
fn tombstone_lifecycle() {
    let mut db = open();
    let mut d = Document::new_with_id("d");
    d.set_property("a".to_string(), Value::Int(1));
    db.save_document(&mut d).unwrap();
    assert_eq!(db.count(), 1);
    db.delete_document(&d).unwrap();
    let read = db.get_document("d").unwrap();
    assert!(read.is_deleted());
    assert_eq!(read.properties().count(), 0);
    assert_eq!(read.sequence(), 2);
    assert_eq!(db.count(), 0);
    db.purge_document(&d).unwrap();
    assert_eq!(
        code(db.get_document("d").unwrap_err()),
        ErrorCode::CouchbaseLite(CouchbaseLiteError::NotFound)
    );
}

#[test]
fn transactions() {
    let mut db = open();
    assert_eq!(
        code(db.end_transaction(true).unwrap_err()),
        ErrorCode::CouchbaseLite(CouchbaseLiteError::NotInTransaction)
    );
    let mut kept = Document::new_with_id("kept");
    db.save_document(&mut kept).unwrap();
    // Rollback
    db.begin_transaction().unwrap();
    assert!(db.is_in_transaction());
    let mut lost = Document::new_with_id("lost");
    db.save_document(&mut lost).unwrap();
    db.create_collection("c".to_string(), "s".to_string()).unwrap();
    db.purge_document_by_id("kept").unwrap();
    db.end_transaction(false).unwrap();
    assert!(!db.is_in_transaction());
    assert!(db.get_document("kept").is_ok());
    assert!(db.get_document("lost").is_err());
    assert!(db.scope("s".to_string()).unwrap().is_none());
    assert_eq!(db.last_sequence(), 1);
    // Commit
    db.begin_transaction().unwrap();
    db.save_document(&mut lost).unwrap();
    db.end_transaction(true).unwrap();
    assert!(db.get_document("lost").is_ok());
    // Nested: only the end of the outermost transaction takes effect.
    db.begin_transaction().unwrap();
    db.begin_transaction().unwrap();
    let mut inner = Document::new_with_id("inner");
    db.save_document(&mut inner).unwrap();
    db.end_transaction(true).unwrap();
    assert!(db.get_document("inner").is_ok());
    assert!(db.is_in_transaction());
    db.end_transaction(false).unwrap();
    assert!(db.get_document("inner").is_err());
    db.begin_transaction().unwrap();
    db.begin_transaction().unwrap();
    let mut inner = Document::new_with_id("inner");
    db.save_document(&mut inner).unwrap();
    db.end_transaction(false).unwrap();
    assert!(db.get_document("inner").is_ok());
    db.end_transaction(true).unwrap();
    assert!(db.get_document("inner").is_ok());
    // A database cannot be closed while a transaction is open.
    db.begin_transaction().unwrap();
    let (mut db, e) = db.close().unwrap_err();
    assert_eq!(
        e.code,
        ErrorCode::CouchbaseLite(CouchbaseLiteError::TransactionNotClosed)
    );
    db.end_transaction(true).unwrap();
    // in_transaction commits on success and rolls back on failure.
    let (db, result) = db.in_transaction(|mut db| {
        let mut d = Document::new_with_id("t1");
        let r = db.save_document(&mut d);
        (db, r)
    });
    assert!(result.is_ok());
    assert!(db.get_document("t1").is_ok());
    let (db, result) = db.in_transaction(|mut db| {
        let mut d = Document::new_with_id("t2");
        db.save_document(&mut d).unwrap();
        let r = db.purge_document_by_id("nothing");
        (db, r)
    });
    assert!(result.is_err());
    assert!(db.get_document("t2").is_err());
    assert!(db.close().is_ok());
}

#[test]
fn notifications() {
    let mut db = open();
    let c = db.default_collection().unwrap().unwrap();
    let other = db.create_collection("o".to_string(), "s".to_string()).unwrap();
    let all = c.add_listener(&mut db).unwrap();
    let one = c
        .add_document_change_listener(&mut db, &Document::new_with_id("a"))
        .unwrap();
    let elsewhere = other.add_listener(&mut db).unwrap();
    assert_ne!(all.token, one.token);
    let mut a = Document::new_with_id("a");
    let mut b = Document::new_with_id("b");
    c.save_document(&mut db, &mut a).unwrap();
    c.save_document(&mut db, &mut b).unwrap();
    other.save_document(&mut db, &mut b).unwrap();
    let told = db.immediate_notifications();
    let seen: Vec<(u64, String)> = told.iter().map(|n| (n.token, n.doc_id.clone())).collect();
    assert_eq!(
        seen,
        vec![
            (all.token, "a".to_string()),
            (one.token, "a".to_string()),
            (all.token, "b".to_string()),
            (elsewhere.token, "b".to_string()),
        ]
    );
    assert!(db.immediate_notifications().is_empty());
    assert!(!db.take_ready_signal());
    // Buffered mode: one signal, delivery on demand.
    db.buffer_notifications();
    assert!(!db.take_ready_signal());
    c.delete_document(&mut db, &a).unwrap();
    c.purge_document_by_id(&mut db, "b").unwrap();
    assert!(db.immediate_notifications().is_empty());
    assert!(db.take_ready_signal());
    assert!(!db.take_ready_signal());
    db.remove_listener(one);
    let told = db.send_notifications();
    assert_eq!(told.len(), 2);
    assert_eq!(told[0].doc_id, "a");
    assert_eq!(told[0].token, all.token);
    assert_eq!(told[1].doc_id, "b");
    assert_eq!(told[1].collection, c.key);
    assert!(db.send_notifications().is_empty());
    c.save_document(&mut db, &mut a).unwrap();
    assert!(db.take_ready_signal());
}

#[test]
fn expiration_purges() {
    let mut db = open();
    db.advance_clock(Timestamp::new(1000));
    let c = db.create_collection("c".to_string(), "s".to_string()).unwrap();
    for id in ["a", "b", "c", "d"] {
        let mut d = Document::new_with_id(id);
        c.save_document(&mut db, &mut d).unwrap();
    }
    c.set_document_expiration(&mut db, "a", Some(Timestamp::new(2000))).unwrap();
    c.set_document_expiration(&mut db, "c", Some(Timestamp::new(3000))).unwrap();
    c.set_document_expiration(&mut db, "d", Some(Timestamp::new(2000))).unwrap();
    c.set_document_expiration(&mut db, "d", None).unwrap();
    assert_eq!(c.document_expiration(&db, "d"), Ok(None));
    assert_eq!(c.document_expiration(&db, "b"), Ok(None));
    assert_eq!(c.document_expiration(&db, "c"), Ok(Some(Timestamp::new(3000))));
    db.advance_clock(Timestamp::new(1999));
    assert_eq!(c.count(&db), 4);
    db.advance_clock(Timestamp::new(2000));
    assert_eq!(c.count(&db), 3);
    assert!(c.get_document(&db, "a").is_err());
    // The clock does not go back.
    db.advance_clock(Timestamp::new(5));
    assert_eq!(db.clock(), 2000);
    // A time that has come already purges at once.
    c.set_document_expiration(&mut db, "b", Some(Timestamp::new(2000))).unwrap();
    assert!(c.get_document(&db, "b").is_err());
    db.advance_clock(Timestamp::new(i64::MAX));
    assert_eq!(c.count(&db), 1);
    assert!(c.get_document(&db, "d").is_ok());
    assert_eq!(Timestamp::new(i64::MAX).add_millis(1).get(), i64::MAX);
    assert_eq!(Timestamp::new(i64::MIN).add_millis(-1).get(), i64::MIN);
    assert_eq!(Timestamp::new(5).add_millis(-7).get(), -2);
}

#[test]
fn database_copy() {
    let mut db = open();
    let c = db.create_collection("c".to_string(), "s".to_string()).unwrap();
    let mut d = Document::new_with_id("d");
    d.set_property("n".to_string(), Value::Int(1));
    c.save_document(&mut db, &mut d).unwrap();
    c.add_listener(&mut db).unwrap();
    let mut copy = db.copy("copy", None).unwrap();
    assert_eq!(copy.name(), "copy");
    assert_eq!(copy.last_sequence(), 1);
    assert_eq!(
        c.get_document(&copy, "d").unwrap().properties().get("n").unwrap().as_i64_or_0(),
        1
    );
    // The copy is a database of its own.
    d.set_property("n".to_string(), Value::Int(2));
    c.save_document(&mut copy, &mut d).unwrap();
    assert_eq!(
        c.get_document(&db, "d").unwrap().properties().get("n").unwrap().as_i64_or_0(),
        1
    );
    assert!(copy.immediate_notifications().is_empty());
    assert!(db.copy("", None).is_err());
}

#[test]
fn logging_levels_and_domains() {
    for n in 0..=4u8 {
        assert_eq!(Domain::from_u8(n).unwrap().code(), n);
    }
    assert_eq!(Domain::from_u8(5), None);
    assert_eq!(Domain::from_u8(2), Some(Domain::Replicator));
    for n in 0..=5u8 {
        assert_eq!(Level::from_u8(n).unwrap().code(), n);
    }
    assert_eq!(Level::from_u8(6), None);
    assert_eq!(Level::from_u8(3), Some(Level::Warning));
    assert_eq!(DomainMask::database().bits(), 1);
    assert_eq!(DomainMask::query().bits(), 2);
    assert_eq!(DomainMask::replicator().bits(), 4);
    assert_eq!(DomainMask::network().bits(), 8);
    assert_eq!(DomainMask::all().bits(), 255);
    assert!(DomainMask::empty().is_empty());
    let mask = DomainMask::database().union(DomainMask::network());
    assert_eq!(mask.bits(), 9);
    assert!(mask.contains(DomainMask::network()));
    assert!(!mask.contains(DomainMask::query()));
    assert!(mask.contains_domain(Domain::Database));
    assert!(!mask.contains_domain(Domain::Replicator));
    assert_eq!(mask.intersection(DomainMask::network()).bits(), 8);
    assert_eq!(DomainMask::from_bits(9), Some(mask));
    assert_eq!(DomainMask::from_bits(256), None);
    assert_eq!(DomainMask::from_bits_truncate(0x1ff).bits(), 0xff);
    let sink = ConsoleLogSink { level: Level::Warning, domains: mask };
    assert!(sink.accepts(Domain::Database, Level::Warning));
    assert!(sink.accepts(Domain::Network, Level::Error));
    assert!(!sink.accepts(Domain::Network, Level::Info));
    assert!(!sink.accepts(Domain::Query, Level::Error));
    assert!(!sink.accepts(Domain::Database, Level::Off));
    let off = ConsoleLogSink { level: Level::Off, domains: DomainMask::all() };
    assert!(!off.accepts(Domain::Database, Level::Error));
    let native = sink.to_cbl_console_log_sink();
    assert_eq!(native.level, 3);
    assert_eq!(native.domains, 9);
    let seen = std::cell::RefCell::new(Vec::new());
    let custom = CustomLogSink {
        level: Level::Debug,
        callback: Some(|d: Domain, l: Level, m: &str| {
            seen.borrow_mut().push((d, l, m.to_string()));
        }),
        domains: DomainMask::all(),
    };
    custom.deliver(1, 2, Some("hello"));
    custom.deliver(9, 9, None);
    assert_eq!(
        *seen.borrow(),
        vec![
            (Domain::Query, Level::Info, "hello".to_string()),
            (Domain::Other, Level::Off, "Empty error".to_string()),
        ]
    );
}
