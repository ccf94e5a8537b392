use couchbase_lite::database::Database;
use couchbase_lite::document::{ConcurrencyControl, Document, Timestamp};
use couchbase_lite::error::{CouchbaseLiteError, ErrorCode};
use couchbase_lite::collection::Collection;
use couchbase_lite::replication::{c_replication_push_filter, document_flags};
use couchbase_lite::value::{Dict, Value};

fn with_db() -> Database {
    Database::open("test_db", None).unwrap()
}

fn default_collection(db: &Database) -> Collection {
    db.default_collection().unwrap().unwrap()
}

#[test]
fn document_new_with_id() {
    let document = Document::new_with_id("foo");
    assert_eq!(document.id(), "foo");
    assert_eq!(document.revision_id(), None);
    assert_eq!(document.sequence(), 0);
    assert_eq!(document.properties().count(), 0);
}

#[test]
fn document_deleted_flag() {
    // A new document has no properties and is not deleted.
    let mut document = Document::new_with_id("foo");
    assert_eq!(document.properties().count(), 0);
    assert!(!document.is_deleted());
    // Saved without properties, it is still not deleted.
    let mut db = with_db();
    let c = default_collection(&db);
    db.advance_clock(Timestamp::new(5_000));
    c.save_document(&mut db, &mut document).unwrap();
    assert!(!document.is_deleted());
    c.set_document_expiration(&mut db, "foo", Some(Timestamp::new(7_000)))
        .unwrap();
    db.advance_clock(Timestamp::new(6_000));
    let read = c.get_document(&db, "foo").unwrap();
    assert_eq!(read.properties().count(), 0);
    assert!(!read.is_deleted());
    // Deleted, it is; and a copy that was read before does not change.
    c.delete_document(&mut db, &read).unwrap();
    assert!(!read.is_deleted());
    let tombstone = c.get_document(&db, "foo").unwrap();
    assert!(tombstone.is_deleted());
    assert!(tombstone.deep_clone().is_deleted());
    // Saving the copy of a tombstone brings the document back.
    let mut back = tombstone;
    back.set_property("n".to_string(), Value::Int(1));
    c.save_document(&mut db, &mut back).unwrap();
    assert!(!back.is_deleted());
    assert!(!c.get_document(&db, "foo").unwrap().is_deleted());
    db.advance_clock(Timestamp::new(15_000));
    assert!(c.get_document(&db, "foo").is_err());
}

#[test]
fn document_sequence_grows_with_every_save() {
    // A document that bears a sequence number from elsewhere still gets a
    // greater one.
    let mut elsewhere = Database::open("elsewhere", None).unwrap();
    let mut db = with_db();
    let mut document = Document::new_with_id("foo");
    for _ in 0..3 {
        elsewhere.save_document(&mut document).unwrap();
    }
    assert_eq!(document.sequence(), 3);
    let mut first = Document::new_with_id("first");
    db.save_document(&mut first).unwrap();
    assert_eq!(db.last_sequence(), 1);
    db.save_document(&mut document).unwrap();
    assert_eq!(document.sequence(), 4);
    assert_eq!(db.get_document("foo").unwrap().sequence(), 4);
    assert_eq!(db.last_sequence(), 4);
    db.save_document(&mut first).unwrap();
    assert_eq!(first.sequence(), 5);
}

#[test]
fn document_revision_id() {
    let mut db = with_db();
    let mut document = Document::new_with_id("doc");
    assert_eq!(document.revision_id(), None);

    default_collection(&db)
        .save_document_with_concurency_control(
            &mut db,
            &mut document,
            ConcurrencyControl::FailOnConflict,
        )
        .expect("save_document");
    assert!(document.revision_id().is_some());

    let first_revision_id = document.revision_id().unwrap();
    default_collection(&db)
        .save_document_with_concurency_control(
            &mut db,
            &mut document,
            ConcurrencyControl::FailOnConflict,
        )
        .expect("save_document");
    assert!(document.revision_id().is_some());
    let second_revision_id = document.revision_id().unwrap();
    assert_ne!(second_revision_id, first_revision_id);
}

#[test]
fn document_sequence() {
    let mut db = with_db();
    let mut document_1 = Document::new_with_id("doc-1");
    let mut document_2 = Document::new_with_id("doc-2");
    assert_eq!(document_1.sequence(), 0);
    assert_eq!(document_2.sequence(), 0);

    default_collection(&db)
        .save_document_with_concurency_control(
            &mut db,
            &mut document_1,
            ConcurrencyControl::FailOnConflict,
        )
        .expect("save_document");
    default_collection(&db)
        .save_document_with_concurency_control(
            &mut db,
            &mut document_2,
            ConcurrencyControl::FailOnConflict,
        )
        .expect("save_document");
    assert_eq!(document_1.sequence(), 1);
    assert_eq!(document_2.sequence(), 2);
}

#[test]
fn document_properties() {
    let mut document = Document::new_with_id("doc");
    let mut properties = Dict::new();
    properties.set("foo".to_string(), Value::Bool(false));
    properties.set("bar".to_string(), Value::Bool(true));
    document.set_properties(properties);
    let properties = document.mutable_properties();
    properties.set("baz".to_string(), Value::Bool(true));
    properties.set("foo".to_string(), Value::Bool(true));
    let properties = document.properties();
    assert_eq!(properties.count(), 3);
    assert_eq!(properties.get("foo").unwrap().as_bool_or_false(), true);
    assert_eq!(properties.get("bar").unwrap().as_bool_or_false(), true);
    assert_eq!(properties.get("baz").unwrap().as_bool_or_false(), true);
}

#[test]
fn database_get_document() {
    let mut db = with_db();
    let mut document = Document::new_with_id("foo");
    default_collection(&db)
        .save_document_with_concurency_control(
            &mut db,
            &mut document,
            ConcurrencyControl::FailOnConflict,
        )
        .expect("save_document");
    let document = default_collection(&db).get_document(&db, document.id());
    assert!(document.is_ok());
    assert_eq!(document.unwrap().id(), "foo");
    let document = default_collection(&db).get_document(&db, "");
    assert!(document.is_err());
}

#[test]
fn database_save_document() {
    let mut db = with_db();
    let mut document = Document::new_with_id("foo");
    default_collection(&db)
        .save_document_with_concurency_control(
            &mut db,
            &mut document,
            ConcurrencyControl::FailOnConflict,
        )
        .expect("save_document");
    let mut document = default_collection(&db)
        .get_document(&db, "foo")
        .expect("get_document");
    {
        let mut document = default_collection(&db)
            .get_document(&db, "foo")
            .expect("get_document");
        document.set_property("foo".to_string(), Value::Int(1));
        default_collection(&db)
            .save_document_with_concurency_control(
                &mut db,
                &mut document,
                ConcurrencyControl::FailOnConflict,
            )
            .expect("save_document");
    }
    document.set_property("foo".to_string(), Value::Int(2));
    let conflict_error = default_collection(&db).save_document_with_concurency_control(
        &mut db,
        &mut document,
        ConcurrencyControl::FailOnConflict,
    );
    assert!(conflict_error.is_err());
    assert_eq!(
        conflict_error.unwrap_err().code,
        ErrorCode::CouchbaseLite(CouchbaseLiteError::Conflict)
    );
    default_collection(&db)
        .save_document_with_concurency_control(
            &mut db,
            &mut document,
            ConcurrencyControl::LastWriteWins,
        )
        .expect("save_document");
    let document = default_collection(&db)
        .get_document(&db, "foo")
        .expect("get_document");
    assert_eq!(
        document.properties().get("foo").unwrap().as_i64_or_0(),
        2
    );
}

#[test]
fn database_save_document_resolving() {
    let mut db = with_db();
    let mut document = Document::new_with_id("foo");
    default_collection(&db)
        .save_document_with_concurency_control(
            &mut db,
            &mut document,
            ConcurrencyControl::FailOnConflict,
        )
        .expect("save_document");
    {
        let mut document = default_collection(&db).get_document(&db, "foo").unwrap();
        document.set_property("foo".to_string(), Value::Int(1));
        default_collection(&db)
            .save_document_with_concurency_control(
                &mut db,
                &mut document,
                ConcurrencyControl::FailOnConflict,
            )
            .expect("save_document");
    }
    document.set_property("foo".to_string(), Value::Int(2));
    document = default_collection(&db)
        .save_document_resolving(&mut db, &mut document, |mut document_a, document_b| {
            let property_a = document_a.properties().get("foo").unwrap().as_i64_or_0();
            let property_b = document_b
                .unwrap()
                .properties()
                .get("foo")
                .unwrap()
                .as_i64_or_0();
            document_a.set_property("foo".to_string(), Value::Int(property_a + property_b));
            Some(document_a)
        })
        .expect("save_document_resolving");
    assert_eq!(
        document.properties().get("foo").unwrap().as_i64_or_0(),
        3
    );
    document = default_collection(&db).get_document(&db, "foo").unwrap();
    assert_eq!(
        document.properties().get("foo").unwrap().as_i64_or_0(),
        3
    );
}

#[test]
fn save_document_resolving_refused() {
    let mut db = with_db();
    let c = default_collection(&db);
    let mut document = Document::new_with_id("foo");
    c.save_document(&mut db, &mut document).unwrap();
    let mut other = c.get_document(&db, "foo").unwrap();
    other.set_property("n".to_string(), Value::Int(1));
    c.save_document(&mut db, &mut other).unwrap();
    document.set_property("n".to_string(), Value::Int(2));
    let before = db.last_sequence();
    let refused = c.save_document_resolving(&mut db, &mut document, |_, _| None);
    assert_eq!(
        refused.unwrap_err().code,
        ErrorCode::CouchbaseLite(CouchbaseLiteError::Conflict)
    );
    assert_eq!(db.last_sequence(), before);
    let stored = c.get_document(&db, "foo").unwrap();
    assert_eq!(stored.properties().get("n").unwrap().as_i64_or_0(), 1);
}

#[test]
fn database_purge_document() {
    let mut db = with_db();
    let mut document = Document::new_with_id("doc");
    {
        default_collection(&db)
            .save_document_with_concurency_control(
                &mut db,
                &mut document,
                ConcurrencyControl::FailOnConflict,
            )
            .expect("save_document");
        let mut document = Document::new_with_id("foo");
        default_collection(&db)
            .save_document_with_concurency_control(
                &mut db,
                &mut document,
                ConcurrencyControl::FailOnConflict,
            )
            .expect("save_document");
    }
    default_collection(&db)
        .purge_document(&mut db, &document)
        .expect("purge_document");
    default_collection(&db)
        .purge_document_by_id(&mut db, "foo")
        .expect("purge_document_by_id");
    let document = default_collection(&db).get_document(&db, document.id());
    assert!(document.is_err());
    let document = default_collection(&db).get_document(&db, "foo");
    assert!(document.is_err());
}

#[test]
fn database_add_document_change_listener() {
    let mut db = with_db();
    let mut document = Document::new_with_id("foo");
    default_collection(&db)
        .save_document_with_concurency_control(
            &mut db,
            &mut document,
            ConcurrencyControl::FailOnConflict,
        )
        .expect("save_document");
    let listener_token = default_collection(&db)
        .add_document_change_listener(&mut db, &document)
        .unwrap();
    let token = listener_token.token;
    document.set_property("foo".to_string(), Value::Int(1));
    default_collection(&db)
        .save_document_with_concurency_control(
            &mut db,
            &mut document,
            ConcurrencyControl::FailOnConflict,
        )
        .expect("save_document");

    let told = db.immediate_notifications();
    assert_eq!(told.len(), 1);
    assert_eq!(told[0].doc_id, "foo");
    assert_eq!(told[0].token, token);

    let mut document = Document::new_with_id("bar");
    default_collection(&db)
        .save_document_with_concurency_control(
            &mut db,
            &mut document,
            ConcurrencyControl::FailOnConflict,
        )
        .expect("save_document");
    assert!(db.immediate_notifications().is_empty());
    db.remove_listener(listener_token);
    let mut document = default_collection(&db).get_document(&db, "foo").unwrap();
    default_collection(&db)
        .save_document(&mut db, &mut document)
        .unwrap();
    assert!(db.immediate_notifications().is_empty());
}

#[test]
fn database_delete_document() {
    let mut db = with_db();
    let c = default_collection(&db);
    // Save doc 'foo'
    let mut document = Document::new_with_id("foo");
    document.set_property("id".to_string(), Value::Int(1234));
    document.set_property("text".to_string(), Value::String("Hello World!".to_string()));
    c.save_document(&mut db, &mut document).unwrap();

    // Delete document
    let document = c.get_document(&db, "foo").unwrap();
    c.delete_document_with_concurency_control(&mut db, &document, ConcurrencyControl::FailOnConflict)
        .expect("delete_document");

    let document = c.get_document(&db, "foo").unwrap();
    assert!(document.is_deleted());

    // The push filter is shown the document with the deleted flag
    let seen = std::cell::Cell::new(false);
    let filter = Some(|document: &Document, is_deleted: bool, _is_access_removed: bool| {
        if is_deleted && document.id() == "foo" {
            seen.set(true);
        }
        true
    });
    let flags = document_flags(true, false);
    assert!(c_replication_push_filter(&filter, &document, flags));
    assert!(seen.get());
}

#[test]
fn database_document_expiration() {
    let mut db = with_db();
    let now = Timestamp::new(1_700_000_000_000);
    db.advance_clock(now);
    let mut document = Document::new_with_id("foo");
    default_collection(&db)
        .save_document_with_concurency_control(
            &mut db,
            &mut document,
            ConcurrencyControl::FailOnConflict,
        )
        .expect("save_document");

    // No expiration by default
    let expiration = default_collection(&db)
        .document_expiration(&db, "foo")
        .expect("document_expiration");
    assert!(expiration.is_none());

    // Set expiration in 2 seconds
    let expiration = now.add_millis(2000);
    default_collection(&db)
        .set_document_expiration(&mut db, "foo", Some(expiration))
        .expect("set_document_expiration");

    // Check expiration is set up
    let doc_expiration = default_collection(&db)
        .document_expiration(&db, "foo")
        .expect("document_expiration");
    assert_eq!(doc_expiration.unwrap(), expiration);

    let set_expiration = doc_expiration.unwrap().get();
    assert_eq!(set_expiration, expiration.get());

    // Check the document is still present after 1 second
    db.advance_clock(now.add_millis(1000));
    assert!(default_collection(&db).get_document(&db, "foo").is_ok());

    // Move to expiration time
    db.advance_clock(now.add_millis(2000));

    // Check documents disappears
    let doc = default_collection(&db).get_document(&db, "foo");
    assert!(doc.is_err() || doc.unwrap().is_deleted());
    db.advance_clock(now.add_millis(10_000));
    let doc = default_collection(&db).get_document(&db, "foo");
    assert_eq!(
        doc.unwrap_err().code,
        ErrorCode::CouchbaseLite(CouchbaseLiteError::NotFound)
    );
}

#[test]
fn default_collection_save_resolving() {
    let mut db = with_db();
    let mut document = Document::new_with_id("foo");
    db.save_document(&mut document).unwrap();
    let mut other = db.get_document("foo").unwrap();
    other.set_property("n".to_string(), Value::Int(40));
    db.save_document(&mut other).unwrap();
    document.set_property("n".to_string(), Value::Int(2));
    let saved = db
        .save_document_resolving(&mut document, |mut mine, theirs| {
            let a = mine.properties().get("n").unwrap().as_i64_or_0();
            let b = theirs.unwrap().properties().get("n").unwrap().as_i64_or_0();
            mine.mutable_properties().set("n".to_string(), Value::Int(a + b));
            Some(mine)
        })
        .unwrap();
    assert_eq!(saved.properties().get("n").unwrap().as_i64_or_0(), 42);
    assert_eq!(saved.sequence(), 3);
    assert_eq!(document.revision_id(), saved.revision_id());
    assert_eq!(
        db.get_document("foo").unwrap().properties().get("n").unwrap().as_i64_or_0(),
        42
    );
    // Without a conflict the handler is not asked.
    let again = db.save_document_resolving(&mut document, |_, _| unreachable!());
    assert_eq!(again.unwrap().sequence(), 4);
}
