use couchbase_lite::collection::DEFAULT_NAME;
use couchbase_lite::database::Database;
use couchbase_lite::document::Document;
use couchbase_lite::error::{CouchbaseLiteError, ErrorCode};
use couchbase_lite::value::Value;

fn with_db() -> Database {
    Database::open("test_db", None).unwrap()
}

fn sample_properties(doc: &mut Document) {
    doc.set_property("foo".to_string(), Value::Bool(true));
    doc.set_property("bar".to_string(), Value::Bool(true));
}

#[test]
fn create_delete_scopes_collections() {
    let mut db = with_db();
    let unknown = "unknwon".to_string();
    let new_scope = "new_scope".to_string();
    let new_collection_1 = "new_collection_1".to_string();
    let new_collection_2 = "new_collection_2".to_string();

    // List scopes & collections
    assert_eq!(db.scope_names().unwrap(), vec![DEFAULT_NAME]);
    assert_eq!(
        db.collection_names(DEFAULT_NAME.to_string()).unwrap(),
        vec![DEFAULT_NAME]
    );

    assert_eq!(
        db.collection_names(unknown.clone()).unwrap(),
        Vec::<String>::default()
    );

    // Get scope
    assert!(db.scope(DEFAULT_NAME.to_string()).unwrap().is_some());
    assert!(db.scope(unknown.clone()).unwrap().is_none());
    assert_eq!(
        db.default_scope().unwrap().name(),
        db.scope(DEFAULT_NAME.to_string()).unwrap().unwrap().name()
    );

    // Get collection
    assert!(db
        .collection(DEFAULT_NAME.to_string(), DEFAULT_NAME.to_string())
        .unwrap()
        .is_some());
    assert!(db
        .collection(unknown.clone(), DEFAULT_NAME.to_string())
        .unwrap()
        .is_none()); // Invalid collection => None
    assert!(db
        .collection(DEFAULT_NAME.to_string(), unknown.clone())
        .is_err()); // Invalid scope => Err
    assert_eq!(
        db.default_collection().unwrap().unwrap().name(),
        db.collection(DEFAULT_NAME.to_string(), DEFAULT_NAME.to_string())
            .unwrap()
            .unwrap()
            .name()
    );

    // Add collection in default scope
    {
        let c1_default_scope = db
            .create_collection(new_collection_1.clone(), DEFAULT_NAME.to_string())
            .unwrap();

        assert_eq!(
            db.collection(new_collection_1.clone(), DEFAULT_NAME.to_string())
                .unwrap()
                .unwrap()
                .name(),
            c1_default_scope.name()
        );
        assert_eq!(
            db.create_collection(new_collection_1.clone(), DEFAULT_NAME.to_string())
                .unwrap()
                .name(),
            c1_default_scope.name()
        );

        assert_eq!(
            db.collection_names(DEFAULT_NAME.to_string()).unwrap(),
            vec![DEFAULT_NAME.to_string(), new_collection_1.clone()]
        );
    }

    // Add collection in new scope
    {
        let c2_new_scope = db
            .create_collection(new_collection_2.clone(), new_scope.clone())
            .unwrap();

        assert_eq!(
            db.collection(new_collection_2.clone(), new_scope.clone())
                .unwrap()
                .unwrap()
                .name(),
            c2_new_scope.name()
        );
        assert_eq!(
            db.create_collection(new_collection_2.clone(), new_scope.clone())
                .unwrap()
                .name(),
            c2_new_scope.name()
        );

        assert_eq!(
            db.scope_names().unwrap(),
            vec![DEFAULT_NAME.to_string(), new_scope.clone()]
        );
        assert_eq!(
            db.collection_names(new_scope.clone()).unwrap(),
            vec![new_collection_2.clone()]
        );
    }

    // Delete collections
    assert!(db
        .delete_collection(DEFAULT_NAME.to_string(), unknown.clone())
        .is_err()); // Invalid scope => Err
    assert!(db
        .delete_collection(unknown.clone(), DEFAULT_NAME.to_string())
        .is_ok()); // Invalid collection => Ok
    assert!(db
        .delete_collection(unknown.clone(), unknown.clone())
        .is_ok()); // Invalid collection & scope => Ok

    assert!(db
        .delete_collection(new_collection_2.clone(), new_scope.clone())
        .is_ok());
    assert!(db.scope(new_scope.clone()).unwrap().is_none());
    assert_eq!(db.scope_names().unwrap(), vec![DEFAULT_NAME]);
    assert!(db
        .collection(new_collection_2.clone(), new_scope.clone())
        .unwrap()
        .is_none());
    assert_eq!(
        db.collection_names(new_scope.clone()).unwrap(),
        Vec::<String>::default()
    );

    assert!(db
        .delete_collection(new_collection_1.clone(), DEFAULT_NAME.to_string())
        .is_ok());
    assert!(db.scope(DEFAULT_NAME.to_string()).unwrap().is_some()); // Default scope kept
    assert!(db
        .collection(new_collection_1.clone(), DEFAULT_NAME.to_string())
        .unwrap()
        .is_none());

    assert!(db
        .delete_collection(DEFAULT_NAME.to_string(), DEFAULT_NAME.to_string())
        .is_err()); // Impossible to delete default collection
}

#[test]
fn collections_accessors() {
    let mut db = with_db();
    let new_scope = "new_scope".to_string();
    let new_collection_1 = "new_collection_1".to_string();
    let new_collection_2 = "new_collection_2".to_string();

    let c1_default_scope = db
        .create_collection(new_collection_1.clone(), DEFAULT_NAME.to_string())
        .unwrap();
    assert_eq!(
        db.collection(new_collection_1.clone(), DEFAULT_NAME.to_string())
            .unwrap()
            .unwrap()
            .name(),
        c1_default_scope.name()
    );

    let c2_new_scope = db
        .create_collection(new_collection_2.clone(), new_scope.clone())
        .unwrap();
    assert_eq!(
        db.collection(new_collection_2.clone(), new_scope.clone())
            .unwrap()
            .unwrap()
            .name(),
        c2_new_scope.name()
    );

    let c1_new_scope = db
        .create_collection(new_collection_1.clone(), new_scope.clone())
        .unwrap();
    assert_eq!(
        db.collection(new_collection_1.clone(), new_scope.clone())
            .unwrap()
            .unwrap()
            .name(),
        c1_new_scope.name()
    );

    let default_scope = db.scope(DEFAULT_NAME.to_string()).unwrap().unwrap();
    let new_actual_scope = db.scope(new_scope.clone()).unwrap().unwrap();

    // Scope
    assert_eq!(c1_default_scope.scope().name(), default_scope.name());
    assert_eq!(c2_new_scope.scope().name(), new_actual_scope.name());
    assert_eq!(c1_new_scope.scope().name(), new_actual_scope.name());

    // Name
    assert_eq!(c1_default_scope.name(), new_collection_1.clone());
    assert_eq!(c2_new_scope.name(), new_collection_2.clone());
    assert_eq!(c1_new_scope.name(), new_collection_1.clone());

    // Count
    assert_eq!(c1_default_scope.count(&db), 0);
    assert_eq!(c2_new_scope.count(&db), 0);
    assert_eq!(c1_new_scope.count(&db), 0);
}

#[test]
fn scope_accessors() {
    let mut db = with_db();
    let new_scope = "new_scope".to_string();
    let new_collection_1 = "new_collection_1".to_string();
    let new_collection_2 = "new_collection_2".to_string();

    let c1_default_scope = db
        .create_collection(new_collection_1.clone(), DEFAULT_NAME.to_string())
        .unwrap();
    assert_eq!(
        db.collection(new_collection_1.clone(), DEFAULT_NAME.to_string())
            .unwrap()
            .unwrap()
            .name(),
        c1_default_scope.name()
    );

    let c2_new_scope = db
        .create_collection(new_collection_2.clone(), new_scope.clone())
        .unwrap();
    assert_eq!(
        db.collection(new_collection_2.clone(), new_scope.clone())
            .unwrap()
            .unwrap()
            .name(),
        c2_new_scope.name()
    );

    let c1_new_scope = db
        .create_collection(new_collection_1.clone(), new_scope.clone())
        .unwrap();
    assert_eq!(
        db.collection(new_collection_1.clone(), new_scope.clone())
            .unwrap()
            .unwrap()
            .name(),
        c1_new_scope.name()
    );

    let default_scope = db.scope(DEFAULT_NAME.to_string()).unwrap().unwrap();
    let new_actual_scope = db.scope(new_scope.clone()).unwrap().unwrap();

    // Name
    assert_eq!(default_scope.name(), DEFAULT_NAME.to_string());
    assert_eq!(new_actual_scope.name(), new_scope.clone());

    // Collections
    assert_eq!(
        default_scope.collection_names(&db).unwrap(),
        vec![DEFAULT_NAME.to_string(), new_collection_1.clone()]
    );
    assert_eq!(
        new_actual_scope.collection_names(&db).unwrap(),
        vec![new_collection_2.clone(), new_collection_1.clone()]
    );

    assert!(default_scope
        .collection(&db, "unknwon".to_string())
        .unwrap()
        .is_none());

    assert_eq!(
        default_scope
            .collection(&db, new_collection_1.clone())
            .unwrap()
            .unwrap()
            .name(),
        c1_default_scope.name()
    );
    assert_eq!(
        new_actual_scope
            .collection(&db, new_collection_2.clone())
            .unwrap()
            .unwrap()
            .name(),
        c2_new_scope.name()
    );
    assert_eq!(
        new_actual_scope
            .collection(&db, new_collection_1.clone())
            .unwrap()
            .unwrap()
            .name(),
        c1_new_scope.name()
    );
}

#[test]
fn collection_documents() {
    let mut db = with_db();
    // Collection 1
    let collection_1 = db
        .create_collection("collection_1".to_string(), DEFAULT_NAME.to_string())
        .unwrap();
    let mut doc_1 = Document::new_with_id("foo");
    sample_properties(&mut doc_1);
    collection_1
        .save_document(&mut db, &mut doc_1)
        .expect("save_document");

    assert!(collection_1.get_document(&db, "foo").is_ok());
    assert!(db
        .default_collection()
        .unwrap()
        .unwrap()
        .get_document(&db, "foo")
        .is_err()); // Document 1 not in default collection

    // Collection 2
    let collection_2 = db
        .create_collection("collection_2".to_string(), "scope_1".to_string())
        .unwrap();
    assert!(collection_2.get_document(&db, "foo").is_err()); // Document 1 not in collection 2

    let mut doc_2 = Document::new_with_id("foo");
    sample_properties(&mut doc_2);
    collection_2
        .save_document(&mut db, &mut doc_2)
        .expect("save_document");

    assert!(collection_2.get_document(&db, "foo").is_ok());

    // Collection 3
    let collection_3 = db
        .create_collection("collection_3".to_string(), "scope_1".to_string())
        .unwrap();
    assert!(collection_3.get_document(&db, "foo").is_err()); // Document 2 not in collection 3 even though collections 2 & 3 are in the same scope

    let mut doc_3 = Document::new_with_id("foo");
    sample_properties(&mut doc_3);
    collection_3
        .save_document(&mut db, &mut doc_3)
        .expect("save_document");

    assert!(collection_3.get_document(&db, "foo").is_ok());

    // Delete documents
    assert!(collection_1.delete_document(&mut db, &doc_1).is_ok());
    assert!(collection_1.get_document(&db, "foo").unwrap().is_deleted());

    assert!(collection_2.delete_document(&mut db, &doc_2).is_ok());
    assert!(collection_2.get_document(&db, "foo").unwrap().is_deleted());

    assert!(collection_3.delete_document(&mut db, &doc_3).is_ok());
    assert!(collection_3.get_document(&db, "foo").unwrap().is_deleted());
}

#[test]
fn collection_names_scenario() {
    let mut db = with_db();
    db.create_collection("c1".to_string(), "_default".to_string())
        .unwrap();
    assert_eq!(
        db.collection_names("_default".to_string()).unwrap(),
        vec!["_default".to_string(), "c1".to_string()]
    );
    let refused = db
        .delete_collection("_default".to_string(), "_default".to_string())
        .unwrap_err();
    assert_eq!(
        refused.code,
        ErrorCode::CouchbaseLite(CouchbaseLiteError::InvalidParameter)
    );
    assert!(db
        .delete_collection("nowhere".to_string(), "_default".to_string())
        .is_ok());
    assert_eq!(
        db.collection_names("_default".to_string()).unwrap(),
        vec!["_default".to_string(), "c1".to_string()]
    );
}

#[test]
fn collection_naming_rule() {
    let mut db = with_db();
    let long_ok = "a".repeat(251);
    let too_long = "a".repeat(252);
    assert!(db
        .create_collection(long_ok, "_default".to_string())
        .is_ok());
    for bad in [
        "".to_string(),
        too_long,
        "_hidden".to_string(),
        "%percent".to_string(),
        "with space".to_string(),
        "dot.ted".to_string(),
        "caf\u{e9}".to_string(),
    ] {
        let e = db
            .create_collection(bad.clone(), "_default".to_string())
            .unwrap_err();
        assert_eq!(
            e.code,
            ErrorCode::CouchbaseLite(CouchbaseLiteError::InvalidParameter)
        );
        assert!(db.create_collection("fine".to_string(), bad).is_err());
    }
    for good in ["A", "z9", "a_b", "a-b", "a%b", "0start"] {
        assert!(db
            .create_collection(good.to_string(), "scope-1".to_string())
            .is_ok());
    }
    // The default name is a collection's name in the default scope only.
    assert!(db
        .create_collection("_default".to_string(), "scope-1".to_string())
        .is_err());
}

#[test]
fn collection_handle_outlives_nothing() {
    let mut db = with_db();
    let first = db
        .create_collection("c".to_string(), "s".to_string())
        .unwrap();
    let mut doc = Document::new_with_id("d");
    first.save_document(&mut db, &mut doc).unwrap();
    db.delete_collection("c".to_string(), "s".to_string())
        .unwrap();
    assert!(!first.is_valid(&db));
    let e = first.get_document(&db, "d").unwrap_err();
    assert_eq!(e.code, ErrorCode::CouchbaseLite(CouchbaseLiteError::NotOpen));
    assert_eq!(first.count(&db), 0);
    // A later collection of the same name is another collection.
    let second = db
        .create_collection("c".to_string(), "s".to_string())
        .unwrap();
    assert_ne!(first.key, second.key);
    assert!(!first.is_valid(&db));
    assert!(second.is_valid(&db));
    assert!(second.get_document(&db, "d").is_err());
    assert_eq!(second.full_name(), "s.c");
}
