use couchbase_lite::database::Database;
use couchbase_lite::error::{CouchbaseLiteError, ErrorCode};
use couchbase_lite::index::{ArrayIndexConfiguration, QueryLanguage, ValueIndexConfiguration};

fn with_db() -> Database {
    Database::open("test_db", None).unwrap()
}

#[test]
fn get_index() {
    let mut db = with_db();
    // Default collection
    let default_collection = db.default_collection().unwrap().unwrap();
    assert!(default_collection
        .create_index(
            &mut db,
            "new_index1",
            &ValueIndexConfiguration::new(QueryLanguage::JSON, r#"[[".someField"]]"#),
        )
        .unwrap());

    let index1 = default_collection.get_index(&db, "new_index1").unwrap();
    assert_eq!(index1.name(), "new_index1");
    assert_eq!(
        index1.collection().full_name(),
        default_collection.full_name()
    );

    // New collection
    let new_coll = db
        .create_collection(String::from("coll"), String::from("scop"))
        .unwrap();

    assert!(new_coll
        .create_index(
            &mut db,
            "new_index2",
            &ValueIndexConfiguration::new(QueryLanguage::JSON, r#"[[".someField2"]]"#),
        )
        .unwrap());

    let index2 = new_coll.get_index(&db, "new_index2").unwrap();
    assert_eq!(index2.name(), "new_index2");
    assert_eq!(index2.collection().full_name(), new_coll.full_name());

    let missing = new_coll.get_index(&db, "new_index1").unwrap_err();
    assert_eq!(
        missing.code,
        ErrorCode::CouchbaseLite(CouchbaseLiteError::MissingIndex)
    );
}

#[test]
fn full_index() {
    let mut db = with_db();
    assert!(db
        .create_index(
            "new_index",
            &ValueIndexConfiguration::new(QueryLanguage::JSON, r#"[[".someField"]]"#),
        )
        .unwrap());

    // Check index creation
    let names = db.get_index_names();
    let name = names.iter().next().unwrap();
    assert_eq!(name, "new_index");

    // Check index deletion
    assert_eq!(db.get_index_names().len(), 1);

    db.delete_index("idx").unwrap();
    assert_eq!(db.get_index_names().len(), 1);

    db.delete_index("new_index").unwrap();
    assert_eq!(db.get_index_names().len(), 0);
}

#[test]
fn partial_index() {
    let mut db = with_db();
    assert!(db
        .create_index(
            "new_index",
            &ValueIndexConfiguration::new(
                QueryLanguage::JSON,
                r#"{"WHAT": [[".id"]], "WHERE": ["=", [".someField"], "someValue"]}"#,
            ),
        )
        .unwrap());

    // Check index creation
    let names = db.get_index_names();
    let name = names.iter().next().unwrap();
    assert_eq!(name, "new_index");
}

#[test]
fn array_index() {
    let mut db = with_db();
    let default_collection = db.default_collection().unwrap().unwrap();

    let index_configuration =
        ArrayIndexConfiguration::new(QueryLanguage::N1QL, "likes", "").unwrap();
    assert!(default_collection
        .create_array_index(&mut db, "one_level", &index_configuration)
        .unwrap());

    let index_configuration =
        ArrayIndexConfiguration::new(QueryLanguage::N1QL, "contacts[].phones", "type").unwrap();
    assert!(default_collection
        .create_array_index(&mut db, "two_levels", &index_configuration)
        .unwrap());

    assert_eq!(
        default_collection.get_index_names(&db).unwrap(),
        vec!["one_level".to_string(), "two_levels".to_string()]
    );
}

#[test]
fn index_creation_is_idempotent() {
    let mut db = with_db();
    let c = db.default_collection().unwrap().unwrap();
    let config = ValueIndexConfiguration::new(QueryLanguage::JSON, r#"[[".a"]]"#);
    assert!(c.create_index(&mut db, "i1", &config).unwrap());
    assert!(c.create_index(&mut db, "i2", &config).unwrap());
    assert!(c.create_index(&mut db, "i1", &config).unwrap());
    assert_eq!(
        c.get_index_names(&db).unwrap(),
        vec!["i1".to_string(), "i2".to_string()]
    );
    // Another definition under the same name replaces the index at its place.
    let other = ValueIndexConfiguration::new(QueryLanguage::N1QL, "b");
    assert!(c.create_index(&mut db, "i1", &other).unwrap());
    assert_eq!(
        c.get_index_names(&db).unwrap(),
        vec!["i1".to_string(), "i2".to_string()]
    );
    // Deleting an index that does not exist succeeds.
    assert!(c.delete_index(&mut db, "nothing").unwrap());
    assert!(c.delete_index(&mut db, "i1").unwrap());
    assert_eq!(c.get_index_names(&db).unwrap(), vec!["i2".to_string()]);
}

#[test]
fn index_configuration_errors() {
    let mut db = with_db();
    let c = db.default_collection().unwrap().unwrap();
    let empty = ValueIndexConfiguration::new(QueryLanguage::JSON, "");
    let e = c.create_index(&mut db, "i", &empty).unwrap_err();
    assert_eq!(
        e.code,
        ErrorCode::CouchbaseLite(CouchbaseLiteError::InvalidParameter)
    );
    let fine = ValueIndexConfiguration::new(QueryLanguage::JSON, "[]");
    assert!(c.create_index(&mut db, "", &fine).is_err());
    assert!(ArrayIndexConfiguration::new(QueryLanguage::N1QL, "a\0b", "").is_err());
    assert!(ArrayIndexConfiguration::new(QueryLanguage::N1QL, "ab", "x\0").is_err());
    let no_path = ArrayIndexConfiguration::new(QueryLanguage::N1QL, "", "x").unwrap();
    assert!(c.create_array_index(&mut db, "i", &no_path).is_err());
    assert_eq!(QueryLanguage::JSON.code(), 0);
    assert_eq!(QueryLanguage::N1QL.code(), 1);
}
