use couchbase_lite::codec::decode;
use couchbase_lite::encryptable::Encryptable;
use couchbase_lite::error::{ErrorCode, FleeceError};
use couchbase_lite::value::{Dict, Entry, Value};

fn sample() -> Value {
    let mut inner = Dict::new();
    inner.set("street".to_string(), Value::String("1 Main St".to_string()));
    inner.set("zip".to_string(), Value::Int(-12345));
    let mut d = Dict::new();
    d.set("name".to_string(), Value::String("Zo\u{eb} \u{1f600}".to_string()));
    d.set("ok".to_string(), Value::Bool(true));
    d.set("no".to_string(), Value::Bool(false));
    d.set("none".to_string(), Value::Null);
    d.set("big".to_string(), Value::UInt(u64::MAX));
    d.set("min".to_string(), Value::Int(i64::MIN));
    d.set("max".to_string(), Value::Int(i64::MAX));
    d.set(
        "list".to_string(),
        Value::Array(vec![Value::Int(1), Value::Array(vec![]), Value::Dict(inner)]),
    );
    d.set("".to_string(), Value::String(String::new()));
    Value::Dict(d)
}

#[test]
fn codec_exact_bytes() {
    assert_eq!(Value::Null.encode(), vec![0]);
    assert_eq!(Value::Bool(false).encode(), vec![1]);
    assert_eq!(Value::Bool(true).encode(), vec![2]);
    assert_eq!(
        Value::Int(0).encode(),
        vec![3, 0, 0, 0, 0, 0, 0, 0, 0x80]
    );
    assert_eq!(
        Value::Int(-1).encode(),
        vec![3, 0xff, 0xff, 0xff, 0xff, 0xff, 0xff, 0xff, 0x7f]
    );
    assert_eq!(
        Value::Int(i64::MIN).encode(),
        vec![3, 0, 0, 0, 0, 0, 0, 0, 0]
    );
    assert_eq!(
        Value::UInt(258).encode(),
        vec![7, 2, 1, 0, 0, 0, 0, 0, 0]
    );
    assert_eq!(
        Value::String("h\u{e9}".to_string()).encode(),
        vec![4, 3, 0, 0, 0, 0, 0, 0, 0, b'h', 0xc3, 0xa9]
    );
    assert_eq!(
        Value::Array(vec![Value::Null, Value::Bool(true)]).encode(),
        vec![5, 2, 0, 0, 0, 0, 0, 0, 0, 0, 2]
    );
    let mut d = Dict::new();
    d.set("k".to_string(), Value::Null);
    assert_eq!(
        d.encode(),
        vec![6, 1, 0, 0, 0, 0, 0, 0, 0, 1, 0, 0, 0, 0, 0, 0, 0, b'k', 0]
    );
    assert_eq!(Value::Dict(d).encode().len(), 19);
}

#[test]
fn codec_round_trip() {
    let v = sample();
    let bytes = v.encode();
    let back = decode(&bytes).unwrap();
    assert!(back.equals(&v));
    assert_eq!(back.encode(), bytes);
    for simple in [
        Value::Null,
        Value::Bool(true),
        Value::Bool(false),
        Value::Int(-7),
        Value::UInt(7),
        Value::String("text".to_string()),
        Value::Array(vec![]),
        Value::Dict(Dict::new()),
    ] {
        let back = decode(&simple.encode()).unwrap();
        assert!(back.equals(&simple));
    }
    // A string comes back as the string, not as its bytes.
    match decode(&Value::String("caf\u{e9}".to_string()).encode()).unwrap() {
        Value::String(s) => assert_eq!(s, "caf\u{e9}"),
        _ => panic!("not a string"),
    }
    // Int and UInt of the same number are different values.
    assert!(!decode(&Value::Int(5).encode())
        .unwrap()
        .equals(&Value::UInt(5)));
}

#[test]
fn codec_rejects_malformed() {
    let bad: Vec<Vec<u8>> = vec![
        vec![],
        vec![8],
        vec![255],
        vec![0, 0],
        vec![3, 1, 2, 3],
        vec![7, 0, 0, 0, 0, 0, 0, 0],
        vec![4, 2, 0, 0, 0, 0, 0, 0, 0, b'a'],
        vec![4, 1, 0, 0, 0, 0, 0, 0, 0, 0xff],
        vec![4, 2, 0, 0, 0, 0, 0, 0, 0, 0xc3, 0x28],
        vec![4, 0xff, 0xff, 0xff, 0xff, 0xff, 0xff, 0xff, 0xff],
        vec![5, 1, 0, 0, 0, 0, 0, 0, 0],
        vec![5, 2, 0, 0, 0, 0, 0, 0, 0, 0, 9],
        vec![5, 0xff, 0xff, 0xff, 0xff, 0xff, 0xff, 0xff, 0xff, 0],
        vec![6, 1, 0, 0, 0, 0, 0, 0, 0, 1, 0, 0, 0, 0, 0, 0, 0, b'k'],
        vec![6, 1, 0, 0, 0, 0, 0, 0, 0, 1, 0, 0, 0, 0, 0, 0, 0, 0x80, 0],
        vec![6, 1, 0, 0, 0, 0, 0, 0, 0, 0],
    ];
    for bytes in bad {
        let e = decode(&bytes).unwrap_err();
        assert_eq!(e.code, ErrorCode::Fleece(FleeceError::InvalidData));
        assert_eq!(e.internal_info, None);
    }
    // Every proper beginning of an encoding is malformed.
    let bytes = sample().encode();
    for cut in 0..bytes.len() {
        assert!(decode(&bytes[..cut]).is_err());
    }
    let mut longer = bytes.clone();
    longer.push(0);
    assert!(decode(&longer).is_err());
}

#[test]
fn value_accessors() {
    assert!(Value::Null.is_null());
    assert!(!Value::Int(0).is_null());
    assert_eq!(Value::Bool(true).as_bool_or_false(), true);
    assert_eq!(Value::Int(1).as_bool_or_false(), false);
    assert_eq!(Value::Int(-9).as_i64_or_0(), -9);
    assert_eq!(Value::UInt(9).as_i64_or_0(), 0);
    assert_eq!(Value::String("s".to_string()).as_string(), Some("s"));
    assert_eq!(Value::Null.as_string(), None);
    let v = sample();
    let copy = v.deep_clone();
    assert!(copy.equals(&v));
    assert!(!copy.equals(&Value::Null));
    assert!(!Value::Array(vec![Value::Int(1)]).equals(&Value::Array(vec![Value::Int(2)])));
    assert!(!Value::Array(vec![Value::Int(1)]).equals(&Value::Array(vec![])));
}

#[test]
fn dict_operations() {
    let mut d = Dict::new();
    assert!(d.empty());
    assert_eq!(d.count(), 0);
    assert!(d.get("a").is_none());
    d.set("a".to_string(), Value::Int(1));
    d.set("b".to_string(), Value::Int(2));
    d.set("a".to_string(), Value::Int(3));
    assert_eq!(d.count(), 2);
    assert!(!d.empty());
    assert_eq!(d.keys(), vec!["a".to_string(), "b".to_string()]);
    assert_eq!(d.get("a").unwrap().as_i64_or_0(), 3);
    assert_eq!(d.get("b").unwrap().as_i64_or_0(), 2);
    assert!(d.contains_key("b"));
    assert!(!d.contains_key("c"));
    assert!(!d.remove("c"));
    assert!(d.remove("a"));
    assert_eq!(d.keys(), vec!["b".to_string()]);
    assert!(d.get("a").is_none());
    let copy = d.deep_clone();
    assert!(copy.equals(&d));
    d.set("z".to_string(), Value::Null);
    assert!(!copy.equals(&d));
    // A key is looked up at its first entry.
    let twice = Dict {
        entries: vec![
            Entry { key: "k".to_string(), value: Value::Int(1) },
            Entry { key: "k".to_string(), value: Value::Int(2) },
        ],
    };
    assert_eq!(twice.get("k").unwrap().as_i64_or_0(), 1);
}

#[test]
fn encryptable_values() {
    assert!(Encryptable::create_with_null().get_value().is_null());
    assert!(Encryptable::create_with_bool(true).get_value().as_bool_or_false());
    assert_eq!(Encryptable::create_with_int(-4).get_value().as_i64_or_0(), -4);
    assert!(Encryptable::create_with_uint(4).get_value().equals(&Value::UInt(4)));
    assert_eq!(
        Encryptable::create_with_string("s").get_value().as_string(),
        Some("s")
    );
    assert!(Encryptable::create_with_value(Value::Int(1))
        .get_value()
        .equals(&Value::Int(1)));
    assert!(Encryptable::create_with_array(vec![Value::Null])
        .get_value()
        .equals(&Value::Array(vec![Value::Null])));
    let e = Encryptable::create_with_dict(Dict::new());
    let properties = e.get_properties();
    assert_eq!(properties.keys(), vec!["@type".to_string(), "value".to_string()]);
    assert_eq!(properties.get("@type").unwrap().as_string(), Some("encryptable"));
    assert!(properties.get("value").unwrap().equals(&Value::Dict(Dict::new())));
}
