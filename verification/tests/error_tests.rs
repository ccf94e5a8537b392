use couchbase_lite::error::{
    check_bool, check_error, check_failure, check_io, check_ptr, failure, CBLError,
    CouchbaseLiteError, Error, ErrorCode, FleeceError, NetworkError,
};

fn native(domain: u8, code: i32) -> CBLError {
    CBLError { domain, code, internal_info: 7 }
}

#[test]
fn error_new_translates_each_domain() {
    assert_eq!(
        Error::new(&native(1, 7)).code,
        ErrorCode::CouchbaseLite(CouchbaseLiteError::NotFound)
    );
    assert_eq!(Error::new(&native(2, 13)).code, ErrorCode::POSIX(13));
    assert_eq!(Error::new(&native(3, 5)).code, ErrorCode::SQLite(5));
    assert_eq!(
        Error::new(&native(4, 5)).code,
        ErrorCode::Fleece(FleeceError::JSONError)
    );
    assert_eq!(
        Error::new(&native(5, 3)).code,
        ErrorCode::Network(NetworkError::Timeout)
    );
    assert_eq!(Error::new(&native(6, 404)).code, ErrorCode::WebSocket(404));
    assert_eq!(Error::new(&native(1, 7)).internal_info, Some(7));
}

#[test]
fn error_new_untranslatable() {
    let unknown = ErrorCode::CouchbaseLite(CouchbaseLiteError::UntranslatableError);
    assert_eq!(Error::new(&native(0, 1)).code, unknown);
    assert_eq!(Error::new(&native(7, 1)).code, unknown);
    assert_eq!(Error::new(&native(1, 0)).code, unknown);
    assert_eq!(Error::new(&native(1, 31)).code, unknown);
    assert_eq!(Error::new(&native(1, -1)).code, unknown);
    assert_eq!(Error::new(&native(1, 1000)).code, unknown);
    assert_eq!(Error::new(&native(4, 12)).code, unknown);
    assert_eq!(Error::new(&native(5, 16)).code, unknown);
    assert_eq!(Error::default().code, unknown);
    assert_eq!(Error::default().internal_info, Some(0));
    assert_eq!(ErrorCode::untranslatable(), unknown);
}

#[test]
fn error_codes_round_trip() {
    for n in 1..=30 {
        let e = CouchbaseLiteError::from_i32(n).unwrap();
        assert_eq!(e.code(), n);
    }
    assert_eq!(CouchbaseLiteError::from_i32(8), Some(CouchbaseLiteError::Conflict));
    assert_eq!(CouchbaseLiteError::from_i32(22), Some(CouchbaseLiteError::Crypto));
    assert_eq!(CouchbaseLiteError::from_i32(31), None);
    assert_eq!(CouchbaseLiteError::UntranslatableError.code(), 1000);
    for n in 1..=11 {
        assert_eq!(FleeceError::from_i32(n).unwrap().code(), n);
    }
    assert_eq!(FleeceError::from_i32(0), None);
    assert_eq!(FleeceError::from_i32(12), None);
    for n in 1..=15 {
        assert_eq!(NetworkError::from_i32(n).unwrap().code(), n);
    }
    assert_eq!(NetworkError::from_i32(16), None);
    assert_eq!(NetworkError::from_i32(15), Some(NetworkError::TLSCertNameMismatch));
}

#[test]
fn error_as_cbl_error() {
    let e = Error::cbl_error(CouchbaseLiteError::Busy);
    assert_eq!(e.internal_info, None);
    assert_eq!(
        e.as_cbl_error(),
        CBLError { domain: 1, code: 16, internal_info: 0 }
    );
    assert_eq!(
        Error::fleece_error(8).as_cbl_error(),
        CBLError { domain: 4, code: 8, internal_info: 0 }
    );
    assert_eq!(
        Error::fleece_error(99).code,
        ErrorCode::CouchbaseLite(CouchbaseLiteError::UntranslatableError)
    );
    let posix = Error { code: ErrorCode::POSIX(-2), internal_info: Some(9) };
    assert_eq!(
        posix.as_cbl_error(),
        CBLError { domain: 2, code: -2, internal_info: 9 }
    );
    let sqlite = Error { code: ErrorCode::SQLite(14), internal_info: None };
    assert_eq!(sqlite.as_cbl_error().domain, 3);
    let net = Error { code: ErrorCode::Network(NetworkError::Unknown), internal_info: None };
    assert_eq!(
        net.as_cbl_error(),
        CBLError { domain: 5, code: 13, internal_info: 0 }
    );
    let ws = Error { code: ErrorCode::WebSocket(1001), internal_info: None };
    assert_eq!(ws.as_cbl_error().domain, 6);
    assert_eq!(ws.as_cbl_error().code, 1001);
    // There and back
    let back = Error::new(&e.as_cbl_error());
    assert_eq!(back.code, e.code);
}

#[test]
fn error_message() {
    let unknown = Error::default();
    assert!(unknown.is_untranslatable());
    let text = unknown.message(|_| unreachable!());
    assert_eq!(text, "Unknown error");
    let e = Error::cbl_error(CouchbaseLiteError::NotFound);
    assert!(!e.is_untranslatable());
    let text = e.message(|numeric| format!("{}/{}", numeric.domain, numeric.code));
    assert_eq!(text, "1/7");
}

#[test]
fn check_functions() {
    let clear = CBLError::default();
    assert!(clear.is_clear());
    let err = native(1, 8);
    assert!(!err.is_clear());
    assert_eq!(check_failure(true, &err), Ok(()));
    assert_eq!(
        check_failure(false, &err).unwrap_err().code,
        ErrorCode::CouchbaseLite(CouchbaseLiteError::Conflict)
    );
    assert_eq!(check_error(&clear), Ok(()));
    assert_eq!(check_error(&native(0, 5)), Ok(()));
    assert_eq!(check_error(&native(5, 0)), Ok(()));
    assert_eq!(
        check_error(&native(5, 2)).unwrap_err().code,
        ErrorCode::Network(NetworkError::UnknownHost)
    );
    let failed: Result<u8, Error> = failure(native(3, 11));
    assert_eq!(failed.unwrap_err().code, ErrorCode::SQLite(11));
    assert_eq!(check_bool(|| (true, CBLError::default())), Ok(()));
    assert_eq!(
        check_bool(|| (false, native(1, 6))).unwrap_err().code,
        ErrorCode::CouchbaseLite(CouchbaseLiteError::NotOpen)
    );
    assert_eq!(
        check_ptr(|| (Some(20u32), CBLError::default()), |p| p + 1),
        Ok(21)
    );
    assert_eq!(
        check_ptr(|| (None::<u32>, native(1, 7)), |p| p + 1)
            .unwrap_err()
            .code,
        ErrorCode::CouchbaseLite(CouchbaseLiteError::NotFound)
    );
    assert_eq!(check_io(|| (12, CBLError::default())), Ok(12));
    assert_eq!(check_io(|| (0, CBLError::default())), Ok(0));
    assert_eq!(
        check_io(|| (-1, native(2, 5))).unwrap_err().code,
        ErrorCode::POSIX(5)
    );
}
