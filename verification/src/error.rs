//! Errors of the database engine: the numeric form in which the engine
//! reports them, the typed form that callers see, and the translation
//! between the two.

use vstd::prelude::*;

verus! {

/// Domain of the engine's own error codes.
pub const CBL_DOMAIN: u8 = 1;

/// Domain of POSIX `errno` values.
pub const POSIX_DOMAIN: u8 = 2;

/// Domain of SQLite status codes.
pub const SQLITE_DOMAIN: u8 = 3;

/// Domain of the value codec's error codes.
pub const FLEECE_DOMAIN: u8 = 4;

/// Domain of network error codes.
pub const NETWORK_DOMAIN: u8 = 5;

/// Domain of WebSocket close codes and HTTP statuses.
pub const WEBSOCKET_DOMAIN: u8 = 6;

/// Code under which an error that has no typed form is reported.
pub const UNTRANSLATABLE_CODE: i32 = 1000;

/// WebSocket status that stands for "service unavailable, try again".
pub const WEBSOCKET_UNAVAILABLE: i32 = 503;

/// An error in numeric form: a domain, a code within that domain, and an
/// internal tag that is carried through unchanged. Code 0 means "no error".
#[derive(Clone, Copy, Debug, PartialEq, Eq, Structural)]
pub struct CBLError {
    pub domain: u8,
    pub code: i32,
    pub internal_info: u32,
}

/// Error codes of the engine itself.
#[derive(Clone, Copy, Debug, PartialEq, Eq, Structural)]
pub enum CouchbaseLiteError {
    /// Internal assertion failure
    AssertionFailed,
    /// An unimplemented API call
    Unimplemented,
    /// Unsupported encryption algorithm
    UnsupportedEncryption,
    /// Invalid revision ID syntax
    BadRevisionID,
    /// Revision contains corrupted/unreadable data
    CorruptRevisionData,
    /// Database/KeyStore/index is not open
    NotOpen,
    /// Document not found
    NotFound,
    /// Document update conflict
    Conflict,
    /// Invalid function parameter or struct value
    InvalidParameter,
    /// Internal unexpected exception
    UnexpectedError,
    /// Database file can't be opened; may not exist
    CantOpenFile,
    /// File I/O error
    IOError,
    /// Memory allocation failed
    MemoryError,
    /// File is not writeable
    NotWriteable,
    /// Data is corrupted
    CorruptData,
    /// Database is busy/locked
    Busy,
    /// Function must be called while in a transaction
    NotInTransaction,
    /// Database can't be closed while a transaction is open
    TransactionNotClosed,
    /// Operation not supported in this database
    Unsupported,
    /// File is not a database, or encryption key is wrong
    NotADatabaseFile,
    /// Database exists but not in the format/storage requested
    WrongFormat,
    /// Encryption/decryption error
    Crypto,
    /// Invalid query
    InvalidQuery,
    /// No such index, or query requires a nonexistent index
    MissingIndex,
    /// Unknown query param name, or param number out of range
    InvalidQueryParam,
    /// Unknown error from remote server
    RemoteError,
    /// Database file format is older than what can be opened
    DatabaseTooOld,
    /// Database file format is newer than what can be opened
    DatabaseTooNew,
    /// Invalid document ID
    BadDocID,
    /// Database can't be upgraded
    CantUpgradeDatabase,
    /// The numeric error has no typed form (unknown domain or code)
    UntranslatableError,
}

impl CouchbaseLiteError {
    /// The number under which the engine reports this error.
    pub open spec fn spec_code(self) -> int {
        match self {
            CouchbaseLiteError::AssertionFailed => 1,
            CouchbaseLiteError::Unimplemented => 2,
            CouchbaseLiteError::UnsupportedEncryption => 3,
            CouchbaseLiteError::BadRevisionID => 4,
            CouchbaseLiteError::CorruptRevisionData => 5,
            CouchbaseLiteError::NotOpen => 6,
            CouchbaseLiteError::NotFound => 7,
            CouchbaseLiteError::Conflict => 8,
            CouchbaseLiteError::InvalidParameter => 9,
            CouchbaseLiteError::UnexpectedError => 10,
            CouchbaseLiteError::CantOpenFile => 11,
            CouchbaseLiteError::IOError => 12,
            CouchbaseLiteError::MemoryError => 13,
            CouchbaseLiteError::NotWriteable => 14,
            CouchbaseLiteError::CorruptData => 15,
            CouchbaseLiteError::Busy => 16,
            CouchbaseLiteError::NotInTransaction => 17,
            CouchbaseLiteError::TransactionNotClosed => 18,
            CouchbaseLiteError::Unsupported => 19,
            CouchbaseLiteError::NotADatabaseFile => 20,
            CouchbaseLiteError::WrongFormat => 21,
            CouchbaseLiteError::Crypto => 22,
            CouchbaseLiteError::InvalidQuery => 23,
            CouchbaseLiteError::MissingIndex => 24,
            CouchbaseLiteError::InvalidQueryParam => 25,
            CouchbaseLiteError::RemoteError => 26,
            CouchbaseLiteError::DatabaseTooOld => 27,
            CouchbaseLiteError::DatabaseTooNew => 28,
            CouchbaseLiteError::BadDocID => 29,
            CouchbaseLiteError::CantUpgradeDatabase => 30,
            CouchbaseLiteError::UntranslatableError => 1000,
        }
    }

    /// The number under which the engine reports this error.
    pub fn code(self) -> (n: i32)
        ensures
            n == self.spec_code(),
    {
        match self {
            CouchbaseLiteError::AssertionFailed => 1,
            CouchbaseLiteError::Unimplemented => 2,
            CouchbaseLiteError::UnsupportedEncryption => 3,
            CouchbaseLiteError::BadRevisionID => 4,
            CouchbaseLiteError::CorruptRevisionData => 5,
            CouchbaseLiteError::NotOpen => 6,
            CouchbaseLiteError::NotFound => 7,
            CouchbaseLiteError::Conflict => 8,
            CouchbaseLiteError::InvalidParameter => 9,
            CouchbaseLiteError::UnexpectedError => 10,
            CouchbaseLiteError::CantOpenFile => 11,
            CouchbaseLiteError::IOError => 12,
            CouchbaseLiteError::MemoryError => 13,
            CouchbaseLiteError::NotWriteable => 14,
            CouchbaseLiteError::CorruptData => 15,
            CouchbaseLiteError::Busy => 16,
            CouchbaseLiteError::NotInTransaction => 17,
            CouchbaseLiteError::TransactionNotClosed => 18,
            CouchbaseLiteError::Unsupported => 19,
            CouchbaseLiteError::NotADatabaseFile => 20,
            CouchbaseLiteError::WrongFormat => 21,
            CouchbaseLiteError::Crypto => 22,
            CouchbaseLiteError::InvalidQuery => 23,
            CouchbaseLiteError::MissingIndex => 24,
            CouchbaseLiteError::InvalidQueryParam => 25,
            CouchbaseLiteError::RemoteError => 26,
            CouchbaseLiteError::DatabaseTooOld => 27,
            CouchbaseLiteError::DatabaseTooNew => 28,
            CouchbaseLiteError::BadDocID => 29,
            CouchbaseLiteError::CantUpgradeDatabase => 30,
            CouchbaseLiteError::UntranslatableError => UNTRANSLATABLE_CODE,
        }
    }

    /// The error that the engine reports under `n`, if there is one.
    pub fn from_i32(n: i32) -> (res: Option<Self>)
        ensures
            match res {
                Some(e) => e.spec_code() == n,
                None => forall|e: CouchbaseLiteError| e.spec_code() != n,
            },
    {
        match n {
            1 => Some(CouchbaseLiteError::AssertionFailed),
            2 => Some(CouchbaseLiteError::Unimplemented),
            3 => Some(CouchbaseLiteError::UnsupportedEncryption),
            4 => Some(CouchbaseLiteError::BadRevisionID),
            5 => Some(CouchbaseLiteError::CorruptRevisionData),
            6 => Some(CouchbaseLiteError::NotOpen),
            7 => Some(CouchbaseLiteError::NotFound),
            8 => Some(CouchbaseLiteError::Conflict),
            9 => Some(CouchbaseLiteError::InvalidParameter),
            10 => Some(CouchbaseLiteError::UnexpectedError),
            11 => Some(CouchbaseLiteError::CantOpenFile),
            12 => Some(CouchbaseLiteError::IOError),
            13 => Some(CouchbaseLiteError::MemoryError),
            14 => Some(CouchbaseLiteError::NotWriteable),
            15 => Some(CouchbaseLiteError::CorruptData),
            16 => Some(CouchbaseLiteError::Busy),
            17 => Some(CouchbaseLiteError::NotInTransaction),
            18 => Some(CouchbaseLiteError::TransactionNotClosed),
            19 => Some(CouchbaseLiteError::Unsupported),
            20 => Some(CouchbaseLiteError::NotADatabaseFile),
            21 => Some(CouchbaseLiteError::WrongFormat),
            22 => Some(CouchbaseLiteError::Crypto),
            23 => Some(CouchbaseLiteError::InvalidQuery),
            24 => Some(CouchbaseLiteError::MissingIndex),
            25 => Some(CouchbaseLiteError::InvalidQueryParam),
            26 => Some(CouchbaseLiteError::RemoteError),
            27 => Some(CouchbaseLiteError::DatabaseTooOld),
            28 => Some(CouchbaseLiteError::DatabaseTooNew),
            29 => Some(CouchbaseLiteError::BadDocID),
            30 => Some(CouchbaseLiteError::CantUpgradeDatabase),
            1000 => Some(CouchbaseLiteError::UntranslatableError),
            _ => None,
        }
    }
}

/// Error codes of the value codec.
#[derive(Clone, Copy, Debug, PartialEq, Eq, Structural)]
pub enum FleeceError {
    /// Out of memory, or allocation failed
    MemoryError,
    /// Array index or iterator out of range
    OutOfRange,
    /// Bad input data (non-string key, etc.)
    InvalidData,
    /// Structural error encoding (missing value, too many ends, etc.)
    EncodeError,
    /// Error parsing JSON
    JSONError,
    /// Unparseable data in a value
    UnknownValue,
    /// Something that shouldn't happen
    InternalError,
    /// Key not found
    NotFound,
    /// Misuse of shared keys (not in transaction, etc.)
    SharedKeysStateError,
    /// Something went wrong at the OS level (file I/O, etc.)
    POSIXError,
    /// Operation is unsupported
    Unsupported,
}

impl FleeceError {
    /// The number under which the codec reports this error.
    pub open spec fn spec_code(self) -> int {
        match self {
            FleeceError::MemoryError => 1,
            FleeceError::OutOfRange => 2,
            FleeceError::InvalidData => 3,
            FleeceError::EncodeError => 4,
            FleeceError::JSONError => 5,
            FleeceError::UnknownValue => 6,
            FleeceError::InternalError => 7,
            FleeceError::NotFound => 8,
            FleeceError::SharedKeysStateError => 9,
            FleeceError::POSIXError => 10,
            FleeceError::Unsupported => 11,
        }
    }

    /// The number under which the codec reports this error.
    pub fn code(self) -> (n: i32)
        ensures
            n == self.spec_code(),
    {
        match self {
            FleeceError::MemoryError => 1,
            FleeceError::OutOfRange => 2,
            FleeceError::InvalidData => 3,
            FleeceError::EncodeError => 4,
            FleeceError::JSONError => 5,
            FleeceError::UnknownValue => 6,
            FleeceError::InternalError => 7,
            FleeceError::NotFound => 8,
            FleeceError::SharedKeysStateError => 9,
            FleeceError::POSIXError => 10,
            FleeceError::Unsupported => 11,
        }
    }

    /// The error that the codec reports under `n`, if there is one.
    pub fn from_i32(n: i32) -> (res: Option<Self>)
        ensures
            match res {
                Some(e) => e.spec_code() == n,
                None => forall|e: FleeceError| e.spec_code() != n,
            },
    {
        match n {
            1 => Some(FleeceError::MemoryError),
            2 => Some(FleeceError::OutOfRange),
            3 => Some(FleeceError::InvalidData),
            4 => Some(FleeceError::EncodeError),
            5 => Some(FleeceError::JSONError),
            6 => Some(FleeceError::UnknownValue),
            7 => Some(FleeceError::InternalError),
            8 => Some(FleeceError::NotFound),
            9 => Some(FleeceError::SharedKeysStateError),
            10 => Some(FleeceError::POSIXError),
            11 => Some(FleeceError::Unsupported),
            _ => None,
        }
    }
}

/// Network error codes.
#[derive(Clone, Copy, Debug, PartialEq, Eq, Structural)]
pub enum NetworkError {
    /// DNS lookup failed
    DNSFailure,
    /// DNS server doesn't know the hostname
    UnknownHost,
    /// No response received before timeout
    Timeout,
    /// Invalid URL
    InvalidURL,
    /// HTTP redirect loop
    TooManyRedirects,
    /// Low-level error establishing TLS
    TLSHandshakeFailed,
    /// Server's TLS certificate has expired
    TLSCertExpired,
    /// Cert isn't trusted for other reason
    TLSCertUntrusted,
    /// Server requires client to have a TLS certificate
    TLSClientCertRequired,
    /// Server rejected the TLS client certificate
    TLSClientCertRejected,
    /// Self-signed cert, or unknown anchor cert
    TLSCertUnknownRoot,
    /// Attempted redirect to invalid URL
    InvalidRedirect,
    /// Unknown networking error
    Unknown,
    /// Server's cert has been revoked
    TLSCertRevoked,
    /// Server cert's name does not match DNS name
    TLSCertNameMismatch,
}

impl NetworkError {
    /// The number under which the engine reports this error.
    pub open spec fn spec_code(self) -> int {
        match self {
            NetworkError::DNSFailure => 1,
            NetworkError::UnknownHost => 2,
            NetworkError::Timeout => 3,
            NetworkError::InvalidURL => 4,
            NetworkError::TooManyRedirects => 5,
            NetworkError::TLSHandshakeFailed => 6,
            NetworkError::TLSCertExpired => 7,
            NetworkError::TLSCertUntrusted => 8,
            NetworkError::TLSClientCertRequired => 9,
            NetworkError::TLSClientCertRejected => 10,
            NetworkError::TLSCertUnknownRoot => 11,
            NetworkError::InvalidRedirect => 12,
            NetworkError::Unknown => 13,
            NetworkError::TLSCertRevoked => 14,
            NetworkError::TLSCertNameMismatch => 15,
        }
    }

    /// The number under which the engine reports this error.
    pub fn code(self) -> (n: i32)
        ensures
            n == self.spec_code(),
    {
        match self {
            NetworkError::DNSFailure => 1,
            NetworkError::UnknownHost => 2,
            NetworkError::Timeout => 3,
            NetworkError::InvalidURL => 4,
            NetworkError::TooManyRedirects => 5,
            NetworkError::TLSHandshakeFailed => 6,
            NetworkError::TLSCertExpired => 7,
            NetworkError::TLSCertUntrusted => 8,
            NetworkError::TLSClientCertRequired => 9,
            NetworkError::TLSClientCertRejected => 10,
            NetworkError::TLSCertUnknownRoot => 11,
            NetworkError::InvalidRedirect => 12,
            NetworkError::Unknown => 13,
            NetworkError::TLSCertRevoked => 14,
            NetworkError::TLSCertNameMismatch => 15,
        }
    }

    /// The error that the engine reports under `n`, if there is one.
    pub fn from_i32(n: i32) -> (res: Option<Self>)
        ensures
            match res {
                Some(e) => e.spec_code() == n,
                None => forall|e: NetworkError| e.spec_code() != n,
            },
    {
        match n {
            1 => Some(NetworkError::DNSFailure),
            2 => Some(NetworkError::UnknownHost),
            3 => Some(NetworkError::Timeout),
            4 => Some(NetworkError::InvalidURL),
            5 => Some(NetworkError::TooManyRedirects),
            6 => Some(NetworkError::TLSHandshakeFailed),
            7 => Some(NetworkError::TLSCertExpired),
            8 => Some(NetworkError::TLSCertUntrusted),
            9 => Some(NetworkError::TLSClientCertRequired),
            10 => Some(NetworkError::TLSClientCertRejected),
            11 => Some(NetworkError::TLSCertUnknownRoot),
            12 => Some(NetworkError::InvalidRedirect),
            13 => Some(NetworkError::Unknown),
            14 => Some(NetworkError::TLSCertRevoked),
            15 => Some(NetworkError::TLSCertNameMismatch),
            _ => None,
        }
    }
}

/// The domain and code of an error, in typed form.
#[derive(Clone, Copy, Debug, PartialEq, Eq, Structural)]
pub enum ErrorCode {
    CouchbaseLite(CouchbaseLiteError),
    POSIX(i32),
    SQLite(i32),
    Fleece(FleeceError),
    Network(NetworkError),
    WebSocket(i32),
}

/// An error of the engine, in typed form.
#[derive(Clone, Copy, Debug, PartialEq, Eq, Structural)]
pub struct Error {
    pub code: ErrorCode,
    pub internal_info: Option<u32>,
}

/// `Result` with this library's error type.
pub type Result<T> = std::result::Result<T, Error>;

impl ErrorCode {
    /// The typed form of a numeric domain and code. A pair that names no
    /// known error becomes `UntranslatableError`.
    pub open spec fn spec_new(domain: u8, code: i32) -> ErrorCode {
        if domain == CBL_DOMAIN {
            if exists|e: CouchbaseLiteError| e.spec_code() == code {
                ErrorCode::CouchbaseLite(choose|e: CouchbaseLiteError| e.spec_code() == code)
            } else {
                ErrorCode::spec_untranslatable()
            }
        } else if domain == NETWORK_DOMAIN {
            if exists|e: NetworkError| e.spec_code() == code {
                ErrorCode::Network(choose|e: NetworkError| e.spec_code() == code)
            } else {
                ErrorCode::spec_untranslatable()
            }
        } else if domain == POSIX_DOMAIN {
            ErrorCode::POSIX(code)
        } else if domain == SQLITE_DOMAIN {
            ErrorCode::SQLite(code)
        } else if domain == FLEECE_DOMAIN {
            ErrorCode::spec_from_fleece(code)
        } else if domain == WEBSOCKET_DOMAIN {
            ErrorCode::WebSocket(code)
        } else {
            ErrorCode::spec_untranslatable()
        }
    }

    /// The typed form of a codec error code.
    pub open spec fn spec_from_fleece(code: i32) -> ErrorCode {
        if exists|e: FleeceError| e.spec_code() == code {
            ErrorCode::Fleece(choose|e: FleeceError| e.spec_code() == code)
        } else {
            ErrorCode::spec_untranslatable()
        }
    }

    /// The code that stands for an error without a typed form.
    pub open spec fn spec_untranslatable() -> ErrorCode {
        ErrorCode::CouchbaseLite(CouchbaseLiteError::UntranslatableError)
    }

    /// The numeric domain of this code.
    pub open spec fn spec_domain(self) -> u8 {
        match self {
            ErrorCode::CouchbaseLite(_) => CBL_DOMAIN,
            ErrorCode::POSIX(_) => POSIX_DOMAIN,
            ErrorCode::SQLite(_) => SQLITE_DOMAIN,
            ErrorCode::Fleece(_) => FLEECE_DOMAIN,
            ErrorCode::Network(_) => NETWORK_DOMAIN,
            ErrorCode::WebSocket(_) => WEBSOCKET_DOMAIN,
        }
    }

    /// The number of this code within its domain.
    pub open spec fn spec_number(self) -> int {
        match self {
            ErrorCode::CouchbaseLite(e) => e.spec_code(),
            ErrorCode::POSIX(n) => n as int,
            ErrorCode::SQLite(n) => n as int,
            ErrorCode::Fleece(e) => e.spec_code(),
            ErrorCode::Network(e) => e.spec_code(),
            ErrorCode::WebSocket(n) => n as int,
        }
    }

    /// Translates the domain and code of a numeric error.
    pub fn new(err: &CBLError) -> (res: Self)
        ensures
            res == Self::spec_new(err.domain, err.code),
    {
        proof {
            lemma_codes_injective();
        }
        if err.domain == CBL_DOMAIN {
            match CouchbaseLiteError::from_i32(err.code) {
                Some(e) => ErrorCode::CouchbaseLite(e),
                None => Self::untranslatable(),
            }
        } else if err.domain == NETWORK_DOMAIN {
            match NetworkError::from_i32(err.code) {
                Some(e) => ErrorCode::Network(e),
                None => Self::untranslatable(),
            }
        } else if err.domain == POSIX_DOMAIN {
            ErrorCode::POSIX(err.code)
        } else if err.domain == SQLITE_DOMAIN {
            ErrorCode::SQLite(err.code)
        } else if err.domain == FLEECE_DOMAIN {
            Self::from_fleece(err.code)
        } else if err.domain == WEBSOCKET_DOMAIN {
            ErrorCode::WebSocket(err.code)
        } else {
            Self::untranslatable()
        }
    }

    /// Translates a codec error code.
    pub fn from_fleece(fleece_error: i32) -> (res: Self)
        ensures
            res == Self::spec_from_fleece(fleece_error),
    {
        proof {
            lemma_codes_injective();
        }
        match FleeceError::from_i32(fleece_error) {
            Some(e) => ErrorCode::Fleece(e),
            None => Self::untranslatable(),
        }
    }

    /// The code that stands for an error without a typed form.
    pub fn untranslatable() -> (res: Self)
        ensures
            res == Self::spec_untranslatable(),
    {
        ErrorCode::CouchbaseLite(CouchbaseLiteError::UntranslatableError)
    }
}

/// No two errors of one domain share a number.
pub proof fn lemma_codes_injective()
    ensures
        forall|a: CouchbaseLiteError, b: CouchbaseLiteError|
            a.spec_code() == b.spec_code() ==> a == b,
        forall|a: FleeceError, b: FleeceError| a.spec_code() == b.spec_code() ==> a == b,
        forall|a: NetworkError, b: NetworkError| a.spec_code() == b.spec_code() ==> a == b,
{
}

impl CBLError {
    /// The numeric form of "no error".
    pub open spec fn spec_default() -> CBLError {
        CBLError { domain: 0, code: 0, internal_info: 0 }
    }

    /// True when no error was reported, that is when the code is 0.
    pub fn is_clear(&self) -> (res: bool)
        ensures
            res == (self.code == 0),
    {
        self.code == 0
    }
}

impl Default for CBLError {
    fn default() -> (res: Self)
        ensures
            res == CBLError::spec_default(),
    {
        CBLError { domain: 0, code: 0, internal_info: 0 }
    }
}

impl Error {
    /// The typed form of a numeric error.
    pub open spec fn spec_new(err: CBLError) -> Error {
        Error {
            code: ErrorCode::spec_new(err.domain, err.code),
            internal_info: Some(err.internal_info),
        }
    }

    /// The numeric form of a typed error.
    pub open spec fn spec_as_cbl_error(self) -> CBLError {
        CBLError {
            domain: self.code.spec_domain(),
            code: self.code.spec_number() as i32,
            internal_info: match self.internal_info {
                Some(info) => info,
                None => 0,
            },
        }
    }

    /// True for the error that stands for a numeric error without a typed form.
    pub open spec fn spec_is_untranslatable(self) -> bool {
        self.code == ErrorCode::spec_untranslatable()
    }

    /// Translates a numeric error, keeping its internal tag.
    pub fn new(err: &CBLError) -> (res: Self)
        ensures
            res == Self::spec_new(*err),
    {
        Error { code: ErrorCode::new(err), internal_info: Some(err.internal_info) }
    }

    /// An error of the engine itself, without internal tag.
    pub fn cbl_error(e: CouchbaseLiteError) -> (res: Self)
        ensures
            res == (Error { code: ErrorCode::CouchbaseLite(e), internal_info: None }),
    {
        Error { code: ErrorCode::CouchbaseLite(e), internal_info: None }
    }

    /// An error of the value codec, from its numeric code, without internal tag.
    pub fn fleece_error(e: i32) -> (res: Self)
        ensures
            res == (Error { code: ErrorCode::spec_from_fleece(e), internal_info: None }),
    {
        Error { code: ErrorCode::from_fleece(e), internal_info: None }
    }

    /// The numeric form of this error. A missing internal tag becomes 0.
    pub fn as_cbl_error(&self) -> (res: CBLError)
        ensures
            res == self.spec_as_cbl_error(),
    {
        let domain: u8;
        let code: i32;
        match &self.code {
            ErrorCode::CouchbaseLite(e) => {
                domain = CBL_DOMAIN;
                code = e.code();
            },
            ErrorCode::Fleece(e) => {
                domain = FLEECE_DOMAIN;
                code = e.code();
            },
            ErrorCode::Network(e) => {
                domain = NETWORK_DOMAIN;
                code = e.code();
            },
            ErrorCode::POSIX(e) => {
                domain = POSIX_DOMAIN;
                code = *e;
            },
            ErrorCode::SQLite(e) => {
                domain = SQLITE_DOMAIN;
                code = *e;
            },
            ErrorCode::WebSocket(e) => {
                domain = WEBSOCKET_DOMAIN;
                code = *e;
            },
        }
        let internal_info: u32 = match self.internal_info {
            Some(info) => info,
            None => 0,
        };
        CBLError { domain, code, internal_info }
    }

    /// True for the error that stands for a numeric error without a typed form.
    pub fn is_untranslatable(&self) -> (res: bool)
        ensures
            res == self.spec_is_untranslatable(),
    {
        match self.code {
            ErrorCode::CouchbaseLite(CouchbaseLiteError::UntranslatableError) => true,
            _ => false,
        }
    }

    /// A message describing this error. For the untranslatable error it is
    /// the fixed text "Unknown error", and the engine is not asked. For every
    /// other error it is what `describe` returns for the numeric form.
    pub fn message<F: FnOnce(CBLError) -> String>(&self, describe: F) -> (res: String)
        requires
            !self.spec_is_untranslatable() ==> describe.requires((self.spec_as_cbl_error(),)),
        ensures
            self.spec_is_untranslatable() ==> res@ == "Unknown error"@,
            !self.spec_is_untranslatable() ==> describe.ensures((self.spec_as_cbl_error(),), res),
    {
        if self.is_untranslatable() {
            return "Unknown error".to_string();
        }
        describe(self.as_cbl_error())
    }
}

impl Default for Error {
    fn default() -> (res: Self)
        ensures
            res == Error::spec_new(CBLError::spec_default()),
    {
        Error::new(&CBLError::default())
    }
}

/// The typed error for a numeric error that was reported.
pub fn failure<T>(err: CBLError) -> (res: Result<T>)
    requires
        err.code != 0,
    ensures
        res == Err::<T, Error>(Error::spec_new(err)),
{
    Err(Error::new(&err))
}

/// Success when the engine returned `true`, else the typed form of the error
/// that it reported.
pub fn check_failure(status: bool, err: &CBLError) -> (res: Result<()>)
    requires
        !status ==> err.code != 0,
    ensures
        res == spec_check_failure(status, *err),
{
    if status {
        return Ok(());
    }
    Err(Error::new(err))
}

/// What `check_failure` returns.
pub open spec fn spec_check_failure(status: bool, err: CBLError) -> Result<()> {
    if status {
        Ok(())
    } else {
        Err(Error::spec_new(err))
    }
}

/// Success when the numeric error is unset (domain or code 0), else its typed
/// form.
pub fn check_error(err: &CBLError) -> (res: Result<()>)
    ensures
        res == spec_check_error(*err),
{
    if err.domain == 0 || err.code == 0 {
        Ok(())
    } else {
        Err(Error::new(err))
    }
}

/// What `check_error` returns.
pub open spec fn spec_check_error(err: CBLError) -> Result<()> {
    if err.domain == 0 || err.code == 0 {
        Ok(())
    } else {
        Err(Error::spec_new(err))
    }
}

/// Runs an operation of the engine that answers with a flag and a numeric
/// error, and turns the answer into a `Result`.
pub fn check_bool<F: FnOnce() -> (bool, CBLError)>(func: F) -> (res: Result<()>)
    requires
        func.requires(()),
        forall|r: (bool, CBLError)| func.ensures((), r) ==> (r.0 || r.1.code != 0),
    ensures
        exists|r: (bool, CBLError)| #[trigger]
            func.ensures((), r) && res == spec_check_failure(r.0, r.1),
{
    let r = func();
    check_failure(r.0, &r.1)
}

/// Runs an operation of the engine that answers with a handle or, failing
/// that, a numeric error; maps the handle with `map`.
pub fn check_ptr<P, R, F: FnOnce() -> (Option<P>, CBLError), M: FnOnce(P) -> R>(
    func: F,
    map: M,
) -> (res: Result<R>)
    requires
        func.requires(()),
        forall|r: (Option<P>, CBLError)| func.ensures((), r) ==> (r.0 is Some || r.1.code != 0),
        forall|p: P| map.requires((p,)),
    ensures
        exists|r: (Option<P>, CBLError)| #[trigger]
            func.ensures((), r) && match r.0 {
                Some(p) => res is Ok && map.ensures((p,), res->Ok_0),
                None => res == Err::<R, Error>(Error::spec_new(r.1)),
            },
{
    let r = func();
    let ghost answer = r;
    let res = match r.0 {
        None => failure(r.1),
        Some(p) => Ok(map(p)),
    };
    assert(func.ensures((), answer));
    res
}

/// Runs an I/O operation of the engine that answers with a byte count, or a
/// negative number and a numeric error.
pub fn check_io<F: FnOnce() -> (i32, CBLError)>(func: F) -> (res: Result<usize>)
    requires
        func.requires(()),
    ensures
        exists|r: (i32, CBLError)| #[trigger]
            func.ensures((), r) && res == (if r.0 < 0 {
                Err::<usize, Error>(Error::spec_new(r.1))
            } else {
                Ok::<usize, Error>(r.0 as usize)
            }),
{
    let r = func();
    if r.0 < 0 {
        return Err(Error::new(&r.1));
    }
    Ok(r.0 as usize)
}

/// What a lookup of the engine gives that answers with a handle or, where
/// there is nothing to find, with no handle and no error: the handle,
/// `NotFound` where there is neither handle nor error, and otherwise the
/// typed form of the error.
pub fn check_found<P>(ptr: Option<P>, err: &CBLError) -> (res: Result<P>)
    ensures
        res == match ptr {
            Some(p) => Ok::<P, Error>(p),
            None => Err::<P, Error>(
                if err.code == 0 {
                    Error { code: ErrorCode::CouchbaseLite(CouchbaseLiteError::NotFound), internal_info: None }
                } else {
                    Error::spec_new(*err)
                },
            ),
        },
{
    match ptr {
        Some(p) => Ok(p),
        None => if err.code == 0 {
            Err(Error::cbl_error(CouchbaseLiteError::NotFound))
        } else {
            Err(Error::new(err))
        },
    }
}

/// What an operation of the engine gives that answers with a value and
/// reports failure by an error code alone: the value where the code is 0,
/// and otherwise the typed form of the error.
pub fn check_value<T>(value: T, err: &CBLError) -> (res: Result<T>)
    ensures
        res == if err.code == 0 {
            Ok::<T, Error>(value)
        } else {
            Err::<T, Error>(Error::spec_new(*err))
        },
{
    if err.code == 0 {
        Ok(value)
    } else {
        Err(Error::new(err))
    }
}

/// What a lookup of the engine gives where not finding is no error: no
/// handle where the numeric error is unset, and otherwise its typed form.
pub fn check_optional<P>(ptr: Option<P>, err: &CBLError) -> (res: Result<Option<P>>)
    ensures
        res == match spec_check_error(*err) {
            Ok(()) => Ok::<Option<P>, Error>(ptr),
            Err(e) => Err::<Option<P>, Error>(e),
        },
{
    match check_error(err) {
        Ok(()) => Ok(ptr),
        Err(e) => Err(e),
    }
}

/// What an operation of the engine gives that owes a handle: the handle;
/// the typed form of the error that it reported; or, where it reported
/// none and gave no handle, the error `missing`.
pub fn check_required<P>(ptr: Option<P>, err: &CBLError, missing: Error) -> (res: Result<P>)
    ensures
        res == match spec_check_error(*err) {
            Err(e) => Err::<P, Error>(e),
            Ok(()) => match ptr {
                Some(p) => Ok::<P, Error>(p),
                None => Err::<P, Error>(missing),
            },
        },
{
    match check_error(err) {
        Err(e) => Err(e),
        Ok(()) => match ptr {
            Some(p) => Ok(p),
            None => Err(missing),
        },
    }
}

/// What the deletion of a database file gives: `true` where the file was
/// deleted, `false` where there was none and no error, and otherwise the
/// typed form of the error.
pub fn check_deleted(deleted: bool, err: &CBLError) -> (res: Result<bool>)
    ensures
        res == if deleted {
            Ok::<bool, Error>(true)
        } else if err.code == 0 {
            Ok::<bool, Error>(false)
        } else {
            Err::<bool, Error>(Error::spec_new(*err))
        },
{
    if deleted {
        Ok(true)
    } else if err.code == 0 {
        Ok(false)
    } else {
        Err(Error::new(err))
    }
}

/// Translating a typed error to numbers and back gives the same code.
pub proof fn lemma_code_round_trip(e: Error)
    ensures
        Error::spec_new(e.spec_as_cbl_error()).code == e.code,
{
    lemma_codes_injective();
    match e.code {
        ErrorCode::CouchbaseLite(c) => {
            assert(c.spec_code() == e.spec_as_cbl_error().code);
        },
        ErrorCode::Fleece(c) => {
            assert(c.spec_code() == e.spec_as_cbl_error().code);
        },
        ErrorCode::Network(c) => {
            assert(c.spec_code() == e.spec_as_cbl_error().code);
        },
        _ => {},
    }
}

} // verus!
