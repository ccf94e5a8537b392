//! The configuration of a replicator: where it replicates to, what, and
//! with which callbacks; the form in which the engine takes it; and the
//! status that a replicator reports.

use crate::collection::Collection;
use crate::error::{check_error, spec_check_error, CBLError, Error, Result};
use vstd::prelude::*;

verus! {

/// The location of a database to replicate with: a URL, or a database in
/// this process.
#[derive(Debug)]
pub struct Endpoint {
    /// The URL of the remote database; `None` for a database in this
    /// process.
    pub url: Option<String>,
}

impl Endpoint {
    /// The endpoint of a remote database, once the engine has answered:
    /// `error` is what the engine wrote when it was given the URL. Where it
    /// wrote an error, the result is that error in typed form; where it
    /// wrote none, the result is the endpoint with the URL.
    pub fn new_with_url(url: &str, error: &CBLError) -> (res: Result<Self>)
        ensures
            match res {
                Ok(e) => spec_check_error(*error) is Ok && e.url is Some && e.url->Some_0@ == url@,
                Err(e) => spec_check_error(*error) == Err::<(), Error>(e),
            },
    {
        match check_error(error) {
            Ok(()) => Ok(Endpoint { url: Some(url.to_owned()) }),
            Err(e) => Err(e),
        }
    }

    /// The endpoint of a database in this process.
    pub fn new_with_local_db() -> (res: Self)
        ensures
            res.url is None,
    {
        Endpoint { url: None }
    }
}

/// Authentication credentials for a remote server: a user name and a
/// password, or the ID of a session and the name of its cookie.
#[derive(Debug)]
pub struct Authenticator {
    /// True for a session, false for a password.
    pub session: bool,
    /// The user name, or the ID of the session.
    pub name: String,
    /// The password, or the name of the session's cookie.
    pub secret: String,
}

impl Authenticator {
    /// Credentials made of a user name and a password.
    pub fn create_password(username: &str, password: &str) -> (res: Self)
        ensures
            !res.session,
            res.name@ == username@,
            res.secret@ == password@,
    {
        Authenticator { session: false, name: username.to_owned(), secret: password.to_owned() }
    }

    /// Credentials made of a session ID and the name of the session's
    /// cookie.
    pub fn create_session(session_id: &str, cookie_name: &str) -> (res: Self)
        ensures
            res.session,
            res.name@ == session_id@,
            res.secret@ == cookie_name@,
    {
        Authenticator { session: true, name: session_id.to_owned(), secret: cookie_name.to_owned() }
    }
}

/// Direction of replication: push, pull, or both.
#[derive(Clone, Copy, Debug, PartialEq, Eq, Structural)]
pub enum ReplicatorType {
    PushAndPull,
    Push,
    Pull,
}

impl ReplicatorType {
    /// The number that the engine knows this direction by.
    pub open spec fn spec_code(self) -> u8 {
        match self {
            ReplicatorType::PushAndPull => 0,
            ReplicatorType::Push => 1,
            ReplicatorType::Pull => 2,
        }
    }

    /// The number that the engine knows this direction by.
    pub fn code(self) -> (res: u8)
        ensures
            res == self.spec_code(),
    {
        match self {
            ReplicatorType::PushAndPull => 0,
            ReplicatorType::Push => 1,
            ReplicatorType::Pull => 2,
        }
    }

    /// The direction that the engine knows by `code`, if it knows one.
    pub fn from_code(code: u8) -> (res: Option<Self>)
        ensures
            match res {
                Some(t) => t.spec_code() == code,
                None => code > 2,
            },
    {
        match code {
            0 => Some(ReplicatorType::PushAndPull),
            1 => Some(ReplicatorType::Push),
            2 => Some(ReplicatorType::Pull),
            _ => None,
        }
    }

    /// True when the replicator pushes.
    pub fn pushes(self) -> (res: bool)
        ensures
            res == (self != ReplicatorType::Pull),
    {
        match self {
            ReplicatorType::Pull => false,
            _ => true,
        }
    }

    /// True when the replicator pulls.
    pub fn pulls(self) -> (res: bool)
        ensures
            res == (self != ReplicatorType::Push),
    {
        match self {
            ReplicatorType::Push => false,
            _ => true,
        }
    }
}

/// Types of proxy servers.
#[derive(Clone, Copy, Debug, PartialEq, Eq, Structural)]
pub enum ProxyType {
    HTTP,
    HTTPS,
}

impl ProxyType {
    /// The number that the engine knows this type by.
    pub open spec fn spec_code(self) -> u8 {
        match self {
            ProxyType::HTTP => 0,
            ProxyType::HTTPS => 1,
        }
    }

    /// The number that the engine knows this type by.
    pub fn code(self) -> (res: u8)
        ensures
            res == self.spec_code(),
    {
        match self {
            ProxyType::HTTP => 0,
            ProxyType::HTTPS => 1,
        }
    }

    /// The type that the engine knows by `code`, if it knows one.
    pub fn from_code(code: u8) -> (res: Option<Self>)
        ensures
            match res {
                Some(t) => t.spec_code() == code,
                None => code > 1,
            },
    {
        match code {
            0 => Some(ProxyType::HTTP),
            1 => Some(ProxyType::HTTPS),
            _ => None,
        }
    }
}

/// Proxy settings in the form in which the engine takes them: the type as
/// a number, and each string present or absent.
#[derive(Debug)]
pub struct CBLProxySettings {
    pub type_: u8,
    pub hostname: Option<String>,
    pub port: u16,
    pub username: Option<String>,
    pub password: Option<String>,
}

/// Proxy settings for the replicator.
#[derive(Debug)]
pub struct ProxySettings {
    pub proxy_type: ProxyType,
    /// Proxy server hostname or IP address
    pub hostname: Option<String>,
    pub port: u16,
    /// Username for proxy auth
    pub username: Option<String>,
    /// Password for proxy auth
    pub password: Option<String>,
}

/// The characters of an optional string.
pub open spec fn text_of(s: Option<String>) -> Option<Seq<char>> {
    match s {
        Some(t) => Some(t@),
        None => None,
    }
}

/// A copy of an optional string.
pub fn copy_text(s: &Option<String>) -> (res: Option<String>)
    ensures
        text_of(res) == text_of(*s),
{
    match s {
        Some(t) => Some(t.clone()),
        None => None,
    }
}

/// A copy of a list of strings.
pub fn copy_texts(list: &Vec<String>) -> (res: Vec<String>)
    ensures
        res.len() == list.len(),
        forall|i: int| 0 <= i < list.len() ==> (#[trigger] res[i])@ == list[i]@,
{
    let mut out: Vec<String> = Vec::new();
    let mut i: usize = 0;
    while i < list.len()
        invariant
            i <= list.len(),
            out.len() == i,
            forall|j: int| 0 <= j < i ==> (#[trigger] out[j])@ == list[j]@,
        decreases list.len() - i,
    {
        out.push(list[i].clone());
        i += 1;
    }
    out
}

/// A copy of optional bytes.
pub fn copy_bytes(bytes: &Option<Vec<u8>>) -> (res: Option<Vec<u8>>)
    ensures
        bytes_of(res) == bytes_of(*bytes),
{
    match bytes {
        Some(b) => {
            let mut out: Vec<u8> = Vec::new();
            let mut i: usize = 0;
            while i < b.len()
                invariant
                    i <= b.len(),
                    out@ == b@.take(i as int),
                decreases b.len() - i,
            {
                out.push(b[i]);
                assert(out@ =~= b@.take(i + 1));
                i += 1;
            }
            assert(b@.take(i as int) =~= b@);
            Some(out)
        },
        None => None,
    }
}

/// The bytes of an optional byte string.
pub open spec fn bytes_of(b: Option<Vec<u8>>) -> Option<Seq<u8>> {
    match b {
        Some(v) => Some(v@),
        None => None,
    }
}

impl ProxySettings {
    /// Proxy settings.
    pub fn new(
        proxy_type: ProxyType,
        hostname: Option<String>,
        port: u16,
        username: Option<String>,
        password: Option<String>,
    ) -> (res: Self)
        ensures
            res.proxy_type == proxy_type,
            res.hostname == hostname,
            res.port == port,
            res.username == username,
            res.password == password,
    {
        ProxySettings { proxy_type, hostname, port, username, password }
    }

    /// The settings in the form in which the engine takes them.
    pub fn to_cbl_proxy_settings(&self) -> (res: CBLProxySettings)
        ensures
            res.type_ == self.proxy_type.spec_code(),
            text_of(res.hostname) == text_of(self.hostname),
            res.port == self.port,
            text_of(res.username) == text_of(self.username),
            text_of(res.password) == text_of(self.password),
    {
        CBLProxySettings {
            type_: self.proxy_type.code(),
            hostname: copy_text(&self.hostname),
            port: self.port,
            username: copy_text(&self.username),
            password: copy_text(&self.password),
        }
    }
}

/// The callbacks of a replicator: filters that decide whether a document is
/// pushed or pulled, a resolver of conflicts, and the callbacks that encrypt
/// and decrypt the encryptable properties of documents. Each is present or
/// absent.
pub struct ReplicationConfigurationContext<P, L, R, E, D, CE, CD> {
    pub push_filter: Option<P>,
    pub pull_filter: Option<L>,
    pub conflict_resolver: Option<R>,
    pub default_collection_property_encryptor: Option<E>,
    pub default_collection_property_decryptor: Option<D>,
    pub collection_property_encryptor: Option<CE>,
    pub collection_property_decryptor: Option<CD>,
}

impl<P, L, R, E, D, CE, CD> ReplicationConfigurationContext<P, L, R, E, D, CE, CD> {
    /// A context without callbacks.
    pub fn new() -> (res: Self)
        ensures
            res.push_filter is None,
            res.pull_filter is None,
            res.conflict_resolver is None,
            res.default_collection_property_encryptor is None,
            res.default_collection_property_decryptor is None,
            res.collection_property_encryptor is None,
            res.collection_property_decryptor is None,
    {
        ReplicationConfigurationContext {
            push_filter: None,
            pull_filter: None,
            conflict_resolver: None,
            default_collection_property_encryptor: None,
            default_collection_property_decryptor: None,
            collection_property_encryptor: None,
            collection_property_decryptor: None,
        }
    }
}

/// What is replicated of one collection, in the form in which the engine
/// takes it: the collection's key, which callbacks are present, and the
/// channels and document IDs that the replication is limited to.
#[derive(Debug)]
pub struct CBLReplicationCollection {
    pub collection: u64,
    pub conflict_resolver: bool,
    pub push_filter: bool,
    pub pull_filter: bool,
    pub channels: Vec<String>,
    pub document_ids: Vec<String>,
}

/// What is replicated of one collection.
pub struct ReplicationCollection<P, L, R> {
    pub collection: Collection,
    /// Optional conflict-resolver callback.
    pub conflict_resolver: Option<R>,
    /// Optional callback to filter which docs are pushed.
    pub push_filter: Option<P>,
    /// Optional callback to validate incoming docs.
    pub pull_filter: Option<L>,
    /// Optional set of channels to pull from
    pub channels: Vec<String>,
    /// Optional set of document IDs to replicate
    pub document_ids: Vec<String>,
}

/// The characters of each string of a list.
pub open spec fn texts(list: Seq<String>) -> Seq<Seq<char>> {
    list.map_values(|s: String| s@)
}

impl<P, L, R> ReplicationCollection<P, L, R> {
    /// This in the form in which the engine takes it: a callback is marked
    /// present exactly where this has one.
    pub fn to_cbl_replication_collection(&self) -> (res: CBLReplicationCollection)
        ensures
            res.collection == self.collection.key,
            res.conflict_resolver == (self.conflict_resolver is Some),
            res.push_filter == (self.push_filter is Some),
            res.pull_filter == (self.pull_filter is Some),
            texts(res.channels@) == texts(self.channels@),
            texts(res.document_ids@) == texts(self.document_ids@),
    {
        let channels = copy_texts(&self.channels);
        let document_ids = copy_texts(&self.document_ids);
        assert(texts(channels@) =~= texts(self.channels@));
        assert(texts(document_ids@) =~= texts(self.document_ids@));
        CBLReplicationCollection {
            collection: self.collection.key,
            conflict_resolver: self.conflict_resolver.is_some(),
            push_filter: self.push_filter.is_some(),
            pull_filter: self.pull_filter.is_some(),
            channels,
            document_ids,
        }
    }
}

/// One extra HTTP header of the WebSocket request.
#[derive(Debug)]
pub struct Header {
    pub name: String,
    pub value: String,
}

/// The configuration of a replicator.
pub struct ReplicatorConfiguration<P, L, R> {
    /// The name of the database to replicate, where only its default
    /// collection is replicated; `None` where `collections` says what is.
    pub database: Option<String>,
    /// The address of the other database to replicate with
    pub endpoint: Endpoint,
    /// Push, pull or both
    pub replicator_type: ReplicatorType,
    /// Continuous replication?
    pub continuous: bool,
    /// With auto-purge, the replicator purges a document when the
    /// replicating user loses access to it. True disables that: the document
    /// stays, and the loss of access is only reported to the listeners.
    pub disable_auto_purge: bool,
    /// Max retry attempts, the first connect counted. 0 means the default:
    /// 10 for a replicator that is not continuous, no limit for one that is.
    /// 1 means no retry.
    pub max_attempts: u32,
    /// Max wait time between retry attempts in seconds. 0 means the default
    /// of 300 seconds.
    pub max_attempt_wait_time: u32,
    /// The heartbeat interval in seconds. 0 means the default of 300
    /// seconds.
    pub heartbeat: u32,
    /// Authentication credentials, if needed
    pub authenticator: Option<Authenticator>,
    /// HTTP client proxy settings
    pub proxy: Option<ProxySettings>,
    /// Extra HTTP headers to add to the WebSocket request
    pub headers: Vec<Header>,
    /// An X.509 cert to "pin" TLS connections to (PEM or DER)
    pub pinned_server_certificate: Option<Vec<u8>>,
    /// Set of anchor certs (PEM format)
    pub trusted_root_certificates: Option<Vec<u8>>,
    /// Optional set of channels to pull from, of the default collection
    pub channels: Vec<String>,
    /// Optional set of document IDs to replicate, of the default collection
    pub document_ids: Vec<String>,
    /// The collections to replicate (required if the database is not set)
    pub collections: Option<Vec<ReplicationCollection<P, L, R>>>,
    /// Whether cookies may be saved whose domain is a parent of the remote
    /// host's domain.
    pub accept_parent_domain_cookies: bool,
    /// Whether only self-signed server certificates are accepted.
    pub accept_only_self_signed_server_certificate: bool,
}

/// The configuration of a replicator in the form in which the engine takes
/// it: enumerations as numbers, what is optional present or absent, and for
/// each callback whether there is one.
#[derive(Debug)]
pub struct CBLReplicatorConfiguration {
    pub database: Option<String>,
    pub endpoint_url: Option<String>,
    pub replicator_type: u8,
    pub continuous: bool,
    pub disable_auto_purge: bool,
    pub max_attempts: u32,
    pub max_attempt_wait_time: u32,
    pub heartbeat: u32,
    pub authenticator: bool,
    pub proxy: Option<CBLProxySettings>,
    pub headers: Vec<Header>,
    pub pinned_server_certificate: Option<Vec<u8>>,
    pub trusted_root_certificates: Option<Vec<u8>>,
    pub channels: Vec<String>,
    pub document_ids: Vec<String>,
    pub push_filter: bool,
    pub pull_filter: bool,
    pub conflict_resolver: bool,
    pub property_encryptor: bool,
    pub property_decryptor: bool,
    pub document_property_encryptor: bool,
    pub document_property_decryptor: bool,
    pub collections: Option<Vec<CBLReplicationCollection>>,
    pub collection_count: usize,
    pub accept_parent_domain_cookies: bool,
    pub accept_only_self_signed_server_certificate: bool,
}

/// The mathematical value of a header: its name and its value.
pub open spec fn header_view(h: Header) -> (Seq<char>, Seq<char>) {
    (h.name@, h.value@)
}

/// What the engine is told of one collection.
pub open spec fn collection_entry<P, L, R>(c: ReplicationCollection<P, L, R>) -> (
    u64,
    bool,
    bool,
    bool,
    Seq<Seq<char>>,
    Seq<Seq<char>>,
) {
    (
        c.collection.key,
        c.conflict_resolver is Some,
        c.push_filter is Some,
        c.pull_filter is Some,
        texts(c.channels@),
        texts(c.document_ids@),
    )
}

/// What the engine is told of one collection, from the form in which it
/// takes it.
pub open spec fn cbl_collection_entry(c: CBLReplicationCollection) -> (
    u64,
    bool,
    bool,
    bool,
    Seq<Seq<char>>,
    Seq<Seq<char>>,
) {
    (
        c.collection,
        c.conflict_resolver,
        c.push_filter,
        c.pull_filter,
        texts(c.channels@),
        texts(c.document_ids@),
    )
}

impl<P, L, R> ReplicatorConfiguration<P, L, R> {
    /// The configuration in the form in which the engine takes it. Every
    /// setting is handed on as it is; a callback of `context` is marked
    /// present exactly where the context has one; the collections are
    /// counted.
    pub fn to_cbl_configuration<E, D, CE, CD>(
        &self,
        context: &ReplicationConfigurationContext<P, L, R, E, D, CE, CD>,
    ) -> (res: CBLReplicatorConfiguration)
        ensures
            text_of(res.database) == text_of(self.database),
            text_of(res.endpoint_url) == text_of(self.endpoint.url),
            res.replicator_type == self.replicator_type.spec_code(),
            res.continuous == self.continuous,
            res.disable_auto_purge == self.disable_auto_purge,
            res.max_attempts == self.max_attempts,
            res.max_attempt_wait_time == self.max_attempt_wait_time,
            res.heartbeat == self.heartbeat,
            res.authenticator == (self.authenticator is Some),
            match (res.proxy, self.proxy) {
                (Some(a), Some(b)) => a.type_ == b.proxy_type.spec_code() && text_of(a.hostname)
                    == text_of(b.hostname) && a.port == b.port && text_of(a.username) == text_of(
                    b.username,
                ) && text_of(a.password) == text_of(b.password),
                (None, None) => true,
                _ => false,
            },
            res.headers@.map_values(|h: Header| header_view(h)) == self.headers@.map_values(
                |h: Header| header_view(h),
            ),
            bytes_of(res.pinned_server_certificate) == bytes_of(self.pinned_server_certificate),
            bytes_of(res.trusted_root_certificates) == bytes_of(self.trusted_root_certificates),
            texts(res.channels@) == texts(self.channels@),
            texts(res.document_ids@) == texts(self.document_ids@),
            res.push_filter == (context.push_filter is Some),
            res.pull_filter == (context.pull_filter is Some),
            res.conflict_resolver == (context.conflict_resolver is Some),
            res.property_encryptor == (context.default_collection_property_encryptor is Some),
            res.property_decryptor == (context.default_collection_property_decryptor is Some),
            res.document_property_encryptor == (context.collection_property_encryptor is Some),
            res.document_property_decryptor == (context.collection_property_decryptor is Some),
            match (res.collections, self.collections) {
                (Some(a), Some(b)) => a@.map_values(|c: CBLReplicationCollection| cbl_collection_entry(c))
                    == b@.map_values(|c: ReplicationCollection<P, L, R>| collection_entry(c))
                    && res.collection_count == b.len(),
                (None, None) => res.collection_count == 0,
                _ => false,
            },
            res.accept_parent_domain_cookies == self.accept_parent_domain_cookies,
            res.accept_only_self_signed_server_certificate
                == self.accept_only_self_signed_server_certificate,
    {
        let mut headers: Vec<Header> = Vec::new();
        let mut i: usize = 0;
        while i < self.headers.len()
            invariant
                i <= self.headers.len(),
                headers.len() == i,
                forall|j: int|
                    0 <= j < i ==> header_view(#[trigger] headers[j]) == header_view(
                        self.headers[j],
                    ),
            decreases self.headers.len() - i,
        {
            headers.push(
                Header { name: self.headers[i].name.clone(), value: self.headers[i].value.clone() },
            );
            i += 1;
        }
        assert(headers@.map_values(|h: Header| header_view(h)) =~= self.headers@.map_values(
            |h: Header| header_view(h),
        ));
        let mut count: usize = 0;
        let collections = match &self.collections {
            Some(list) => {
                let mut out: Vec<CBLReplicationCollection> = Vec::new();
                let mut k: usize = 0;
                while k < list.len()
                    invariant
                        k <= list.len(),
                        out.len() == k,
                        forall|j: int|
                            0 <= j < k ==> cbl_collection_entry(#[trigger] out[j])
                                == collection_entry(list[j]),
                    decreases list.len() - k,
                {
                    out.push(list[k].to_cbl_replication_collection());
                    k += 1;
                }
                assert(out@.map_values(|c: CBLReplicationCollection| cbl_collection_entry(c))
                    =~= list@.map_values(
                    |c: ReplicationCollection<P, L, R>| collection_entry(c),
                ));
                count = list.len();
                Some(out)
            },
            None => None,
        };
        let channels = copy_texts(&self.channels);
        let document_ids = copy_texts(&self.document_ids);
        assert(texts(channels@) =~= texts(self.channels@));
        assert(texts(document_ids@) =~= texts(self.document_ids@));
        CBLReplicatorConfiguration {
            database: copy_text(&self.database),
            endpoint_url: copy_text(&self.endpoint.url),
            replicator_type: self.replicator_type.code(),
            continuous: self.continuous,
            disable_auto_purge: self.disable_auto_purge,
            max_attempts: self.max_attempts,
            max_attempt_wait_time: self.max_attempt_wait_time,
            heartbeat: self.heartbeat,
            authenticator: self.authenticator.is_some(),
            proxy: match &self.proxy {
                Some(p) => Some(p.to_cbl_proxy_settings()),
                None => None,
            },
            headers,
            pinned_server_certificate: copy_bytes(&self.pinned_server_certificate),
            trusted_root_certificates: copy_bytes(&self.trusted_root_certificates),
            channels,
            document_ids,
            push_filter: context.push_filter.is_some(),
            pull_filter: context.pull_filter.is_some(),
            conflict_resolver: context.conflict_resolver.is_some(),
            property_encryptor: context.default_collection_property_encryptor.is_some(),
            property_decryptor: context.default_collection_property_decryptor.is_some(),
            document_property_encryptor: context.collection_property_encryptor.is_some(),
            document_property_decryptor: context.collection_property_decryptor.is_some(),
            collections,
            collection_count: count,
            accept_parent_domain_cookies: self.accept_parent_domain_cookies,
            accept_only_self_signed_server_certificate: self.accept_only_self_signed_server_certificate,
        }
    }
}

/// The possible states a replicator can be in during its lifecycle.
#[derive(Clone, Copy, Debug, PartialEq, Eq, Structural)]
pub enum ReplicatorActivityLevel {
    /// The replicator is unstarted, finished, or hit a fatal error.
    Stopped,
    /// The replicator is offline, as the remote host is unreachable.
    Offline,
    /// The replicator is connecting to the remote host.
    Connecting,
    /// The replicator is inactive, waiting for changes to sync.
    Idle,
    /// The replicator is actively transferring data.
    Busy,
}

impl ReplicatorActivityLevel {
    /// The number that the engine knows this state by.
    pub open spec fn spec_code(self) -> u8 {
        match self {
            ReplicatorActivityLevel::Stopped => 0,
            ReplicatorActivityLevel::Offline => 1,
            ReplicatorActivityLevel::Connecting => 2,
            ReplicatorActivityLevel::Idle => 3,
            ReplicatorActivityLevel::Busy => 4,
        }
    }

    /// The number that the engine knows this state by.
    pub fn code(self) -> (res: u8)
        ensures
            res == self.spec_code(),
    {
        match self {
            ReplicatorActivityLevel::Stopped => 0,
            ReplicatorActivityLevel::Offline => 1,
            ReplicatorActivityLevel::Connecting => 2,
            ReplicatorActivityLevel::Idle => 3,
            ReplicatorActivityLevel::Busy => 4,
        }
    }

    /// The state that the engine knows by `level`, if it knows one.
    pub fn from_code(level: u8) -> (res: Option<Self>)
        ensures
            match res {
                Some(a) => a.spec_code() == level,
                None => level > 4,
            },
    {
        match level {
            0 => Some(ReplicatorActivityLevel::Stopped),
            1 => Some(ReplicatorActivityLevel::Offline),
            2 => Some(ReplicatorActivityLevel::Connecting),
            3 => Some(ReplicatorActivityLevel::Idle),
            4 => Some(ReplicatorActivityLevel::Busy),
            _ => None,
        }
    }
}

/// The progress of a replicator.
#[derive(Clone, Copy, Debug, PartialEq, Eq, Structural)]
pub struct ReplicatorProgress {
    /// Number of documents transferred so far
    pub document_count: u64,
}

/// A replicator's current status.
#[derive(Clone, Copy, Debug, PartialEq, Eq, Structural)]
pub struct ReplicatorStatus {
    /// Current state
    pub activity: ReplicatorActivityLevel,
    /// How far the replicator has come
    pub progress: ReplicatorProgress,
    /// Error, if any
    pub error: Option<Error>,
}

impl ReplicatorStatus {
    /// The status that the engine reports as an activity level, a count of
    /// documents and a numeric error; `None` where it reports a level that
    /// is none.
    pub fn from_native(activity: u8, document_count: u64, error: &CBLError) -> (res: Option<Self>)
        ensures
            match res {
                Some(s) => s.activity.spec_code() == activity && s.progress.document_count
                    == document_count && s.error == match spec_check_error(*error) {
                    Ok(()) => None,
                    Err(e) => Some(e),
                },
                None => activity > 4,
            },
    {
        match ReplicatorActivityLevel::from_code(activity) {
            Some(level) => Some(
                ReplicatorStatus {
                    activity: level,
                    progress: ReplicatorProgress { document_count },
                    error: match check_error(error) {
                        Ok(()) => None,
                        Err(e) => Some(e),
                    },
                },
            ),
            None => None,
        }
    }
}

} // verus!
