//! Logging: the domains and levels of log messages, the sinks that take
//! them, and the decision which message goes to which sink.

use vstd::prelude::*;

verus! {

/// Logging domains: subsystems that generate log messages.
#[derive(Clone, Copy, Debug, PartialEq, Eq, Structural)]
pub enum Domain {
    Database,
    Query,
    Replicator,
    Network,
    /// A domain that is none of the others.
    Other,
}

impl Domain {
    /// The number that the engine knows this domain by.
    pub open spec fn spec_code(self) -> u8 {
        match self {
            Domain::Database => 0,
            Domain::Query => 1,
            Domain::Replicator => 2,
            Domain::Network => 3,
            Domain::Other => 4,
        }
    }

    /// The number that the engine knows this domain by.
    pub fn code(self) -> (res: u8)
        ensures
            res == self.spec_code(),
    {
        match self {
            Domain::Database => 0,
            Domain::Query => 1,
            Domain::Replicator => 2,
            Domain::Network => 3,
            Domain::Other => 4,
        }
    }

    /// The domain that the engine knows by `n`, if it knows one.
    pub fn from_u8(n: u8) -> (res: Option<Self>)
        ensures
            match res {
                Some(d) => d.spec_code() == n,
                None => n > 4,
            },
    {
        match n {
            0 => Some(Domain::Database),
            1 => Some(Domain::Query),
            2 => Some(Domain::Replicator),
            3 => Some(Domain::Network),
            4 => Some(Domain::Other),
            _ => None,
        }
    }
}

/// Levels of log messages. Higher values are more important. Each level
/// includes the higher ones.
#[derive(Clone, Copy, Debug, PartialEq, Eq, Structural)]
pub enum Level {
    Debug,
    Verbose,
    Info,
    Warning,
    Error,
    /// No message at all.
    Off,
}

impl Level {
    /// The number that the engine knows this level by.
    pub open spec fn spec_code(self) -> u8 {
        match self {
            Level::Debug => 0,
            Level::Verbose => 1,
            Level::Info => 2,
            Level::Warning => 3,
            Level::Error => 4,
            Level::Off => 5,
        }
    }

    /// The number that the engine knows this level by.
    pub fn code(self) -> (res: u8)
        ensures
            res == self.spec_code(),
    {
        match self {
            Level::Debug => 0,
            Level::Verbose => 1,
            Level::Info => 2,
            Level::Warning => 3,
            Level::Error => 4,
            Level::Off => 5,
        }
    }

    /// The level that the engine knows by `n`, if it knows one.
    pub fn from_u8(n: u8) -> (res: Option<Self>)
        ensures
            match res {
                Some(l) => l.spec_code() == n,
                None => n > 5,
            },
    {
        match n {
            0 => Some(Level::Debug),
            1 => Some(Level::Verbose),
            2 => Some(Level::Info),
            3 => Some(Level::Warning),
            4 => Some(Level::Error),
            5 => Some(Level::Off),
            _ => None,
        }
    }
}

/// The bit of the domain `Database` in a domain mask.
pub const MASK_DATABASE: u32 = 1;

/// The bit of the domain `Query` in a domain mask.
pub const MASK_QUERY: u32 = 2;

/// The bit of the domain `Replicator` in a domain mask.
pub const MASK_REPLICATOR: u32 = 4;

/// The bit of the domain `Network` in a domain mask.
pub const MASK_NETWORK: u32 = 8;

/// The bits of all domains in a domain mask.
pub const MASK_ALL: u32 = 255;

/// A set of logging domains, as a bit mask.
#[derive(Clone, Copy, Debug, PartialEq, Eq, Structural)]
pub struct DomainMask {
    pub bits: u32,
}

/// The bit of a domain in a domain mask; for a domain that is none of the
/// named ones, the bit that follows theirs.
pub open spec fn spec_domain_bit(domain: Domain) -> u32 {
    match domain {
        Domain::Database => MASK_DATABASE,
        Domain::Query => MASK_QUERY,
        Domain::Replicator => MASK_REPLICATOR,
        Domain::Network => MASK_NETWORK,
        Domain::Other => 16,
    }
}

impl DomainMask {
    /// The mask of the domain `Database`.
    pub fn database() -> (res: Self)
        ensures
            res.bits == MASK_DATABASE,
    {
        DomainMask { bits: MASK_DATABASE }
    }

    /// The mask of the domain `Query`.
    pub fn query() -> (res: Self)
        ensures
            res.bits == MASK_QUERY,
    {
        DomainMask { bits: MASK_QUERY }
    }

    /// The mask of the domain `Replicator`.
    pub fn replicator() -> (res: Self)
        ensures
            res.bits == MASK_REPLICATOR,
    {
        DomainMask { bits: MASK_REPLICATOR }
    }

    /// The mask of the domain `Network`.
    pub fn network() -> (res: Self)
        ensures
            res.bits == MASK_NETWORK,
    {
        DomainMask { bits: MASK_NETWORK }
    }

    /// The mask of all domains.
    pub fn all() -> (res: Self)
        ensures
            res.bits == MASK_ALL,
    {
        DomainMask { bits: MASK_ALL }
    }

    /// The mask of no domain.
    pub fn empty() -> (res: Self)
        ensures
            res.bits == 0,
    {
        DomainMask { bits: 0 }
    }

    /// The bits of the mask.
    pub fn bits(&self) -> (res: u32)
        ensures
            res == self.bits,
    {
        self.bits
    }

    /// The mask with these bits; `None` where a bit is set that belongs to
    /// no domain.
    pub fn from_bits(bits: u32) -> (res: Option<Self>)
        ensures
            match res {
                Some(m) => m.bits == bits && bits & !MASK_ALL == 0,
                None => bits & !MASK_ALL != 0,
            },
    {
        if bits & !MASK_ALL == 0 {
            Some(DomainMask { bits })
        } else {
            None
        }
    }

    /// The mask with those of these bits that belong to a domain.
    pub fn from_bits_truncate(bits: u32) -> (res: Self)
        ensures
            res.bits == bits & MASK_ALL,
    {
        DomainMask { bits: bits & MASK_ALL }
    }

    /// True when the mask holds no domain.
    pub fn is_empty(&self) -> (res: bool)
        ensures
            res == (self.bits == 0),
    {
        self.bits == 0
    }

    /// True when the mask holds every domain of `other`.
    pub fn contains(&self, other: DomainMask) -> (res: bool)
        ensures
            res == (self.bits & other.bits == other.bits),
    {
        self.bits & other.bits == other.bits
    }

    /// The domains of both masks.
    pub fn union(&self, other: DomainMask) -> (res: DomainMask)
        ensures
            res.bits == self.bits | other.bits,
    {
        DomainMask { bits: self.bits | other.bits }
    }

    /// The domains that both masks hold.
    pub fn intersection(&self, other: DomainMask) -> (res: DomainMask)
        ensures
            res.bits == self.bits & other.bits,
    {
        DomainMask { bits: self.bits & other.bits }
    }

    /// True when the mask holds the domain.
    pub fn contains_domain(&self, domain: Domain) -> (res: bool)
        ensures
            res == (self.bits & spec_domain_bit(domain) != 0),
    {
        let bit: u32 = match domain {
            Domain::Database => MASK_DATABASE,
            Domain::Query => MASK_QUERY,
            Domain::Replicator => MASK_REPLICATOR,
            Domain::Network => MASK_NETWORK,
            Domain::Other => 16,
        };
        self.bits & bit != 0
    }
}

/// True when a sink with the minimum level `level` and the domains `mask`
/// takes a message of level `message_level` from `domain`: the sink is not
/// off, the message is at least as important as the sink asks, and the
/// sink takes messages of the domain.
pub open spec fn spec_accepts(level: Level, mask: DomainMask, domain: Domain, message_level: Level) -> bool {
    &&& level != Level::Off
    &&& message_level != Level::Off
    &&& message_level.spec_code() >= level.spec_code()
    &&& mask.bits & spec_domain_bit(domain) != 0
}

/// Console log sink configuration for logging to the console.
#[derive(Clone, Copy, Debug, PartialEq, Eq, Structural)]
pub struct ConsoleLogSink {
    /// The minimum level of message to write.
    pub level: Level,
    /// The domains of which messages are written.
    pub domains: DomainMask,
}

/// A console log sink in the form in which the engine takes it.
#[derive(Clone, Copy, Debug, PartialEq, Eq, Structural)]
pub struct CBLConsoleLogSink {
    pub level: u8,
    pub domains: u16,
}

impl ConsoleLogSink {
    /// True when the sink takes a message of level `level` from `domain`.
    pub fn accepts(&self, domain: Domain, level: Level) -> (res: bool)
        ensures
            res == spec_accepts(self.level, self.domains, domain, level),
    {
        let on = match self.level {
            Level::Off => false,
            _ => true,
        };
        let is_message = match level {
            Level::Off => false,
            _ => true,
        };
        on && is_message && level.code() >= self.level.code() && self.domains.contains_domain(
            domain,
        )
    }

    /// The sink in the form in which the engine takes it: the level as a
    /// number, and the low 16 bits of the domain mask.
    pub fn to_cbl_console_log_sink(&self) -> (res: CBLConsoleLogSink)
        ensures
            res.level == self.level.spec_code(),
            res.domains == (self.domains.bits & 0xffff) as u16,
    {
        CBLConsoleLogSink {
            level: self.level.code(),
            domains: (self.domains.bits & 0xffff) as u16,
        }
    }
}

/// Custom log sink configuration for logging to a callback.
pub struct CustomLogSink<F> {
    /// The minimum level of message to write.
    pub level: Level,
    /// The callback that takes the messages.
    pub callback: Option<F>,
    /// The domains of which messages are written.
    pub domains: DomainMask,
}

/// The text that a callback is given for a message without text.
pub open spec fn empty_message() -> Seq<char> {
    "Empty error"@
}

impl<F: Fn(Domain, Level, &str)> CustomLogSink<F> {
    /// Hands a message of the engine to the callback, if there is one. A
    /// domain or level that the engine knows by a number that is none
    /// becomes `Other` or `Off`; a message without text becomes `"Empty
    /// error"`.
    pub fn deliver(&self, c_domain: u8, c_level: u8, msg: Option<&str>)
        requires
            self.callback is Some ==> forall|d: Domain, l: Level, m: &str|
                self.callback->Some_0.requires((d, l, m)),
        ensures
            self.callback is Some ==> exists|m: &str|
                {
                    &&& m@ == match msg {
                        Some(t) => t@,
                        None => empty_message(),
                    }
                    &&& #[trigger] self.callback->Some_0.ensures(
                        (spec_domain(c_domain), spec_level(c_level), m),
                        (),
                    )
                },
    {
        match &self.callback {
            Some(cb) => {
                let domain = match Domain::from_u8(c_domain) {
                    Some(d) => d,
                    None => Domain::Other,
                };
                let level = match Level::from_u8(c_level) {
                    Some(l) => l,
                    None => Level::Off,
                };
                let text = match msg {
                    Some(t) => t,
                    None => "Empty error",
                };
                cb(domain, level, text);
                assert(self.callback->Some_0.ensures((domain, level, text), ()));
            },
            None => {},
        }
    }
}

/// The domain with the number `n`; `Other` for a number that is none.
pub open spec fn spec_domain(n: u8) -> Domain {
    if n == 0 {
        Domain::Database
    } else if n == 1 {
        Domain::Query
    } else if n == 2 {
        Domain::Replicator
    } else if n == 3 {
        Domain::Network
    } else {
        Domain::Other
    }
}

/// The level with the number `n`; `Off` for a number that is none.
pub open spec fn spec_level(n: u8) -> Level {
    if n == 0 {
        Level::Debug
    } else if n == 1 {
        Level::Verbose
    } else if n == 2 {
        Level::Info
    } else if n == 3 {
        Level::Warning
    } else if n == 4 {
        Level::Error
    } else {
        Level::Off
    }
}

} // verus!
