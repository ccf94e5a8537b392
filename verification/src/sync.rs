//! The replicator's state machine: which state follows on which event, and
//! what the replicator then has to do. The connection itself is not in
//! here: whoever runs the replicator performs the actions and hands back
//! the events.

use crate::collection::Collection;
use crate::database::{views, Database};
use crate::document::Document;
use crate::error::{check_error, spec_check_error, CBLError, CouchbaseLiteError, Error, Result};
use crate::model::{engine_error, pending_ids};
use crate::replication::{ReplicatedDocument, Revision};
use crate::replicator::{
    ReplicationConfigurationContext, ReplicatorActivityLevel, ReplicatorConfiguration,
    ReplicatorProgress, ReplicatorStatus, ReplicatorType,
};
use crate::transfer::{pull_document, pulled_as, push_document, pushed_as, pushed_view};
use vstd::prelude::*;

verus! {

/// The default for the number of connection attempts of a replicator that
/// is not continuous.
pub const DEFAULT_MAX_ATTEMPTS: u32 = 10;

/// The default for the longest wait between two attempts, in seconds.
pub const DEFAULT_MAX_ATTEMPT_WAIT_TIME: u32 = 300;

/// The default heartbeat interval, in seconds.
pub const DEFAULT_HEARTBEAT: u32 = 300;

/// The default timeout of a stop that waits, in seconds.
pub const DEFAULT_STOP_TIMEOUT: u64 = 10;

/// What of a replicator's configuration decides about retries.
#[derive(Clone, Copy, Debug, PartialEq, Eq, Structural)]
pub struct RetryPolicy {
    pub continuous: bool,
    /// 0 for the default.
    pub max_attempts: u32,
    /// In seconds; 0 for the default.
    pub max_attempt_wait_time: u32,
}

impl RetryPolicy {
    /// The number of connection attempts that the replicator makes before
    /// it gives up, the first one counted: what was configured, or by
    /// default 10 for a replicator that is not continuous and no limit to
    /// speak of for one that is.
    pub open spec fn spec_attempts(self) -> u32 {
        if self.max_attempts != 0 {
            self.max_attempts
        } else if self.continuous {
            u32::MAX
        } else {
            DEFAULT_MAX_ATTEMPTS
        }
    }

    /// The longest wait between two attempts, in seconds: what was
    /// configured, or 300 by default.
    pub open spec fn spec_wait(self) -> u32 {
        if self.max_attempt_wait_time != 0 {
            self.max_attempt_wait_time
        } else {
            DEFAULT_MAX_ATTEMPT_WAIT_TIME
        }
    }

    /// The number of connection attempts before the replicator gives up.
    pub fn attempts(self) -> (res: u32)
        ensures
            res == self.spec_attempts(),
            res >= 1,
    {
        if self.max_attempts != 0 {
            self.max_attempts
        } else if self.continuous {
            u32::MAX
        } else {
            DEFAULT_MAX_ATTEMPTS
        }
    }

    /// The longest wait between two attempts, in seconds.
    pub fn wait(self) -> (res: u32)
        ensures
            res == self.spec_wait(),
            res >= 1,
    {
        if self.max_attempt_wait_time != 0 {
            self.max_attempt_wait_time
        } else {
            DEFAULT_MAX_ATTEMPT_WAIT_TIME
        }
    }
}

/// The heartbeat interval in seconds: what was configured, or 300 where 0
/// was.
pub fn effective_heartbeat(heartbeat: u32) -> (res: u32)
    ensures
        res == if heartbeat != 0 {
            heartbeat
        } else {
            DEFAULT_HEARTBEAT
        },
{
    if heartbeat != 0 {
        heartbeat
    } else {
        DEFAULT_HEARTBEAT
    }
}

/// Two to the power of `n`.
pub open spec fn pow2(n: nat) -> nat
    decreases n,
{
    if n == 0 {
        1
    } else {
        2 * pow2((n - 1) as nat)
    }
}

/// The wait before the retry that follows `attempts` failed attempts, in
/// seconds: it doubles with each attempt, and never exceeds `limit`.
pub open spec fn spec_retry_delay(attempts: u32, limit: u32) -> u32 {
    if pow2(attempts as nat) <= limit {
        pow2(attempts as nat) as u32
    } else {
        limit
    }
}

/// The powers of two grow.
pub proof fn lemma_pow2_grows(a: nat, b: nat)
    requires
        a <= b,
    ensures
        1 <= pow2(a) <= pow2(b),
    decreases b,
{
    if b > 0 {
        if a < b {
            lemma_pow2_grows(a, (b - 1) as nat);
        } else {
            lemma_pow2_grows((a - 1) as nat, (b - 1) as nat);
        }
    }
}

/// The wait before the retry that follows `attempts` failed attempts.
pub fn retry_delay(attempts: u32, limit: u32) -> (res: u32)
    ensures
        res == spec_retry_delay(attempts, limit),
{
    let mut delay: u32 = 1;
    let mut i: u32 = 0;
    while i < attempts
        invariant
            i <= attempts,
            delay == pow2(i as nat),
            delay <= limit || i == 0,
        decreases attempts - i,
    {
        if delay > limit / 2 {
            proof {
                assert(pow2((i + 1) as nat) == 2 * pow2(i as nat));
                assert(pow2((i + 1) as nat) > limit);
                lemma_pow2_grows((i + 1) as nat, attempts as nat);
            }
            return limit;
        }
        assert(pow2((i + 1) as nat) == 2 * pow2(i as nat));
        delay = delay * 2;
        i += 1;
    }
    if delay <= limit {
        delay
    } else {
        limit
    }
}

/// What happened to the connection of a replicator.
#[derive(Clone, Copy, Debug, PartialEq, Eq, Structural)]
pub enum ReplicatorEvent {
    /// The handshake with the remote succeeded.
    Connected,
    /// There are local or remote changes to transfer.
    ChangesDetected,
    /// All changes are transferred.
    CaughtUp,
    /// The network failed.
    ConnectionLost,
    /// The wait before a retry is over.
    RetryTimer,
    /// The connection is closed, and nothing is in flight any more.
    Closed,
    /// An error that no retry can mend.
    Failed(Error),
}

/// What whoever runs the replicator has to do next.
#[derive(Clone, Copy, Debug, PartialEq, Eq, Structural)]
pub enum ReplicatorAction {
    Nothing,
    /// Connect to the remote, and report `Connected`, `ConnectionLost` or
    /// `Failed`.
    Connect,
    /// Finish what is in flight and close the connection, and report
    /// `Closed`.
    Disconnect,
    /// Report `RetryTimer` after that many seconds.
    RetryAfter(u32),
    /// Forget the retry that was asked for.
    CancelRetry,
}

/// The state of a replicator.
#[derive(Clone, Copy, Debug, PartialEq, Eq, Structural)]
pub struct ReplicatorState {
    pub activity: ReplicatorActivityLevel,
    /// True from a stop until the connection is closed.
    pub stopping: bool,
    pub suspended: bool,
    pub host_reachable: bool,
    /// True once the replicator went offline from a connection.
    pub was_connected: bool,
    /// The connection attempts made since the replicator was last connected.
    pub attempts: u32,
    /// The sequence number up to which local changes have been pushed.
    pub checkpoint: u64,
    /// The number of documents transferred.
    pub document_count: u64,
    pub error: Option<Error>,
}

impl ReplicatorState {
    /// The state of a new replicator: stopped, not suspended, the host
    /// taken to be reachable, nothing pushed yet.
    pub open spec fn spec_new() -> ReplicatorState {
        ReplicatorState {
            activity: ReplicatorActivityLevel::Stopped,
            stopping: false,
            suspended: false,
            host_reachable: true,
            was_connected: false,
            attempts: 0,
            checkpoint: 0,
            document_count: 0,
            error: None,
        }
    }

    /// True while the replicator holds or seeks a connection.
    pub open spec fn spec_connected(self) -> bool {
        self.activity == ReplicatorActivityLevel::Connecting || self.activity
            == ReplicatorActivityLevel::Idle || self.activity == ReplicatorActivityLevel::Busy
    }

    /// True when the replicator may try to connect by itself.
    pub open spec fn spec_may_retry(self, policy: RetryPolicy) -> bool {
        !self.suspended && self.host_reachable && self.attempts < policy.spec_attempts()
    }

    /// The state of a replicator that is started, and what is to do.
    /// A stopped replicator goes to `Connecting` for its first attempt, and
    /// forgets its checkpoint where `reset_checkpoint` is true; one that is
    /// not stopped is left as it is.
    pub open spec fn spec_start(self, reset_checkpoint: bool) -> (ReplicatorState, ReplicatorAction) {
        if self.activity == ReplicatorActivityLevel::Stopped {
            (
                ReplicatorState {
                    activity: ReplicatorActivityLevel::Connecting,
                    stopping: false,
                    was_connected: false,
                    attempts: 1,
                    checkpoint: if reset_checkpoint {
                        0
                    } else {
                        self.checkpoint
                    },
                    error: None,
                    ..self
                },
                ReplicatorAction::Connect,
            )
        } else {
            (self, ReplicatorAction::Nothing)
        }
    }

    /// The state of a replicator that is told to stop, and what is to do.
    /// One that transfers or idles closes its connection first and stops
    /// when `Closed` is reported; one that is offline or still connecting
    /// stops at once.
    pub open spec fn spec_stop(self) -> (ReplicatorState, ReplicatorAction) {
        match self.activity {
            ReplicatorActivityLevel::Stopped => (self, ReplicatorAction::Nothing),
            ReplicatorActivityLevel::Offline => (
                ReplicatorState {
                    activity: ReplicatorActivityLevel::Stopped,
                    stopping: false,
                    ..self
                },
                ReplicatorAction::CancelRetry,
            ),
            ReplicatorActivityLevel::Connecting => (
                ReplicatorState {
                    activity: ReplicatorActivityLevel::Stopped,
                    stopping: false,
                    ..self
                },
                ReplicatorAction::Disconnect,
            ),
            _ => (ReplicatorState { stopping: true, ..self }, ReplicatorAction::Disconnect),
        }
    }

    /// The state after the replicator was suspended or resumed, and what is
    /// to do. Suspending disconnects and holds the replicator offline;
    /// resuming reconnects it if it went offline from a connection.
    pub open spec fn spec_set_suspended(self, suspended: bool) -> (
        ReplicatorState,
        ReplicatorAction,
    ) {
        if suspended {
            if self.spec_connected() {
                (
                    ReplicatorState {
                        activity: ReplicatorActivityLevel::Offline,
                        suspended: true,
                        was_connected: true,
                        ..self
                    },
                    ReplicatorAction::Disconnect,
                )
            } else if self.activity == ReplicatorActivityLevel::Offline {
                (ReplicatorState { suspended: true, ..self }, ReplicatorAction::CancelRetry)
            } else {
                (ReplicatorState { suspended: true, ..self }, ReplicatorAction::Nothing)
            }
        } else if self.activity == ReplicatorActivityLevel::Offline && self.was_connected
            && self.host_reachable {
            (
                ReplicatorState {
                    activity: ReplicatorActivityLevel::Connecting,
                    suspended: false,
                    attempts: 1,
                    ..self
                },
                ReplicatorAction::Connect,
            )
        } else {
            (ReplicatorState { suspended: false, ..self }, ReplicatorAction::Nothing)
        }
    }

    /// The state after the replicator was told whether the host can be
    /// reached, and what is to do. That it cannot cancels the retry of a
    /// replicator that is offline, and closes no connection; that it can
    /// makes a replicator that is offline and not suspended retry at once.
    pub open spec fn spec_set_host_reachable(self, reachable: bool) -> (
        ReplicatorState,
        ReplicatorAction,
    ) {
        if self.activity != ReplicatorActivityLevel::Offline {
            (ReplicatorState { host_reachable: reachable, ..self }, ReplicatorAction::Nothing)
        } else if !reachable {
            (ReplicatorState { host_reachable: false, ..self }, ReplicatorAction::CancelRetry)
        } else if self.suspended {
            (ReplicatorState { host_reachable: true, ..self }, ReplicatorAction::Nothing)
        } else {
            (
                ReplicatorState {
                    activity: ReplicatorActivityLevel::Connecting,
                    host_reachable: true,
                    attempts: 1,
                    ..self
                },
                ReplicatorAction::Connect,
            )
        }
    }

    /// The state after an event, and what is to do.
    ///
    /// - `Connected`: `Connecting` becomes `Idle`, and the attempts are
    ///   counted anew.
    /// - `ChangesDetected`: `Idle` becomes `Busy`.
    /// - `CaughtUp`: `Busy` or `Idle` becomes `Idle` for a continuous
    ///   replicator; one that is not continuous closes its connection and
    ///   stops when `Closed` is reported.
    /// - `ConnectionLost`: a replicator with a connection, or seeking one,
    ///   goes `Offline`, and retries after a wait that doubles with each
    ///   attempt. It stops once its attempts are used up, and when it was
    ///   told to stop. It does not retry while it is suspended or the host
    ///   cannot be reached.
    /// - `RetryTimer`: `Offline` becomes `Connecting` for one more attempt,
    ///   where the replicator may retry.
    /// - `Closed`: the replicator is `Stopped`.
    /// - `Failed`: the replicator is `Stopped`, with the error.
    ///
    /// An event that does not fit the state changes nothing. `Stopped` is
    /// left by no event.
    pub open spec fn spec_handle(self, event: ReplicatorEvent, policy: RetryPolicy) -> (
        ReplicatorState,
        ReplicatorAction,
    ) {
        if self.activity == ReplicatorActivityLevel::Stopped {
            (self, ReplicatorAction::Nothing)
        } else {
            match event {
                ReplicatorEvent::Connected => if self.activity
                    == ReplicatorActivityLevel::Connecting {
                    (
                        ReplicatorState {
                            activity: ReplicatorActivityLevel::Idle,
                            attempts: 0,
                            error: None,
                            ..self
                        },
                        ReplicatorAction::Nothing,
                    )
                } else {
                    (self, ReplicatorAction::Nothing)
                },
                ReplicatorEvent::ChangesDetected => if self.activity
                    == ReplicatorActivityLevel::Idle && !self.stopping {
                    (
                        ReplicatorState { activity: ReplicatorActivityLevel::Busy, ..self },
                        ReplicatorAction::Nothing,
                    )
                } else {
                    (self, ReplicatorAction::Nothing)
                },
                ReplicatorEvent::CaughtUp => if self.activity == ReplicatorActivityLevel::Busy
                    || self.activity == ReplicatorActivityLevel::Idle {
                    if self.stopping {
                        (self, ReplicatorAction::Nothing)
                    } else if policy.continuous {
                        (
                            ReplicatorState { activity: ReplicatorActivityLevel::Idle, ..self },
                            ReplicatorAction::Nothing,
                        )
                    } else {
                        (ReplicatorState { stopping: true, ..self }, ReplicatorAction::Disconnect)
                    }
                } else {
                    (self, ReplicatorAction::Nothing)
                },
                ReplicatorEvent::ConnectionLost => if !self.spec_connected() {
                    (self, ReplicatorAction::Nothing)
                } else if self.stopping {
                    (
                        ReplicatorState {
                            activity: ReplicatorActivityLevel::Stopped,
                            stopping: false,
                            ..self
                        },
                        ReplicatorAction::Nothing,
                    )
                } else if self.attempts >= policy.spec_attempts() {
                    (
                        ReplicatorState {
                            activity: ReplicatorActivityLevel::Stopped,
                            was_connected: true,
                            ..self
                        },
                        ReplicatorAction::Nothing,
                    )
                } else if self.suspended || !self.host_reachable {
                    (
                        ReplicatorState {
                            activity: ReplicatorActivityLevel::Offline,
                            was_connected: true,
                            ..self
                        },
                        ReplicatorAction::Nothing,
                    )
                } else {
                    (
                        ReplicatorState {
                            activity: ReplicatorActivityLevel::Offline,
                            was_connected: true,
                            ..self
                        },
                        ReplicatorAction::RetryAfter(
                            spec_retry_delay(self.attempts, policy.spec_wait()),
                        ),
                    )
                },
                ReplicatorEvent::RetryTimer => if self.activity
                    == ReplicatorActivityLevel::Offline && self.spec_may_retry(policy) {
                    (
                        ReplicatorState {
                            activity: ReplicatorActivityLevel::Connecting,
                            attempts: (self.attempts + 1) as u32,
                            ..self
                        },
                        ReplicatorAction::Connect,
                    )
                } else {
                    (self, ReplicatorAction::Nothing)
                },
                ReplicatorEvent::Closed => (
                    ReplicatorState {
                        activity: ReplicatorActivityLevel::Stopped,
                        stopping: false,
                        ..self
                    },
                    ReplicatorAction::Nothing,
                ),
                ReplicatorEvent::Failed(e) => (
                    ReplicatorState {
                        activity: ReplicatorActivityLevel::Stopped,
                        stopping: false,
                        error: Some(e),
                        ..self
                    },
                    ReplicatorAction::Nothing,
                ),
            }
        }
    }

    /// The state of a new replicator.
    pub fn new() -> (res: ReplicatorState)
        ensures
            res == Self::spec_new(),
    {
        ReplicatorState {
            activity: ReplicatorActivityLevel::Stopped,
            stopping: false,
            suspended: false,
            host_reachable: true,
            was_connected: false,
            attempts: 0,
            checkpoint: 0,
            document_count: 0,
            error: None,
        }
    }

    /// True while the replicator holds or seeks a connection.
    pub fn connected(&self) -> (res: bool)
        ensures
            res == self.spec_connected(),
    {
        match self.activity {
            ReplicatorActivityLevel::Connecting => true,
            ReplicatorActivityLevel::Idle => true,
            ReplicatorActivityLevel::Busy => true,
            _ => false,
        }
    }

    /// True for the activity level `Stopped`.
    pub fn is_stopped(&self) -> (res: bool)
        ensures
            res == (self.activity == ReplicatorActivityLevel::Stopped),
    {
        match self.activity {
            ReplicatorActivityLevel::Stopped => true,
            _ => false,
        }
    }

    /// True for the activity level `Offline`.
    pub fn is_offline(&self) -> (res: bool)
        ensures
            res == (self.activity == ReplicatorActivityLevel::Offline),
    {
        match self.activity {
            ReplicatorActivityLevel::Offline => true,
            _ => false,
        }
    }

    /// Starts the replicator. Does nothing if it is started already.
    pub fn start(&mut self, reset_checkpoint: bool) -> (action: ReplicatorAction)
        ensures
            (*final(self), action) == old(self).spec_start(reset_checkpoint),
    {
        if !self.is_stopped() {
            return ReplicatorAction::Nothing;
        }
        self.activity = ReplicatorActivityLevel::Connecting;
        self.stopping = false;
        self.was_connected = false;
        self.attempts = 1;
        if reset_checkpoint {
            self.checkpoint = 0;
        }
        self.error = None;
        ReplicatorAction::Connect
    }

    /// Tells the replicator to stop. Does nothing if it is stopped.
    pub fn stop(&mut self) -> (action: ReplicatorAction)
        ensures
            (*final(self), action) == old(self).spec_stop(),
    {
        match self.activity {
            ReplicatorActivityLevel::Stopped => ReplicatorAction::Nothing,
            ReplicatorActivityLevel::Offline => {
                self.activity = ReplicatorActivityLevel::Stopped;
                self.stopping = false;
                ReplicatorAction::CancelRetry
            },
            ReplicatorActivityLevel::Connecting => {
                self.activity = ReplicatorActivityLevel::Stopped;
                self.stopping = false;
                ReplicatorAction::Disconnect
            },
            _ => {
                self.stopping = true;
                ReplicatorAction::Disconnect
            },
        }
    }

    /// Suspends or resumes the replicator.
    pub fn set_suspended(&mut self, suspended: bool) -> (action: ReplicatorAction)
        ensures
            (*final(self), action) == old(self).spec_set_suspended(suspended),
    {
        if suspended {
            self.suspended = true;
            if self.connected() {
                self.activity = ReplicatorActivityLevel::Offline;
                self.was_connected = true;
                ReplicatorAction::Disconnect
            } else if self.is_offline() {
                ReplicatorAction::CancelRetry
            } else {
                ReplicatorAction::Nothing
            }
        } else {
            self.suspended = false;
            if self.is_offline() && self.was_connected && self.host_reachable {
                self.activity = ReplicatorActivityLevel::Connecting;
                self.attempts = 1;
                ReplicatorAction::Connect
            } else {
                ReplicatorAction::Nothing
            }
        }
    }

    /// Tells the replicator whether the remote host can be reached.
    pub fn set_host_reachable(&mut self, reachable: bool) -> (action: ReplicatorAction)
        ensures
            (*final(self), action) == old(self).spec_set_host_reachable(reachable),
    {
        self.host_reachable = reachable;
        if !self.is_offline() {
            ReplicatorAction::Nothing
        } else if !reachable {
            ReplicatorAction::CancelRetry
        } else if self.suspended {
            ReplicatorAction::Nothing
        } else {
            self.activity = ReplicatorActivityLevel::Connecting;
            self.attempts = 1;
            ReplicatorAction::Connect
        }
    }

    /// Takes an event, and says what is to do.
    pub fn handle(&mut self, event: ReplicatorEvent, policy: RetryPolicy) -> (action:
        ReplicatorAction)
        ensures
            (*final(self), action) == old(self).spec_handle(event, policy),
    {
        if self.is_stopped() {
            return ReplicatorAction::Nothing;
        }
        match event {
            ReplicatorEvent::Connected => {
                match self.activity {
                    ReplicatorActivityLevel::Connecting => {
                        self.activity = ReplicatorActivityLevel::Idle;
                        self.attempts = 0;
                        self.error = None;
                    },
                    _ => {},
                }
                ReplicatorAction::Nothing
            },
            ReplicatorEvent::ChangesDetected => {
                match self.activity {
                    ReplicatorActivityLevel::Idle => {
                        if !self.stopping {
                            self.activity = ReplicatorActivityLevel::Busy;
                        }
                    },
                    _ => {},
                }
                ReplicatorAction::Nothing
            },
            ReplicatorEvent::CaughtUp => {
                let transferring = match self.activity {
                    ReplicatorActivityLevel::Busy => true,
                    ReplicatorActivityLevel::Idle => true,
                    _ => false,
                };
                if !transferring || self.stopping {
                    ReplicatorAction::Nothing
                } else if policy.continuous {
                    self.activity = ReplicatorActivityLevel::Idle;
                    ReplicatorAction::Nothing
                } else {
                    self.stopping = true;
                    ReplicatorAction::Disconnect
                }
            },
            ReplicatorEvent::ConnectionLost => {
                if !self.connected() {
                    ReplicatorAction::Nothing
                } else if self.stopping {
                    self.activity = ReplicatorActivityLevel::Stopped;
                    self.stopping = false;
                    ReplicatorAction::Nothing
                } else if self.attempts >= policy.attempts() {
                    self.activity = ReplicatorActivityLevel::Stopped;
                    self.was_connected = true;
                    ReplicatorAction::Nothing
                } else {
                    self.activity = ReplicatorActivityLevel::Offline;
                    self.was_connected = true;
                    if self.suspended || !self.host_reachable {
                        ReplicatorAction::Nothing
                    } else {
                        ReplicatorAction::RetryAfter(retry_delay(self.attempts, policy.wait()))
                    }
                }
            },
            ReplicatorEvent::RetryTimer => {
                if self.is_offline() && !self.suspended && self.host_reachable && self.attempts
                    < policy.attempts() {
                    self.activity = ReplicatorActivityLevel::Connecting;
                    self.attempts = self.attempts + 1;
                    ReplicatorAction::Connect
                } else {
                    ReplicatorAction::Nothing
                }
            },
            ReplicatorEvent::Closed => {
                self.activity = ReplicatorActivityLevel::Stopped;
                self.stopping = false;
                ReplicatorAction::Nothing
            },
            ReplicatorEvent::Failed(e) => {
                self.activity = ReplicatorActivityLevel::Stopped;
                self.stopping = false;
                self.error = Some(e);
                ReplicatorAction::Nothing
            },
        }
    }

    /// The replicator's current status.
    pub fn status(&self) -> (res: ReplicatorStatus)
        ensures
            res.activity == self.activity,
            res.progress.document_count == self.document_count,
            res.error == self.error,
    {
        ReplicatorStatus {
            activity: self.activity,
            progress: ReplicatorProgress { document_count: self.document_count },
            error: self.error,
        }
    }
}

/// The seconds that a stop waits for the replicator to report `Stopped`:
/// what was asked for, or 10 by default.
pub fn stop_timeout(timeout_seconds: Option<u64>) -> (res: u64)
    ensures
        res == match timeout_seconds {
            Some(t) => t,
            None => DEFAULT_STOP_TIMEOUT,
        },
{
    match timeout_seconds {
        Some(t) => t,
        None => DEFAULT_STOP_TIMEOUT,
    }
}

/// Whether a stop that waits has to tell the replicator to stop and to
/// wait: it has unless the replicator is stopped already.
pub fn stop_must_wait(activity: ReplicatorActivityLevel) -> (res: bool)
    ensures
        res == (activity != ReplicatorActivityLevel::Stopped),
{
    match activity {
        ReplicatorActivityLevel::Stopped => false,
        _ => true,
    }
}

/// Whether a stop that waits is confirmed: the replicator was stopped
/// already, or it reported `Stopped` within the timeout. A stop that is not
/// confirmed has not failed: the replicator goes on towards `Stopped`.
pub fn stop_confirmed(activity: ReplicatorActivityLevel, reported_in_time: bool) -> (res: bool)
    ensures
        res == (activity == ReplicatorActivityLevel::Stopped || reported_in_time),
{
    !stop_must_wait(activity) || reported_in_time
}

/// No event makes a stopped replicator leave `Stopped`: only a start does.
pub proof fn lemma_stopped_is_terminal(s: ReplicatorState, event: ReplicatorEvent, policy: RetryPolicy)
    requires
        s.activity == ReplicatorActivityLevel::Stopped,
    ensures
        s.spec_handle(event, policy) == (s, ReplicatorAction::Nothing),
        s.spec_stop().0.activity == ReplicatorActivityLevel::Stopped,
        forall|b: bool| (#[trigger] s.spec_set_suspended(b)).0.activity == ReplicatorActivityLevel::Stopped,
        forall|b: bool| (#[trigger] s.spec_set_host_reachable(b)).0.activity == ReplicatorActivityLevel::Stopped,
{
}

/// A suspended replicator does not connect and asks for no retry, whatever
/// happens, until it is resumed.
pub proof fn lemma_suspended_never_connects(
    s: ReplicatorState,
    event: ReplicatorEvent,
    policy: RetryPolicy,
)
    requires
        s.suspended,
        s.activity != ReplicatorActivityLevel::Stopped,
    ensures
        s.spec_handle(event, policy).0.suspended,
        s.spec_handle(event, policy).1 != ReplicatorAction::Connect,
        !(s.spec_handle(event, policy).1 is RetryAfter),
        forall|b: bool|
            (#[trigger] s.spec_set_host_reachable(b)).1 != ReplicatorAction::Connect,
{
}

/// A replicator never makes more attempts in a row than its policy allows.
pub proof fn lemma_attempts_bounded(s: ReplicatorState, event: ReplicatorEvent, policy: RetryPolicy)
    requires
        s.attempts <= policy.spec_attempts(),
    ensures
        s.spec_handle(event, policy).0.attempts <= policy.spec_attempts(),
        forall|b: bool| (#[trigger] s.spec_start(b)).0.attempts <= policy.spec_attempts(),
        s.spec_stop().0.attempts <= policy.spec_attempts(),
        forall|b: bool| (#[trigger] s.spec_set_suspended(b)).0.attempts <= policy.spec_attempts(),
        forall|b: bool|
            (#[trigger] s.spec_set_host_reachable(b)).0.attempts <= policy.spec_attempts(),
{
}

/// The wait before a retry never exceeds the configured limit, and does not
/// shrink from one attempt to the next.
pub proof fn lemma_retry_delay_bounded(attempts: u32, limit: u32)
    requires
        attempts < u32::MAX,
    ensures
        spec_retry_delay(attempts, limit) <= limit,
        spec_retry_delay(attempts, limit) <= spec_retry_delay((attempts + 1) as u32, limit),
{
    lemma_pow2_grows(attempts as nat, (attempts + 1) as nat);
}

/// A replicator: its configuration, its callbacks and its state. It holds
/// no connection: its methods say what is to do, and take what happened.
pub struct Replicator<P, L, R, E, D, CE, CD> {
    pub config: ReplicatorConfiguration<P, L, R>,
    pub context: ReplicationConfigurationContext<P, L, R, E, D, CE, CD>,
    pub state: ReplicatorState,
}

impl<P, L, R, E, D, CE, CD> Replicator<P, L, R, E, D, CE, CD> {
    /// A replicator with the given configuration and callbacks, once the
    /// engine has answered: `error` is what the engine wrote when it was
    /// given the configuration. Where it wrote an error, the result is that
    /// error in typed form; where it wrote none, the result is the
    /// replicator, stopped, with the configuration and the callbacks as
    /// they were given.
    pub fn new(
        config: ReplicatorConfiguration<P, L, R>,
        context: ReplicationConfigurationContext<P, L, R, E, D, CE, CD>,
        error: &CBLError,
    ) -> (res: Result<Self>)
        ensures
            match res {
                Ok(r) => spec_check_error(*error) is Ok && r.config == config && r.context
                    == context && r.state == ReplicatorState::spec_new(),
                Err(e) => spec_check_error(*error) == Err::<(), Error>(e),
            },
    {
        match check_error(error) {
            Ok(()) => Ok(Replicator { config, context, state: ReplicatorState::new() }),
            Err(e) => Err(e),
        }
    }

    /// True unless auto-purge is disabled.
    pub open spec fn spec_auto_purge(&self) -> bool {
        !self.config.disable_auto_purge
    }

    /// What of the configuration decides about retries.
    pub open spec fn spec_policy(&self) -> RetryPolicy {
        RetryPolicy {
            continuous: self.config.continuous,
            max_attempts: self.config.max_attempts,
            max_attempt_wait_time: self.config.max_attempt_wait_time,
        }
    }

    /// What of the configuration decides about retries.
    pub fn policy(&self) -> (res: RetryPolicy)
        ensures
            res == self.spec_policy(),
    {
        RetryPolicy {
            continuous: self.config.continuous,
            max_attempts: self.config.max_attempts,
            max_attempt_wait_time: self.config.max_attempt_wait_time,
        }
    }

    /// Starts the replicator. Does nothing if it is started already. With
    /// `reset_checkpoint` the replicator forgets how far it had come.
    pub fn start(&mut self, reset_checkpoint: bool) -> (action: ReplicatorAction)
        ensures
            (final(self).state, action) == old(self).state.spec_start(reset_checkpoint),
            final(self).config == old(self).config,
            final(self).context == old(self).context,
    {
        self.state.start(reset_checkpoint)
    }

    /// Tells the replicator to stop. Does nothing if it is stopped. The
    /// replicator is stopped once its status says so.
    pub fn stop(&mut self) -> (action: ReplicatorAction)
        ensures
            (final(self).state, action) == old(self).state.spec_stop(),
            final(self).config == old(self).config,
            final(self).context == old(self).context,
    {
        self.state.stop()
    }

    /// Tells the replicator whether the remote host can be reached.
    pub fn set_host_reachable(&mut self, reachable: bool) -> (action: ReplicatorAction)
        ensures
            (final(self).state, action) == old(self).state.spec_set_host_reachable(reachable),
            final(self).config == old(self).config,
            final(self).context == old(self).context,
    {
        self.state.set_host_reachable(reachable)
    }

    /// Suspends or resumes the replicator.
    pub fn set_suspended(&mut self, suspended: bool) -> (action: ReplicatorAction)
        ensures
            (final(self).state, action) == old(self).state.spec_set_suspended(suspended),
            final(self).config == old(self).config,
            final(self).context == old(self).context,
    {
        self.state.set_suspended(suspended)
    }

    /// Takes an event, and says what is to do.
    pub fn handle(&mut self, event: ReplicatorEvent) -> (action: ReplicatorAction)
        ensures
            (final(self).state, action) == old(self).state.spec_handle(event, old(self).spec_policy()),
            final(self).config == old(self).config,
            final(self).context == old(self).context,
    {
        let policy = self.policy();
        self.state.handle(event, policy)
    }

    /// The replicator's current status.
    pub fn status(&self) -> (res: ReplicatorStatus)
        ensures
            res.activity == self.state.activity,
            res.progress.document_count == self.state.document_count,
            res.error == self.state.error,
    {
        self.state.status()
    }

    /// Notes that the local changes up to sequence number `sequence` are
    /// pushed, `count` documents of them now.
    pub fn acknowledge_push(&mut self, sequence: u64, count: u64)
        ensures
            final(self).state == (ReplicatorState {
                checkpoint: if sequence > old(self).state.checkpoint {
                    sequence
                } else {
                    old(self).state.checkpoint
                },
                document_count: if old(self).state.document_count + count > u64::MAX {
                    u64::MAX
                } else {
                    (old(self).state.document_count + count) as u64
                },
                ..old(self).state
            }),
            final(self).config == old(self).config,
            final(self).context == old(self).context,
    {
        if sequence > self.state.checkpoint {
            self.state.checkpoint = sequence;
        }
        if count > u64::MAX - self.state.document_count {
            self.state.document_count = u64::MAX;
        } else {
            self.state.document_count = self.state.document_count + count;
        }
    }

    /// The IDs of the documents of a collection that have local changes
    /// that this replicator has not pushed yet.
    pub fn pending_document_ids_2(&self, db: &Database, collection: &Collection) -> (res: Result<
        Vec<String>,
    >)
        ensures
            match res {
                Ok(ids) => db@.has_key(collection.key) && views(ids@) == pending_ids(
                    db@.collection(collection.key).records,
                    self.state.checkpoint,
                ),
                Err(e) => !db@.has_key(collection.key) && e == engine_error(
                    CouchbaseLiteError::NotOpen,
                ),
            },
    {
        db.pending_in(collection.key, self.state.checkpoint)
    }

    /// Whether a document of a collection has local changes that this
    /// replicator has not pushed yet.
    pub fn is_document_pending_2(&self, db: &Database, collection: &Collection, doc_id: &str) -> (res:
        Result<bool>)
        ensures
            match res {
                Ok(b) => db@.has_key(collection.key) && b == match db@.collection(
                    collection.key,
                ).record(doc_id@) {
                    Some(r) => r.sequence > self.state.checkpoint,
                    None => false,
                },
                Err(e) => !db@.has_key(collection.key) && e == engine_error(
                    CouchbaseLiteError::NotOpen,
                ),
            },
    {
        db.is_pending_in(collection.key, doc_id, self.state.checkpoint)
    }

    /// Whether a document of the default collection has local changes that
    /// this replicator has not pushed yet. `NotFound` where the database
    /// has no default collection.
    pub fn is_document_pending(&self, db: &Database, doc_id: &str) -> (res: Result<bool>)
        ensures
            match db@.default_key() {
                Some(key) => if db@.has_key(key) {
                    res == Ok::<bool, Error>(
                        match db@.collection(key).record(doc_id@) {
                            Some(r) => r.sequence > self.state.checkpoint,
                            None => false,
                        },
                    )
                } else {
                    res == Err::<bool, Error>(engine_error(CouchbaseLiteError::NotFound))
                },
                None => res == Err::<bool, Error>(engine_error(CouchbaseLiteError::NotFound)),
            },
    {
        match db.default_collection_or_error() {
            Ok(c) => match db.is_pending_in(c.key, doc_id, self.state.checkpoint) {
                Ok(b) => Ok(b),
                Err(_) => Err(Error::cbl_error(CouchbaseLiteError::NotFound)),
            },
            Err(e) => Err(e),
        }
    }

    /// The IDs of the documents of the default collection that have local
    /// changes that this replicator has not pushed yet. `NotFound` where
    /// the database has no default collection.
    pub fn pending_document_ids(&self, db: &Database) -> (res: Result<Vec<String>>)
        ensures
            match db@.default_key() {
                Some(key) => if db@.has_key(key) {
                    res is Ok && views(res->Ok_0@) == pending_ids(
                        db@.collection(key).records,
                        self.state.checkpoint,
                    )
                } else {
                    res == Err::<Vec<String>, Error>(engine_error(CouchbaseLiteError::NotFound))
                },
                None => res == Err::<Vec<String>, Error>(engine_error(CouchbaseLiteError::NotFound)),
            },
    {
        match db.default_collection_or_error() {
            Ok(c) => match db.pending_in(c.key, self.state.checkpoint) {
                Ok(ids) => Ok(ids),
                Err(_) => Err(Error::cbl_error(CouchbaseLiteError::NotFound)),
            },
            Err(e) => Err(e),
        }
    }
}

impl<P: Fn(&Document, bool, bool) -> bool, L, R, E, D, CE, CD> Replicator<P, L, R, E, D, CE, CD> {
    /// Decides what a push transfers of one document of a collection: the
    /// stored revision where the document has changes that this replicator
    /// has not pushed yet and its push filter, if it has one, lets the
    /// document pass. A replicator that only pulls pushes nothing.
    pub fn push(&self, db: &Database, collection: &Collection, doc_id: &str) -> (res: Result<
        Option<Revision>,
    >)
        requires
            self.context.push_filter is Some ==> forall|d: &Document, a: bool, b: bool|
                self.context.push_filter->Some_0.requires((d, a, b)),
        ensures
            self.config.replicator_type == ReplicatorType::Pull ==> res == Ok::<
                Option<Revision>,
                Error,
            >(None),
            self.config.replicator_type != ReplicatorType::Pull ==> exists|pass: bool| #[trigger]
                pushed_as(
                    self.context.push_filter,
                    db@,
                    collection.key,
                    doc_id@,
                    self.state.checkpoint,
                    pass,
                    pushed_view(res),
                ),
    {
        if !self.config.replicator_type.pushes() {
            return Ok(None);
        }
        push_document(db, collection, doc_id, self.state.checkpoint, &self.context.push_filter)
    }
}

impl<
    P,
    L: Fn(&Document, bool, bool) -> bool,
    R: Fn(&str, Option<Document>, Option<Document>) -> Option<Document>,
    E,
    D,
    CE,
    CD,
> Replicator<P, L, R, E, D, CE, CD> {
    /// Pulls one document into a collection, with the pull filter, the
    /// conflict resolver and the auto-purge setting of this replicator, and
    /// reports what came of it. A document that is pulled without error
    /// counts as transferred. A replicator that only pushes takes nothing
    /// in: the document is reported with the error `Unsupported`.
    pub fn pull(&mut self, db: &mut Database, collection: &Collection, incoming: &Revision) -> (res:
        ReplicatedDocument)
        requires
            old(self).context.pull_filter is Some ==> forall|d: &Document, a: bool, b: bool|
                old(self).context.pull_filter->Some_0.requires((d, a, b)),
            old(self).context.conflict_resolver is Some ==> forall|
                id: &str,
                mine: Option<Document>,
                theirs: Option<Document>,
            | old(self).context.conflict_resolver->Some_0.requires((id, mine, theirs)),
        ensures
            final(self).config == old(self).config,
            final(self).context == old(self).context,
            final(self).state == (ReplicatorState {
                document_count: final(self).state.document_count,
                ..old(self).state
            }),
            final(self).state.document_count == if res.error is Ok && old(
                self,
            ).state.document_count < u64::MAX {
                (old(self).state.document_count + 1) as u64
            } else {
                old(self).state.document_count
            },
            res@.id == incoming@.id,
            res.flags == crate::replication::spec_document_flags(
                incoming.deleted,
                incoming.access_removed,
            ),
            old(self).config.replicator_type == ReplicatorType::Push ==> final(db)@ == old(db)@
                && res.error is Err,
            old(self).config.replicator_type != ReplicatorType::Push ==> exists|
                pass: bool,
                answer: Option<Document>,
            | #[trigger]
                pulled_as(
                    old(self).context.pull_filter,
                    old(self).context.conflict_resolver,
                    old(db)@,
                    collection.key,
                    incoming@,
                    old(self).spec_auto_purge(),
                    pass,
                    answer,
                    final(db)@,
                    res.error,
                ),
    {
        if !self.config.replicator_type.pulls() {
            return ReplicatedDocument {
                id: incoming.id.clone(),
                flags: crate::replication::document_flags(
                    incoming.deleted,
                    incoming.access_removed,
                ),
                error: Err(Error::cbl_error(CouchbaseLiteError::Unsupported)),
                scope: Some(collection.scope.clone()),
                collection: Some(collection.name.clone()),
            };
        }
        let auto_purge = !self.config.disable_auto_purge;
        let report = pull_document(
            db,
            collection,
            incoming,
            auto_purge,
            &self.context.pull_filter,
            &self.context.conflict_resolver,
        );
        proof {
            let (pass, answer) = choose|pass: bool, answer: Option<Document>| #[trigger]
                pulled_as(
                    self.context.pull_filter,
                    self.context.conflict_resolver,
                    old(db)@,
                    collection.key,
                    incoming@,
                    auto_purge,
                    pass,
                    answer,
                    db@,
                    report.error,
                );
            assert(pulled_as(
                old(self).context.pull_filter,
                old(self).context.conflict_resolver,
                old(db)@,
                collection.key,
                incoming@,
                old(self).spec_auto_purge(),
                pass,
                answer,
                db@,
                report.error,
            ));
        }
        if report.error.is_ok() && self.state.document_count < u64::MAX {
            self.state.document_count = self.state.document_count + 1;
        }
        report
    }
}

} // verus!
