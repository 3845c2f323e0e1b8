//! The session: locked or open, with the time of the last activity and the
//! idle timeout after which it closes by itself.
//!
//! [`SessionView`] is the mathematical model, with one spec function for each
//! operation. [`SessionState`] is the value that a program holds; each of its
//! methods is proved to do what the model says. Times are readings of a
//! monotonic clock in milliseconds; the caller reads the clock.

use vstd::prelude::*;
use crate::secret::secrets_match;

verus! {

/// The idle timeout of a new session: five minutes, in milliseconds.
pub const DEFAULT_AUTO_LOCK_TIMEOUT_MS: u64 = 300_000;

/// The cadence at which the monitor polls: five seconds, in milliseconds.
pub const POLL_INTERVAL_MS: u64 = 5_000;

/// The model of a session.
pub struct SessionView {
    /// The secret that opens the session.
    pub secret: Seq<u8>,
    /// Whether the session is open.
    pub unlocked: bool,
    /// The vault's payload, held only while the session is open.
    pub vault_payload: Option<Seq<char>>,
    /// When the user was last active, known only while the session is open.
    pub last_activity: Option<nat>,
    /// The idle time after which the session closes; `None` switches that off.
    pub auto_lock_timeout: Option<nat>,
}

/// A time or duration of the program as one of the model.
pub open spec fn as_time(t: Option<u64>) -> Option<nat> {
    match t {
        Some(ms) => Some(ms as nat),
        None => None,
    }
}

impl SessionView {
    /// The invariant of a session: a payload or a last activity is there only
    /// while the session is open, and an open session has a last activity.
    pub open spec fn well_formed(self) -> bool {
        &&& self.vault_payload is Some ==> self.unlocked
        &&& self.last_activity is Some ==> self.unlocked
        &&& self.unlocked ==> self.last_activity is Some
    }

    /// The session at process start: locked, with the default timeout.
    pub open spec fn initial(secret: Seq<u8>) -> SessionView {
        SessionView {
            secret,
            unlocked: false,
            vault_payload: None,
            last_activity: None,
            auto_lock_timeout: Some(DEFAULT_AUTO_LOCK_TIMEOUT_MS as nat),
        }
    }

    /// The session after an attempt to open it with `candidate` at `now`.
    pub open spec fn unlock(self, candidate: Seq<u8>, now: nat) -> SessionView {
        if candidate == self.secret {
            SessionView { unlocked: true, last_activity: Some(now), ..self }
        } else {
            self
        }
    }

    /// The session after it was locked.
    pub open spec fn lock(self) -> SessionView {
        SessionView { unlocked: false, vault_payload: None, last_activity: None, ..self }
    }

    /// The session after the user was seen active at `now`.
    pub open spec fn record_activity(self, now: nat) -> SessionView {
        if self.unlocked {
            SessionView { last_activity: Some(now), ..self }
        } else {
            self
        }
    }

    /// How long the user has been idle at `now`. A clock reading older than
    /// the last activity counts as no idle time.
    pub open spec fn idle_duration(self, now: nat) -> Option<nat> {
        if self.unlocked && self.last_activity is Some {
            let last = self.last_activity->0;
            Some(if now >= last { (now - last) as nat } else { 0 })
        } else {
            None
        }
    }

    /// The session after its timeout was set.
    pub open spec fn set_auto_lock_timeout(self, timeout: Option<nat>) -> SessionView {
        SessionView { auto_lock_timeout: timeout, ..self }
    }

    /// The session after an attempt to store the vault's payload: it is kept
    /// only while the session is open.
    pub open spec fn store_vault_payload(self, payload: Seq<char>) -> SessionView {
        if self.unlocked {
            SessionView { vault_payload: Some(payload), ..self }
        } else {
            self
        }
    }

    /// Whether the monitor, polling at `now`, has to lock the session: it is
    /// open, a timeout is set, and the idle time has reached it.
    pub open spec fn lock_due(self, now: nat) -> bool {
        &&& self.unlocked
        &&& self.auto_lock_timeout is Some
        &&& self.idle_duration(now) is Some
        &&& self.idle_duration(now)->0 >= self.auto_lock_timeout->0
    }

    /// The session after the monitor polled at `now`.
    pub open spec fn tick(self, now: nat) -> SessionView {
        if self.lock_due(now) {
            self.lock()
        } else {
            self
        }
    }
}

/// What the monitor asks of the presentation layer after a poll.
#[derive(Clone, Copy, Debug, PartialEq, Eq, Structural)]
pub enum MonitorAction {
    /// Nothing to do until the next poll.
    Wait,
    /// The session was locked for idleness: hide any secret that is shown.
    HideSecretView,
}

/// What a session holds only while it is open.
struct OpenSession {
    last_activity: u64,
    vault_payload: Option<String>,
}

/// The session of one process.
///
/// The payload and the last activity live inside the part that exists only
/// while the session is open, so no value of this type breaks the invariant
/// of [`SessionView::well_formed`].
pub struct SessionState {
    secret: Vec<u8>,
    open: Option<OpenSession>,
    auto_lock_timeout: Option<u64>,
}

impl View for SessionState {
    type V = SessionView;

    closed spec fn view(&self) -> SessionView {
        SessionView {
            secret: self.secret@,
            unlocked: self.open is Some,
            vault_payload: match self.open {
                Some(OpenSession { vault_payload: Some(payload), .. }) => Some(payload@),
                _ => None,
            },
            last_activity: match self.open {
                Some(open) => Some(open.last_activity as nat),
                None => None,
            },
            auto_lock_timeout: as_time(self.auto_lock_timeout),
        }
    }
}

impl SessionState {
    /// A locked session that `secret` opens, with the default timeout.
    pub fn new(secret: Vec<u8>) -> (session: SessionState)
        ensures
            session@ == SessionView::initial(secret@),
            session@.well_formed(),
    {
        SessionState {
            secret,
            open: None,
            auto_lock_timeout: Some(DEFAULT_AUTO_LOCK_TIMEOUT_MS),
        }
    }

    /// Tries to open the session with `candidate` at `now`. A matching secret
    /// opens it and makes `now` the last activity; any other leaves the
    /// session as it was. The result tells which.
    pub fn unlock(&mut self, candidate: &[u8], now: u64) -> (opened: bool)
        ensures
            opened == (candidate@ == old(self)@.secret),
            final(self)@ == old(self)@.unlock(candidate@, now as nat),
            final(self)@.well_formed(),
    {
        if secrets_match(candidate, self.secret.as_slice()) {
            let vault_payload = match self.open.take() {
                Some(open) => open.vault_payload,
                None => None,
            };
            self.open = Some(OpenSession { last_activity: now, vault_payload });
            true
        } else {
            false
        }
    }

    /// Locks the session and forgets the payload and the last activity. The
    /// timeout stays. Locking a locked session changes nothing.
    pub fn lock(&mut self)
        ensures
            final(self)@ == old(self)@.lock(),
            final(self)@.well_formed(),
    {
        self.open = None;
    }

    /// Whether the session is open.
    pub fn status(&self) -> (unlocked: bool)
        ensures
            unlocked == self@.unlocked,
    {
        self.open.is_some()
    }

    /// Notes that the user was active at `now`. On a locked session this does
    /// nothing.
    pub fn record_activity(&mut self, now: u64)
        ensures
            final(self)@ == old(self)@.record_activity(now as nat),
            final(self)@.well_formed(),
    {
        match self.open.take() {
            Some(open) => {
                self.open = Some(OpenSession { last_activity: now, vault_payload: open.vault_payload });
            },
            None => {},
        }
    }

    /// How long the user has been idle at `now`, while the session is open.
    pub fn idle_duration(&self, now: u64) -> (idle: Option<u64>)
        ensures
            as_time(idle) == self@.idle_duration(now as nat),
    {
        match &self.open {
            Some(open) => Some(if now >= open.last_activity { now - open.last_activity } else { 0 }),
            None => None,
        }
    }

    /// Sets the idle timeout; `None` switches the automatic lock off.
    pub fn set_auto_lock_timeout(&mut self, timeout: Option<u64>)
        ensures
            final(self)@ == old(self)@.set_auto_lock_timeout(as_time(timeout)),
            final(self)@.well_formed(),
    {
        self.auto_lock_timeout = timeout;
    }

    /// The idle timeout; `None` means that the automatic lock is off.
    pub fn get_auto_lock_timeout(&self) -> (timeout: Option<u64>)
        ensures
            as_time(timeout) == self@.auto_lock_timeout,
    {
        self.auto_lock_timeout
    }

    /// One poll of the monitor at `now`: locks the session if it is open, a
    /// timeout is set and the idle time has reached it, and says whether the
    /// presentation layer has to hide what it shows.
    pub fn tick(&mut self, now: u64) -> (action: MonitorAction)
        ensures
            final(self)@ == old(self)@.tick(now as nat),
            action == (if old(self)@.lock_due(now as nat) {
                MonitorAction::HideSecretView
            } else {
                MonitorAction::Wait
            }),
            final(self)@.well_formed(),
    {
        if !self.status() {
            return MonitorAction::Wait;
        }
        let timeout: u64 = match self.auto_lock_timeout {
            Some(timeout) => timeout,
            None => {
                return MonitorAction::Wait;
            },
        };
        let idle: u64 = match self.idle_duration(now) {
            Some(idle) => idle,
            None => {
                return MonitorAction::Wait;
            },
        };
        if idle >= timeout {
            self.lock();
            MonitorAction::HideSecretView
        } else {
            MonitorAction::Wait
        }
    }

    /// Stores the vault's payload while the session is open, and says whether
    /// it did. A locked session holds no payload.
    pub fn store_vault_payload(&mut self, payload: String) -> (stored: bool)
        ensures
            stored == old(self)@.unlocked,
            final(self)@ == old(self)@.store_vault_payload(payload@),
            final(self)@.well_formed(),
    {
        match self.open.take() {
            Some(open) => {
                self.open = Some(OpenSession { last_activity: open.last_activity, vault_payload: Some(payload) });
                true
            },
            None => false,
        }
    }

    /// The vault's payload, if the session holds one.
    pub fn vault_payload(&self) -> (payload: Option<&String>)
        ensures
            payload is Some == self@.vault_payload is Some,
            payload is Some ==> payload->0@ == self@.vault_payload->0,
    {
        match &self.open {
            Some(open) => open.vault_payload.as_ref(),
            None => None,
        }
    }
}

} // verus!
