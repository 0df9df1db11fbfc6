//! Authentication status of the private connection: whether the login was
//! accepted, how many logins failed, and when the last one was tried.
//!
//! Instants are milliseconds on a monotonic clock that the caller reads.

use vstd::prelude::*;

verus! {

/// Failed logins after which no more are tried until a reset.
pub const MAX_AUTH_FAILURES: usize = 3;

/// The least gap between two login attempts, in milliseconds.
pub const MAX_AUTHENTICATION_INTERVAL_MS: u64 = 60000;

/// Milliseconds from `earlier` to `now`; zero if the clock reads earlier.
pub open spec fn elapsed(earlier: u64, now: u64) -> int {
    if now >= earlier {
        now - earlier
    } else {
        0
    }
}

#[derive(Clone, Copy, Debug)]
pub struct AuthenticationStatus {
    pub is_authenticated: bool,
    pub authenticated_at: Option<u64>,
    pub failure_count: usize,
    pub last_attempt: Option<u64>,
}

impl AuthenticationStatus {
    /// The status before any login.
    pub open spec fn initial() -> Self {
        AuthenticationStatus {
            is_authenticated: false,
            authenticated_at: None,
            failure_count: 0,
            last_attempt: None,
        }
    }

    /// The status after a login was accepted at `now`.
    pub open spec fn after_success(self, now: u64) -> Self {
        AuthenticationStatus {
            is_authenticated: true,
            authenticated_at: Some(now),
            failure_count: 0,
            ..self
        }
    }

    /// The status after a login was refused at `now`. The count stops at
    /// the largest `usize`.
    pub open spec fn after_failure(self, now: u64) -> Self {
        AuthenticationStatus {
            is_authenticated: false,
            failure_count: if self.failure_count < usize::MAX {
                (self.failure_count + 1) as usize
            } else {
                self.failure_count
            },
            last_attempt: Some(now),
            ..self
        }
    }

    /// Whether another login may follow a failure.
    pub open spec fn retry_allowed(self) -> bool {
        !self.is_authenticated && self.failure_count < MAX_AUTH_FAILURES
    }

    /// Whether a login may be tried at `now`: none was tried yet, or the last
    /// was more than the least gap ago.
    pub open spec fn may_attempt(self, now: u64) -> bool {
        match self.last_attempt {
            None => true,
            Some(last) => elapsed(last, now) > MAX_AUTHENTICATION_INTERVAL_MS,
        }
    }

    pub fn mark_authenticated(&mut self, now: u64)
        ensures
            *final(self) == old(self).after_success(now),
    {
        self.is_authenticated = true;
        self.authenticated_at = Some(now);
        self.failure_count = 0;
    }

    pub fn mark_failed(&mut self, now: u64)
        ensures
            *final(self) == old(self).after_failure(now),
    {
        self.is_authenticated = false;
        if self.failure_count < usize::MAX {
            self.failure_count = self.failure_count + 1;
        }
        self.last_attempt = Some(now);
    }

    /// Records that a login was sent at `now`.
    pub fn record_attempt(&mut self, now: u64)
        ensures
            *final(self) == (AuthenticationStatus { last_attempt: Some(now), ..*old(self) }),
    {
        self.last_attempt = Some(now);
    }

    pub fn reset(&mut self)
        ensures
            *final(self) == AuthenticationStatus::initial(),
    {
        *self = AuthenticationStatus::default();
    }

    pub fn should_retry(&self) -> (r: bool)
        ensures
            r == self.retry_allowed(),
    {
        !self.is_authenticated && self.failure_count < MAX_AUTH_FAILURES
    }

    pub fn can_attempt_auth(&self, now: u64) -> (r: bool)
        ensures
            r == self.may_attempt(now),
            r <==> (self.last_attempt is None || elapsed(self.last_attempt->Some_0, now)
                > MAX_AUTHENTICATION_INTERVAL_MS),
    {
        match self.last_attempt {
            None => true,
            Some(last) => {
                let gap = if now >= last {
                    now - last
                } else {
                    0
                };
                gap > MAX_AUTHENTICATION_INTERVAL_MS
            },
        }
    }
}

impl Default for AuthenticationStatus {
    fn default() -> (r: Self)
        ensures
            r == AuthenticationStatus::initial(),
    {
        AuthenticationStatus {
            is_authenticated: false,
            authenticated_at: None,
            failure_count: 0,
            last_attempt: None,
        }
    }
}

/// After an accepted login the status is authenticated with no failures
/// counted, whatever came before.
pub proof fn success_clears_failures(s: AuthenticationStatus, now: u64)
    ensures
        s.after_success(now).is_authenticated,
        s.after_success(now).failure_count == 0,
{
}

/// Three refused logins in a row, from any status, stop further retries.
pub proof fn three_failures_stop_retries(s: AuthenticationStatus, t1: u64, t2: u64, t3: u64)
    ensures
        !s.after_failure(t1).after_failure(t2).after_failure(t3).retry_allowed(),
{
}

/// A refused login at `now` blocks the next one until more than the least
/// gap has passed.
pub proof fn failure_blocks_until_gap(s: AuthenticationStatus, now: u64, later: u64)
    ensures
        s.after_failure(now).may_attempt(later) <==> elapsed(now, later)
            > MAX_AUTHENTICATION_INTERVAL_MS,
{
}

} // verus!
