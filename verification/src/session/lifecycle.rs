//! When sessions expire or are reconnected, and the bookkeeping of reconnection attempts.
//!
//! Spans of time are in milliseconds.
use vstd::prelude::*;

use super::{elapsed, SessionId, SessionMetadata, SessionStatus};
use crate::clock::now_millis;
use crate::keyed::KeyedList;

verus! {

/// Settings of session lifecycles, in milliseconds where they are spans of time.
#[derive(Debug, Clone, Copy)]
pub struct SessionLifecycleConfig {
    /// How long an idle session lives.
    pub max_idle_time: u64,
    /// How long any session lives.
    pub max_session_lifetime: u64,
    /// How often cleanup runs.
    pub cleanup_interval: u64,
    /// Whether failed sessions are reconnected.
    pub enable_auto_reconnect: bool,
    /// The most reconnection attempts for a session.
    pub max_reconnect_attempts: u32,
    /// The least time between reconnection attempts.
    pub reconnect_delay: u64,
}

/// The default lifecycle settings: 5 minutes idle, 1 hour in all, cleanup every minute,
/// reconnection on with 3 attempts 5 seconds apart.
pub open spec fn is_default_lifecycle_config(c: SessionLifecycleConfig) -> bool {
    &&& c.max_idle_time == 300_000
    &&& c.max_session_lifetime == 3_600_000
    &&& c.cleanup_interval == 60_000
    &&& c.enable_auto_reconnect
    &&& c.max_reconnect_attempts == 3
    &&& c.reconnect_delay == 5_000
}

impl Default for SessionLifecycleConfig {
    fn default() -> (r: Self)
        ensures
            is_default_lifecycle_config(r),
    {
        SessionLifecycleConfig {
            max_idle_time: 300_000,
            max_session_lifetime: 3_600_000,
            cleanup_interval: 60_000,
            enable_auto_reconnect: true,
            max_reconnect_attempts: 3,
            reconnect_delay: 5_000,
        }
    }
}

/// Whether a session has expired at a time: idle for longer than the idle limit, older than
/// the lifetime limit, or failed.
pub open spec fn expires(c: SessionLifecycleConfig, s: SessionMetadata, now: u64) -> bool {
    (s.status == SessionStatus::Idle && elapsed(s.last_used, now) > c.max_idle_time) || elapsed(
        s.created_at,
        now,
    ) > c.max_session_lifetime || s.status == SessionStatus::Failed
}

/// Whether a session is to be reconnected at a time: reconnection is on, it failed, and it is
/// neither older than the lifetime limit nor idle for longer than the idle limit.
pub open spec fn reconnects(c: SessionLifecycleConfig, s: SessionMetadata, now: u64) -> bool {
    c.enable_auto_reconnect && s.status == SessionStatus::Failed && elapsed(s.created_at, now)
        <= c.max_session_lifetime && elapsed(s.last_used, now) <= c.max_idle_time
}

/// Decides over session lifecycles and whether the cleanup task runs.
#[derive(Debug)]
pub struct SessionLifecycle {
    config: SessionLifecycleConfig,
    cleanup_running: bool,
}

impl SessionLifecycle {
    /// The settings.
    pub closed spec fn settings(&self) -> SessionLifecycleConfig {
        self.config
    }

    /// Whether the cleanup task is to keep running.
    pub closed spec fn running(&self) -> bool {
        self.cleanup_running
    }

    /// A lifecycle manager with the settings and no cleanup task.
    pub fn new(config: SessionLifecycleConfig) -> (r: Self)
        ensures
            r.settings() == config,
            !r.running(),
    {
        SessionLifecycle { config, cleanup_running: false }
    }

    /// Marks the cleanup task as running; true when it was not, so a task is to be started.
    pub fn start_cleanup_task(&mut self) -> (r: bool)
        ensures
            r == !old(self).running(),
            final(self).running(),
            final(self).settings() == old(self).settings(),
    {
        if self.cleanup_running {
            return false;
        }
        self.cleanup_running = true;
        true
    }

    /// Marks the cleanup task as stopped; a running task ends at its next round.
    pub fn stop_cleanup_task(&mut self)
        ensures
            !final(self).running(),
            final(self).settings() == old(self).settings(),
    {
        self.cleanup_running = false;
    }

    /// Whether the cleanup task is to keep running.
    pub fn is_cleanup_running(&self) -> (r: bool)
        ensures
            r == self.running(),
    {
        self.cleanup_running
    }

    /// Whether a session has expired at a time (see `expires`).
    pub fn should_expire_session_at(&self, session: &SessionMetadata, now: u64) -> (r: bool)
        ensures
            r == expires(self.settings(), *session, now),
    {
        if session.status == SessionStatus::Idle && session.idle_time_at(now) > self.config.max_idle_time {
            return true;
        }
        if session.age_at(now) > self.config.max_session_lifetime {
            return true;
        }
        session.status == SessionStatus::Failed
    }

    /// Whether a session has expired now.
    pub fn should_expire_session(&self, session: &SessionMetadata) -> (r: bool)
        ensures
            exists|now: u64| r == #[trigger] expires(self.settings(), *session, now),
    {
        self.should_expire_session_at(session, now_millis())
    }

    /// Whether a session is to be reconnected at a time (see `reconnects`).
    pub fn should_reconnect_session_at(&self, session: &SessionMetadata, now: u64) -> (r: bool)
        ensures
            r == reconnects(self.settings(), *session, now),
    {
        if !self.config.enable_auto_reconnect {
            return false;
        }
        if session.status != SessionStatus::Failed {
            return false;
        }
        if session.age_at(now) > self.config.max_session_lifetime {
            return false;
        }
        if session.idle_time_at(now) > self.config.max_idle_time {
            return false;
        }
        true
    }

    /// Whether a session is to be reconnected now.
    pub fn should_reconnect_session(&self, session: &SessionMetadata) -> (r: bool)
        ensures
            exists|now: u64| r == #[trigger] reconnects(self.settings(), *session, now),
    {
        self.should_reconnect_session_at(session, now_millis())
    }

    /// The settings.
    pub fn get_config(&self) -> (r: &SessionLifecycleConfig)
        ensures
            *r == self.settings(),
    {
        &self.config
    }

    /// Replaces the settings.
    pub fn update_config(&mut self, config: SessionLifecycleConfig)
        ensures
            final(self).settings() == config,
            final(self).running() == old(self).running(),
    {
        self.config = config;
    }
}

/// The sum of a list of counts.
pub open spec fn sum_counts(s: Seq<u32>) -> int
    decreases s.len(),
{
    if s.len() == 0 {
        0
    } else {
        sum_counts(s.drop_last()) + s.last()
    }
}

/// The largest of a list of counts, or 0.
pub open spec fn max_count(s: Seq<u32>) -> u32
    decreases s.len(),
{
    if s.len() == 0 {
        0
    } else if s.last() > max_count(s.drop_last()) {
        s.last()
    } else {
        max_count(s.drop_last())
    }
}

/// Counts about reconnection attempts.
#[derive(Debug, Clone, Copy)]
pub struct ReconnectionStats {
    /// Sessions with attempts.
    pub sessions_with_attempts: usize,
    /// Attempts in all.
    pub total_attempts: u32,
    /// The most attempts of one session.
    pub max_attempts_for_session: u32,
}

/// Counts reconnection attempts of sessions and when the last one was made.
#[derive(Debug)]
pub struct SessionReconnectionManager {
    reconnection_attempts: KeyedList<SessionId, u32>,
    last_reconnection_time: KeyedList<SessionId, u64>,
}

impl SessionReconnectionManager {
    /// The attempts of each session with attempts.
    pub closed spec fn attempts(&self) -> Map<u128, u32> {
        self.reconnection_attempts@
    }

    /// The attempt counts in the order in which the sessions are kept.
    pub closed spec fn attempt_counts(&self) -> Seq<u32> {
        self.reconnection_attempts.value_seq()
    }

    /// When the last attempt of each session was made.
    pub closed spec fn last_attempts(&self) -> Map<u128, u64> {
        self.last_reconnection_time@
    }

    /// A manager that knows of no attempts.
    pub fn new() -> (r: Self)
        ensures
            r.attempts() == Map::<u128, u32>::empty(),
            r.last_attempts() == Map::<u128, u64>::empty(),
    {
        SessionReconnectionManager {
            reconnection_attempts: KeyedList::new(),
            last_reconnection_time: KeyedList::new(),
        }
    }

    /// Whether a session may be reconnected at a time: it has had fewer attempts than the
    /// limit, and the delay since its last attempt has passed.
    pub fn can_reconnect_at(&self, session_id: SessionId, config: &SessionLifecycleConfig, now: u64) -> (r:
        bool)
        ensures
            r == ((if self.attempts().contains_key(session_id.0) {
                self.attempts()[session_id.0]
            } else {
                0
            }) < config.max_reconnect_attempts && !(self.last_attempts().contains_key(session_id.0)
                && elapsed(self.last_attempts()[session_id.0], now) < config.reconnect_delay)),
    {
        let attempts = match self.reconnection_attempts.get(&session_id) {
            Some(a) => *a,
            None => 0,
        };
        if attempts >= config.max_reconnect_attempts {
            return false;
        }
        match self.last_reconnection_time.get(&session_id) {
            Some(last) => {
                let since: u64 = if now >= *last {
                    now - *last
                } else {
                    0
                };
                if since < config.reconnect_delay {
                    return false;
                }
            },
            None => {},
        }
        true
    }

    /// Whether a session may be reconnected now.
    pub fn can_reconnect(&self, session_id: SessionId, config: &SessionLifecycleConfig) -> (r: bool)
        ensures
            (if self.attempts().contains_key(session_id.0) {
                self.attempts()[session_id.0]
            } else {
                0
            }) >= config.max_reconnect_attempts ==> !r,
            !self.last_attempts().contains_key(session_id.0) && (if self.attempts().contains_key(
                session_id.0,
            ) {
                self.attempts()[session_id.0]
            } else {
                0
            }) < config.max_reconnect_attempts ==> r,
    {
        self.can_reconnect_at(session_id, config, now_millis())
    }

    /// Records an attempt of a session at a time.
    pub fn record_reconnection_attempt_at(&mut self, session_id: SessionId, now: u64)
        requires
            old(self).attempts().contains_key(session_id.0) ==> old(self).attempts()[session_id.0]
                < u32::MAX,
        ensures
            final(self).attempts() == old(self).attempts().insert(
                session_id.0,
                (if old(self).attempts().contains_key(session_id.0) {
                    old(self).attempts()[session_id.0] + 1
                } else {
                    1
                }) as u32,
            ),
            final(self).last_attempts() == old(self).last_attempts().insert(session_id.0, now),
    {
        let attempts = match self.reconnection_attempts.get(&session_id) {
            Some(a) => *a,
            None => 0,
        };
        self.reconnection_attempts.insert(session_id, attempts + 1);
        self.last_reconnection_time.insert(session_id, now);
    }

    /// Records an attempt of a session now.
    pub fn record_reconnection_attempt(&mut self, session_id: SessionId)
        requires
            old(self).attempts().contains_key(session_id.0) ==> old(self).attempts()[session_id.0]
                < u32::MAX,
        ensures
            final(self).attempts() == old(self).attempts().insert(
                session_id.0,
                (if old(self).attempts().contains_key(session_id.0) {
                    old(self).attempts()[session_id.0] + 1
                } else {
                    1
                }) as u32,
            ),
            final(self).last_attempts().dom() == old(self).last_attempts().dom().insert(session_id.0),
    {
        self.record_reconnection_attempt_at(session_id, now_millis());
    }

    /// Forgets the attempts of a session, after it reconnected.
    pub fn reset_reconnection(&mut self, session_id: SessionId)
        ensures
            final(self).attempts() == old(self).attempts().remove(session_id.0),
            final(self).last_attempts() == old(self).last_attempts().remove(session_id.0),
    {
        self.reconnection_attempts.remove(&session_id);
        self.last_reconnection_time.remove(&session_id);
    }

    /// Forgets the attempts of a session that is gone.
    pub fn cleanup_session(&mut self, session_id: SessionId)
        ensures
            final(self).attempts() == old(self).attempts().remove(session_id.0),
            final(self).last_attempts() == old(self).last_attempts().remove(session_id.0),
    {
        self.reconnection_attempts.remove(&session_id);
        self.last_reconnection_time.remove(&session_id);
    }

    /// Counts about the attempts: how many sessions have attempts, their sum and their largest
    /// number.
    pub fn get_stats(&self) -> (r: ReconnectionStats)
        requires
            sum_counts(self.attempt_counts()) <= u32::MAX,
        ensures
            r.sessions_with_attempts == self.attempts().len(),
            r.total_attempts == sum_counts(self.attempt_counts()),
            r.max_attempts_for_session == max_count(self.attempt_counts()),
    {
        let n = self.reconnection_attempts.len();
        let mut total: u32 = 0;
        let mut largest: u32 = 0;
        let mut i: usize = 0;
        while i < n
            invariant
                n == self.reconnection_attempts.value_seq().len(),
                n == self.reconnection_attempts.key_seq().len(),
                sum_counts(self.attempt_counts()) <= u32::MAX,
                i <= n,
                total == sum_counts(self.attempt_counts().take(i as int)),
                largest == max_count(self.attempt_counts().take(i as int)),
            decreases n - i,
        {
            let a = *self.reconnection_attempts.value_at(i);
            proof {
                let t = self.attempt_counts().take(i as int);
                let t1 = self.attempt_counts().take(i + 1);
                assert(t1.drop_last() =~= t);
                assert(t1.last() == a);
                lemma_sum_prefix(self.attempt_counts(), i + 1);
            }
            total = total + a;
            if a > largest {
                largest = a;
            }
            i = i + 1;
        }
        proof {
            assert(self.attempt_counts().take(n as int) =~= self.attempt_counts());
        }
        ReconnectionStats {
            sessions_with_attempts: n,
            total_attempts: total,
            max_attempts_for_session: largest,
        }
    }
}

proof fn lemma_sum_prefix(s: Seq<u32>, i: int)
    requires
        0 <= i <= s.len(),
    ensures
        sum_counts(s.take(i)) <= sum_counts(s),
    decreases s.len() - i,
{
    if i < s.len() {
        lemma_sum_prefix(s, i + 1);
        assert(s.take(i + 1).drop_last() =~= s.take(i));
    } else {
        assert(s.take(i) =~= s);
    }
}

impl Default for SessionReconnectionManager {
    fn default() -> (r: Self)
        ensures
            r.attempts() == Map::<u128, u32>::empty(),
            r.last_attempts() == Map::<u128, u64>::empty(),
    {
        Self::new()
    }
}

} // verus!
