//! Counting what happens to sessions: how many were created, connected, used and closed, how
//! long they lived and stayed idle, and how many were reused.
//!
//! Times and spans of time are in milliseconds. The connection success rate and the reuse rate
//! are percentages of the counts kept here: successful connections among all connections, and
//! `reused_sessions` among `tracked_sessions`.
use vstd::prelude::*;

use crate::keyed::KeyedList;
use crate::session::{elapsed, SessionId, SessionMetadata, SessionStatus};
use crate::transport::TransportType;

verus! {

/// The counts kept about sessions.
#[derive(Debug)]
pub struct SessionMetrics {
    /// Sessions created.
    pub total_sessions_created: u64,
    /// Connections that succeeded.
    pub successful_connections: u64,
    /// Connections that failed.
    pub failed_connections: u64,
    /// Sessions closed.
    pub sessions_closed: u64,
    /// Sessions active now.
    pub active_sessions: u32,
    /// Sessions idle now.
    pub idle_sessions: u32,
    /// Sessions failed now.
    pub failed_sessions: u32,
    /// The average lifetime of the sampled closed sessions.
    pub avg_session_lifetime: u64,
    /// The average idle time of the sampled closed sessions.
    pub avg_idle_time: u64,
    /// Sessions created, by transport kind.
    pub transport_usage: KeyedList<TransportType, u32>,
    /// The sessions of the history that were used more than once, as of the last closure of a
    /// session while the history held any.
    pub reused_sessions: u64,
    /// The sessions in the history at that closure.
    pub tracked_sessions: u64,
    /// The most sessions active or idle at once, as seen when a session became active.
    pub peak_concurrent_sessions: u32,
    /// Uses of sessions.
    pub total_usage_count: u64,
}

/// Metrics with every count at 0.
pub open spec fn is_zero_metrics(m: SessionMetrics) -> bool {
    &&& m.total_sessions_created == 0
    &&& m.successful_connections == 0
    &&& m.failed_connections == 0
    &&& m.sessions_closed == 0
    &&& m.active_sessions == 0
    &&& m.idle_sessions == 0
    &&& m.failed_sessions == 0
    &&& m.avg_session_lifetime == 0
    &&& m.avg_idle_time == 0
    &&& m.transport_usage@ == Map::<TransportType, u32>::empty()
    &&& m.reused_sessions == 0
    &&& m.tracked_sessions == 0
    &&& m.peak_concurrent_sessions == 0
    &&& m.total_usage_count == 0
}

impl Default for SessionMetrics {
    fn default() -> (r: Self)
        ensures
            is_zero_metrics(r),
    {
        SessionMetrics {
            total_sessions_created: 0,
            successful_connections: 0,
            failed_connections: 0,
            sessions_closed: 0,
            active_sessions: 0,
            idle_sessions: 0,
            failed_sessions: 0,
            avg_session_lifetime: 0,
            avg_idle_time: 0,
            transport_usage: KeyedList::new(),
            reused_sessions: 0,
            tracked_sessions: 0,
            peak_concurrent_sessions: 0,
            total_usage_count: 0,
        }
    }
}

/// What the collector remembers of a session.
#[derive(Debug, Clone, Copy, PartialEq, Eq, Structural)]
pub struct SessionHistoryEntry {
    /// When the session was created.
    pub created_at: u64,
    /// When it was closed, once it was.
    pub closed_at: Option<u64>,
    /// Its transport kind.
    pub transport_type: TransportType,
    /// Its use count, as last reported.
    pub use_count: u64,
    /// How long it was idle when it closed.
    pub total_idle_time: u64,
    /// Whether it was used more than once.
    pub was_reused: bool,
}

/// A count taken one off, stopping at 0.
pub open spec fn dec(x: u32) -> u32 {
    if x > 0 {
        (x - 1) as u32
    } else {
        0
    }
}

/// The metrics once a session in a state left it: that state's count is one lower.
pub open spec fn after_leaving(m: SessionMetrics, s: SessionStatus) -> SessionMetrics {
    match s {
        SessionStatus::Active => SessionMetrics { active_sessions: dec(m.active_sessions), ..m },
        SessionStatus::Idle => SessionMetrics { idle_sessions: dec(m.idle_sessions), ..m },
        SessionStatus::Failed => SessionMetrics { failed_sessions: dec(m.failed_sessions), ..m },
        _ => m,
    }
}

/// Whether the counts have room for a session entering a state.
pub open spec fn entering_fits(m: SessionMetrics, s: SessionStatus) -> bool {
    match s {
        SessionStatus::Active => m.active_sessions + 1 + m.idle_sessions <= u32::MAX,
        SessionStatus::Idle => m.idle_sessions < u32::MAX,
        SessionStatus::Failed => m.failed_sessions < u32::MAX,
        _ => true,
    }
}

/// The metrics once a session entered a state: that state's count is one higher, and a
/// session becoming active raises the peak to the active and idle sessions together when they
/// exceed it.
pub open spec fn after_entering(m: SessionMetrics, s: SessionStatus) -> SessionMetrics {
    match s {
        SessionStatus::Active => {
            let active = (m.active_sessions + 1) as u32;
            let together = active + m.idle_sessions;
            SessionMetrics {
                active_sessions: active,
                peak_concurrent_sessions: if together > m.peak_concurrent_sessions {
                    together as u32
                } else {
                    m.peak_concurrent_sessions
                },
                ..m
            }
        },
        SessionStatus::Idle => SessionMetrics { idle_sessions: (m.idle_sessions + 1) as u32, ..m },
        SessionStatus::Failed => SessionMetrics {
            failed_sessions: (m.failed_sessions + 1) as u32,
            ..m
        },
        _ => m,
    }
}

/// A list of samples after one more: the oldest is dropped when the list would exceed the
/// limit.
pub open spec fn sample_push(s: Seq<u64>, x: u64, max: nat) -> Seq<u64> {
    if s.len() + 1 > max {
        s.push(x).drop_first()
    } else {
        s.push(x)
    }
}

/// The sum of samples.
pub open spec fn sample_sum(s: Seq<u64>) -> nat
    decreases s.len(),
{
    if s.len() == 0 {
        0
    } else {
        sample_sum(s.drop_last()) + s.last() as nat
    }
}

/// The average of samples, rounded down, or the old value when there are none.
pub open spec fn average_or(s: Seq<u64>, old_value: u64) -> u64 {
    if s.len() == 0 {
        old_value
    } else {
        (sample_sum(s) / s.len()) as u64
    }
}

/// Whether the session under a key of a history was used more than once.
pub open spec fn reused_pred(h: Map<u128, SessionHistoryEntry>) -> spec_fn(u128) -> bool {
    |k: u128| h[k].was_reused
}

/// The sessions of a history that were used more than once.
pub open spec fn reused_ids(h: Map<u128, SessionHistoryEntry>) -> Set<u128> {
    h.dom().filter(reused_pred(h))
}

/// The entry of a session once it closed at a time after being idle for a span.
pub open spec fn closed_entry(e: SessionHistoryEntry, now: u64, idle: u64) -> SessionHistoryEntry {
    SessionHistoryEntry { closed_at: Some(now), total_idle_time: idle, ..e }
}

/// The entry of a newly created session.
pub open spec fn fresh_entry(session: SessionMetadata) -> SessionHistoryEntry {
    SessionHistoryEntry {
        created_at: session.created_at,
        closed_at: None,
        transport_type: session.transport_config.transport_type,
        use_count: 0,
        total_idle_time: 0,
        was_reused: false,
    }
}

/// Whether a history entry belongs to a session closed longer ago than a span at a time.
pub open spec fn closed_long_ago(e: SessionHistoryEntry, max_age: u64, now: u64) -> bool {
    e.closed_at matches Some(c) && now >= c && now - c > max_age
}

/// When a session becomes active, the peak covers every session active or idle at that
/// moment.
pub proof fn lemma_peak_covers_open_sessions(m: SessionMetrics, from: SessionStatus)
    requires
        entering_fits(after_leaving(m, from), SessionStatus::Active),
    ensures
        ({
            let after = after_entering(after_leaving(m, from), SessionStatus::Active);
            after.peak_concurrent_sessions >= after.active_sessions + after.idle_sessions
        }),
{
}

/// The reused sessions of a history are among its sessions, so the reuse rate is at most 100%.
pub proof fn lemma_reused_within_tracked(h: Map<u128, SessionHistoryEntry>)
    requires
        h.dom().finite(),
    ensures
        reused_ids(h).len() <= h.len(),
{
    assert(reused_ids(h).subset_of(h.dom()));
    vstd::set_lib::lemma_len_subset(reused_ids(h), h.dom());
}

/// A history without the sessions closed longer ago than a span at a time.
pub open spec fn history_cleaned(h: Map<u128, SessionHistoryEntry>, max_age: u64, now: u64) -> Map<
    u128,
    SessionHistoryEntry,
> {
    Map::new(|k: u128| h.contains_key(k) && !closed_long_ago(h[k], max_age, now), |k: u128| h[k])
}

proof fn lemma_sample_sum_bound(s: Seq<u64>)
    ensures
        sample_sum(s) <= s.len() * (u64::MAX as nat),
    decreases s.len(),
{
    if s.len() > 0 {
        lemma_sample_sum_bound(s.drop_last());
    }
}

/// The number of distinct keys of a list that satisfy a predicate is the size of the filtered
/// set of those keys.
proof fn lemma_filter_count(keys: Seq<u128>, s: Set<u128>, p: spec_fn(u128) -> bool)
    requires
        keys.no_duplicates(),
        keys.to_set() == s,
    ensures
        s.finite(),
        keys.filter(p).len() == s.filter(p).len(),
    decreases keys.len(),
{
    broadcast use vstd::seq_lib::group_seq_properties;

    if keys.len() == 0 {
        assert(keys.filter(p) =~= Seq::<u128>::empty()) by {
            reveal(Seq::filter);
        }
        assert(s =~= Set::<u128>::empty());
        assert(s.filter(p) =~= Set::<u128>::empty());
    } else {
        let t = keys.drop_last();
        let x = keys.last();
        assert(keys =~= t.push(x));
        let st = t.to_set();
        assert(t.no_duplicates()) by {
            assert forall|i: int, j: int| 0 <= i < t.len() && 0 <= j < t.len() && i != j implies t[i]
                != t[j] by {
                assert(keys[i] == t[i] && keys[j] == t[j]);
            }
        }
        lemma_filter_count(t, st, p);
        assert(!st.contains(x)) by {
            if st.contains(x) {
                let i = choose|i: int| 0 <= i < t.len() && t[i] == x;
                assert(keys[i] == keys[keys.len() - 1]);
            }
        }
        assert(s =~= st.insert(x));
        t.lemma_filter_push(x, p);
        if p(x) {
            assert(s.filter(p) =~= st.filter(p).insert(x));
        } else {
            assert(s.filter(p) =~= st.filter(p));
        }
    }
}

/// Collects counts about sessions: the metrics, a history of the sessions it was told of, and
/// samples of the lifetimes and idle times of closed sessions (at most 1000 of each, the
/// newest).
#[derive(Debug)]
pub struct SessionMetricsCollector {
    metrics: SessionMetrics,
    session_history: KeyedList<SessionId, SessionHistoryEntry>,
    lifetime_samples: Vec<u64>,
    idle_time_samples: Vec<u64>,
    max_samples: usize,
}

impl SessionMetricsCollector {
    /// The metrics.
    pub closed spec fn metrics(&self) -> SessionMetrics {
        self.metrics
    }

    /// The history, by session.
    pub closed spec fn history(&self) -> Map<u128, SessionHistoryEntry> {
        self.session_history@
    }

    /// The sampled lifetimes of closed sessions, oldest first.
    pub closed spec fn lifetimes(&self) -> Seq<u64> {
        self.lifetime_samples@
    }

    /// The sampled idle times of closed sessions, oldest first.
    pub closed spec fn idle_times(&self) -> Seq<u64> {
        self.idle_time_samples@
    }

    /// The most samples of each kind kept.
    pub closed spec fn sample_limit(&self) -> nat {
        self.max_samples as nat
    }

    /// Whether the collector keeps no more samples than its limit.
    pub open spec fn wf(&self) -> bool {
        &&& self.lifetimes().len() <= self.sample_limit()
        &&& self.idle_times().len() <= self.sample_limit()
    }

    /// A collector that has counted nothing and keeps up to 1000 samples of each kind.
    pub fn new() -> (r: Self)
        ensures
            r.wf(),
            is_zero_metrics(r.metrics()),
            r.history() == Map::<u128, SessionHistoryEntry>::empty(),
            r.lifetimes() == Seq::<u64>::empty(),
            r.idle_times() == Seq::<u64>::empty(),
            r.sample_limit() == 1000,
    {
        SessionMetricsCollector {
            metrics: SessionMetrics::default(),
            session_history: KeyedList::new(),
            lifetime_samples: Vec::new(),
            idle_time_samples: Vec::new(),
            max_samples: 1000,
        }
    }

    /// Counts a created session, by its transport kind, and starts its history.
    pub fn record_session_created(&mut self, session: &SessionMetadata)
        requires
            old(self).metrics().total_sessions_created < u64::MAX,
            old(self).metrics().transport_usage@.contains_key(session.transport_config.transport_type)
                ==> old(self).metrics().transport_usage@[session.transport_config.transport_type]
                < u32::MAX,
        ensures
            Self::creation_recorded(
                *old(self),
                *final(self),
                session.id.0,
                session.created_at,
                session.transport_config.transport_type,
            ),
            final(self).history()[session.id.0] == fresh_entry(*session),
    {
        self.record_creation(session.id, session.created_at, session.transport_config.transport_type);
    }

    /// Whether a collector is another one after it counted a session created at a time with a
    /// transport kind: one more session and one more of the kind, and a fresh history entry.
    pub open spec fn creation_recorded(
        before: Self,
        after: Self,
        id: u128,
        created_at: u64,
        kind: TransportType,
    ) -> bool {
        &&& after.metrics() == (SessionMetrics {
            total_sessions_created: (before.metrics().total_sessions_created + 1) as u64,
            transport_usage: after.metrics().transport_usage,
            ..before.metrics()
        })
        &&& after.metrics().transport_usage@ == before.metrics().transport_usage@.insert(
            kind,
            (if before.metrics().transport_usage@.contains_key(kind) {
                before.metrics().transport_usage@[kind] + 1
            } else {
                1
            }) as u32,
        )
        &&& after.history() == before.history().insert(
            id,
            SessionHistoryEntry {
                created_at,
                closed_at: None,
                transport_type: kind,
                use_count: 0,
                total_idle_time: 0,
                was_reused: false,
            },
        )
        &&& after.lifetimes() == before.lifetimes()
        &&& after.idle_times() == before.idle_times()
        &&& after.sample_limit() == before.sample_limit()
    }

    /// Counts a session created at a time with a transport kind (see `creation_recorded`).
    pub fn record_creation(&mut self, session_id: SessionId, created_at: u64, kind: TransportType)
        requires
            old(self).metrics().total_sessions_created < u64::MAX,
            old(self).metrics().transport_usage@.contains_key(kind)
                ==> old(self).metrics().transport_usage@[kind] < u32::MAX,
        ensures
            Self::creation_recorded(*old(self), *final(self), session_id.0, created_at, kind),
    {
        self.metrics.total_sessions_created = self.metrics.total_sessions_created + 1;
        let count: u32 = match self.metrics.transport_usage.get(&kind) {
            Some(c) => *c + 1,
            None => 1,
        };
        self.metrics.transport_usage.insert(kind, count);
        self.session_history.insert(
            session_id,
            SessionHistoryEntry {
                created_at,
                closed_at: None,
                transport_type: kind,
                use_count: 0,
                total_idle_time: 0,
                was_reused: false,
            },
        );
    }

    /// Counts a successful connection.
    pub fn record_connection_success(&mut self, session_id: SessionId)
        requires
            old(self).metrics().successful_connections < u64::MAX,
        ensures
            final(self).metrics() == (SessionMetrics {
                successful_connections: (old(self).metrics().successful_connections + 1) as u64,
                ..old(self).metrics()
            }),
            final(self).history() == old(self).history(),
            final(self).lifetimes() == old(self).lifetimes(),
            final(self).idle_times() == old(self).idle_times(),
            final(self).sample_limit() == old(self).sample_limit(),
    {
        self.metrics.successful_connections = self.metrics.successful_connections + 1;
    }

    /// Counts a failed connection.
    pub fn record_connection_failure(&mut self, session_id: SessionId)
        requires
            old(self).metrics().failed_connections < u64::MAX,
        ensures
            final(self).metrics() == (SessionMetrics {
                failed_connections: (old(self).metrics().failed_connections + 1) as u64,
                ..old(self).metrics()
            }),
            final(self).history() == old(self).history(),
            final(self).lifetimes() == old(self).lifetimes(),
            final(self).idle_times() == old(self).idle_times(),
            final(self).sample_limit() == old(self).sample_limit(),
    {
        self.metrics.failed_connections = self.metrics.failed_connections + 1;
    }

    fn leave_status(&mut self, status: SessionStatus)
        ensures
            final(self).metrics() == after_leaving(old(self).metrics(), status),
            final(self).history() == old(self).history(),
            final(self).lifetimes() == old(self).lifetimes(),
            final(self).idle_times() == old(self).idle_times(),
            final(self).sample_limit() == old(self).sample_limit(),
    {
        match status {
            SessionStatus::Active => {
                if self.metrics.active_sessions > 0 {
                    self.metrics.active_sessions = self.metrics.active_sessions - 1;
                }
            },
            SessionStatus::Idle => {
                if self.metrics.idle_sessions > 0 {
                    self.metrics.idle_sessions = self.metrics.idle_sessions - 1;
                }
            },
            SessionStatus::Failed => {
                if self.metrics.failed_sessions > 0 {
                    self.metrics.failed_sessions = self.metrics.failed_sessions - 1;
                }
            },
            _ => {},
        }
    }

    /// Counts a change of state: the old state's count goes down (stopping at 0) and the new
    /// state's count up; a session becoming active may raise the peak (see `after_entering`).
    pub fn record_status_change(
        &mut self,
        session_id: SessionId,
        old_status: SessionStatus,
        new_status: SessionStatus,
    )
        requires
            entering_fits(after_leaving(old(self).metrics(), old_status), new_status),
        ensures
            final(self).metrics() == after_entering(
                after_leaving(old(self).metrics(), old_status),
                new_status,
            ),
            final(self).history() == old(self).history(),
            final(self).lifetimes() == old(self).lifetimes(),
            final(self).idle_times() == old(self).idle_times(),
            final(self).sample_limit() == old(self).sample_limit(),
    {
        self.leave_status(old_status);
        match new_status {
            SessionStatus::Active => {
                self.metrics.active_sessions = self.metrics.active_sessions + 1;
                let together = self.metrics.active_sessions + self.metrics.idle_sessions;
                if together > self.metrics.peak_concurrent_sessions {
                    self.metrics.peak_concurrent_sessions = together;
                }
            },
            SessionStatus::Idle => {
                self.metrics.idle_sessions = self.metrics.idle_sessions + 1;
            },
            SessionStatus::Failed => {
                self.metrics.failed_sessions = self.metrics.failed_sessions + 1;
            },
            _ => {},
        }
    }

    /// Counts a use of a session and notes its use count in its history; a session used more
    /// than once has been reused.
    pub fn record_session_usage(&mut self, session_id: SessionId, usage_count: u64)
        requires
            old(self).metrics().total_usage_count < u64::MAX,
        ensures
            final(self).metrics() == (SessionMetrics {
                total_usage_count: (old(self).metrics().total_usage_count + 1) as u64,
                ..old(self).metrics()
            }),
            final(self).history() == if old(self).history().contains_key(session_id.0) {
                old(self).history().insert(
                    session_id.0,
                    SessionHistoryEntry {
                        use_count: usage_count,
                        was_reused: usage_count > 1 || old(self).history()[session_id.0].was_reused,
                        ..old(self).history()[session_id.0]
                    },
                )
            } else {
                old(self).history()
            },
            final(self).lifetimes() == old(self).lifetimes(),
            final(self).idle_times() == old(self).idle_times(),
            final(self).sample_limit() == old(self).sample_limit(),
    {
        self.metrics.total_usage_count = self.metrics.total_usage_count + 1;
        let entry = match self.session_history.get(&session_id) {
            Some(e) => Some(*e),
            None => None,
        };
        match entry {
            Some(e) => {
                let mut updated = e;
                updated.use_count = usage_count;
                if usage_count > 1 {
                    updated.was_reused = true;
                }
                self.session_history.insert(session_id, updated);
            },
            None => {},
        }
    }

    fn add_sample(samples: &mut Vec<u64>, sample: u64, max_size: usize)
        ensures
            final(samples)@ == sample_push(old(samples)@, sample, max_size as nat),
    {
        samples.push(sample);
        if samples.len() > max_size {
            samples.remove(0);
            proof {
                assert(samples@ =~= old(samples)@.push(sample).drop_first());
            }
        }
    }

    fn average(samples: &Vec<u64>) -> (r: u64)
        requires
            samples@.len() > 0,
        ensures
            r == sample_sum(samples@) / samples@.len(),
    {
        let n = samples.len();
        let mut sum: u128 = 0;
        let mut i: usize = 0;
        while i < n
            invariant
                n == samples@.len(),
                i <= n,
                sum == sample_sum(samples@.take(i as int)),
                sum <= i * (u64::MAX as nat),
            decreases n - i,
        {
            proof {
                assert(samples@.take(i + 1).drop_last() =~= samples@.take(i as int));
                assert((i + 1) * (u64::MAX as nat) == i * (u64::MAX as nat) + u64::MAX) by (nonlinear_arith);
                assert((i + 1) * (u64::MAX as nat) <= (usize::MAX as nat) * (u64::MAX as nat)) by (nonlinear_arith)
                    requires
                        i + 1 <= usize::MAX,
                ;
                assert((usize::MAX as nat) * (u64::MAX as nat) <= u128::MAX) by (nonlinear_arith)
                    requires
                        usize::MAX <= u64::MAX,
                ;
            }
            sum = sum + samples[i] as u128;
            i = i + 1;
        }
        proof {
            assert(samples@.take(n as int) =~= samples@);
            assert((sum as nat) / (n as nat) <= u64::MAX) by (nonlinear_arith)
                requires
                    sum <= n * (u64::MAX as nat),
                    n > 0,
            ;
        }
        (sum / (n as u128)) as u64
    }

    fn update_averages(&mut self)
        ensures
            final(self).metrics() == (SessionMetrics {
                avg_session_lifetime: average_or(old(self).lifetimes(), old(self).metrics().avg_session_lifetime),
                avg_idle_time: average_or(old(self).idle_times(), old(self).metrics().avg_idle_time),
                ..old(self).metrics()
            }),
            final(self).history() == old(self).history(),
            final(self).lifetimes() == old(self).lifetimes(),
            final(self).idle_times() == old(self).idle_times(),
            final(self).sample_limit() == old(self).sample_limit(),
    {
        if self.lifetime_samples.len() > 0 {
            self.metrics.avg_session_lifetime = Self::average(&self.lifetime_samples);
        }
        if self.idle_time_samples.len() > 0 {
            self.metrics.avg_idle_time = Self::average(&self.idle_time_samples);
        }
    }

    fn update_reuse_rate(&mut self)
        ensures
            final(self).metrics() == if old(self).history().len() > 0 {
                SessionMetrics {
                    reused_sessions: reused_ids(old(self).history()).len() as u64,
                    tracked_sessions: old(self).history().len() as u64,
                    ..old(self).metrics()
                }
            } else {
                old(self).metrics()
            },
            final(self).history() == old(self).history(),
            final(self).lifetimes() == old(self).lifetimes(),
            final(self).idle_times() == old(self).idle_times(),
            final(self).sample_limit() == old(self).sample_limit(),
    {
        let n = self.session_history.len();
        if n == 0 {
            return;
        }
        let ghost h = self.session_history@;
        let ghost keys = self.session_history.key_seq();
        let ghost p = reused_pred(h);
        let mut count: usize = 0;
        let mut i: usize = 0;
        while i < n
            invariant
                n == keys.len(),
                h == self.session_history@,
                keys == self.session_history.key_seq(),
                p == reused_pred(h),
                forall|j: int| 0 <= j < n ==> #[trigger] h[keys[j]] == self.session_history.value_seq()[j],
                n == self.session_history.value_seq().len(),
                i <= n,
                count <= i,
                count == keys.take(i as int).filter(p).len(),
            decreases n - i,
        {
            proof {
                assert(keys.take(i + 1) =~= keys.take(i as int).push(keys[i as int]));
                keys.take(i as int).lemma_filter_push(keys[i as int], p);
                assert(h[keys[i as int]] == self.session_history.value_seq()[i as int]);
            }
            if self.session_history.value_at(i).was_reused {
                count = count + 1;
            }
            i = i + 1;
        }
        proof {
            assert(keys.take(n as int) =~= keys);
            assert(keys.to_set() =~= h.dom()) by {
                assert forall|k: u128| keys.to_set().contains(k) <==> h.dom().contains(k) by {
                    assert(h.contains_key(k) <==> keys.contains(k));
                }
            }
            lemma_filter_count(keys, h.dom(), p);
        }
        self.metrics.reused_sessions = count as u64;
        self.metrics.tracked_sessions = n as u64;
    }

    /// Whether a collector is another one after it counted, at a time, the closing of a session
    /// that was in a state and was last used at a time: the count of its state goes down
    /// (stopping at 0). When the session is in the history, its entry is marked closed with its
    /// idle time, and its lifetime (when the time is not before its creation) and idle time are
    /// sampled. The averages are taken again over the samples, and the reuse counts over the
    /// history when it holds any session.
    pub open spec fn closure_recorded(
        before: Self,
        after: Self,
        id: u128,
        status: SessionStatus,
        last_used: u64,
        now: u64,
    ) -> bool {
        let limit = before.sample_limit();
        let m0 = after_leaving(
            SessionMetrics { sessions_closed: (before.metrics().sessions_closed + 1) as u64, ..before.metrics() },
            status,
        );
        let known = before.history().contains_key(id);
        let idle = elapsed(last_used, now);
        let created = before.history()[id].created_at;
        let lt = if known && now >= created {
            sample_push(before.lifetimes(), (now - created) as u64, limit)
        } else {
            before.lifetimes()
        };
        let it = if known {
            sample_push(before.idle_times(), idle, limit)
        } else {
            before.idle_times()
        };
        let h = if known {
            before.history().insert(id, closed_entry(before.history()[id], now, idle))
        } else {
            before.history()
        };
        &&& after.lifetimes() == lt
        &&& after.idle_times() == it
        &&& after.history() == h
        &&& after.sample_limit() == limit
        &&& after.metrics() == (SessionMetrics {
            avg_session_lifetime: average_or(lt, m0.avg_session_lifetime),
            avg_idle_time: average_or(it, m0.avg_idle_time),
            reused_sessions: if h.len() > 0 {
                reused_ids(h).len() as u64
            } else {
                m0.reused_sessions
            },
            tracked_sessions: if h.len() > 0 {
                h.len() as u64
            } else {
                m0.tracked_sessions
            },
            ..m0
        })
    }

    /// Counts, at a time, the closing of a session in a state last used at a time (see
    /// `closure_recorded`).
    pub fn record_closure_at(&mut self, session_id: SessionId, status: SessionStatus, last_used: u64, now: u64)
        requires
            old(self).metrics().sessions_closed < u64::MAX,
        ensures
            Self::closure_recorded(*old(self), *final(self), session_id.0, status, last_used, now),
            old(self).wf() ==> final(self).wf(),
    {
        self.metrics.sessions_closed = self.metrics.sessions_closed + 1;
        self.leave_status(status);
        let entry = match self.session_history.get(&session_id) {
            Some(e) => Some(*e),
            None => None,
        };
        match entry {
            Some(e) => {
                if now >= e.created_at {
                    Self::add_sample(&mut self.lifetime_samples, now - e.created_at, self.max_samples);
                }
                let idle = if now >= last_used {
                    now - last_used
                } else {
                    0
                };
                let mut updated = e;
                updated.closed_at = Some(now);
                updated.total_idle_time = idle;
                self.session_history.insert(session_id, updated);
                Self::add_sample(&mut self.idle_time_samples, idle, self.max_samples);
            },
            None => {},
        }
        self.update_averages();
        self.update_reuse_rate();
    }

    /// Counts a closed session at a time (see `closure_recorded`).
    pub fn record_session_closed_at(&mut self, session: &SessionMetadata, now: u64)
        requires
            old(self).metrics().sessions_closed < u64::MAX,
        ensures
            Self::closure_recorded(*old(self), *final(self), session.id.0, session.status, session.last_used, now),
            old(self).wf() ==> final(self).wf(),
    {
        self.record_closure_at(session.id, session.status, session.last_used, now);
    }

    /// Counts a closed session now.
    pub fn record_session_closed(&mut self, session: &SessionMetadata)
        requires
            old(self).metrics().sessions_closed < u64::MAX,
        ensures
            final(self).metrics().sessions_closed == old(self).metrics().sessions_closed + 1,
            final(self).sample_limit() == old(self).sample_limit(),
            old(self).wf() ==> final(self).wf(),
            old(self).history().contains_key(session.id.0) ==> final(self).history()[session.id.0].closed_at
                is Some,
            final(self).history().dom() == old(self).history().dom(),
    {
        self.record_session_closed_at(session, crate::clock::now_millis());
    }

    /// Forgets the history of the sessions closed longer ago than a span, at a time.
    pub fn cleanup_old_history_at(&mut self, max_age: u64, now: u64)
        ensures
            final(self).history() == Map::new(
                |k: u128| old(self).history().contains_key(k) && !closed_long_ago(old(self).history()[k], max_age, now),
                |k: u128| old(self).history()[k],
            ),
            final(self).metrics() == old(self).metrics(),
            final(self).lifetimes() == old(self).lifetimes(),
            final(self).idle_times() == old(self).idle_times(),
            final(self).sample_limit() == old(self).sample_limit(),
    {
        let ghost orig = self.session_history@;
        let n = self.session_history.len();
        let ghost key_seq = self.session_history.key_seq();
        let keys = self.session_history.keys();
        let mut i: usize = 0;
        while i < keys.len()
            invariant
                keys@.len() == n,
                n == key_seq.len(),
                forall|j: int| 0 <= j < n ==> #[trigger] keys@[j]@ == key_seq[j],
                forall|k: u128| orig.contains_key(k) <==> key_seq.contains(k),
                i <= n,
                forall|k: u128| #[trigger] self.session_history@.contains_key(k) ==> orig.contains_key(k)
                    && self.session_history@[k] == orig[k],
                forall|k: u128|
                    #[trigger] orig.contains_key(k) && !closed_long_ago(orig[k], max_age, now)
                        ==> self.session_history@.contains_key(k),
                forall|j: int|
                    0 <= j < i && orig.contains_key(#[trigger] key_seq[j]) && closed_long_ago(
                        orig[key_seq[j]],
                        max_age,
                        now,
                    ) ==> !self.session_history@.contains_key(key_seq[j]),
                self.metrics == old(self).metrics,
                self.lifetime_samples == old(self).lifetime_samples,
                self.idle_time_samples == old(self).idle_time_samples,
                self.max_samples == old(self).max_samples,
            decreases n - i,
        {
            let id = keys[i];
            let old_enough = match self.session_history.get(&id) {
                Some(e) => match e.closed_at {
                    Some(c) => now >= c && now - c > max_age,
                    None => false,
                },
                None => false,
            };
            if old_enough {
                self.session_history.remove(&id);
            }
            i = i + 1;
        }
        proof {
            assert forall|k: u128| orig.contains_key(k) && closed_long_ago(orig[k], max_age, now)
                implies !self.session_history@.contains_key(k) by {
                assert(key_seq.contains(k));
                let j = choose|j: int| 0 <= j < key_seq.len() && key_seq[j] == k;
                assert(orig.contains_key(key_seq[j]));
            }
            assert(self.session_history@ =~= Map::new(
                |k: u128| orig.contains_key(k) && !closed_long_ago(orig[k], max_age, now),
                |k: u128| orig[k],
            ));
        }
    }

    /// Forgets the history of the sessions closed longer ago than a span, now.
    pub fn cleanup_old_history(&mut self, max_age: u64)
        ensures
            final(self).history().dom().subset_of(old(self).history().dom()),
            forall|k: u128| #[trigger] old(self).history().contains_key(k) && old(self).history()[k].closed_at
                is None ==> final(self).history().contains_key(k),
            final(self).metrics() == old(self).metrics(),
            final(self).lifetimes() == old(self).lifetimes(),
            final(self).idle_times() == old(self).idle_times(),
            final(self).sample_limit() == old(self).sample_limit(),
            exists|now: u64| final(self).history() == #[trigger] history_cleaned(old(self).history(), max_age, now),
    {
        let now = crate::clock::now_millis();
        self.cleanup_old_history_at(max_age, now);
        proof {
            assert(self.history() =~= history_cleaned(old(self).history(), max_age, now));
        }
    }

    /// The metrics.
    pub fn get_metrics(&self) -> (r: &SessionMetrics)
        ensures
            *r == self.metrics(),
    {
        &self.metrics
    }

    /// Forgets everything counted.
    pub fn reset(&mut self)
        ensures
            is_zero_metrics(final(self).metrics()),
            final(self).history() == Map::<u128, SessionHistoryEntry>::empty(),
            final(self).lifetimes() == Seq::<u64>::empty(),
            final(self).idle_times() == Seq::<u64>::empty(),
            final(self).sample_limit() == old(self).sample_limit(),
    {
        self.metrics = SessionMetrics::default();
        self.session_history.clear();
        self.lifetime_samples.clear();
        self.idle_time_samples.clear();
    }
}

} // verus!
