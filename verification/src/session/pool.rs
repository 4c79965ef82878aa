//! The pool of sessions kept for reuse, grouped by connection key.
use vstd::prelude::*;

use super::index::{
    index_add, index_drop, index_push, index_remove, indexes, lemma_indexes_add,
    lemma_filter_distinct, lemma_indexes_remove, lemma_without, list_of, lists, without,
};
use super::{elapsed, SessionId, SessionMetadata, SessionPriority, SessionStatus};
use crate::clock::now_millis;
use crate::error::YuhaError;
use crate::keyed::KeyedList;
use crate::transport::connection_key_of;

verus! {

/// Settings of the pool.
#[derive(Debug, Clone, Copy)]
pub struct SessionPoolConfig {
    /// Whether sessions are pooled.
    pub enabled: bool,
    /// The most pooled sessions of one connection key.
    pub max_sessions_per_connection: u32,
    /// The most pooled sessions in all.
    pub max_total_sessions: u32,
    /// Whether pooled sessions are handed out for reuse.
    pub prefer_reuse: bool,
    /// How long a session stays pooled before it is handed out, in seconds.
    pub min_idle_time: u64,
}

/// The default pool settings: pooling on, 5 sessions per connection key, 50 in all, reuse
/// preferred after 5 seconds.
pub open spec fn is_default_pool_config(c: SessionPoolConfig) -> bool {
    &&& c.enabled
    &&& c.max_sessions_per_connection == 5
    &&& c.max_total_sessions == 50
    &&& c.prefer_reuse
    &&& c.min_idle_time == 5
}

impl Default for SessionPoolConfig {
    fn default() -> (r: Self)
        ensures
            is_default_pool_config(r),
    {
        SessionPoolConfig {
            enabled: true,
            max_sessions_per_connection: 5,
            max_total_sessions: 50,
            prefer_reuse: true,
            min_idle_time: 5,
        }
    }
}

/// What the pool keeps of a pooled session.
#[derive(Debug, Clone)]
pub struct PooledSessionInfo {
    /// The connection key it is pooled under.
    pub connection_key: String,
    /// When it was pooled, in milliseconds since the epoch.
    pub pooled_at: u64,
    /// Its priority.
    pub priority: SessionPriority,
    /// Its use count when it was pooled.
    pub use_count: u64,
}

/// Counts about the pool.
#[derive(Debug, Clone, Copy)]
pub struct PoolStats {
    /// Whether pooling is on.
    pub enabled: bool,
    /// Pooled sessions.
    pub total_pooled_sessions: usize,
    /// Connection keys with pooled sessions.
    pub connection_pools: usize,
    /// The most pooled sessions under one connection key.
    pub largest_pool_size: usize,
    /// The per-key limit.
    pub max_sessions_per_connection: u32,
    /// The total limit.
    pub max_total_sessions: u32,
}

/// The connection key a pooled session is kept under.
pub open spec fn pooled_key() -> spec_fn(PooledSessionInfo) -> Seq<char> {
    |m: PooledSessionInfo| m.connection_key@
}

/// The points a priority brings to a session's reuse score.
pub open spec fn priority_points(p: SessionPriority) -> u32 {
    match p {
        SessionPriority::Critical => 100,
        SessionPriority::High => 75,
        SessionPriority::Normal => 50,
        SessionPriority::Low => 25,
    }
}

/// How good a pooled session is to reuse at a time: its priority's points, 20 points below
/// 10 uses or 10 below 50, and 15 points if pooled under a minute ago or 10 under five.
pub open spec fn reuse_score(m: PooledSessionInfo, now: u64) -> u32 {
    (priority_points(m.priority) + (if m.use_count < 10 {
        20u32
    } else if m.use_count < 50 {
        10u32
    } else {
        0u32
    }) + (if elapsed(m.pooled_at, now) < 60_000 {
        15u32
    } else if elapsed(m.pooled_at, now) < 300_000 {
        10u32
    } else {
        0u32
    })) as u32
}

/// Whether a pooled session may be handed out at a time: it has been pooled for at least the
/// minimum idle time.
pub open spec fn reusable(m: PooledSessionInfo, now: u64, min_idle_secs: u64) -> bool {
    elapsed(m.pooled_at, now) >= min_idle_secs * 1000
}

/// The session to reuse among a list of identifiers, with its score: the first of the
/// reusable pooled sessions with the highest score, or none (score 0).
pub open spec fn best_pooled(
    ids: Seq<u128>,
    meta: Map<u128, PooledSessionInfo>,
    now: u64,
    min_idle_secs: u64,
) -> (Option<u128>, u32)
    decreases ids.len(),
{
    if ids.len() == 0 {
        (None, 0)
    } else {
        let prev = best_pooled(ids.drop_last(), meta, now, min_idle_secs);
        let id = ids.last();
        if meta.contains_key(id) && reusable(meta[id], now, min_idle_secs) && reuse_score(
            meta[id],
            now,
        ) > prev.1 {
            (Some(id), reuse_score(meta[id], now))
        } else {
            prev
        }
    }
}

/// The session picked for reuse is a listed, reusable pooled session with a score no lower
/// than any other listed reusable pooled session; one is picked whenever one is reusable.
pub proof fn lemma_best_pooled(
    ids: Seq<u128>,
    meta: Map<u128, PooledSessionInfo>,
    now: u64,
    min_idle_secs: u64,
)
    ensures
        ({
            let (best, score) = best_pooled(ids, meta, now, min_idle_secs);
            &&& best matches Some(b) ==> {
                &&& ids.contains(b)
                &&& meta.contains_key(b)
                &&& reusable(meta[b], now, min_idle_secs)
                &&& score == reuse_score(meta[b], now)
            }
            &&& best is None ==> score == 0
            &&& forall|i: int|
                0 <= i < ids.len() && meta.contains_key(#[trigger] ids[i]) && reusable(
                    meta[ids[i]],
                    now,
                    min_idle_secs,
                ) ==> best is Some && reuse_score(meta[ids[i]], now) <= score
        }),
    decreases ids.len(),
{
    if ids.len() > 0 {
        let t = ids.drop_last();
        lemma_best_pooled(t, meta, now, min_idle_secs);
        let (pb, ps) = best_pooled(t, meta, now, min_idle_secs);
        if let Some(b) = pb {
            let j = choose|j: int| 0 <= j < t.len() && t[j] == b;
            assert(ids[j] == b);
        }
        assert forall|i: int|
            0 <= i < ids.len() && meta.contains_key(#[trigger] ids[i]) && reusable(
                meta[ids[i]],
                now,
                min_idle_secs,
            ) implies best_pooled(ids, meta, now, min_idle_secs).0 is Some && reuse_score(
            meta[ids[i]],
            now,
        ) <= best_pooled(ids, meta, now, min_idle_secs).1 by {
            if i < t.len() {
                assert(t[i] == ids[i]);
            } else {
                assert(reuse_score(meta[ids[i]], now) >= 25);
            }
        }
        let last = ids.last();
        if meta.contains_key(last) && reusable(meta[last], now, min_idle_secs) && reuse_score(
            meta[last],
            now,
        ) > ps {
            assert(ids[ids.len() - 1] == last);
        }
    }
}

/// Whether a session is pooled: pooling is on, the session is active or idle, its connection
/// key's list (if any) is below the per-key limit, and the pool is below the total limit.
pub open spec fn add_accepted(
    c: SessionPoolConfig,
    before: Map<u128, PooledSessionInfo>,
    before_lists: Map<Seq<char>, Seq<u128>>,
    session: SessionMetadata,
) -> bool {
    let key = connection_key_of(session.transport_config);
    &&& c.enabled
    &&& session.status == SessionStatus::Idle || session.status == SessionStatus::Active
    &&& !(before_lists.contains_key(key) && before_lists[key].len() >= c.max_sessions_per_connection)
    &&& before.len() < c.max_total_sessions
}

/// Whether a session is pooled does not depend on whether it is active or idle: an active
/// session is accepted exactly when the same session, idle, would be. With pooling on, a first
/// session for its connection key and room in the pool, an active session is accepted; a
/// session in any other state never is.
pub proof fn lemma_active_pooled_like_idle(
    c: SessionPoolConfig,
    before: Map<u128, PooledSessionInfo>,
    before_lists: Map<Seq<char>, Seq<u128>>,
    session: SessionMetadata,
)
    ensures
        session.status == SessionStatus::Active ==> add_accepted(c, before, before_lists, session)
            == add_accepted(
            c,
            before,
            before_lists,
            SessionMetadata { status: SessionStatus::Idle, ..session },
        ),
        session.status == SessionStatus::Active && c.enabled && !before_lists.contains_key(
            connection_key_of(session.transport_config),
        ) && before.len() < c.max_total_sessions ==> add_accepted(c, before, before_lists, session),
        session.status != SessionStatus::Active && session.status != SessionStatus::Idle
            ==> !add_accepted(c, before, before_lists, session),
{
}

/// Whether the pool after an attempt to pool a session at a time is right: when accepted, the
/// session is kept with its connection key, priority and use count and appended to its key's
/// list; otherwise nothing changed.
pub open spec fn pool_added(
    before: Map<u128, PooledSessionInfo>,
    before_lists: Map<Seq<char>, Seq<u128>>,
    after: Map<u128, PooledSessionInfo>,
    after_lists: Map<Seq<char>, Seq<u128>>,
    session: SessionMetadata,
    now: u64,
    accepted: bool,
) -> bool {
    let key = connection_key_of(session.transport_config);
    if accepted {
        &&& after == before.insert(
            session.id.0,
            PooledSessionInfo {
                connection_key: after[session.id.0].connection_key,
                pooled_at: now,
                priority: session.priority,
                use_count: session.use_count,
            },
        )
        &&& after[session.id.0].connection_key@ == key
        &&& after_lists == index_add(before_lists, key, session.id.0)
    } else {
        after == before && after_lists == before_lists
    }
}

/// The pool lists after a session is taken out of the pool.
pub open spec fn lists_after_remove(
    lists: Map<Seq<char>, Seq<u128>>,
    meta: Map<u128, PooledSessionInfo>,
    id: u128,
) -> Map<Seq<char>, Seq<u128>> {
    if meta.contains_key(id) {
        index_remove(lists, meta[id].connection_key@, id)
    } else {
        lists
    }
}

/// The pool lists after the sessions of a list are taken out one after the other, each from
/// the list of its connection key.
pub open spec fn without_all(
    pools: Map<Seq<char>, Seq<u128>>,
    meta: Map<u128, PooledSessionInfo>,
    ids: Seq<u128>,
) -> Map<Seq<char>, Seq<u128>>
    decreases ids.len(),
{
    if ids.len() == 0 {
        pools
    } else {
        lists_after_remove(without_all(pools, meta, ids.drop_last()), meta, ids.last())
    }
}

/// Whether a pooled session has been pooled for longer than a time at another time.
pub open spec fn expired_at(m: PooledSessionInfo, max_idle_ms: u64, now: u64) -> bool {
    now >= m.pooled_at && now - m.pooled_at > max_idle_ms
}

/// Whether a cleanup at a time took out, in the pool's order, exactly the sessions pooled for
/// longer than a number of milliseconds, and handed back their identifiers.
pub open spec fn cleaned(
    before: Map<u128, PooledSessionInfo>,
    before_ids: Seq<u128>,
    before_lists: Map<Seq<char>, Seq<u128>>,
    after: Map<u128, PooledSessionInfo>,
    after_lists: Map<Seq<char>, Seq<u128>>,
    r: Seq<SessionId>,
    max_idle_ms: u64,
    now: u64,
) -> bool {
    let ids = before_ids.filter(|id: u128| expired_at(before[id], max_idle_ms, now));
    &&& r.len() == ids.len()
    &&& forall|i: int| 0 <= i < r.len() ==> #[trigger] r[i].0 == ids[i]
    &&& after == before.remove_keys(ids.to_set())
    &&& after_lists == without_all(before_lists, before, ids)
}

/// The pool of sessions kept for reuse.
#[derive(Debug)]
pub struct SessionPool {
    config: SessionPoolConfig,
    pools: KeyedList<String, Vec<u128>>,
    pool_metadata: KeyedList<SessionId, PooledSessionInfo>,
}

impl View for SessionPool {
    type V = Map<u128, PooledSessionInfo>;

    /// The pooled sessions by identifier.
    closed spec fn view(&self) -> Map<u128, PooledSessionInfo> {
        self.pool_metadata@
    }
}

/// The most sessions a pool list can hold: the per-key limit, or 1 when that limit is 0 (the
/// first session of a key is taken without checking it).
pub open spec fn list_bound(c: SessionPoolConfig) -> nat {
    if c.max_sessions_per_connection == 0 {
        1
    } else {
        c.max_sessions_per_connection as nat
    }
}

impl SessionPool {
    /// Whether the pool is well formed: within the total limit, and no list longer than
    /// `list_bound`.
    pub closed spec fn wf(&self) -> bool {
        &&& self.pool_metadata@.len() <= self.config.max_total_sessions
        &&& self.pool_metadata@.dom().finite()
        &&& forall|k: Seq<char>| #[trigger]
            lists(self.pools).contains_key(k) ==> lists(self.pools)[k].len() <= list_bound(
                self.config,
            )
    }

    /// The settings.
    pub closed spec fn settings(&self) -> SessionPoolConfig {
        self.config
    }

    /// The pooled identifiers under each connection key, in the order they were pooled.
    pub closed spec fn pool_lists(&self) -> Map<Seq<char>, Seq<u128>> {
        lists(self.pools)
    }

    /// The pooled sessions in the order in which they are kept.
    pub closed spec fn ordered_ids(&self) -> Seq<u128> {
        self.pool_metadata.key_seq()
    }

    /// Whether the lists hold exactly the pooled sessions of each connection key.
    pub open spec fn lists_exact(&self) -> bool {
        indexes(self.pool_lists(), self@, pooled_key())
    }

    /// An empty pool with the settings.
    pub fn new(config: SessionPoolConfig) -> (r: Self)
        ensures
            r.wf(),
            r.settings() == config,
            r@ == Map::<u128, PooledSessionInfo>::empty(),
            r.pool_lists() == Map::<Seq<char>, Seq<u128>>::empty(),
            r.lists_exact(),
    {
        let r = SessionPool { config, pools: KeyedList::new(), pool_metadata: KeyedList::new() };
        proof {
            assert(lists(r.pools) =~= Map::<Seq<char>, Seq<u128>>::empty());
        }
        r
    }

    /// Pools a session at a time, when pooling is on, the session is active or idle, its
    /// connection key's list is not full and the pool is not full; says whether it was pooled.
    pub fn add_session_at(&mut self, session: &SessionMetadata, now: u64) -> (r: Result<
        bool,
        YuhaError,
    >)
        requires
            old(self).wf(),
        ensures
            final(self).wf(),
            final(self).settings() == old(self).settings(),
            r == Ok::<bool, YuhaError>(
                add_accepted(old(self).settings(), old(self)@, old(self).pool_lists(), *session),
            ),
            pool_added(
                old(self)@,
                old(self).pool_lists(),
                final(self)@,
                final(self).pool_lists(),
                *session,
                now,
                add_accepted(old(self).settings(), old(self)@, old(self).pool_lists(), *session),
            ),
            old(self).lists_exact() && !old(self)@.contains_key(session.id.0)
                ==> final(self).lists_exact(),
    {
        if !self.config.enabled {
            return Ok(false);
        }
        match session.status {
            SessionStatus::Idle | SessionStatus::Active => {},
            _ => {
                return Ok(false);
            },
        }
        let connection_key = session.connection_key();
        match self.pools.get(&connection_key) {
            Some(ids) => {
                if ids.len() >= self.config.max_sessions_per_connection as usize {
                    return Ok(false);
                }
            },
            None => {},
        }
        if self.pool_metadata.len() >= self.config.max_total_sessions as usize {
            return Ok(false);
        }
        let ghost old_meta = self@;
        let ghost old_lists = lists(self.pools);
        let ghost was_exact = self.lists_exact();
        index_push(&mut self.pools, connection_key.clone(), session.id.0);
        let info = PooledSessionInfo {
            connection_key,
            pooled_at: now,
            priority: session.priority,
            use_count: session.use_count,
        };
        let ghost stored = info;
        self.pool_metadata.insert(session.id, info);
        proof {
            if old_meta.contains_key(session.id.0) {
                assert(old_meta.insert(session.id.0, stored).dom() =~= old_meta.dom());
            }
            assert forall|k: Seq<char>| #[trigger]
                lists(self.pools).contains_key(k) implies lists(self.pools)[k].len() <= list_bound(
                self.config,
            ) by {
                if k != stored.connection_key@ {
                    assert(old_lists.contains_key(k));
                }
            }
            if was_exact && !old_meta.contains_key(session.id.0) {
                lemma_indexes_add(old_lists, old_meta, pooled_key(), session.id.0, stored);
            }
        }
        Ok(true)
    }

    /// Pools a session now (see `add_session_at`).
    pub fn add_session(&mut self, session: &SessionMetadata) -> (r: Result<bool, YuhaError>)
        requires
            old(self).wf(),
        ensures
            final(self).wf(),
            final(self).settings() == old(self).settings(),
            r == Ok::<bool, YuhaError>(
                add_accepted(old(self).settings(), old(self)@, old(self).pool_lists(), *session),
            ),
            exists|now: u64|
                #[trigger] pool_added(
                    old(self)@,
                    old(self).pool_lists(),
                    final(self)@,
                    final(self).pool_lists(),
                    *session,
                    now,
                    add_accepted(old(self).settings(), old(self)@, old(self).pool_lists(), *session),
                ),
            old(self).lists_exact() && !old(self)@.contains_key(session.id.0)
                ==> final(self).lists_exact(),
    {
        self.add_session_at(session, now_millis())
    }

    /// Takes a session out of the pool; says whether it was pooled.
    pub fn remove_session(&mut self, session_id: SessionId) -> (r: Result<bool, YuhaError>)
        requires
            old(self).wf(),
        ensures
            final(self).wf(),
            final(self).settings() == old(self).settings(),
            r == Ok::<bool, YuhaError>(old(self)@.contains_key(session_id.0)),
            final(self)@ == old(self)@.remove(session_id.0),
            final(self).pool_lists() == lists_after_remove(old(self).pool_lists(), old(self)@, session_id.0),
            old(self).lists_exact() ==> final(self).lists_exact(),
    {
        let ghost old_meta = self@;
        let ghost old_lists = lists(self.pools);
        let ghost was_exact = self.lists_exact();
        match self.pool_metadata.remove(&session_id) {
            Some(info) => {
                index_drop(&mut self.pools, &info.connection_key, session_id.0);
                proof {
                    assert(old_meta.remove(session_id.0).dom() =~= old_meta.dom().remove(
                        session_id.0,
                    ));
                    assert forall|k: Seq<char>| #[trigger]
                        lists(self.pools).contains_key(k) implies lists(self.pools)[k].len()
                        <= list_bound(self.config) by {
                        assert(old_lists.contains_key(k));
                        lemma_without(old_lists[k], session_id.0);
                    }
                    if was_exact {
                        lemma_indexes_remove(old_lists, old_meta, pooled_key(), session_id.0);
                    }
                }
                Ok(true)
            },
            None => {
                proof {
                    assert(old_meta.remove(session_id.0) =~= old_meta);
                }
                Ok(false)
            },
        }
    }

    fn calculate_reuse_score_at(&self, info: &PooledSessionInfo, now: u64) -> (r: u32)
        ensures
            r == reuse_score(*info, now),
    {
        let mut score: u32 = match info.priority {
            SessionPriority::Critical => 100,
            SessionPriority::High => 75,
            SessionPriority::Normal => 50,
            SessionPriority::Low => 25,
        };
        if info.use_count < 10 {
            score = score + 20;
        } else if info.use_count < 50 {
            score = score + 10;
        }
        let pooled_for: u64 = if now >= info.pooled_at {
            now - info.pooled_at
        } else {
            0
        };
        if pooled_for < 60_000 {
            score = score + 15;
        } else if pooled_for < 300_000 {
            score = score + 10;
        }
        score
    }

    /// The pooled session to reuse for a connection key at a time, when pooling and reuse are
    /// on: the first reusable one with the highest score (see `best_pooled`).
    pub fn find_session_at(&self, connection_key: &str, now: u64) -> (r: Option<SessionId>)
        ensures
            !(self.settings().enabled && self.settings().prefer_reuse) ==> r is None,
            self.settings().enabled && self.settings().prefer_reuse ==> r == match best_pooled(
                list_of(self.pool_lists(), connection_key@),
                self@,
                now,
                self.settings().min_idle_time,
            ).0 {
                Some(id) => Some(SessionId(id)),
                None => None::<SessionId>,
            },
    {
        if !self.config.enabled || !self.config.prefer_reuse {
            return None;
        }
        let key = String::from_str(connection_key);
        let ids = match self.pools.get(&key) {
            Some(ids) => ids,
            None => {
                return None;
            },
        };
        let min_idle: u128 = (self.config.min_idle_time as u128) * 1000;
        let mut best: Option<SessionId> = None;
        let mut best_score: u32 = 0;
        let mut i: usize = 0;
        while i < ids.len()
            invariant
                i <= ids@.len(),
                min_idle == self.config.min_idle_time * 1000,
                ({
                    let (b, s) = best_pooled(ids@.take(i as int), self@, now, self.config.min_idle_time);
                    &&& best == match b {
                        Some(id) => Some(SessionId(id)),
                        None => None::<SessionId>,
                    }
                    &&& best_score == s
                }),
            decreases ids@.len() - i,
        {
            let id = ids[i];
            proof {
                assert(ids@.take(i + 1).drop_last() =~= ids@.take(i as int));
                assert(ids@.take(i + 1).last() == id);
            }
            match self.pool_metadata.get(&SessionId(id)) {
                Some(info) => {
                    let pooled_for: u64 = if now >= info.pooled_at {
                        now - info.pooled_at
                    } else {
                        0
                    };
                    if (pooled_for as u128) >= min_idle {
                        let score = self.calculate_reuse_score_at(info, now);
                        if score > best_score {
                            best_score = score;
                            best = Some(SessionId(id));
                        }
                    }
                },
                None => {},
            }
            i = i + 1;
        }
        proof {
            assert(ids@.take(ids@.len() as int) =~= ids@);
        }
        best
    }

    /// The pooled session to reuse for a connection key now (see `find_session_at`).
    pub fn find_session(&self, connection_key: &str) -> (r: Option<SessionId>)
        ensures
            !(self.settings().enabled && self.settings().prefer_reuse) ==> r is None,
            self.settings().enabled && self.settings().prefer_reuse ==> exists|now: u64|
                r == match #[trigger] best_pooled(
                    list_of(self.pool_lists(), connection_key@),
                    self@,
                    now,
                    self.settings().min_idle_time,
                ).0 {
                    Some(id) => Some(SessionId(id)),
                    None => None::<SessionId>,
                },
    {
        self.find_session_at(connection_key, now_millis())
    }

    /// The pooled sessions of a connection key, in the order they were pooled.
    pub fn list_pool(&self, connection_key: &str) -> (r: Vec<SessionId>)
        ensures
            r@.len() == list_of(self.pool_lists(), connection_key@).len(),
            forall|i: int|
                0 <= i < r@.len() ==> #[trigger] r@[i].0 == list_of(
                    self.pool_lists(),
                    connection_key@,
                )[i],
    {
        let key = String::from_str(connection_key);
        let mut out: Vec<SessionId> = Vec::new();
        match self.pools.get(&key) {
            Some(ids) => {
                let mut i: usize = 0;
                while i < ids.len()
                    invariant
                        i <= ids@.len(),
                        out@.len() == i,
                        forall|j: int| 0 <= j < i ==> #[trigger] out@[j].0 == ids@[j],
                    decreases ids@.len() - i,
                {
                    out.push(SessionId(ids[i]));
                    i = i + 1;
                }
            },
            None => {},
        }
        out
    }

    /// The connection keys that have pooled sessions, each once.
    pub fn list_connection_keys(&self) -> (r: Vec<String>)
        ensures
            r@.len() == self.pool_lists().dom().len(),
            forall|i: int| 0 <= i < r@.len() ==> self.pool_lists().contains_key(#[trigger] r@[i]@),
            forall|k: Seq<char>| #[trigger]
                self.pool_lists().contains_key(k) ==> exists|i: int| 0 <= i < r@.len() && r@[i]@ == k,
            forall|i: int, j: int|
                0 <= i < r@.len() && 0 <= j < r@.len() && i != j ==> #[trigger] r@[i]@
                    != #[trigger] r@[j]@,
    {
        let n = self.pools.len();
        let r = self.pools.keys();
        proof {
            assert(lists(self.pools).dom() =~= self.pools@.dom());
            assert forall|k: Seq<char>| #[trigger]
                lists(self.pools).contains_key(k) implies exists|i: int| 0 <= i < r@.len() && r@[i]@ == k by {
                assert(self.pools.key_seq().contains(k));
                let i = choose|i: int| 0 <= i < n && self.pools.key_seq()[i] == k;
                assert(r@[i]@ == k);
            }
            assert forall|i: int, j: int|
                0 <= i < r@.len() && 0 <= j < r@.len() && i != j implies #[trigger] r@[i]@
                != #[trigger] r@[j]@ by {
                assert(self.pools.key_seq()[i] != self.pools.key_seq()[j]);
            }
        }
        r
    }

    /// Counts about the pool and its settings.
    pub fn get_stats(&self) -> (r: PoolStats)
        requires
            self.wf(),
        ensures
            r.enabled == self.settings().enabled,
            r.total_pooled_sessions == self@.len(),
            r.connection_pools == self.pool_lists().dom().len(),
            r.max_sessions_per_connection == self.settings().max_sessions_per_connection,
            r.max_total_sessions == self.settings().max_total_sessions,
            forall|k: Seq<char>| #[trigger]
                self.pool_lists().contains_key(k) ==> self.pool_lists()[k].len() <= r.largest_pool_size,
            r.largest_pool_size == 0 || exists|k: Seq<char>|
                #[trigger] self.pool_lists().contains_key(k) && self.pool_lists()[k].len()
                    == r.largest_pool_size,
    {
        let total = self.pool_metadata.len();
        let connection_count = self.pools.len();
        let mut largest: usize = 0;
        let mut i: usize = 0;
        while i < connection_count
            invariant
                connection_count == self.pools.key_seq().len(),
                forall|j: int| 0 <= j < connection_count ==> #[trigger] self.pools@[self.pools.key_seq()[j]]
                    == self.pools.value_seq()[j],
                forall|j: int| 0 <= j < connection_count ==> self.pools@.contains_key(#[trigger] self.pools.key_seq()[j]),
                i <= connection_count,
                forall|j: int| 0 <= j < i ==> self.pools.value_seq()[j]@.len() <= largest,
                largest == 0 || exists|j: int| 0 <= j < i && self.pools.value_seq()[j]@.len() == largest,
            decreases connection_count - i,
        {
            let ids = self.pools.value_at(i);
            if ids.len() > largest {
                largest = ids.len();
            }
            i = i + 1;
        }
        proof {
            assert(lists(self.pools).dom() =~= self.pools@.dom());
            assert forall|k: Seq<char>| #[trigger]
                lists(self.pools).contains_key(k) implies lists(self.pools)[k].len() <= largest by {
                assert(self.pools.key_seq().contains(k));
                let j = choose|j: int| 0 <= j < connection_count && self.pools.key_seq()[j] == k;
                assert(self.pools.value_seq()[j]@.len() <= largest);
            }
            if largest != 0 {
                let j = choose|j: int| 0 <= j < connection_count && self.pools.value_seq()[j]@.len() == largest;
                let k = self.pools.key_seq()[j];
                assert(lists(self.pools).contains_key(k));
                assert(self.pools@[k] == self.pools.value_seq()[j]);
                assert(lists(self.pools)[k] == self.pools@[k]@);
                assert(self.pool_lists().contains_key(k) && self.pool_lists()[k].len() == largest);
            }
        }
        PoolStats {
            enabled: self.config.enabled,
            total_pooled_sessions: total,
            connection_pools: connection_count,
            largest_pool_size: largest,
            max_sessions_per_connection: self.config.max_sessions_per_connection,
            max_total_sessions: self.config.max_total_sessions,
        }
    }

    /// Takes out of the pool, at a time, every session pooled for longer than a number of
    /// milliseconds, and hands back their identifiers in the pool's order.
    pub fn cleanup_expired_at(&mut self, max_idle_ms: u64, now: u64) -> (r: Vec<SessionId>)
        requires
            old(self).wf(),
        ensures
            final(self).wf(),
            final(self).settings() == old(self).settings(),
            cleaned(
                old(self)@,
                old(self).ordered_ids(),
                old(self).pool_lists(),
                final(self)@,
                final(self).pool_lists(),
                r@,
                max_idle_ms,
                now,
            ),
            forall|i: int|
                0 <= i < r@.len() ==> old(self)@.contains_key(#[trigger] r@[i].0) && expired_at(
                    old(self)@[r@[i].0],
                    max_idle_ms,
                    now,
                ) && !final(self)@.contains_key(r@[i].0),
            forall|k: u128| #[trigger]
                final(self)@.contains_key(k) ==> old(self)@.contains_key(k) && final(self)@[k] == old(self)@[k] && !expired_at(old(self)@[k], max_idle_ms, now),
            old(self).lists_exact() ==> final(self).lists_exact(),
    {
        let ghost old_meta = self@;
        let ghost old_lists = lists(self.pools);
        let ghost p = |id: u128| expired_at(old_meta[id], max_idle_ms, now);
        let n = self.pool_metadata.len();
        let ghost old_ids = self.ordered_ids();
        proof {
            assert(self.ordered_ids().take(0) =~= Seq::<u128>::empty());
            reveal(Seq::filter);
        }
        let mut expired: Vec<SessionId> = Vec::new();
        let mut ids_ghost: Ghost<Seq<u128>> = Ghost(Seq::empty());
        let mut i: usize = 0;
        while i < n
            invariant
                n == self.pool_metadata.key_seq().len(),
                n == self.pool_metadata.value_seq().len(),
                self@ == old_meta,
                p == (|id: u128| expired_at(old_meta[id], max_idle_ms, now)),
                forall|j: int| 0 <= j < n ==> #[trigger] self@[self.pool_metadata.key_seq()[j]]
                    == self.pool_metadata.value_seq()[j],
                i <= n,
                ids_ghost@ == self.ordered_ids().take(i as int).filter(p),
                expired@.len() == ids_ghost@.len(),
                forall|j: int| 0 <= j < expired@.len() ==> #[trigger] expired@[j].0 == ids_ghost@[j],
            decreases n - i,
        {
            let id = self.pool_metadata.key_at(i);
            let info = self.pool_metadata.value_at(i);
            proof {
                let t = self.ordered_ids().take(i as int);
                let t1 = self.ordered_ids().take(i + 1);
                assert(t1 =~= t.push(id.0));
                t.lemma_filter_push(id.0, p);
            }
            if now >= info.pooled_at && now - info.pooled_at > max_idle_ms {
                expired.push(*id);
                proof {
                    ids_ghost@ = ids_ghost@.push(id.0);
                }
            }
            i = i + 1;
        }
        proof {
            assert(self.ordered_ids().take(n as int) =~= self.ordered_ids());
            assert(old_meta == self@);
        }
        let ghost ids = ids_ghost@;
        proof {
            lemma_filter_distinct(self.ordered_ids(), p);
            assert forall|j: int| 0 <= j < ids.len() implies old_meta.contains_key(#[trigger] ids[j]) by {
                assert(ids.contains(ids[j]));
                assert(self.ordered_ids().contains(ids[j]));
            }
        }
        let mut k: usize = 0;
        while k < expired.len()
            invariant
                self.wf(),
                self.settings() == old(self).settings(),
                k <= expired@.len(),
                expired@.len() == ids.len(),
                forall|j: int| 0 <= j < expired@.len() ==> #[trigger] expired@[j].0 == ids[j],
                ids.no_duplicates(),
                forall|j: int| 0 <= j < ids.len() ==> old_meta.contains_key(#[trigger] ids[j]),
                self@ == old_meta.remove_keys(ids.take(k as int).to_set()),
                lists(self.pools) == without_all(old_lists, old_meta, ids.take(k as int)),
                indexes(old_lists, old_meta, pooled_key()) ==> self.lists_exact(),
            decreases expired@.len() - k,
        {
            let id = expired[k];
            proof {
                assert(ids.take(k + 1).drop_last() =~= ids.take(k as int));
                assert(ids.take(k + 1).last() == id.0);
                assert(!ids.take(k as int).contains(id.0)) by {
                    if ids.take(k as int).contains(id.0) {
                        let j = choose|j: int| 0 <= j < k && ids.take(k as int)[j] == id.0;
                        assert(ids[j] == ids[k as int]);
                    }
                }
                assert(self@.contains_key(id.0));
                assert(self@[id.0] == old_meta[id.0]);
                assert(ids.take(k + 1).to_set() =~= ids.take(k as int).to_set().insert(id.0));
                assert(old_meta.remove_keys(ids.take(k + 1).to_set()) =~= old_meta.remove_keys(
                    ids.take(k as int).to_set(),
                ).remove(id.0));
            }
            let _ = self.remove_session(id);
            k = k + 1;
        }
        proof {
            assert(ids.take(ids.len() as int) =~= ids);
            assert forall|i: int| 0 <= i < expired@.len() implies old_meta.contains_key(
                #[trigger] expired@[i].0,
            ) && expired_at(old_meta[expired@[i].0], max_idle_ms, now) && !self@.contains_key(
                expired@[i].0,
            ) by {
                old_ids.lemma_filter_pred(p, i);
                assert(ids.to_set().contains(ids[i]));
            }
            assert forall|k: u128| #[trigger] self@.contains_key(k) implies old_meta.contains_key(k)
                && self@[k] == old_meta[k] && !expired_at(old_meta[k], max_idle_ms, now) by {
                assert(old_ids.contains(k));
                let j = choose|j: int| 0 <= j < old_ids.len() && old_ids[j] == k;
                if expired_at(old_meta[k], max_idle_ms, now) {
                    old_ids.lemma_filter_contains(p, j);
                    assert(ids.to_set().contains(k));
                }
            }
        }
        expired
    }

    /// Takes out of the pool now every session pooled for longer than a number of milliseconds.
    pub fn cleanup_expired(&mut self, max_idle_ms: u64) -> (r: Vec<SessionId>)
        requires
            old(self).wf(),
        ensures
            final(self).wf(),
            final(self).settings() == old(self).settings(),
            exists|now: u64|
                #[trigger] cleaned(
                    old(self)@,
                    old(self).ordered_ids(),
                    old(self).pool_lists(),
                    final(self)@,
                    final(self).pool_lists(),
                    r@,
                    max_idle_ms,
                    now,
                ),
            old(self).lists_exact() ==> final(self).lists_exact(),
    {
        self.cleanup_expired_at(max_idle_ms, now_millis())
    }

    /// Empties the pool.
    pub fn clear(&mut self)
        requires
            old(self).wf(),
        ensures
            final(self).wf(),
            final(self).settings() == old(self).settings(),
            final(self)@ == Map::<u128, PooledSessionInfo>::empty(),
            final(self).pool_lists() == Map::<Seq<char>, Seq<u128>>::empty(),
            final(self).lists_exact(),
    {
        self.pools.clear();
        self.pool_metadata.clear();
        proof {
            assert(lists(self.pools) =~= Map::<Seq<char>, Seq<u128>>::empty());
        }
    }

    /// Whether a session is pooled.
    pub fn is_pooled(&self, session_id: SessionId) -> (r: bool)
        ensures
            r == self@.contains_key(session_id.0),
    {
        self.pool_metadata.contains_key(&session_id)
    }

    /// What the pool keeps of a session, if it is pooled.
    pub fn get_pool_metadata(&self, session_id: SessionId) -> (r: Option<PooledSessionInfo>)
        ensures
            match r {
                Some(info) => self@.contains_key(session_id.0) && info == self@[session_id.0],
                None => !self@.contains_key(session_id.0),
            },
    {
        match self.pool_metadata.get(&session_id) {
            Some(info) => Some(
                PooledSessionInfo {
                    connection_key: info.connection_key.clone(),
                    pooled_at: info.pooled_at,
                    priority: info.priority,
                    use_count: info.use_count,
                },
            ),
            None => None,
        }
    }
}

} // verus!
