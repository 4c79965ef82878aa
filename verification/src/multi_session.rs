//! Sessions over several simultaneous connections: a session table with per-connection
//! groups, limits on concurrent sessions, statistics and expiry.
//!
//! Times are milliseconds since the Unix epoch.
use vstd::prelude::*;

use crate::clock::{duration_from_millis, millis_duration, now_millis};
use crate::error::YuhaError;
use crate::keyed::KeyedList;
use crate::session::index::{index_add, index_push, lists, list_of, without, without_vec};
use crate::session::{contains_tag, elapsed, is_session_error, tag_in, uuid_text};
use crate::text::{concat2, concat3, decimal, u64_to_decimal};
use crate::transport::setup::TransportConfig;
use crate::transport::{or_default, TransportType};

pub use crate::session::{SessionId, SessionStats};

verus! {

/// The states of a session.
#[derive(Debug, Clone, Copy, PartialEq, Eq, Structural)]
pub enum SessionStatus {
    /// Connecting.
    Connecting,
    /// Connected and in use.
    Active,
    /// Connected and not in use.
    Idle,
    /// Being reconnected.
    Reconnecting,
    /// Failed.
    Failed,
    /// Being closed.
    Closing,
    /// Closed.
    Closed,
}

/// The key that groups sessions connecting to the same place.
pub open spec fn session_key_of(c: TransportConfig) -> Seq<char> {
    match c.transport_type {
        TransportType::Ssh => match c.ssh {
            Some(ssh) => "ssh://"@ + ssh.username@ + "@"@ + ssh.host@ + ":"@ + decimal(ssh.port as nat),
            None => "ssh://unknown"@,
        },
        TransportType::Local => match c.local {
            Some(local) => "local://"@ + local.binary_path@,
            None => "local://unknown"@,
        },
        TransportType::Tcp => match c.tcp {
            Some(tcp) => "tcp://"@ + tcp.host@ + ":"@ + decimal(tcp.port as nat),
            None => "tcp://unknown"@,
        },
        TransportType::Wsl => match c.wsl {
            Some(wsl) => "wsl://"@ + or_default(wsl.user) + "@"@ + or_default(wsl.distribution),
            None => "wsl://default"@,
        },
    }
}

/// The metadata behind a list of references.
pub open spec fn derefs_of(r: Seq<&SessionMetadata>) -> Seq<SessionMetadata> {
    r.map_values(|m: &SessionMetadata| *m)
}

/// What is known of a session.
#[derive(Debug, Clone)]
pub struct SessionMetadata {
    /// The identifier.
    pub id: SessionId,
    /// A readable name.
    pub name: String,
    /// How the session connects.
    pub transport_config: TransportConfig,
    /// The state.
    pub status: SessionStatus,
    /// When the session was created, in milliseconds since the epoch.
    pub created_at: u64,
    /// When the session was last used, in milliseconds since the epoch.
    pub last_used: u64,
    /// How many times the session was used.
    pub use_count: u64,
    /// Tags.
    pub tags: Vec<String>,
    /// A description.
    pub description: Option<String>,
}

impl SessionMetadata {
    /// A connecting session with an identifier and a creation time.
    pub fn new_at(
        id: SessionId,
        name: String,
        transport_config: TransportConfig,
        tags: Vec<String>,
        description: Option<String>,
        now: u64,
    ) -> (r: Self)
        ensures
            r == (SessionMetadata {
                id,
                name,
                transport_config,
                status: SessionStatus::Connecting,
                created_at: now,
                last_used: now,
                use_count: 0,
                tags,
                description,
            }),
    {
        SessionMetadata {
            id,
            name,
            transport_config,
            status: SessionStatus::Connecting,
            created_at: now,
            last_used: now,
            use_count: 0,
            tags,
            description,
        }
    }

    /// A connecting session created now, with a new random identifier.
    pub fn new(
        name: String,
        transport_config: TransportConfig,
        tags: Vec<String>,
        description: Option<String>,
    ) -> (r: Self)
        ensures
            r.name == name,
            r.transport_config == transport_config,
            r.status == SessionStatus::Connecting,
            r.created_at == r.last_used,
            r.use_count == 0,
            r.tags == tags,
            r.description == description,
    {
        Self::new_at(SessionId::new(), name, transport_config, tags, description, now_millis())
    }

    /// Records a use at a time.
    pub fn mark_used_at(&mut self, now: u64)
        requires
            old(self).use_count < u64::MAX,
        ensures
            *final(self) == (SessionMetadata {
                last_used: now,
                use_count: (old(self).use_count + 1) as u64,
                ..*old(self)
            }),
    {
        self.last_used = now;
        self.use_count = self.use_count + 1;
    }

    /// Records a use now.
    pub fn mark_used(&mut self)
        requires
            old(self).use_count < u64::MAX,
        ensures
            *final(self) == (SessionMetadata {
                last_used: final(self).last_used,
                use_count: (old(self).use_count + 1) as u64,
                ..*old(self)
            }),
    {
        self.mark_used_at(now_millis());
    }

    /// The age of the session at a time, in milliseconds.
    pub fn age_at(&self, now: u64) -> (r: u64)
        ensures
            r == elapsed(self.created_at, now),
    {
        if now >= self.created_at {
            now - self.created_at
        } else {
            0
        }
    }

    /// How long the session has not been used at a time, in milliseconds.
    pub fn idle_time_at(&self, now: u64) -> (r: u64)
        ensures
            r == elapsed(self.last_used, now),
    {
        if now >= self.last_used {
            now - self.last_used
        } else {
            0
        }
    }

    /// The age of the session now.
    pub fn age(&self) -> (r: std::time::Duration)
        ensures
            exists|now: u64| r == millis_duration(elapsed(self.created_at, now)),
    {
        duration_from_millis(self.age_at(now_millis()))
    }

    /// How long the session has not been used, now.
    pub fn idle_time(&self) -> (r: std::time::Duration)
        ensures
            exists|now: u64| r == millis_duration(elapsed(self.last_used, now)),
    {
        duration_from_millis(self.idle_time_at(now_millis()))
    }

    /// Whether the session carries every one of the tags.
    pub fn has_tags(&self, tags: &[String]) -> (r: bool)
        ensures
            r == forall|i: int| 0 <= i < tags@.len() ==> tag_in(self.tags@, #[trigger] tags@[i]@),
    {
        let mut i: usize = 0;
        while i < tags.len()
            invariant
                i <= tags@.len(),
                forall|k: int| 0 <= k < i ==> tag_in(self.tags@, #[trigger] tags@[k]@),
            decreases tags@.len() - i,
        {
            let found = contains_tag(&self.tags, &tags[i]);
            if !found {
                return false;
            }
            i = i + 1;
        }
        true
    }

    /// The key that groups sessions connecting to the same place, such as
    /// `ssh://user@host:22` or `tcp://host:9999`.
    pub fn connection_key(&self) -> (r: String)
        ensures
            r@ == session_key_of(self.transport_config),
    {
        let c = &self.transport_config;
        match c.transport_type {
            TransportType::Ssh => match &c.ssh {
                Some(ssh) => {
                    let mut s = String::from_str("ssh://");
                    s.append(ssh.username.as_str());
                    s.append("@");
                    s.append(ssh.host.as_str());
                    s.append(":");
                    let p = u64_to_decimal(ssh.port as u64);
                    s.append(p.as_str());
                    s
                },
                None => String::from_str("ssh://unknown"),
            },
            TransportType::Local => match &c.local {
                Some(local) => concat2("local://", local.binary_path.as_str()),
                None => String::from_str("local://unknown"),
            },
            TransportType::Tcp => match &c.tcp {
                Some(tcp) => {
                    let mut s = String::from_str("tcp://");
                    s.append(tcp.host.as_str());
                    s.append(":");
                    let p = u64_to_decimal(tcp.port as u64);
                    s.append(p.as_str());
                    s
                },
                None => String::from_str("tcp://unknown"),
            },
            TransportType::Wsl => match &c.wsl {
                Some(wsl) => {
                    let mut s = String::from_str("wsl://");
                    match &wsl.user {
                        Some(u) => s.append(u.as_str()),
                        None => s.append("default"),
                    }
                    s.append("@");
                    match &wsl.distribution {
                        Some(d) => s.append(d.as_str()),
                        None => s.append("default"),
                    }
                    s
                },
                None => String::from_str("wsl://default"),
            },
        }
    }
}

/// Settings of the session manager, in milliseconds where they are spans of time.
#[derive(Debug, Clone, Copy)]
pub struct SessionManagerConfig {
    /// The most sessions at once.
    pub max_concurrent_sessions: u32,
    /// The most sessions of one connection key.
    pub max_sessions_per_connection: u32,
    /// How long an idle session lives.
    pub max_idle_time: u64,
    /// How long a session lives.
    pub max_session_lifetime: u64,
    /// How often cleanup runs.
    pub cleanup_interval: u64,
    /// Whether sessions are pooled.
    pub enable_pooling: bool,
    /// Pool size per connection key.
    pub pool_size_per_connection: u32,
    /// Whether failed sessions are reconnected.
    pub enable_auto_reconnect: bool,
    /// The most reconnection attempts.
    pub max_reconnect_attempts: u32,
    /// The least time between reconnection attempts.
    pub reconnect_delay: u64,
}

/// The default settings: 50 sessions, 5 per connection key, 5 minutes idle, 1 hour in all,
/// cleanup every minute, pooling on with 2 per key, reconnection on with 3 attempts 5 seconds
/// apart.
pub open spec fn is_default_manager_config(c: SessionManagerConfig) -> bool {
    &&& c.max_concurrent_sessions == 50
    &&& c.max_sessions_per_connection == 5
    &&& c.max_idle_time == 300_000
    &&& c.max_session_lifetime == 3_600_000
    &&& c.cleanup_interval == 60_000
    &&& c.enable_pooling
    &&& c.pool_size_per_connection == 2
    &&& c.enable_auto_reconnect
    &&& c.max_reconnect_attempts == 3
    &&& c.reconnect_delay == 5_000
}

impl Default for SessionManagerConfig {
    fn default() -> (r: Self)
        ensures
            is_default_manager_config(r),
    {
        SessionManagerConfig {
            max_concurrent_sessions: 50,
            max_sessions_per_connection: 5,
            max_idle_time: 300_000,
            max_session_lifetime: 3_600_000,
            cleanup_interval: 60_000,
            enable_pooling: true,
            pool_size_per_connection: 2,
            enable_auto_reconnect: true,
            max_reconnect_attempts: 3,
            reconnect_delay: 5_000,
        }
    }
}

/// The statistics after a change of state: a connecting session that became active is a
/// successful connection; a failure counts as a failed connection and session and leaves the
/// active sessions; closing leaves them too; an active session that became idle is idle, and an
/// idle one that became active no longer is. Subtractions stop at 0.
pub open spec fn stats_after(s: SessionStats, from: SessionStatus, to: SessionStatus) -> SessionStats {
    if from == SessionStatus::Connecting && to == SessionStatus::Active {
        SessionStats { successful_connections: (s.successful_connections + 1) as u64, ..s }
    } else if to == SessionStatus::Failed {
        SessionStats {
            failed_connections: (s.failed_connections + 1) as u64,
            failed_sessions: (s.failed_sessions + 1) as u32,
            active_sessions: if s.active_sessions > 0 {
                (s.active_sessions - 1) as u32
            } else {
                0
            },
            ..s
        }
    } else if to == SessionStatus::Closed {
        SessionStats {
            active_sessions: if s.active_sessions > 0 {
                (s.active_sessions - 1) as u32
            } else {
                0
            },
            ..s
        }
    } else if from == SessionStatus::Active && to == SessionStatus::Idle {
        SessionStats { idle_sessions: (s.idle_sessions + 1) as u32, ..s }
    } else if from == SessionStatus::Idle && to == SessionStatus::Active {
        SessionStats {
            idle_sessions: if s.idle_sessions > 0 {
                (s.idle_sessions - 1) as u32
            } else {
                0
            },
            ..s
        }
    } else {
        s
    }
}

/// Whether the counts of the statistics can take one more change of state without overflow.
pub open spec fn stats_room(s: SessionStats) -> bool {
    &&& s.successful_connections < u64::MAX
    &&& s.failed_connections < u64::MAX
    &&& s.failed_sessions < u32::MAX
    &&& s.idle_sessions < u32::MAX
}

/// Whether a session has expired at a time: idle for longer than the idle limit, active or
/// connecting for longer than the lifetime limit, or failed.
pub open spec fn session_expires(c: SessionManagerConfig, m: SessionMetadata, now: u64) -> bool {
    match m.status {
        SessionStatus::Idle => elapsed(m.last_used, now) > c.max_idle_time,
        SessionStatus::Active | SessionStatus::Connecting => elapsed(m.created_at, now)
            > c.max_session_lifetime,
        SessionStatus::Failed => true,
        _ => false,
    }
}

/// The groups after an identifier is taken out of every one of them; emptied groups stay.
pub open spec fn strip(groups: Map<Seq<char>, Seq<u128>>, id: u128) -> Map<Seq<char>, Seq<u128>> {
    Map::new(|k: Seq<char>| groups.contains_key(k), |k: Seq<char>| without(groups[k], id))
}

/// The groups after the identifiers of a list are taken out of every one of them, in turn.
pub open spec fn strip_all(groups: Map<Seq<char>, Seq<u128>>, ids: Seq<u128>) -> Map<
    Seq<char>,
    Seq<u128>,
>
    decreases ids.len(),
{
    if ids.len() == 0 {
        groups
    } else {
        strip(strip_all(groups, ids.drop_last()), ids.last())
    }
}

/// Manages sessions over several connections.
#[derive(Debug)]
pub struct SessionManager {
    config: SessionManagerConfig,
    sessions: KeyedList<SessionId, SessionMetadata>,
    connection_pools: KeyedList<String, Vec<u128>>,
    stats: SessionStats,
    session_counter: u64,
    cleanup_running: bool,
}

impl SessionManager {
    /// Whether the manager is well formed: within its limit, each session kept under its own
    /// identifier.
    pub closed spec fn wf(&self) -> bool {
        &&& self.sessions@.len() <= self.config.max_concurrent_sessions
        &&& self.sessions@.dom().finite()
        &&& forall|k: u128| #[trigger] self.sessions@.contains_key(k) ==> self.sessions@[k].id.0 == k
    }

    /// The settings.
    pub closed spec fn settings(&self) -> SessionManagerConfig {
        self.config
    }

    /// The sessions by identifier.
    pub closed spec fn sessions(&self) -> Map<u128, SessionMetadata> {
        self.sessions@
    }

    /// The sessions in the order in which they are kept.
    pub closed spec fn ordered(&self) -> Seq<SessionMetadata> {
        self.sessions.value_seq()
    }

    /// The session identifiers of each connection key, in the order they were created.
    pub closed spec fn groups(&self) -> Map<Seq<char>, Seq<u128>> {
        lists(self.connection_pools)
    }

    /// The statistics.
    pub closed spec fn stats(&self) -> SessionStats {
        self.stats
    }

    /// How many sessions were created.
    pub closed spec fn created(&self) -> u64 {
        self.session_counter
    }

    /// Whether the cleanup task is to keep running.
    pub closed spec fn cleanup_running(&self) -> bool {
        self.cleanup_running
    }

    /// A manager with the settings, no sessions and zero statistics.
    pub fn new(config: SessionManagerConfig) -> (r: Self)
        ensures
            r.wf(),
            r.settings() == config,
            r.sessions() == Map::<u128, SessionMetadata>::empty(),
            r.groups() == Map::<Seq<char>, Seq<u128>>::empty(),
            crate::session::is_zero_stats(r.stats()),
            r.created() == 0,
            !r.cleanup_running(),
    {
        let r = SessionManager {
            config,
            sessions: KeyedList::new(),
            connection_pools: KeyedList::new(),
            stats: SessionStats::default(),
            session_counter: 0,
            cleanup_running: false,
        };
        proof {
            assert(lists(r.connection_pools) =~= Map::<Seq<char>, Seq<u128>>::empty());
        }
        r
    }

    /// Creates a connecting session with an identifier at a time, within the limits on all
    /// sessions and on the sessions of its connection key; counts it as created and active.
    pub fn create_session_at(
        &mut self,
        name: String,
        transport_config: TransportConfig,
        tags: Vec<String>,
        description: Option<String>,
        id: SessionId,
        now: u64,
    ) -> (r: Result<SessionId, YuhaError>)
        requires
            old(self).wf(),
            old(self).stats().total_sessions_created < u64::MAX,
            old(self).stats().active_sessions < u32::MAX,
            old(self).created() < u64::MAX,
        ensures
            final(self).wf(),
            final(self).settings() == old(self).settings(),
            final(self).cleanup_running() == old(self).cleanup_running(),
            ({
                let key = session_key_of(transport_config);
                let full = old(self).sessions().len() >= old(self).settings().max_concurrent_sessions;
                let group_full = old(self).groups().contains_key(key) && old(self).groups()[key].len()
                    >= old(self).settings().max_sessions_per_connection;
                &&& full ==> (r matches Err(e) && is_session_error(
                    e,
                    "Maximum concurrent sessions reached"@,
                ))
                &&& !full && group_full ==> (r matches Err(e) && is_session_error(
                    e,
                    "Maximum sessions per connection reached for "@ + key,
                ))
                &&& r is Err ==> final(self).sessions() == old(self).sessions() && final(self).groups()
                    == old(self).groups() && final(self).stats() == old(self).stats() && final(self).created() == old(self).created()
                &&& r is Ok <==> !full && !group_full
                &&& r is Ok ==> {
                    &&& r == Ok::<SessionId, YuhaError>(id)
                    &&& final(self).sessions() == old(self).sessions().insert(
                        id.0,
                        SessionMetadata {
                            id,
                            name,
                            transport_config,
                            status: SessionStatus::Connecting,
                            created_at: now,
                            last_used: now,
                            use_count: 0,
                            tags,
                            description,
                        },
                    )
                    &&& final(self).groups() == index_add(old(self).groups(), key, id.0)
                    &&& final(self).stats() == (SessionStats {
                        total_sessions_created: (old(self).stats().total_sessions_created + 1) as u64,
                        active_sessions: (old(self).stats().active_sessions + 1) as u32,
                        ..old(self).stats()
                    })
                    &&& final(self).created() == old(self).created() + 1
                }
            }),
    {
        if self.sessions.len() >= self.config.max_concurrent_sessions as usize {
            return Err(YuhaError::session("Maximum concurrent sessions reached"));
        }
        let metadata = SessionMetadata::new_at(id, name, transport_config, tags, description, now);
        let connection_key = metadata.connection_key();
        match self.connection_pools.get(&connection_key) {
            Some(group) => {
                if group.len() >= self.config.max_sessions_per_connection as usize {
                    let m = concat2(
                        "Maximum sessions per connection reached for ",
                        connection_key.as_str(),
                    );
                    return Err(YuhaError::session(m.as_str()));
                }
            },
            None => {},
        }
        let ghost old_sessions = self.sessions@;
        let ghost stored = metadata;
        self.sessions.insert(id, metadata);
        index_push(&mut self.connection_pools, connection_key, id.0);
        self.stats.total_sessions_created = self.stats.total_sessions_created + 1;
        self.stats.active_sessions = self.stats.active_sessions + 1;
        self.session_counter = self.session_counter + 1;
        proof {
            if old_sessions.contains_key(id.0) {
                assert(old_sessions.insert(id.0, stored).dom() =~= old_sessions.dom());
            }
        }
        Ok(id)
    }

    /// Creates a connecting session now, with a new random identifier.
    pub fn create_session(
        &mut self,
        name: String,
        transport_config: TransportConfig,
        tags: Vec<String>,
        description: Option<String>,
    ) -> (r: Result<SessionId, YuhaError>)
        requires
            old(self).wf(),
            old(self).stats().total_sessions_created < u64::MAX,
            old(self).stats().active_sessions < u32::MAX,
            old(self).created() < u64::MAX,
        ensures
            final(self).wf(),
            final(self).settings() == old(self).settings(),
            r is Ok <==> old(self).sessions().len() < old(self).settings().max_concurrent_sessions && !(
            old(self).groups().contains_key(session_key_of(transport_config)) && old(self).groups()[session_key_of(
                transport_config,
            )].len() >= old(self).settings().max_sessions_per_connection),
            r matches Ok(id) ==> final(self).sessions().contains_key(id.0) && final(self).sessions()[id.0].status
                == SessionStatus::Connecting,
    {
        let id = SessionId::new();
        self.create_session_at(name, transport_config, tags, description, id, now_millis())
    }

    /// The metadata of a session, if there is one.
    pub fn get_session_metadata(&self, session_id: SessionId) -> (r: Option<&SessionMetadata>)
        ensures
            match r {
                Some(m) => self.sessions().contains_key(session_id.0) && *m == self.sessions()[session_id.0],
                None => !self.sessions().contains_key(session_id.0),
            },
    {
        self.sessions.get(&session_id)
    }

    /// Sets the state of a session and updates the statistics (see `stats_after`).
    pub fn update_session_status(&mut self, session_id: SessionId, status: SessionStatus) -> (r: Result<
        (),
        YuhaError,
    >)
        requires
            old(self).wf(),
            stats_room(old(self).stats()),
        ensures
            final(self).wf(),
            final(self).settings() == old(self).settings(),
            final(self).groups() == old(self).groups(),
            final(self).created() == old(self).created(),
            final(self).cleanup_running() == old(self).cleanup_running(),
            r is Ok <==> old(self).sessions().contains_key(session_id.0),
            r matches Err(e) ==> is_session_error(e, "Session "@ + uuid_text(session_id.0) + " not found"@)
                && final(self).sessions() == old(self).sessions() && final(self).stats() == old(self).stats(),
            r is Ok ==> {
                let before = old(self).sessions()[session_id.0];
                &&& final(self).sessions() == old(self).sessions().insert(
                    session_id.0,
                    SessionMetadata { status, ..before },
                )
                &&& final(self).stats() == stats_after(old(self).stats(), before.status, status)
            },
    {
        let ghost old_sessions = self.sessions@;
        match self.sessions.remove(&session_id) {
            Some(mut metadata) => {
                let old_status = metadata.status;
                metadata.status = status;
                let ghost stored = metadata;
                self.sessions.insert(session_id, metadata);
                if old_status == SessionStatus::Connecting && status == SessionStatus::Active {
                    self.stats.successful_connections = self.stats.successful_connections + 1;
                } else if status == SessionStatus::Failed {
                    self.stats.failed_connections = self.stats.failed_connections + 1;
                    self.stats.failed_sessions = self.stats.failed_sessions + 1;
                    self.stats.active_sessions = self.stats.active_sessions.saturating_sub(1);
                } else if status == SessionStatus::Closed {
                    self.stats.active_sessions = self.stats.active_sessions.saturating_sub(1);
                } else if old_status == SessionStatus::Active && status == SessionStatus::Idle {
                    self.stats.idle_sessions = self.stats.idle_sessions + 1;
                } else if old_status == SessionStatus::Idle && status == SessionStatus::Active {
                    self.stats.idle_sessions = self.stats.idle_sessions.saturating_sub(1);
                }
                proof {
                    assert(old_sessions.remove(session_id.0).insert(session_id.0, stored)
                        =~= old_sessions.insert(session_id.0, stored));
                    assert(old_sessions.insert(session_id.0, stored).dom() =~= old_sessions.dom());
                }
                Ok(())
            },
            None => {
                proof {
                    assert(old_sessions.remove(session_id.0) =~= old_sessions);
                }
                let text = session_id.as_str();
                let m = concat3("Session ", text.as_str(), " not found");
                Err(YuhaError::session(m.as_str()))
            },
        }
    }

    /// Records a use of a session at a time; an idle session becomes active and no longer
    /// counts as idle.
    pub fn use_session_at(&mut self, session_id: SessionId, now: u64) -> (r: Result<(), YuhaError>)
        requires
            old(self).wf(),
            old(self).sessions().contains_key(session_id.0) ==> old(self).sessions()[session_id.0].use_count
                < u64::MAX,
        ensures
            final(self).wf(),
            final(self).settings() == old(self).settings(),
            final(self).groups() == old(self).groups(),
            final(self).created() == old(self).created(),
            final(self).cleanup_running() == old(self).cleanup_running(),
            r is Ok <==> old(self).sessions().contains_key(session_id.0),
            r matches Err(e) ==> is_session_error(e, "Session "@ + uuid_text(session_id.0) + " not found"@)
                && final(self).sessions() == old(self).sessions() && final(self).stats() == old(self).stats(),
            r is Ok ==> {
                let before = old(self).sessions()[session_id.0];
                let idle = before.status == SessionStatus::Idle;
                &&& final(self).sessions() == old(self).sessions().insert(
                    session_id.0,
                    SessionMetadata {
                        last_used: now,
                        use_count: (before.use_count + 1) as u64,
                        status: if idle {
                            SessionStatus::Active
                        } else {
                            before.status
                        },
                        ..before
                    },
                )
                &&& final(self).stats() == if idle {
                    SessionStats {
                        idle_sessions: if old(self).stats().idle_sessions > 0 {
                            (old(self).stats().idle_sessions - 1) as u32
                        } else {
                            0
                        },
                        ..old(self).stats()
                    }
                } else {
                    old(self).stats()
                }
            },
    {
        let ghost old_sessions = self.sessions@;
        match self.sessions.remove(&session_id) {
            Some(mut metadata) => {
                metadata.mark_used_at(now);
                if metadata.status == SessionStatus::Idle {
                    metadata.status = SessionStatus::Active;
                    self.stats.idle_sessions = self.stats.idle_sessions.saturating_sub(1);
                }
                let ghost stored = metadata;
                self.sessions.insert(session_id, metadata);
                proof {
                    assert(old_sessions.remove(session_id.0).insert(session_id.0, stored)
                        =~= old_sessions.insert(session_id.0, stored));
                    assert(old_sessions.insert(session_id.0, stored).dom() =~= old_sessions.dom());
                }
                Ok(())
            },
            None => {
                proof {
                    assert(old_sessions.remove(session_id.0) =~= old_sessions);
                }
                let text = session_id.as_str();
                let m = concat3("Session ", text.as_str(), " not found");
                Err(YuhaError::session(m.as_str()))
            },
        }
    }

    /// Records a use of a session now.
    pub fn use_session(&mut self, session_id: SessionId) -> (r: Result<(), YuhaError>)
        requires
            old(self).wf(),
            old(self).sessions().contains_key(session_id.0) ==> old(self).sessions()[session_id.0].use_count
                < u64::MAX,
        ensures
            final(self).wf(),
            r is Ok <==> old(self).sessions().contains_key(session_id.0),
            r is Ok ==> final(self).sessions().contains_key(session_id.0) && final(self).sessions()[session_id.0].use_count
                == old(self).sessions()[session_id.0].use_count + 1,
    {
        self.use_session_at(session_id, now_millis())
    }

    fn strip_groups(&mut self, id: u128)
        requires
            old(self).wf(),
        ensures
            final(self).wf(),
            final(self).groups() == strip(old(self).groups(), id),
            final(self).sessions() == old(self).sessions(),
            final(self).ordered() == old(self).ordered(),
            final(self).stats() == old(self).stats(),
            final(self).settings() == old(self).settings(),
            final(self).created() == old(self).created(),
            final(self).cleanup_running() == old(self).cleanup_running(),
    {
        let n = self.connection_pools.len();
        let mut stripped: KeyedList<String, Vec<u128>> = KeyedList::new();
        let mut i: usize = 0;
        while i < n
            invariant
                n == self.connection_pools.key_seq().len(),
                n == self.connection_pools.value_seq().len(),
                forall|j: int| 0 <= j < n ==> #[trigger] self.connection_pools@[self.connection_pools.key_seq()[j]]
                    == self.connection_pools.value_seq()[j],
                forall|k: Seq<char>| self.connection_pools@.contains_key(k) <==> self.connection_pools.key_seq().contains(k),
                self.connection_pools.key_seq().no_duplicates(),
                i <= n,
                forall|k: Seq<char>| #[trigger] stripped@.contains_key(k) <==> self.connection_pools.key_seq().take(
                    i as int,
                ).contains(k),
                forall|k: Seq<char>| #[trigger] stripped@.contains_key(k) ==> stripped@[k]@ == without(
                    self.connection_pools@[k]@,
                    id,
                ),
            decreases n - i,
        {
            let key = self.connection_pools.key_at(i);
            let group = self.connection_pools.value_at(i);
            let kept = without_vec(group, id);
            proof {
                let t = self.connection_pools.key_seq().take(i as int);
                assert(self.connection_pools.key_seq().take(i + 1) =~= t.push(key@));
                assert forall|k: Seq<char>| #[trigger] t.push(key@).contains(k) <==> t.contains(k) || k == key@ by {
                    if t.push(key@).contains(k) {
                        let j = choose|j: int| 0 <= j < t.push(key@).len() && t.push(key@)[j] == k;
                        if j < t.len() {
                            assert(t[j] == k);
                        }
                    }
                    if t.contains(k) {
                        let j = choose|j: int| 0 <= j < t.len() && t[j] == k;
                        assert(t.push(key@)[j] == k);
                    }
                    if k == key@ {
                        assert(t.push(key@)[t.len() as int] == k);
                    }
                }
            }
            stripped.insert(key.clone(), kept);
            i = i + 1;
        }
        proof {
            assert(self.connection_pools.key_seq().take(n as int) =~= self.connection_pools.key_seq());
        }
        self.connection_pools = stripped;
        proof {
            assert(lists(self.connection_pools) =~= strip(old(self).groups(), id));
        }
    }

    /// Closes a session: it becomes closing, leaves every connection group (emptied groups
    /// stay) and is removed.
    pub fn close_session(&mut self, session_id: SessionId) -> (r: Result<(), YuhaError>)
        requires
            old(self).wf(),
            stats_room(old(self).stats()),
        ensures
            final(self).wf(),
            final(self).settings() == old(self).settings(),
            r is Ok <==> old(self).sessions().contains_key(session_id.0),
            r matches Err(e) ==> is_session_error(e, "Session "@ + uuid_text(session_id.0) + " not found"@)
                && final(self).sessions() == old(self).sessions() && final(self).groups() == old(self).groups(),
            r is Ok ==> {
                &&& final(self).sessions() == old(self).sessions().remove(session_id.0)
                &&& final(self).groups() == strip(old(self).groups(), session_id.0)
                &&& final(self).stats() == stats_after(
                    old(self).stats(),
                    old(self).sessions()[session_id.0].status,
                    SessionStatus::Closing,
                )
            },
    {
        self.update_session_status(session_id, SessionStatus::Closing)?;
        self.strip_groups(session_id.0);
        let ghost before = self.sessions@;
        let removed = self.sessions.remove(&session_id);
        proof {
            assert(before.remove(session_id.0).dom() =~= before.dom().remove(session_id.0));
            assert(before.remove(session_id.0) =~= old(self).sessions().remove(session_id.0));
        }
        match removed {
            Some(mut metadata) => {
                metadata.status = SessionStatus::Closed;
                Ok(())
            },
            None => {
                let text = session_id.as_str();
                let m = concat3("Session ", text.as_str(), " not found");
                Err(YuhaError::session(m.as_str()))
            },
        }
    }

    /// The sessions in the order in which they are kept.
    pub fn list_sessions(&self) -> (r: Vec<&SessionMetadata>)
        ensures
            derefs_of(r@) == self.ordered(),
    {
        let n = self.sessions.len();
        let mut out: Vec<&SessionMetadata> = Vec::new();
        let mut i: usize = 0;
        while i < n
            invariant
                n == self.sessions.value_seq().len(),
                n == self.sessions.key_seq().len(),
                i <= n,
                derefs_of(out@) == self.ordered().take(i as int),
            decreases n - i,
        {
            let m = self.sessions.value_at(i);
            proof {
                assert(derefs_of(out@.push(m)) =~= derefs_of(out@).push(*m));
                assert(self.ordered().take(i + 1) =~= self.ordered().take(i as int).push(*m));
            }
            out.push(m);
            i = i + 1;
        }
        proof {
            assert(self.ordered().take(n as int) =~= self.ordered());
        }
        out
    }

    /// The sessions that carry every one of the tags, in order.
    pub fn list_sessions_by_tags(&self, tags: &[String]) -> (r: Vec<&SessionMetadata>)
        ensures
            derefs_of(r@) == self.ordered().filter(
                |m: SessionMetadata|
                    forall|i: int| 0 <= i < tags@.len() ==> tag_in(m.tags@, #[trigger] tags@[i]@),
            ),
    {
        let n = self.sessions.len();
        let ghost p = |m: SessionMetadata|
            forall|i: int| 0 <= i < tags@.len() ==> tag_in(m.tags@, #[trigger] tags@[i]@);
        let mut out: Vec<&SessionMetadata> = Vec::new();
        let mut i: usize = 0;
        while i < n
            invariant
                n == self.sessions.value_seq().len(),
                n == self.sessions.key_seq().len(),
                p == (|m: SessionMetadata|
                    forall|i: int| 0 <= i < tags@.len() ==> tag_in(m.tags@, #[trigger] tags@[i]@)),
                i <= n,
                derefs_of(out@) == self.ordered().take(i as int).filter(p),
            decreases n - i,
        {
            let m = self.sessions.value_at(i);
            proof {
                let t = self.ordered().take(i as int);
                assert(self.ordered().take(i + 1) =~= t.push(*m));
                t.lemma_filter_push(*m, p);
                assert(derefs_of(out@.push(m)) =~= derefs_of(out@).push(*m));
            }
            if m.has_tags(tags) {
                out.push(m);
            }
            i = i + 1;
        }
        proof {
            assert(self.ordered().take(n as int) =~= self.ordered());
        }
        out
    }

    /// The first session of a connection key's group that is idle, if any.
    pub fn find_pooled_session(&self, connection_key: &str) -> (r: Option<SessionId>)
        ensures
            match r {
                Some(id) => exists|j: int|
                    0 <= j < list_of(self.groups(), connection_key@).len() && #[trigger] list_of(
                        self.groups(),
                        connection_key@,
                    )[j] == id.0 && self.sessions().contains_key(id.0) && self.sessions()[id.0].status
                        == SessionStatus::Idle && forall|q: int|
                        0 <= q < j ==> !(self.sessions().contains_key(
                            #[trigger] list_of(self.groups(), connection_key@)[q],
                        ) && self.sessions()[list_of(self.groups(), connection_key@)[q]].status
                            == SessionStatus::Idle),
                None => forall|q: int|
                    0 <= q < list_of(self.groups(), connection_key@).len() ==> !(self.sessions().contains_key(
                        #[trigger] list_of(self.groups(), connection_key@)[q],
                    ) && self.sessions()[list_of(self.groups(), connection_key@)[q]].status
                        == SessionStatus::Idle),
            },
    {
        let key = String::from_str(connection_key);
        let group = match self.connection_pools.get(&key) {
            Some(g) => g,
            None => {
                return None;
            },
        };
        let mut i: usize = 0;
        while i < group.len()
            invariant
                i <= group@.len(),
                group@ == list_of(self.groups(), connection_key@),
                forall|q: int|
                    0 <= q < i ==> !(self.sessions().contains_key(#[trigger] group@[q])
                        && self.sessions()[group@[q]].status == SessionStatus::Idle),
            decreases group@.len() - i,
        {
            let id = group[i];
            match self.sessions.get(&SessionId(id)) {
                Some(m) => {
                    if m.status == SessionStatus::Idle {
                        return Some(SessionId(id));
                    }
                },
                None => {},
            }
            i = i + 1;
        }
        None
    }

    /// The statistics.
    pub fn get_stats(&self) -> (r: &SessionStats)
        ensures
            *r == self.stats(),
    {
        &self.stats
    }

    /// Marks the cleanup task as running; true when it was not, so a task is to be started.
    pub fn start_cleanup_task(&mut self) -> (r: bool)
        ensures
            r == !old(self).cleanup_running(),
            final(self).cleanup_running(),
            final(self).sessions() == old(self).sessions(),
            final(self).groups() == old(self).groups(),
            final(self).stats() == old(self).stats(),
            final(self).settings() == old(self).settings(),
            old(self).wf() ==> final(self).wf(),
    {
        if self.cleanup_running {
            return false;
        }
        self.cleanup_running = true;
        true
    }

    /// Marks the cleanup task as stopped.
    pub fn stop_cleanup_task(&mut self)
        ensures
            !final(self).cleanup_running(),
            final(self).sessions() == old(self).sessions(),
            final(self).groups() == old(self).groups(),
            final(self).stats() == old(self).stats(),
            final(self).settings() == old(self).settings(),
            old(self).wf() ==> final(self).wf(),
    {
        self.cleanup_running = false;
    }

    /// Whether the cleanup task is to keep running.
    pub fn is_cleanup_running(&self) -> (r: bool)
        ensures
            r == self.cleanup_running(),
    {
        self.cleanup_running
    }
    /// The number of sessions in a state, in the order in which they are kept.
    fn count_status(&self, status: SessionStatus) -> (r: usize)
        ensures
            r == self.ordered().filter(|m: SessionMetadata| m.status == status).len(),
    {
        let n = self.sessions.len();
        let ghost p = |m: SessionMetadata| m.status == status;
        let mut count: usize = 0;
        let mut i: usize = 0;
        while i < n
            invariant
                n == self.sessions.value_seq().len(),
                n == self.sessions.key_seq().len(),
                p == (|m: SessionMetadata| m.status == status),
                i <= n,
                count == self.ordered().take(i as int).filter(p).len(),
            decreases n - i,
        {
            let m = self.sessions.value_at(i);
            proof {
                let t = self.ordered().take(i as int);
                assert(self.ordered().take(i + 1) =~= t.push(*m));
                t.lemma_filter_push(*m, p);
                t.lemma_filter_len(p);
            }
            if m.status == status {
                count = count + 1;
            }
            i = i + 1;
        }
        proof {
            assert(self.ordered().take(n as int) =~= self.ordered());
        }
        count
    }

    /// One round of cleanup at a time: the sessions that have expired (see `session_expires`)
    /// are removed and leave every connection group; when there were any, the active count
    /// becomes the number of sessions left and the idle count the number of idle ones left.
    /// Hands back their identifiers in order.
    pub fn cleanup_expired_sessions_at(&mut self, now: u64) -> (r: Vec<SessionId>)
        requires
            old(self).wf(),
        ensures
            final(self).wf(),
            final(self).settings() == old(self).settings(),
            final(self).created() == old(self).created(),
            final(self).cleanup_running() == old(self).cleanup_running(),
            ({
                let expired = old(self).ordered().filter(
                    |m: SessionMetadata| session_expires(old(self).settings(), m, now),
                );
                let ids = expired.map_values(|m: SessionMetadata| m.id.0);
                &&& r@.len() == expired.len()
                &&& forall|i: int| 0 <= i < r@.len() ==> #[trigger] r@[i].0 == ids[i]
                &&& final(self).sessions() == old(self).sessions().remove_keys(ids.to_set())
                &&& final(self).groups() == strip_all(old(self).groups(), ids)
                &&& final(self).stats() == if expired.len() == 0 {
                    old(self).stats()
                } else {
                    SessionStats {
                        active_sessions: final(self).sessions().len() as u32,
                        idle_sessions: final(self).ordered().filter(
                            |m: SessionMetadata| m.status == SessionStatus::Idle,
                        ).len() as u32,
                        ..old(self).stats()
                    }
                }
            }),
    {
        let ghost old_sessions = self.sessions@;
        let ghost old_groups = self.groups();
        let ghost p = |m: SessionMetadata| session_expires(self.config, m, now);
        let n = self.sessions.len();
        let mut expired: Vec<SessionId> = Vec::new();
        let mut i: usize = 0;
        while i < n
            invariant
                self.wf(),
                n == self.sessions.value_seq().len(),
                n == self.sessions.key_seq().len(),
                forall|j: int| 0 <= j < n ==> #[trigger] self.sessions@[self.sessions.key_seq()[j]]
                    == self.sessions.value_seq()[j],
                forall|j: int| 0 <= j < n ==> self.sessions@.contains_key(#[trigger] self.sessions.key_seq()[j]),
                p == (|m: SessionMetadata| session_expires(self.config, m, now)),
                i <= n,
                expired@.len() == self.ordered().take(i as int).filter(p).len(),
                forall|j: int|
                    0 <= j < expired@.len() ==> #[trigger] expired@[j].0 == self.ordered().take(
                        i as int,
                    ).filter(p)[j].id.0,
            decreases n - i,
        {
            let m = self.sessions.value_at(i);
            proof {
                let t = self.ordered().take(i as int);
                assert(self.ordered().take(i + 1) =~= t.push(*m));
                t.lemma_filter_push(*m, p);
            }
            let expire = match m.status {
                SessionStatus::Idle => m.idle_time_at(now) > self.config.max_idle_time,
                SessionStatus::Active | SessionStatus::Connecting => m.age_at(now)
                    > self.config.max_session_lifetime,
                SessionStatus::Failed => true,
                _ => false,
            };
            if expire {
                expired.push(m.id);
            }
            i = i + 1;
        }
        proof {
            assert(self.ordered().take(n as int) =~= self.ordered());
        }
        let ghost expired_meta = self.ordered().filter(p);
        let ghost ids = expired_meta.map_values(|m: SessionMetadata| m.id.0);
        let mut k: usize = 0;
        while k < expired.len()
            invariant
                self.wf(),
                self.config == old(self).config,
                self.session_counter == old(self).session_counter,
                self.cleanup_running == old(self).cleanup_running,
                self.stats == old(self).stats,
                k <= expired@.len(),
                expired@.len() == ids.len(),
                forall|j: int| 0 <= j < expired@.len() ==> #[trigger] expired@[j].0 == ids[j],
                self.sessions@ == old_sessions.remove_keys(ids.take(k as int).to_set()),
                self.groups() == strip_all(old_groups, ids.take(k as int)),
            decreases expired@.len() - k,
        {
            let id = expired[k];
            let ghost before_sessions = self.sessions@;
            self.sessions.remove(&id);
            self.strip_groups(id.0);
            proof {
                let before = ids.take(k as int);
                assert(ids.take(k + 1) =~= before.push(id.0));
                assert(ids.take(k + 1).drop_last() =~= before);
                assert forall|y: u128| ids.take(k + 1).to_set().contains(y) <==> before.to_set().insert(
                    id.0,
                ).contains(y) by {
                    crate::session::index::lemma_push_contains(before, id.0, y);
                }
                assert(ids.take(k + 1).to_set() =~= before.to_set().insert(id.0));
                assert(old_sessions.remove_keys(ids.take(k + 1).to_set()) =~= old_sessions.remove_keys(
                    before.to_set(),
                ).remove(id.0));
                assert(before_sessions.remove(id.0).dom() =~= before_sessions.dom().remove(id.0));
            }
            k = k + 1;
        }
        proof {
            assert(ids.take(ids.len() as int) =~= ids);
        }
        if expired.len() > 0 {
            let left = self.sessions.len();
            let idle = self.count_status(SessionStatus::Idle);
            self.stats.active_sessions = left as u32;
            self.stats.idle_sessions = idle as u32;
        }
        expired
    }

    /// One round of cleanup now.
    pub fn cleanup_expired_sessions(&mut self) -> (r: Vec<SessionId>)
        requires
            old(self).wf(),
        ensures
            final(self).wf(),
            final(self).settings() == old(self).settings(),
            forall|k: u128| #[trigger] final(self).sessions().contains_key(k) ==> old(self).sessions().contains_key(k),
            exists|now: u64| #[trigger] Self::cleaned_up(*old(self), *final(self), r@, now),
    {
        let now = now_millis();
        let r = self.cleanup_expired_sessions_at(now);
        proof {
            assert(Self::cleaned_up(*old(self), *self, r@, now));
        }
        r
    }

    /// Whether a manager is another one after one round of cleanup at a time that handed back
    /// a list of identifiers (see `cleanup_expired_sessions_at`).
    pub open spec fn cleaned_up(before: Self, after: Self, r: Seq<SessionId>, now: u64) -> bool {
        let expired = before.ordered().filter(
            |m: SessionMetadata| session_expires(before.settings(), m, now),
        );
        let ids = expired.map_values(|m: SessionMetadata| m.id.0);
        &&& after.settings() == before.settings()
        &&& after.created() == before.created()
        &&& after.cleanup_running() == before.cleanup_running()
        &&& r.len() == expired.len()
        &&& forall|i: int| 0 <= i < r.len() ==> #[trigger] r[i].0 == ids[i]
        &&& after.sessions() == before.sessions().remove_keys(ids.to_set())
        &&& after.groups() == strip_all(before.groups(), ids)
        &&& after.stats() == if expired.len() == 0 {
            before.stats()
        } else {
            SessionStats {
                active_sessions: after.sessions().len() as u32,
                idle_sessions: after.ordered().filter(
                    |m: SessionMetadata| m.status == SessionStatus::Idle,
                ).len() as u32,
                ..before.stats()
            }
        }
    }
}

/// A round of cleanup at a time removes every idle session that has gone unused for longer than
/// the idle limit, and hands back its identifier.
pub proof fn lemma_cleanup_removes_stale_idle(
    before: SessionManager,
    after: SessionManager,
    r: Seq<SessionId>,
    now: u64,
    i: int,
)
    requires
        SessionManager::cleaned_up(before, after, r, now),
        0 <= i < before.ordered().len(),
        before.ordered()[i].status == SessionStatus::Idle,
        now >= before.ordered()[i].last_used,
        now - before.ordered()[i].last_used > before.settings().max_idle_time,
    ensures
        !after.sessions().contains_key(before.ordered()[i].id.0),
        exists|j: int| 0 <= j < r.len() && #[trigger] r[j] == before.ordered()[i].id,
{
    let pred = |m: SessionMetadata| session_expires(before.settings(), m, now);
    let m = before.ordered()[i];
    let expired = before.ordered().filter(pred);
    let ids = expired.map_values(|m: SessionMetadata| m.id.0);
    assert(pred(m));
    before.ordered().lemma_filter_contains(pred, i);
    assert(expired.contains(m));
    let j = choose|j: int| 0 <= j < expired.len() && expired[j] == m;
    assert(ids[j] == m.id.0);
    assert(ids.to_set().contains(m.id.0));
    assert(r[j].0 == ids[j]);
    assert(r[j] == m.id);
}

} // verus!
