//! The session manager: it keeps the registry, the pool and the lifecycle in step, and records
//! what happened to sessions as events for the metrics collector.
use vstd::prelude::*;

use super::lifecycle::{expires, SessionLifecycle};
use super::pool::{
    add_accepted, expired_at, lists_after_remove, pool_added, PoolStats, PooledSessionInfo,
    SessionPool,
};
use super::registry::{derefs, is_not_found, SessionRegistry};
use super::{SessionId, SessionManagerConfig, SessionMetadata, SessionStatus};
use crate::clock::now_millis;
use crate::error::YuhaError;
use crate::transport::{connection_key_of, TransportConfig, TransportType};

verus! {

/// Something that happened to a session, for the metrics collector.
#[derive(Debug, Clone, Copy, PartialEq, Eq, Structural)]
pub enum SessionEvent {
    /// A session was created.
    Created { session_id: SessionId, created_at: u64, transport_type: TransportType },
    /// A session changed state.
    StatusChanged { session_id: SessionId, from: SessionStatus, to: SessionStatus },
    /// A connecting or reconnecting session became active.
    ConnectionSucceeded { session_id: SessionId },
    /// A connecting or reconnecting session failed.
    ConnectionFailed { session_id: SessionId },
    /// A session was used; its use count after the use.
    Used { session_id: SessionId, use_count: u64 },
    /// A session was closed or expired, in the state it had then.
    Closed { session_id: SessionId, status: SessionStatus, last_used: u64 },
}

/// The events of a change of state: the change, then a connection's success or failure when a
/// connecting or reconnecting session became active or failed.
pub open spec fn status_events(id: SessionId, from: SessionStatus, to: SessionStatus) -> Seq<
    SessionEvent,
> {
    let change = seq![SessionEvent::StatusChanged { session_id: id, from, to }];
    let connecting = from == SessionStatus::Connecting || from == SessionStatus::Reconnecting;
    if to == SessionStatus::Active && connecting {
        change.push(SessionEvent::ConnectionSucceeded { session_id: id })
    } else if to == SessionStatus::Failed && connecting {
        change.push(SessionEvent::ConnectionFailed { session_id: id })
    } else {
        change
    }
}

/// The metadata of a session after it took a state at a time.
pub open spec fn with_status(m: SessionMetadata, status: SessionStatus, now: u64) -> SessionMetadata {
    SessionMetadata {
        status,
        last_used: if status == SessionStatus::Active || status == SessionStatus::Idle {
            now
        } else {
            m.last_used
        },
        ..m
    }
}

/// The session that `find_reusable_session_at` picks in a manager for a key at a time.
pub open spec fn reusable_for(m: SessionManager, key: Seq<char>, now: u64) -> Option<SessionId> {
    if m.settings().pool.enabled && m.settings().pool.prefer_reuse {
        match super::pool::best_pooled(
            super::index::list_of(m.pool_lists(), key),
            m.pooled(),
            now,
            m.settings().pool.min_idle_time,
        ).0 {
            Some(id) => Some(SessionId(id)),
            None => None,
        }
    } else {
        None
    }
}

/// The session manager.
#[derive(Debug)]
pub struct SessionManager {
    registry: SessionRegistry,
    pool: SessionPool,
    lifecycle: SessionLifecycle,
    config: SessionManagerConfig,
    events: Vec<SessionEvent>,
}

impl SessionManager {
    /// Whether the manager is well formed: its parts are, they have its settings, every pooled
    /// session is registered, and no events are kept when metrics are off.
    pub closed spec fn wf(&self) -> bool {
        &&& self.registry.wf()
        &&& self.pool.wf()
        &&& self.registry.settings() == self.config.registry
        &&& self.pool.settings() == self.config.pool
        &&& self.lifecycle.settings() == self.config.lifecycle
        &&& forall|id: u128| #[trigger] self.pool@.contains_key(id) ==> self.registry@.contains_key(id)
        &&& !self.config.enable_metrics ==> self.events@.len() == 0
    }

    /// The settings.
    pub closed spec fn settings(&self) -> SessionManagerConfig {
        self.config
    }

    /// The registered sessions by identifier.
    pub closed spec fn sessions(&self) -> Map<u128, SessionMetadata> {
        self.registry@
    }

    /// The registered sessions in the registry's order.
    pub closed spec fn ordered(&self) -> Seq<SessionMetadata> {
        self.registry.ordered()
    }

    /// The registered identifiers listed under each name.
    pub closed spec fn names(&self) -> Map<Seq<char>, Seq<u128>> {
        self.registry.names()
    }

    /// The pooled sessions by identifier.
    pub closed spec fn pooled(&self) -> Map<u128, PooledSessionInfo> {
        self.pool@
    }

    /// The pooled identifiers under each connection key.
    pub closed spec fn pool_lists(&self) -> Map<Seq<char>, Seq<u128>> {
        self.pool.pool_lists()
    }

    /// Whether the cleanup task is to keep running.
    pub closed spec fn cleanup_running(&self) -> bool {
        self.lifecycle.running()
    }

    /// The events not yet handed out.
    pub closed spec fn pending_events(&self) -> Seq<SessionEvent> {
        self.events@
    }

    /// The events after some were recorded, when metrics are on.
    pub open spec fn recorded(&self, before: Seq<SessionEvent>, new: Seq<SessionEvent>) -> Seq<
        SessionEvent,
    > {
        if self.settings().enable_metrics {
            before + new
        } else {
            before
        }
    }

    /// Every pooled session is a registered session.
    pub proof fn lemma_pooled_are_registered(&self, id: u128)
        requires
            self.wf(),
            self.pooled().contains_key(id),
        ensures
            self.sessions().contains_key(id),
    {
    }

    fn record(&mut self, event: SessionEvent)
        requires
            old(self).wf(),
        ensures
            final(self).wf(),
            final(self).pending_events() == old(self).recorded(old(self).pending_events(), seq![event]),
            final(self).sessions() == old(self).sessions(),
            final(self).ordered() == old(self).ordered(),
            final(self).pooled() == old(self).pooled(),
            final(self).pool_lists() == old(self).pool_lists(),
            final(self).settings() == old(self).settings(),
            final(self).cleanup_running() == old(self).cleanup_running(),
            final(self).registry == old(self).registry,
            final(self).pool == old(self).pool,
            final(self).lifecycle == old(self).lifecycle,
    {
        if self.config.enable_metrics {
            self.events.push(event);
        }
    }

    /// A manager with the settings and no sessions.
    pub fn new(config: SessionManagerConfig) -> (r: Self)
        ensures
            r.wf(),
            r.settings() == config,
            r.sessions() == Map::<u128, SessionMetadata>::empty(),
            r.pooled() == Map::<u128, PooledSessionInfo>::empty(),
            r.pending_events() == Seq::<SessionEvent>::empty(),
            !r.cleanup_running(),
    {
        let registry = SessionRegistry::new(config.registry);
        let pool = SessionPool::new(config.pool);
        let lifecycle = SessionLifecycle::new(config.lifecycle);
        SessionManager { registry, pool, lifecycle, config, events: Vec::new() }
    }

    /// Hands out the recorded events, oldest first, and forgets them.
    pub fn take_events(&mut self) -> (r: Vec<SessionEvent>)
        requires
            old(self).wf(),
        ensures
            final(self).wf(),
            r@ == old(self).pending_events(),
            final(self).pending_events() == Seq::<SessionEvent>::empty(),
            final(self).sessions() == old(self).sessions(),
            final(self).pooled() == old(self).pooled(),
            final(self).settings() == old(self).settings(),
    {
        let mut taken: Vec<SessionEvent> = Vec::new();
        std::mem::swap(&mut taken, &mut self.events);
        taken
    }

    /// Whether a manager `m1` is `m0` after a registered session took a state at a time (see
    /// `update_session_status_at`).
    pub open spec fn status_updated(m0: Self, m1: Self, session_id: SessionId, status: SessionStatus, now: u64) -> bool {
                let before = m0.sessions()[session_id.0];
                let after = with_status(before, status, now);
                &&& m1.sessions() == m0.sessions().insert(session_id.0, after)
                &&& status == SessionStatus::Idle ==> pool_added(
                    m0.pooled(),
                    m0.pool_lists(),
                    m1.pooled(),
                    m1.pool_lists(),
                    after,
                    now,
                    add_accepted(m0.settings().pool, m0.pooled(), m0.pool_lists(), after),
                )
                &&& (status == SessionStatus::Active || status == SessionStatus::Failed || status
                    == SessionStatus::Closed) ==> m1.pooled() == m0.pooled().remove(
                    session_id.0,
                ) && m1.pool_lists() == lists_after_remove(
                    m0.pool_lists(),
                    m0.pooled(),
                    session_id.0,
                )
                &&& !(status == SessionStatus::Idle || status == SessionStatus::Active || status
                    == SessionStatus::Failed || status == SessionStatus::Closed) ==> m1.pooled()
                    == m0.pooled() && m1.pool_lists() == m0.pool_lists()
                &&& m1.pending_events() == m0.recorded(
                    m0.pending_events(),
                    status_events(session_id, before.status, status),
                )
            }

    /// Whether a manager `m1` is `m0` after a use of a registered session at a time (see
    /// `use_session_at`).
    pub open spec fn session_used(m0: Self, m1: Self, session_id: SessionId, now: u64) -> bool {
                let before = m0.sessions()[session_id.0];
                let used = SessionMetadata {
                    last_used: now,
                    use_count: (before.use_count + 1) as u64,
                    ..before
                };
                &&& m1.sessions() == m0.sessions().insert(
                    session_id.0,
                    if before.status == SessionStatus::Idle {
                        with_status(used, SessionStatus::Active, now)
                    } else {
                        used
                    },
                )
                &&& before.status == SessionStatus::Idle ==> m1.pooled() == m0.pooled().remove(
                    session_id.0,
                ) && m1.pending_events() == m0.recorded(
                    m0.pending_events(),
                    seq![SessionEvent::Used { session_id, use_count: used.use_count }] + status_events(
                        session_id,
                        SessionStatus::Idle,
                        SessionStatus::Active,
                    ),
                )
                &&& before.status != SessionStatus::Idle ==> m1.pooled() == m0.pooled()
                    && m1.pending_events() == m0.recorded(
                    m0.pending_events(),
                    seq![SessionEvent::Used { session_id, use_count: used.use_count }],
                )
            }

    /// Whether a manager `m1` is `m0` after it created a session with an identifier at a time
    /// and handed back that result (see `create_session_at`).
    pub open spec fn session_created(
        m0: Self,
        m1: Self,
        name: Seq<char>,
        transport_config: TransportConfig,
        tags: Vec<String>,
        description: Option<String>,
        id: SessionId,
        now: u64,
        r: Result<SessionId, YuhaError>,
    ) -> bool {
                &&& r == Ok::<SessionId, YuhaError>(id)
                &&& m1.sessions().contains_key(id.0)
                &&& m1.sessions() == m0.sessions().insert(id.0, m1.sessions()[id.0])
                &&& m1.sessions()[id.0].name@ == name
                &&& m1.sessions()[id.0].transport_config == transport_config
                &&& m1.sessions()[id.0].status == SessionStatus::Connecting
                &&& m1.sessions()[id.0].created_at == now
                &&& m1.sessions()[id.0].use_count == 0
                &&& m1.sessions()[id.0].tags == tags
                &&& m1.sessions()[id.0].description == description
                &&& m1.pending_events() == m0.recorded(
                    m0.pending_events(),
                    seq![
                        SessionEvent::Created {
                            session_id: id,
                            created_at: now,
                            transport_type: transport_config.transport_type,
                        },
                    ],
                )
            }

    /// Creates and registers a session with an identifier at a time (see
    /// `SessionRegistry::register`).
    pub fn create_session_at(
        &mut self,
        name: &str,
        transport_config: TransportConfig,
        tags: Vec<String>,
        description: Option<String>,
        id: SessionId,
        now: u64,
    ) -> (r: Result<SessionId, YuhaError>)
        requires
            old(self).wf(),
        ensures
            final(self).wf(),
            final(self).settings() == old(self).settings(),
            final(self).pooled() == old(self).pooled(),
            r is Ok <==> old(self).sessions().len() < old(self).settings().registry.max_sessions && (
            old(self).settings().registry.allow_duplicate_names || super::index::list_of(
                old(self).names(),
                name@,
            ).len() == 0),
            r is Err ==> final(self).sessions() == old(self).sessions() && final(self).pending_events()
                == old(self).pending_events(),
            r is Ok ==> {
                &&& r == Ok::<SessionId, YuhaError>(id)
                &&& final(self).sessions().contains_key(id.0)
                &&& final(self).sessions() == old(self).sessions().insert(id.0, final(self).sessions()[id.0])
                &&& final(self).sessions()[id.0].name@ == name@
                &&& final(self).sessions()[id.0].transport_config == transport_config
                &&& final(self).sessions()[id.0].status == SessionStatus::Connecting
                &&& final(self).sessions()[id.0].created_at == now
                &&& final(self).sessions()[id.0].use_count == 0
                &&& final(self).sessions()[id.0].tags == tags
                &&& final(self).sessions()[id.0].description == description
                &&& final(self).pending_events() == old(self).recorded(
                    old(self).pending_events(),
                    seq![
                        SessionEvent::Created {
                            session_id: id,
                            created_at: now,
                            transport_type: transport_config.transport_type,
                        },
                    ],
                )
            },
    {
        let transport_type = transport_config.transport_type;
        let metadata = SessionMetadata::new_at(id, name, transport_config, tags, description, now);
        let session_id = self.registry.register(metadata)?;
        self.record(SessionEvent::Created { session_id, created_at: now, transport_type });
        Ok(session_id)
    }

    /// Creates and registers a session now, with a new random identifier.
    pub fn create_session(
        &mut self,
        name: &str,
        transport_config: TransportConfig,
        tags: Vec<String>,
        description: Option<String>,
    ) -> (r: Result<SessionId, YuhaError>)
        requires
            old(self).wf(),
        ensures
            final(self).wf(),
            final(self).settings() == old(self).settings(),
            final(self).pooled() == old(self).pooled(),
            r is Ok <==> old(self).sessions().len() < old(self).settings().registry.max_sessions && (
            old(self).settings().registry.allow_duplicate_names || super::index::list_of(
                old(self).names(),
                name@,
            ).len() == 0),
            r is Err ==> final(self).sessions() == old(self).sessions(),
            r matches Ok(id) ==> {
                &&& final(self).sessions().contains_key(id.0)
                &&& final(self).sessions() == old(self).sessions().insert(id.0, final(self).sessions()[id.0])
                &&& final(self).sessions()[id.0].name@ == name@
                &&& final(self).sessions()[id.0].transport_config == transport_config
                &&& final(self).sessions()[id.0].status == SessionStatus::Connecting
                &&& final(self).sessions()[id.0].use_count == 0
            },
            r matches Ok(id) ==> exists|now: u64| #[trigger] Self::session_created(
                *old(self),
                *final(self),
                name@,
                transport_config,
                tags,
                description,
                id,
                now,
                r,
            ),
    {
        let id = SessionId::new();
        let now = now_millis();
        let ghost (gt, gd) = (tags, description);
        let r = self.create_session_at(name, transport_config, tags, description, id, now);
        proof {
            if r is Ok {
                assert(Self::session_created(*old(self), *self, name@, transport_config, gt, gd, id, now, r));
            }
        }
        r
    }

    /// The metadata of a session, if it is registered.
    pub fn get_session(&self, session_id: SessionId) -> (r: Option<&SessionMetadata>)
        requires
            self.wf(),
        ensures
            match r {
                Some(m) => self.sessions().contains_key(session_id.0) && *m == self.sessions()[session_id.0],
                None => !self.sessions().contains_key(session_id.0),
            },
    {
        self.registry.get(session_id)
    }

    /// Sets the state of a registered session at a time; an idle session is offered to the
    /// pool, and an active, failed or closed one leaves it. Records the change and, for a
    /// connecting or reconnecting session that became active or failed, the connection's
    /// success or failure.
    pub fn update_session_status_at(&mut self, session_id: SessionId, status: SessionStatus, now: u64) -> (r:
        Result<(), YuhaError>)
        requires
            old(self).wf(),
        ensures
            final(self).wf(),
            final(self).settings() == old(self).settings(),
            r is Ok <==> old(self).sessions().contains_key(session_id.0),
            r matches Err(e) ==> is_not_found(e, session_id) && final(self).sessions() == old(self).sessions() && final(self).pooled() == old(self).pooled() && final(self).pending_events()
                == old(self).pending_events(),
            r is Ok ==> {
                let before = old(self).sessions()[session_id.0];
                let after = with_status(before, status, now);
                &&& final(self).sessions() == old(self).sessions().insert(session_id.0, after)
                &&& status == SessionStatus::Idle ==> pool_added(
                    old(self).pooled(),
                    old(self).pool_lists(),
                    final(self).pooled(),
                    final(self).pool_lists(),
                    after,
                    now,
                    add_accepted(old(self).settings().pool, old(self).pooled(), old(self).pool_lists(), after),
                )
                &&& (status == SessionStatus::Active || status == SessionStatus::Failed || status
                    == SessionStatus::Closed) ==> final(self).pooled() == old(self).pooled().remove(
                    session_id.0,
                ) && final(self).pool_lists() == lists_after_remove(
                    old(self).pool_lists(),
                    old(self).pooled(),
                    session_id.0,
                )
                &&& !(status == SessionStatus::Idle || status == SessionStatus::Active || status
                    == SessionStatus::Failed || status == SessionStatus::Closed) ==> final(self).pooled()
                    == old(self).pooled() && final(self).pool_lists() == old(self).pool_lists()
                &&& final(self).pending_events() == old(self).recorded(
                    old(self).pending_events(),
                    status_events(session_id, before.status, status),
                )
            },
    {
        let old_status = match self.registry.get(session_id) {
            Some(m) => m.status,
            None => {
                return Err(super::registry::not_found(session_id));
            },
        };
        let ghost old_pooled = self.pool@;
        let _ = self.registry.update_status_at(session_id, status, now);
        match status {
            SessionStatus::Idle => {
                match self.registry.get(session_id) {
                    Some(metadata) => {
                        let _ = self.pool.add_session_at(metadata, now);
                    },
                    None => {},
                }
            },
            SessionStatus::Active | SessionStatus::Failed | SessionStatus::Closed => {
                let _ = self.pool.remove_session(session_id);
            },
            _ => {},
        }
        proof {
            self.registry.lemma_ids(session_id.0);
            assert forall|id: u128| #[trigger] self.pool@.contains_key(id) implies self.registry@.contains_key(
                id,
            ) by {
                if id != session_id.0 {
                    assert(old_pooled.contains_key(id));
                }
            }
        }
        self.record(SessionEvent::StatusChanged { session_id, from: old_status, to: status });
        let connecting = old_status == SessionStatus::Connecting || old_status == SessionStatus::Reconnecting;
        if status == SessionStatus::Active && connecting {
            self.record(SessionEvent::ConnectionSucceeded { session_id });
        } else if status == SessionStatus::Failed && connecting {
            self.record(SessionEvent::ConnectionFailed { session_id });
        }
        proof {
            if self.config.enable_metrics {
                let change = seq![SessionEvent::StatusChanged { session_id, from: old_status, to: status }];
                assert(change + seq![SessionEvent::ConnectionSucceeded { session_id }] =~= change.push(
                    SessionEvent::ConnectionSucceeded { session_id },
                ));
                assert(change + seq![SessionEvent::ConnectionFailed { session_id }] =~= change.push(
                    SessionEvent::ConnectionFailed { session_id },
                ));
                assert(old(self).pending_events() + change + seq![
                    SessionEvent::ConnectionSucceeded { session_id },
                ] =~= old(self).pending_events() + (change + seq![
                    SessionEvent::ConnectionSucceeded { session_id },
                ]));
                assert(old(self).pending_events() + change + seq![
                    SessionEvent::ConnectionFailed { session_id },
                ] =~= old(self).pending_events() + (change + seq![
                    SessionEvent::ConnectionFailed { session_id },
                ]));
            }
        }
        Ok(())
    }

    /// Sets the state of a registered session now (see `update_session_status_at`).
    pub fn update_session_status(&mut self, session_id: SessionId, status: SessionStatus) -> (r: Result<
        (),
        YuhaError,
    >)
        requires
            old(self).wf(),
        ensures
            final(self).wf(),
            final(self).settings() == old(self).settings(),
            r is Ok <==> old(self).sessions().contains_key(session_id.0),
            r matches Err(e) ==> is_not_found(e, session_id) && final(self).sessions() == old(self).sessions() && final(self).pooled() == old(self).pooled(),
            r is Ok ==> final(self).sessions().contains_key(session_id.0) && final(self).sessions()[session_id.0].status
                == status,
            r is Ok && (status == SessionStatus::Active || status == SessionStatus::Failed || status
                == SessionStatus::Closed) ==> !final(self).pooled().contains_key(session_id.0),
            r is Ok ==> exists|now: u64| #[trigger] Self::status_updated(*old(self), *final(self), session_id, status, now),
    {
        let now = now_millis();
        let r = self.update_session_status_at(session_id, status, now);
        proof {
            if r is Ok {
                assert(Self::status_updated(*old(self), *self, session_id, status, now));
            }
        }
        r
    }

    /// Records a use of a registered session at a time; an idle session becomes active.
    pub fn use_session_at(&mut self, session_id: SessionId, now: u64) -> (r: Result<(), YuhaError>)
        requires
            old(self).wf(),
            old(self).sessions().contains_key(session_id.0) ==> old(self).sessions()[session_id.0].use_count
                < u64::MAX,
        ensures
            final(self).wf(),
            final(self).settings() == old(self).settings(),
            r is Ok <==> old(self).sessions().contains_key(session_id.0),
            r matches Err(e) ==> is_not_found(e, session_id) && final(self).sessions() == old(self).sessions() && final(self).pooled() == old(self).pooled(),
            r is Ok ==> {
                let before = old(self).sessions()[session_id.0];
                let used = SessionMetadata {
                    last_used: now,
                    use_count: (before.use_count + 1) as u64,
                    ..before
                };
                &&& final(self).sessions() == old(self).sessions().insert(
                    session_id.0,
                    if before.status == SessionStatus::Idle {
                        with_status(used, SessionStatus::Active, now)
                    } else {
                        used
                    },
                )
                &&& before.status == SessionStatus::Idle ==> final(self).pooled() == old(self).pooled().remove(
                    session_id.0,
                ) && final(self).pending_events() == old(self).recorded(
                    old(self).pending_events(),
                    seq![SessionEvent::Used { session_id, use_count: used.use_count }] + status_events(
                        session_id,
                        SessionStatus::Idle,
                        SessionStatus::Active,
                    ),
                )
                &&& before.status != SessionStatus::Idle ==> final(self).pooled() == old(self).pooled()
                    && final(self).pending_events() == old(self).recorded(
                    old(self).pending_events(),
                    seq![SessionEvent::Used { session_id, use_count: used.use_count }],
                )
            },
    {
        self.registry.mark_used_at(session_id, now)?;
        let (use_count, status) = match self.registry.get(session_id) {
            Some(m) => (m.use_count, m.status),
            None => {
                return Ok(());
            },
        };
        self.record(SessionEvent::Used { session_id, use_count });
        let ghost mid_events = self.events@;
        if status == SessionStatus::Idle {
            let _ = self.update_session_status_at(session_id, SessionStatus::Active, now);
            proof {
                if self.config.enable_metrics {
                    assert(old(self).pending_events() + seq![SessionEvent::Used { session_id, use_count }]
                        + status_events(session_id, SessionStatus::Idle, SessionStatus::Active)
                        =~= old(self).pending_events() + (seq![SessionEvent::Used { session_id, use_count }]
                        + status_events(session_id, SessionStatus::Idle, SessionStatus::Active)));
                }
            }
        }
        Ok(())
    }

    /// Records a use of a registered session now.
    pub fn use_session(&mut self, session_id: SessionId) -> (r: Result<(), YuhaError>)
        requires
            old(self).wf(),
            old(self).sessions().contains_key(session_id.0) ==> old(self).sessions()[session_id.0].use_count
                < u64::MAX,
        ensures
            final(self).wf(),
            final(self).settings() == old(self).settings(),
            r is Ok <==> old(self).sessions().contains_key(session_id.0),
            r is Ok ==> final(self).sessions().contains_key(session_id.0) && final(self).sessions()[session_id.0].use_count
                == old(self).sessions()[session_id.0].use_count + 1,
            r is Ok ==> exists|now: u64| #[trigger] Self::session_used(*old(self), *final(self), session_id, now),
    {
        let now = now_millis();
        let r = self.use_session_at(session_id, now);
        proof {
            if r is Ok {
                assert(Self::session_used(*old(self), *self, session_id, now));
            }
        }
        r
    }

    /// Closes a registered session at a time: it becomes closing, leaves the pool and the
    /// registry, and its closing is recorded.
    pub fn close_session_at(&mut self, session_id: SessionId, now: u64) -> (r: Result<(), YuhaError>)
        requires
            old(self).wf(),
        ensures
            final(self).wf(),
            final(self).settings() == old(self).settings(),
            r is Ok <==> old(self).sessions().contains_key(session_id.0),
            r matches Err(e) ==> is_not_found(e, session_id) && final(self).sessions() == old(self).sessions() && final(self).pooled() == old(self).pooled(),
            r is Ok ==> {
                let before = old(self).sessions()[session_id.0];
                &&& final(self).sessions() == old(self).sessions().remove(session_id.0)
                &&& final(self).pooled() == old(self).pooled().remove(session_id.0)
                &&& final(self).pending_events() == old(self).recorded(
                    old(self).pending_events(),
                    status_events(session_id, before.status, SessionStatus::Closing) + seq![
                        SessionEvent::Closed {
                            session_id,
                            status: SessionStatus::Closing,
                            last_used: before.last_used,
                        },
                    ],
                )
            },
    {
        self.update_session_status_at(session_id, SessionStatus::Closing, now)?;
        let _ = self.pool.remove_session(session_id);
        let removed = self.registry.unregister(session_id);
        match removed {
            Ok(Some(metadata)) => {
                self.record(
                    SessionEvent::Closed {
                        session_id,
                        status: metadata.status,
                        last_used: metadata.last_used,
                    },
                );
            },
            _ => {},
        }
        proof {
            if self.config.enable_metrics {
                let before = old(self).sessions()[session_id.0];
                let a = status_events(session_id, before.status, SessionStatus::Closing);
                let b = seq![
                    SessionEvent::Closed {
                        session_id,
                        status: SessionStatus::Closing,
                        last_used: before.last_used,
                    },
                ];
                assert(old(self).pending_events() + a + b =~= old(self).pending_events() + (a + b));
            }
        }
        Ok(())
    }

    /// Closes a registered session now.
    pub fn close_session(&mut self, session_id: SessionId) -> (r: Result<(), YuhaError>)
        requires
            old(self).wf(),
        ensures
            final(self).wf(),
            final(self).settings() == old(self).settings(),
            r is Ok <==> old(self).sessions().contains_key(session_id.0),
            r is Ok ==> final(self).sessions() == old(self).sessions().remove(session_id.0)
                && final(self).pooled() == old(self).pooled().remove(session_id.0),
    {
        self.close_session_at(session_id, now_millis())
    }

    /// A pooled session to reuse for a connection key at a time (see
    /// `SessionPool::find_session_at`).
    pub fn find_reusable_session_at(&self, connection_key: &str, now: u64) -> (r: Option<SessionId>)
        requires
            self.wf(),
        ensures
            !(self.settings().pool.enabled && self.settings().pool.prefer_reuse) ==> r is None,
            self.settings().pool.enabled && self.settings().pool.prefer_reuse ==> r == match super::pool::best_pooled(
                super::index::list_of(self.pool_lists(), connection_key@),
                self.pooled(),
                now,
                self.settings().pool.min_idle_time,
            ).0 {
                Some(id) => Some(SessionId(id)),
                None => None::<SessionId>,
            },
            r matches Some(id) ==> self.pooled().contains_key(id.0) && self.sessions().contains_key(id.0),
    {
        let r = self.pool.find_session_at(connection_key, now);
        proof {
            if let Some(id) = r {
                super::pool::lemma_best_pooled(
                    super::index::list_of(self.pool_lists(), connection_key@),
                    self.pooled(),
                    now,
                    self.settings().pool.min_idle_time,
                );
            }
        }
        r
    }

    /// A pooled session to reuse for a connection key now.
    pub fn find_reusable_session(&self, connection_key: &str) -> (r: Option<SessionId>)
        requires
            self.wf(),
        ensures
            !(self.settings().pool.enabled && self.settings().pool.prefer_reuse) ==> r is None,
            r matches Some(id) ==> self.pooled().contains_key(id.0) && self.sessions().contains_key(id.0),
            exists|now: u64| r == #[trigger] reusable_for(*self, connection_key@, now),
    {
        let now = now_millis();
        let r = self.find_reusable_session_at(connection_key, now);
        proof {
            assert(r == reusable_for(*self, connection_key@, now));
        }
        r
    }

    /// Reuses a pooled session for the transport's connection key at a time, or else creates a
    /// session with an identifier; says whether a session was reused.
    pub fn connect_or_create_session_at(
        &mut self,
        name: &str,
        transport_config: TransportConfig,
        id: SessionId,
        now: u64,
    ) -> (r: Result<(SessionId, bool), YuhaError>)
        requires
            old(self).wf(),
            forall|k: u128| #[trigger] old(self).sessions().contains_key(k) ==> old(self).sessions()[k].use_count
                < u64::MAX,
        ensures
            final(self).wf(),
            final(self).settings() == old(self).settings(),
            r matches Ok((sid, _)) ==> final(self).sessions().contains_key(sid.0),
            ({
                let found = reusable_for(*old(self), connection_key_of(transport_config), now);
                match found {
                    Some(reused) => r matches Ok((rid, true)) && rid == reused && final(self).sessions()[reused.0].use_count
                        == old(self).sessions()[reused.0].use_count + 1,
                    None => (r is Ok <==> old(self).sessions().len() < old(self).settings().registry.max_sessions
                        && (old(self).settings().registry.allow_duplicate_names || super::index::list_of(
                        old(self).names(),
                        name@,
                    ).len() == 0)) && (r is Ok ==> r == Ok::<(SessionId, bool), YuhaError>((id, false))
                        && final(self).sessions().contains_key(id.0)),
                }
            }),
    {
        let connection_key = transport_config.connection_key();
        match self.find_reusable_session_at(connection_key.as_str(), now) {
            Some(session_id) => {
                self.use_session_at(session_id, now)?;
                Ok((session_id, true))
            },
            None => {
                let session_id = self.create_session_at(name, transport_config, Vec::new(), None, id, now)?;
                Ok((session_id, false))
            },
        }
    }

    /// Reuses a pooled session for the transport's connection key now, or else creates a
    /// session; says whether a session was reused.
    pub fn connect_or_create_session(&mut self, name: &str, transport_config: TransportConfig) -> (r: Result<
        (SessionId, bool),
        YuhaError,
    >)
        requires
            old(self).wf(),
            forall|k: u128| #[trigger] old(self).sessions().contains_key(k) ==> old(self).sessions()[k].use_count
                < u64::MAX,
        ensures
            final(self).wf(),
            final(self).settings() == old(self).settings(),
            r matches Ok((sid, _)) ==> final(self).sessions().contains_key(sid.0),
            exists|id: SessionId, now: u64| #[trigger] Self::connected(
                *old(self),
                *final(self),
                name@,
                transport_config,
                id,
                now,
                r,
            ),
    {
        let id = SessionId::new();
        let now = now_millis();
        let r = self.connect_or_create_session_at(name, transport_config, id, now);
        proof {
            assert(Self::connected(*old(self), *self, name@, transport_config, id, now, r));
        }
        r
    }

    /// Whether a manager is another one after it reused a pooled session for a transport's
    /// connection key at a time, or else created a session named so with an identifier, with
    /// that result: a reusable session is used and handed back as reused; otherwise a session
    /// is created exactly when the registry has room for it.
    pub open spec fn connected(
        before: Self,
        after: Self,
        name: Seq<char>,
        transport_config: TransportConfig,
        id: SessionId,
        now: u64,
        r: Result<(SessionId, bool), YuhaError>,
    ) -> bool {
        let found = reusable_for(before, connection_key_of(transport_config), now);
        match found {
            Some(reused) => r matches Ok((rid, true)) && rid == reused && after.sessions()[reused.0].use_count
                == before.sessions()[reused.0].use_count + 1,
            None => (r is Ok <==> before.sessions().len() < before.settings().registry.max_sessions && (
            before.settings().registry.allow_duplicate_names || super::index::list_of(
                before.names(),
                name,
            ).len() == 0)) && (r is Ok ==> r == Ok::<(SessionId, bool), YuhaError>((id, false))
                && after.sessions().contains_key(id.0)),
        }
    }

    /// The registered sessions in the registry's order.
    pub fn list_sessions(&self) -> (r: Vec<&SessionMetadata>)
        requires
            self.wf(),
        ensures
            derefs(r@) == self.ordered(),
    {
        self.registry.list_all()
    }

    /// The registered sessions in a state, in the registry's order.
    pub fn list_sessions_by_status(&self, status: SessionStatus) -> (r: Vec<&SessionMetadata>)
        requires
            self.wf(),
        ensures
            derefs(r@) == self.ordered().filter(|m: SessionMetadata| m.status == status),
    {
        self.registry.list_by_status(status)
    }

    /// The registered sessions carrying every one of the tags, in the registry's order.
    pub fn list_sessions_by_tags(&self, tags: &[String]) -> (r: Vec<&SessionMetadata>)
        requires
            self.wf(),
        ensures
            derefs(r@) == self.ordered().filter(
                |m: SessionMetadata|
                    forall|i: int| 0 <= i < tags@.len() ==> super::tag_in(m.tags@, #[trigger] tags@[i]@),
            ),
    {
        self.registry.list_by_tags(tags)
    }

    /// Marks the cleanup task as running; true when it was not, so a task is to be started.
    pub fn start_cleanup_task(&mut self) -> (r: bool)
        requires
            old(self).wf(),
        ensures
            final(self).wf(),
            r == !old(self).cleanup_running(),
            final(self).cleanup_running(),
            final(self).sessions() == old(self).sessions(),
            final(self).pooled() == old(self).pooled(),
            final(self).settings() == old(self).settings(),
    {
        self.lifecycle.start_cleanup_task()
    }

    /// Marks the cleanup task as stopped.
    pub fn stop_cleanup_task(&mut self)
        requires
            old(self).wf(),
        ensures
            final(self).wf(),
            !final(self).cleanup_running(),
            final(self).sessions() == old(self).sessions(),
            final(self).pooled() == old(self).pooled(),
            final(self).settings() == old(self).settings(),
    {
        self.lifecycle.stop_cleanup_task();
    }

    /// Whether the cleanup task is to keep running.
    pub fn is_cleanup_running(&self) -> (r: bool)
        ensures
            r == self.cleanup_running(),
    {
        self.lifecycle.is_cleanup_running()
    }

    /// One round of cleanup at a time: every registered session that has expired leaves the
    /// registry and the pool and its closing is recorded; then sessions pooled for longer than
    /// the idle limit leave the pool. Hands back the identifiers of both, expired sessions
    /// first.
    pub fn cleanup_expired_sessions_at(&mut self, now: u64) -> (r: Vec<SessionId>)
        requires
            old(self).wf(),
        ensures
            final(self).wf(),
            final(self).settings() == old(self).settings(),
            ({
                let expired = old(self).ordered().filter(
                    |m: SessionMetadata| expires(old(self).settings().lifecycle, m, now),
                );
                &&& r@.len() >= expired.len()
                &&& forall|i: int| 0 <= i < expired.len() ==> #[trigger] r@[i].0 == expired[i].id.0
                &&& final(self).sessions() == old(self).sessions().remove_keys(
                    expired.map_values(|m: SessionMetadata| m.id.0).to_set(),
                )
                &&& forall|i: int|
                    expired.len() <= i < r@.len() ==> old(self).pooled().contains_key(#[trigger] r@[i].0)
                        && expired_at(
                        old(self).pooled()[r@[i].0],
                        old(self).settings().lifecycle.max_idle_time,
                        now,
                    ) && !final(self).pooled().contains_key(r@[i].0)
                &&& forall|k: u128| #[trigger]
                    final(self).pooled().contains_key(k) ==> old(self).pooled().contains_key(k)
                        && final(self).pooled()[k] == old(self).pooled()[k] && !expired_at(
                        old(self).pooled()[k],
                        old(self).settings().lifecycle.max_idle_time,
                        now,
                    ) && final(self).sessions().contains_key(k)
            }),
    {
        let ghost old_sessions = self.registry@;
        let ghost old_pooled = self.pool@;
        let ghost p = |m: SessionMetadata| expires(self.config.lifecycle, m, now);
        let mut expired: Vec<SessionId> = Vec::new();
        {
            let all = self.registry.list_all();
            let mut i: usize = 0;
            while i < all.len()
                invariant
                    self.wf(),
                    i <= all@.len(),
                    derefs(all@) == self.registry.ordered(),
                    p == (|m: SessionMetadata| expires(self.config.lifecycle, m, now)),
                    expired@.len() == self.registry.ordered().take(i as int).filter(p).len(),
                    forall|j: int|
                        0 <= j < expired@.len() ==> #[trigger] expired@[j].0 == self.registry.ordered().take(
                            i as int,
                        ).filter(p)[j].id.0,
                decreases all@.len() - i,
            {
                let m = all[i];
                proof {
                    let t = self.registry.ordered().take(i as int);
                    let t1 = self.registry.ordered().take(i + 1);
                    assert(derefs(all@)[i as int] == *m);
                    assert(t1 =~= t.push(*m));
                    t.lemma_filter_push(*m, p);
                }
                if self.lifecycle.should_expire_session_at(m, now) {
                    expired.push(m.id);
                }
                i = i + 1;
            }
            proof {
                assert(self.registry.ordered().take(all@.len() as int) =~= self.registry.ordered());
            }
        }
        let ghost expired_meta = self.registry.ordered().filter(p);
        let ghost eids = expired_meta.map_values(|m: SessionMetadata| m.id.0);
        let mut k: usize = 0;
        while k < expired.len()
            invariant
                self.wf(),
                self.config == old(self).config,
                k <= expired@.len(),
                expired@.len() == expired_meta.len(),
                forall|j: int| 0 <= j < expired@.len() ==> #[trigger] expired@[j].0 == expired_meta[j].id.0,
                eids == expired_meta.map_values(|m: SessionMetadata| m.id.0),
                self.registry@ == old_sessions.remove_keys(eids.take(k as int).to_set()),
                forall|x: u128| #[trigger] self.pool@.contains_key(x) ==> old_pooled.contains_key(x)
                    && self.pool@[x] == old_pooled[x],
            decreases expired@.len() - k,
        {
            let id = expired[k];
            let removed = self.registry.unregister(id);
            let _ = self.pool.remove_session(id);
            match removed {
                Ok(Some(metadata)) => {
                    self.record(
                        SessionEvent::Closed {
                            session_id: id,
                            status: metadata.status,
                            last_used: metadata.last_used,
                        },
                    );
                },
                _ => {},
            }
            proof {
                let before = eids.take(k as int);
                assert(eids.take(k + 1) =~= before.push(id.0));
                assert forall|y: u128| eids.take(k + 1).to_set().contains(y) <==> before.to_set().insert(
                    id.0,
                ).contains(y) by {
                    super::index::lemma_push_contains(before, id.0, y);
                }
                assert(eids.take(k + 1).to_set() =~= before.to_set().insert(id.0));
                assert(old_sessions.remove_keys(eids.take(k + 1).to_set()) =~= old_sessions.remove_keys(
                    before.to_set(),
                ).remove(id.0));
            }
            k = k + 1;
        }
        proof {
            assert(eids.take(eids.len() as int) =~= eids);
        }
        let ghost mid_pooled = self.pool@;
        let pooled_out = self.pool.cleanup_expired_at(self.config.lifecycle.max_idle_time, now);
        let n = expired.len();
        proof {
            assert forall|i: int| 0 <= i < pooled_out@.len() implies old_pooled.contains_key(
                #[trigger] pooled_out@[i].0,
            ) && expired_at(old_pooled[pooled_out@[i].0], self.config.lifecycle.max_idle_time, now)
                && !self.pool@.contains_key(pooled_out@[i].0) by {
                assert(mid_pooled.contains_key(pooled_out@[i].0));
            }
        }
        let mut all_out = expired;
        let mut j: usize = 0;
        while j < pooled_out.len()
            invariant
                j <= pooled_out@.len(),
                all_out@.len() == n + j,
                forall|i: int| 0 <= i < n ==> #[trigger] all_out@[i].0 == expired_meta[i].id.0,
                forall|i: int| n <= i < n + j ==> #[trigger] all_out@[i] == pooled_out@[i - n],
                n == expired_meta.len(),
                forall|i: int| 0 <= i < pooled_out@.len() ==> old_pooled.contains_key(
                    #[trigger] pooled_out@[i].0,
                ) && expired_at(old_pooled[pooled_out@[i].0], old(self).config.lifecycle.max_idle_time, now)
                    && !self.pool@.contains_key(pooled_out@[i].0),
            decreases pooled_out@.len() - j,
        {
            all_out.push(pooled_out[j]);
            j = j + 1;
        }
        all_out
    }
    /// One round of cleanup now (see `cleanup_expired_sessions_at`).
    pub fn cleanup_expired_sessions(&mut self) -> (r: Vec<SessionId>)
        requires
            old(self).wf(),
        ensures
            final(self).wf(),
            final(self).settings() == old(self).settings(),
            forall|k: u128| #[trigger] final(self).sessions().contains_key(k) ==> old(self).sessions().contains_key(k),
            forall|k: u128| #[trigger] final(self).pooled().contains_key(k) ==> old(self).pooled().contains_key(k),
            exists|now: u64| #[trigger] Self::cleaned_up(*old(self), *final(self), r@, now),
    {
        let now = now_millis();
        let r = self.cleanup_expired_sessions_at(now);
        proof {
            assert(Self::cleaned_up(*old(self), *self, r@, now));
        }
        r
    }

    /// Whether a manager is another one after one round of cleanup at a time that handed back
    /// a list of identifiers (see `cleanup_expired_sessions_at`).
    pub open spec fn cleaned_up(before: Self, after: Self, r: Seq<SessionId>, now: u64) -> bool {
        let expired = before.ordered().filter(
            |m: SessionMetadata| expires(before.settings().lifecycle, m, now),
        );
        &&& r.len() >= expired.len()
        &&& forall|i: int| 0 <= i < expired.len() ==> #[trigger] r[i].0 == expired[i].id.0
        &&& after.sessions() == before.sessions().remove_keys(
            expired.map_values(|m: SessionMetadata| m.id.0).to_set(),
        )
        &&& forall|i: int|
            expired.len() <= i < r.len() ==> before.pooled().contains_key(#[trigger] r[i].0)
                && expired_at(
                before.pooled()[r[i].0],
                before.settings().lifecycle.max_idle_time,
                now,
            ) && !after.pooled().contains_key(r[i].0)
        &&& forall|k: u128| #[trigger]
            after.pooled().contains_key(k) ==> before.pooled().contains_key(k)
                && after.pooled()[k] == before.pooled()[k] && !expired_at(
                before.pooled()[k],
                before.settings().lifecycle.max_idle_time,
                now,
            ) && after.sessions().contains_key(k)
    }

    /// The number of registered sessions.
    pub fn session_count(&self) -> (r: usize)
        requires
            self.wf(),
        ensures
            r == self.sessions().len(),
            r <= self.settings().registry.max_sessions,
    {
        self.registry.count()
    }

    /// Counts about the pool.
    pub fn get_pool_stats(&self) -> (r: PoolStats)
        requires
            self.wf(),
        ensures
            r.enabled == self.settings().pool.enabled,
            r.total_pooled_sessions == self.pooled().len(),
            r.max_sessions_per_connection == self.settings().pool.max_sessions_per_connection,
            r.max_total_sessions == self.settings().pool.max_total_sessions,
    {
        self.pool.get_stats()
    }

    /// Whether a session is registered.
    pub fn session_exists(&self, session_id: SessionId) -> (r: bool)
        ensures
            r == self.sessions().contains_key(session_id.0),
    {
        self.registry.contains_session(session_id)
    }

    /// Replaces the metadata of a registered session (see `SessionRegistry::update`).
    pub fn update_session_metadata(&mut self, session_id: SessionId, metadata: SessionMetadata) -> (r:
        Result<(), YuhaError>)
        requires
            old(self).wf(),
        ensures
            final(self).wf(),
            final(self).settings() == old(self).settings(),
            final(self).pooled() == old(self).pooled(),
            r is Ok <==> metadata.id == session_id && old(self).sessions().contains_key(session_id.0),
            r is Ok ==> final(self).sessions() == old(self).sessions().insert(session_id.0, metadata),
            r is Err ==> final(self).sessions() == old(self).sessions(),
    {
        self.registry.update(session_id, metadata)
    }

    /// The settings.
    pub fn get_config(&self) -> (r: &SessionManagerConfig)
        ensures
            *r == self.settings(),
    {
        &self.config
    }
}

impl Default for SessionManager {
    fn default() -> (r: Self)
        ensures
            r.wf(),
            r.sessions() == Map::<u128, SessionMetadata>::empty(),
    {
        Self::new(SessionManagerConfig::default())
    }
}

} // verus!
