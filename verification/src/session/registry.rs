//! The registry of sessions: their metadata by identifier, with indexes by name and by
//! connection key.
use vstd::prelude::*;

use super::index::{
    index_add, index_drop, index_push, index_remove, indexes, lemma_indexes_add,
    lemma_indexes_move, lemma_indexes_remove, lemma_indexes_same_key, list_of, lists,
};
use super::{elapsed, tag_in, uuid_text, SessionId, SessionMetadata, SessionStatus};
use crate::clock::now_millis;
use crate::error::{SessionError, YuhaError};
use crate::keyed::KeyedList;
use crate::transport::connection_key_of;

verus! {

/// Settings of the registry.
#[derive(Debug, Clone, Copy)]
pub struct SessionRegistryConfig {
    /// The most sessions registered at once.
    pub max_sessions: u32,
    /// Whether two sessions may have the same name.
    pub allow_duplicate_names: bool,
    /// Whether sessions are indexed by name.
    pub enable_name_index: bool,
}

/// The default registry settings: 1000 sessions, duplicate names allowed, names indexed.
pub open spec fn is_default_registry_config(c: SessionRegistryConfig) -> bool {
    &&& c.max_sessions == 1000
    &&& c.allow_duplicate_names
    &&& c.enable_name_index
}

impl Default for SessionRegistryConfig {
    fn default() -> (r: Self)
        ensures
            is_default_registry_config(r),
    {
        SessionRegistryConfig { max_sessions: 1000, allow_duplicate_names: true, enable_name_index: true }
    }
}

/// The name a session is indexed under.
pub open spec fn name_key() -> spec_fn(SessionMetadata) -> Seq<char> {
    |m: SessionMetadata| m.name@
}

/// The connection key a session is indexed under.
pub open spec fn connection_key_fn() -> spec_fn(SessionMetadata) -> Seq<char> {
    |m: SessionMetadata| connection_key_of(m.transport_config)
}

/// The metadata that is registered: a session still being created is registered as connecting.
pub open spec fn as_registered(m: SessionMetadata) -> SessionMetadata {
    if m.status == SessionStatus::Creating {
        SessionMetadata { status: SessionStatus::Connecting, ..m }
    } else {
        m
    }
}

/// The sessions listed under identifiers, in order, skipping identifiers that are not
/// registered.
pub open spec fn present(ids: Seq<u128>, sessions: Map<u128, SessionMetadata>) -> Seq<
    SessionMetadata,
> {
    ids.filter_map(
        |id: u128|
            if sessions.contains_key(id) {
                Some(sessions[id])
            } else {
                None
            },
    )
}

/// The metadata behind a list of references.
pub open spec fn derefs(r: Seq<&SessionMetadata>) -> Seq<SessionMetadata> {
    r.map_values(|m: &SessionMetadata| *m)
}

/// The `NotFound` error of a session.
pub open spec fn is_not_found(e: YuhaError, id: SessionId) -> bool {
    e matches YuhaError::Session(SessionError::NotFound { session_id }) && session_id@ == uuid_text(
        id.0,
    )
}

pub(crate) fn not_found(id: SessionId) -> (r: YuhaError)
    ensures
        is_not_found(r, id),
{
    YuhaError::Session(SessionError::NotFound { session_id: id.as_str() })
}

/// The registry of sessions.
#[derive(Debug)]
pub struct SessionRegistry {
    config: SessionRegistryConfig,
    sessions: KeyedList<SessionId, SessionMetadata>,
    name_index: KeyedList<String, Vec<u128>>,
    connection_index: KeyedList<String, Vec<u128>>,
}

impl View for SessionRegistry {
    type V = Map<u128, SessionMetadata>;

    /// The registered sessions by identifier.
    closed spec fn view(&self) -> Map<u128, SessionMetadata> {
        self.sessions@
    }
}

impl SessionRegistry {
    /// Whether the registry is well formed: within its limit, each session kept under its own
    /// identifier, and no name index when names are not indexed.
    pub closed spec fn wf(&self) -> bool {
        &&& self.sessions@.len() <= self.config.max_sessions
        &&& self.sessions@.dom().finite()
        &&& forall|k: u128| #[trigger] self.sessions@.contains_key(k) ==> self.sessions@[k].id.0 == k
        &&& !self.config.enable_name_index ==> self.name_index@ == Map::<
            Seq<char>,
            Vec<u128>,
        >::empty()
    }

    /// The settings.
    pub closed spec fn settings(&self) -> SessionRegistryConfig {
        self.config
    }

    /// The identifiers listed under each name.
    pub closed spec fn names(&self) -> Map<Seq<char>, Seq<u128>> {
        lists(self.name_index)
    }

    /// The identifiers listed under each connection key.
    pub closed spec fn connections(&self) -> Map<Seq<char>, Seq<u128>> {
        lists(self.connection_index)
    }

    /// The registered sessions in the order in which they are kept.
    pub closed spec fn ordered(&self) -> Seq<SessionMetadata> {
        self.sessions.value_seq()
    }

    /// Whether the indexes list exactly the registered sessions of each connection key and,
    /// where names are indexed, of each name.
    pub open spec fn indexes_exact(&self) -> bool {
        &&& indexes(self.connections(), self@, connection_key_fn())
        &&& self.settings().enable_name_index ==> indexes(self.names(), self@, name_key())
    }

    /// Every registered session is kept under its own identifier.
    pub proof fn lemma_ids(&self, id: u128)
        requires
            self.wf(),
            self@.contains_key(id),
        ensures
            self@[id].id.0 == id,
    {
    }

    /// An empty registry with the settings.
    pub fn new(config: SessionRegistryConfig) -> (r: Self)
        ensures
            r.wf(),
            r.settings() == config,
            r@ == Map::<u128, SessionMetadata>::empty(),
            r.names() == Map::<Seq<char>, Seq<u128>>::empty(),
            r.connections() == Map::<Seq<char>, Seq<u128>>::empty(),
            r.indexes_exact(),
    {
        let r = SessionRegistry {
            config,
            sessions: KeyedList::new(),
            name_index: KeyedList::new(),
            connection_index: KeyedList::new(),
        };
        proof {
            assert(lists(r.name_index) =~= Map::<Seq<char>, Seq<u128>>::empty());
            assert(lists(r.connection_index) =~= Map::<Seq<char>, Seq<u128>>::empty());
        }
        r
    }

    /// Registers a session under its identifier; a session being created is registered as
    /// connecting. Refused when the registry is full, or when duplicate names are not allowed
    /// and the name is indexed already.
    pub fn register(&mut self, metadata: SessionMetadata) -> (r: Result<SessionId, YuhaError>)
        requires
            old(self).wf(),
        ensures
            final(self).wf(),
            final(self).settings() == old(self).settings(),
            old(self)@.len() >= old(self).settings().max_sessions ==> (r matches Err(
                YuhaError::Session(SessionError::MaxSessionsReached { limit }),
            ) && limit == old(self).settings().max_sessions),
            old(self)@.len() < old(self).settings().max_sessions && !old(self).settings().allow_duplicate_names
                && list_of(old(self).names(), metadata.name@).len() > 0 ==> (r matches Err(
                YuhaError::Session(SessionError::AlreadyExists { session_id }),
            ) && session_id@ == metadata.name@),
            r is Err ==> final(self)@ == old(self)@ && final(self).names() == old(self).names()
                && final(self).connections() == old(self).connections(),
            r is Ok <==> old(self)@.len() < old(self).settings().max_sessions && (
            old(self).settings().allow_duplicate_names || list_of(
                old(self).names(),
                metadata.name@,
            ).len() == 0),
            r is Ok ==> {
                &&& r == Ok::<SessionId, YuhaError>(metadata.id)
                &&& final(self)@ == old(self)@.insert(metadata.id.0, as_registered(metadata))
                &&& final(self).names() == if old(self).settings().enable_name_index {
                    index_add(old(self).names(), metadata.name@, metadata.id.0)
                } else {
                    old(self).names()
                }
                &&& final(self).connections() == index_add(
                    old(self).connections(),
                    connection_key_of(metadata.transport_config),
                    metadata.id.0,
                )
            },
            old(self).indexes_exact() && !old(self)@.contains_key(metadata.id.0)
                ==> final(self).indexes_exact(),
    {
        let count = self.sessions.len();
        if count >= self.config.max_sessions as usize {
            return Err(
                YuhaError::Session(SessionError::MaxSessionsReached { limit: self.config.max_sessions }),
            );
        }
        if !self.config.allow_duplicate_names {
            if let Some(ids) = self.name_index.get(&metadata.name) {
                if ids.len() > 0 {
                    return Err(
                        YuhaError::Session(
                            SessionError::AlreadyExists { session_id: metadata.name.clone() },
                        ),
                    );
                }
            }
        }
        let ghost old_sessions = self@;
        let ghost was_exact = self.indexes_exact();
        let ghost old_names = self.names();
        let ghost old_conns = self.connections();
        let mut metadata = metadata;
        if metadata.status == SessionStatus::Creating {
            metadata.status = SessionStatus::Connecting;
        }
        let session_id = metadata.id;
        let connection_key = metadata.connection_key();
        let name = metadata.name.clone();
        let ghost registered = metadata;
        self.sessions.insert(session_id, metadata);
        if self.config.enable_name_index {
            index_push(&mut self.name_index, name, session_id.0);
        }
        index_push(&mut self.connection_index, connection_key, session_id.0);
        proof {
            assert(self@ == old_sessions.insert(session_id.0, registered));
            if old_sessions.contains_key(session_id.0) {
                assert(old_sessions.insert(session_id.0, registered).dom() =~= old_sessions.dom());
            }
            if !old_sessions.contains_key(session_id.0) {
                if was_exact {
                    lemma_indexes_add(old_conns, old_sessions, connection_key_fn(), session_id.0, registered);
                }
                if self.config.enable_name_index {
                    if was_exact {
                        lemma_indexes_add(old_names, old_sessions, name_key(), session_id.0, registered);
                    }
                }
            }
        }
        Ok(session_id)
    }

    /// Removes a session and takes it out of the indexes; hands back its metadata, if it was
    /// registered.
    pub fn unregister(&mut self, session_id: SessionId) -> (r: Result<Option<SessionMetadata>, YuhaError>)
        requires
            old(self).wf(),
        ensures
            final(self).wf(),
            final(self).settings() == old(self).settings(),
            final(self)@ == old(self)@.remove(session_id.0),
            match r {
                Ok(Some(m)) => old(self)@.contains_key(session_id.0) && m == old(self)@[session_id.0]
                    && final(self).names() == (if old(self).settings().enable_name_index {
                    index_remove(old(self).names(), m.name@, session_id.0)
                } else {
                    old(self).names()
                }) && final(self).connections() == index_remove(
                    old(self).connections(),
                    connection_key_of(m.transport_config),
                    session_id.0,
                ),
                Ok(None) => !old(self)@.contains_key(session_id.0) && final(self).names() == old(self).names() && final(self).connections() == old(self).connections(),
                Err(_) => false,
            },
            old(self).indexes_exact() ==> final(self).indexes_exact(),
    {
        let ghost old_sessions = self@;
        let ghost was_exact = self.indexes_exact();
        let ghost old_names = self.names();
        let ghost old_conns = self.connections();
        let removed = self.sessions.remove(&session_id);
        match removed {
            Some(metadata) => {
                if self.config.enable_name_index {
                    index_drop(&mut self.name_index, &metadata.name, session_id.0);
                }
                let connection_key = metadata.connection_key();
                index_drop(&mut self.connection_index, &connection_key, session_id.0);
                proof {
                    assert(old_sessions.remove(session_id.0).dom() =~= old_sessions.dom().remove(
                        session_id.0,
                    ));
                    if was_exact {
                        lemma_indexes_remove(old_conns, old_sessions, connection_key_fn(), session_id.0);
                    }
                    if self.config.enable_name_index {
                        if was_exact {
                            lemma_indexes_remove(old_names, old_sessions, name_key(), session_id.0);
                        }
                    }
                }
                Ok(Some(metadata))
            },
            None => {
                proof {
                    assert(old_sessions.remove(session_id.0) =~= old_sessions);
                }
                Ok(None)
            },
        }
    }

    /// The metadata of a session, if it is registered.
    pub fn get(&self, session_id: SessionId) -> (r: Option<&SessionMetadata>)
        requires
            self.wf(),
        ensures
            match r {
                Some(m) => self@.contains_key(session_id.0) && *m == self@[session_id.0] && m.id
                    == session_id,
                None => !self@.contains_key(session_id.0),
            },
    {
        self.sessions.get(&session_id)
    }

    /// Replaces the metadata of a registered session and moves it in the indexes when its
    /// connection key or (where names are indexed) its name changed. Refused when the metadata
    /// carries another identifier, or the session is not registered.
    pub fn update(&mut self, session_id: SessionId, metadata: SessionMetadata) -> (r: Result<
        (),
        YuhaError,
    >)
        requires
            old(self).wf(),
        ensures
            final(self).wf(),
            final(self).settings() == old(self).settings(),
            metadata.id != session_id ==> (r matches Err(
                YuhaError::Session(SessionError::InvalidState { current_state, expected_state }),
            ) && current_state@ == "metadata ID mismatch"@ && expected_state@
                == "matching session ID"@),
            metadata.id == session_id && !old(self)@.contains_key(session_id.0) ==> (r matches Err(e)
                && is_not_found(e, session_id)),
            r is Ok <==> metadata.id == session_id && old(self)@.contains_key(session_id.0),
            r is Err ==> final(self)@ == old(self)@ && final(self).names() == old(self).names()
                && final(self).connections() == old(self).connections(),
            r is Ok ==> {
                let before = old(self)@[session_id.0];
                let old_key = connection_key_of(before.transport_config);
                let new_key = connection_key_of(metadata.transport_config);
                &&& final(self)@ == old(self)@.insert(session_id.0, metadata)
                &&& final(self).connections() == if old_key != new_key {
                    index_add(index_remove(old(self).connections(), old_key, session_id.0), new_key, session_id.0)
                } else {
                    old(self).connections()
                }
                &&& final(self).names() == if old(self).settings().enable_name_index && before.name@
                    != metadata.name@ {
                    index_add(
                        index_remove(old(self).names(), before.name@, session_id.0),
                        metadata.name@,
                        session_id.0,
                    )
                } else {
                    old(self).names()
                }
            },
            old(self).indexes_exact() ==> final(self).indexes_exact(),
    {
        if metadata.id != session_id {
            return Err(
                YuhaError::Session(
                    SessionError::InvalidState {
                        current_state: String::from_str("metadata ID mismatch"),
                        expected_state: String::from_str("matching session ID"),
                    },
                ),
            );
        }
        let ghost old_sessions = self@;
        let ghost was_exact = self.indexes_exact();
        let ghost old_names = self.names();
        let ghost old_conns = self.connections();
        let (old_key, old_name) = match self.sessions.get(&session_id) {
            Some(before) => (before.connection_key(), before.name.clone()),
            None => {
                return Err(not_found(session_id));
            },
        };
        let new_key = metadata.connection_key();
        let key_changed = !(old_key == new_key);
        if key_changed {
            index_drop(&mut self.connection_index, &old_key, session_id.0);
            index_push(&mut self.connection_index, new_key, session_id.0);
        }
        let name_changed = !(old_name == metadata.name);
        if self.config.enable_name_index && name_changed {
            index_drop(&mut self.name_index, &old_name, session_id.0);
            index_push(&mut self.name_index, metadata.name.clone(), session_id.0);
        }
        let ghost stored = metadata;
        self.sessions.insert(session_id, metadata);
        proof {
            assert(old_sessions.insert(session_id.0, stored).dom() =~= old_sessions.dom());
            if key_changed {
                if was_exact {
                    lemma_indexes_move(old_conns, old_sessions, connection_key_fn(), session_id.0, stored);
                }
            } else {
                if was_exact {
                    lemma_indexes_same_key(old_conns, old_sessions, connection_key_fn(), session_id.0, stored);
                }
            }
            if self.config.enable_name_index {
                if name_changed {
                    if was_exact {
                        lemma_indexes_move(old_names, old_sessions, name_key(), session_id.0, stored);
                    }
                } else {
                    if was_exact {
                        lemma_indexes_same_key(old_names, old_sessions, name_key(), session_id.0, stored);
                    }
                }
            }
        }
        Ok(())
    }

    /// Sets the state of a registered session at a time (see `SessionMetadata::set_status_at`).
    pub fn update_status_at(&mut self, session_id: SessionId, status: SessionStatus, now: u64) -> (r:
        Result<(), YuhaError>)
        requires
            old(self).wf(),
        ensures
            final(self).wf(),
            final(self).settings() == old(self).settings(),
            final(self).names() == old(self).names(),
            final(self).connections() == old(self).connections(),
            r is Ok <==> old(self)@.contains_key(session_id.0),
            r matches Err(e) ==> is_not_found(e, session_id) && final(self)@ == old(self)@,
            r is Ok ==> final(self)@ == old(self)@.insert(
                session_id.0,
                SessionMetadata {
                    status,
                    last_used: if status == SessionStatus::Active || status == SessionStatus::Idle {
                        now
                    } else {
                        old(self)@[session_id.0].last_used
                    },
                    ..old(self)@[session_id.0]
                },
            ),
            old(self).indexes_exact() ==> final(self).indexes_exact(),
    {
        let ghost old_sessions = self@;
        let ghost was_exact = self.indexes_exact();
        match self.sessions.remove(&session_id) {
            Some(mut metadata) => {
                metadata.set_status_at(status, now);
                let ghost stored = metadata;
                self.sessions.insert(session_id, metadata);
                proof {
                    assert(old_sessions.remove(session_id.0).insert(session_id.0, stored)
                        =~= old_sessions.insert(session_id.0, stored));
                    assert(old_sessions.insert(session_id.0, stored).dom() =~= old_sessions.dom());
                    if was_exact {
                        lemma_indexes_same_key(self.connections(), old_sessions, connection_key_fn(), session_id.0, stored);
                    }
                    if self.config.enable_name_index {
                        if was_exact {
                            lemma_indexes_same_key(self.names(), old_sessions, name_key(), session_id.0, stored);
                        }
                    }
                }
                Ok(())
            },
            None => {
                proof {
                    assert(old_sessions.remove(session_id.0) =~= old_sessions);
                }
                Err(not_found(session_id))
            },
        }
    }

    /// Sets the state of a registered session now.
    pub fn update_status(&mut self, session_id: SessionId, status: SessionStatus) -> (r: Result<
        (),
        YuhaError,
    >)
        requires
            old(self).wf(),
        ensures
            final(self).wf(),
            final(self).settings() == old(self).settings(),
            final(self).names() == old(self).names(),
            final(self).connections() == old(self).connections(),
            r is Ok <==> old(self)@.contains_key(session_id.0),
            r matches Err(e) ==> is_not_found(e, session_id) && final(self)@ == old(self)@,
            r is Ok ==> final(self)@ == old(self)@.insert(
                session_id.0,
                SessionMetadata {
                    status,
                    last_used: final(self)@[session_id.0].last_used,
                    ..old(self)@[session_id.0]
                },
            ),
            r is Ok && !(status == SessionStatus::Active || status == SessionStatus::Idle)
                ==> final(self)@[session_id.0].last_used == old(self)@[session_id.0].last_used,
            old(self).indexes_exact() ==> final(self).indexes_exact(),
    {
        self.update_status_at(session_id, status, now_millis())
    }

    /// Records a use of a registered session at a time.
    pub fn mark_used_at(&mut self, session_id: SessionId, now: u64) -> (r: Result<(), YuhaError>)
        requires
            old(self).wf(),
            old(self)@.contains_key(session_id.0) ==> old(self)@[session_id.0].use_count < u64::MAX,
        ensures
            final(self).wf(),
            final(self).settings() == old(self).settings(),
            final(self).names() == old(self).names(),
            final(self).connections() == old(self).connections(),
            r is Ok <==> old(self)@.contains_key(session_id.0),
            r matches Err(e) ==> is_not_found(e, session_id) && final(self)@ == old(self)@,
            r is Ok ==> final(self)@ == old(self)@.insert(
                session_id.0,
                SessionMetadata {
                    last_used: now,
                    use_count: (old(self)@[session_id.0].use_count + 1) as u64,
                    ..old(self)@[session_id.0]
                },
            ),
            old(self).indexes_exact() ==> final(self).indexes_exact(),
    {
        let ghost old_sessions = self@;
        let ghost was_exact = self.indexes_exact();
        match self.sessions.remove(&session_id) {
            Some(mut metadata) => {
                metadata.mark_used_at(now);
                let ghost stored = metadata;
                self.sessions.insert(session_id, metadata);
                proof {
                    assert(old_sessions.remove(session_id.0).insert(session_id.0, stored)
                        =~= old_sessions.insert(session_id.0, stored));
                    assert(old_sessions.insert(session_id.0, stored).dom() =~= old_sessions.dom());
                    if was_exact {
                        lemma_indexes_same_key(self.connections(), old_sessions, connection_key_fn(), session_id.0, stored);
                    }
                    if self.config.enable_name_index {
                        if was_exact {
                            lemma_indexes_same_key(self.names(), old_sessions, name_key(), session_id.0, stored);
                        }
                    }
                }
                Ok(())
            },
            None => {
                proof {
                    assert(old_sessions.remove(session_id.0) =~= old_sessions);
                }
                Err(not_found(session_id))
            },
        }
    }

    /// Records a use of a registered session now.
    pub fn mark_used(&mut self, session_id: SessionId) -> (r: Result<(), YuhaError>)
        requires
            old(self).wf(),
            old(self)@.contains_key(session_id.0) ==> old(self)@[session_id.0].use_count < u64::MAX,
        ensures
            final(self).wf(),
            final(self).settings() == old(self).settings(),
            final(self).names() == old(self).names(),
            final(self).connections() == old(self).connections(),
            r is Ok <==> old(self)@.contains_key(session_id.0),
            r matches Err(e) ==> is_not_found(e, session_id) && final(self)@ == old(self)@,
            r is Ok ==> final(self)@ == old(self)@.insert(
                session_id.0,
                SessionMetadata {
                    last_used: final(self)@[session_id.0].last_used,
                    use_count: (old(self)@[session_id.0].use_count + 1) as u64,
                    ..old(self)@[session_id.0]
                },
            ),
            old(self).indexes_exact() ==> final(self).indexes_exact(),
    {
        self.mark_used_at(session_id, now_millis())
    }
    /// The registered sessions in order, each once: every entry is the registered session of
    /// its identifier, and every registered session is there.
    pub fn list_all(&self) -> (r: Vec<&SessionMetadata>)
        requires
            self.wf(),
        ensures
            derefs(r@) == self.ordered(),
            r@.len() == self@.len(),
            forall|i: int|
                0 <= i < r@.len() ==> self@.contains_key(#[trigger] r@[i].id.0) && *r@[i]
                    == self@[r@[i].id.0],
            forall|i: int, j: int|
                0 <= i < r@.len() && 0 <= j < r@.len() && i != j ==> #[trigger] r@[i].id
                    != #[trigger] r@[j].id,
            forall|k: u128|
                #[trigger] self@.contains_key(k) ==> exists|i: int| 0 <= i < r@.len() && r@[i].id.0 == k,
    {
        let n = self.sessions.len();
        let mut out: Vec<&SessionMetadata> = Vec::new();
        let mut i: usize = 0;
        while i < n
            invariant
                n == self.sessions.value_seq().len(),
                n == self.sessions.key_seq().len(),
                self.wf(),
                forall|j: int| 0 <= j < n ==> #[trigger] self@[self.sessions.key_seq()[j]]
                    == self.sessions.value_seq()[j],
                forall|j: int| 0 <= j < n ==> self@.contains_key(#[trigger] self.sessions.key_seq()[j]),
                i <= n,
                derefs(out@) == self.ordered().take(i as int),
            decreases n - i,
        {
            let m = self.sessions.value_at(i);
            proof {
                assert(derefs(out@.push(m)) =~= derefs(out@).push(*m));
                assert(self.ordered().take(i + 1) =~= self.ordered().take(i as int).push(*m));
            }
            out.push(m);
            i = i + 1;
        }
        proof {
            assert(self.ordered().take(n as int) =~= self.ordered());
            assert forall|i: int| 0 <= i < out@.len() implies self@.contains_key(#[trigger] out@[i].id.0)
                && *out@[i] == self@[out@[i].id.0] by {
                assert(derefs(out@)[i] == *out@[i]);
                assert(self@.contains_key(self.sessions.key_seq()[i]));
            }
            assert forall|i: int, j: int|
                0 <= i < out@.len() && 0 <= j < out@.len() && i != j implies #[trigger] out@[i].id
                != #[trigger] out@[j].id by {
                assert(derefs(out@)[i] == *out@[i]);
                assert(derefs(out@)[j] == *out@[j]);
                assert(self@.contains_key(self.sessions.key_seq()[i]));
                assert(self@.contains_key(self.sessions.key_seq()[j]));
                assert(self.sessions.key_seq()[i] != self.sessions.key_seq()[j]);
            }
            assert forall|k: u128| #[trigger] self@.contains_key(k) implies exists|i: int|
                0 <= i < out@.len() && out@[i].id.0 == k by {
                assert(self.sessions.key_seq().contains(k));
                let i = choose|i: int| 0 <= i < n && self.sessions.key_seq()[i] == k;
                assert(derefs(out@)[i] == *out@[i]);
            }
        }
        out
    }

    /// The registered sessions in a state, in order.
    pub fn list_by_status(&self, status: SessionStatus) -> (r: Vec<&SessionMetadata>)
        requires
            self.wf(),
        ensures
            derefs(r@) == self.ordered().filter(|m: SessionMetadata| m.status == status),
    {
        let n = self.sessions.len();
        let ghost p = |m: SessionMetadata| m.status == status;
        let mut out: Vec<&SessionMetadata> = Vec::new();
        let mut i: usize = 0;
        while i < n
            invariant
                p == (|m: SessionMetadata| m.status == status),
                n == self.sessions.value_seq().len(),
                n == self.sessions.key_seq().len(),
                i <= n,
                derefs(out@) == self.ordered().take(i as int).filter(p),
            decreases n - i,
        {
            let m = self.sessions.value_at(i);
            proof {
                let t = self.ordered().take(i as int);
                let t1 = self.ordered().take(i + 1);
                assert(t1 =~= t.push(*m));
                t.lemma_filter_push(*m, p);
                assert(derefs(out@.push(m)) =~= derefs(out@).push(*m));
            }
            if m.status == status {
                out.push(m);
            }
            i = i + 1;
        }
        proof {
            assert(self.ordered().take(n as int) =~= self.ordered());
        }
        out
    }

    /// How many registered sessions are in a state.
    pub fn count_by_status(&self, status: SessionStatus) -> (r: usize)
        requires
            self.wf(),
        ensures
            r == self.ordered().filter(|m: SessionMetadata| m.status == status).len(),
    {
        let found = self.list_by_status(status);
        proof {
            assert(derefs(found@).len() == found@.len());
        }
        found.len()
    }

    /// The registered sessions that carry every one of the tags, in order.
    pub fn list_by_tags(&self, tags: &[String]) -> (r: Vec<&SessionMetadata>)
        requires
            self.wf(),
        ensures
            derefs(r@) == self.ordered().filter(
                |m: SessionMetadata|
                    forall|i: int| 0 <= i < tags@.len() ==> tag_in(m.tags@, #[trigger] tags@[i]@),
            ),
    {
        let n = self.sessions.len();
        let ghost p = |m: SessionMetadata|
            forall|i: int| 0 <= i < tags@.len() ==> tag_in(m.tags@, #[trigger] tags@[i]@);
        let mut out: Vec<&SessionMetadata> = Vec::new();
        let mut i: usize = 0;
        while i < n
            invariant
                p == (|m: SessionMetadata|
            forall|i: int| 0 <= i < tags@.len() ==> tag_in(m.tags@, #[trigger] tags@[i]@)),
                n == self.sessions.value_seq().len(),
                n == self.sessions.key_seq().len(),
                i <= n,
                derefs(out@) == self.ordered().take(i as int).filter(p),
            decreases n - i,
        {
            let m = self.sessions.value_at(i);
            proof {
                let t = self.ordered().take(i as int);
                let t1 = self.ordered().take(i + 1);
                assert(t1 =~= t.push(*m));
                t.lemma_filter_push(*m, p);
                assert(derefs(out@.push(m)) =~= derefs(out@).push(*m));
            }
            if m.has_tags(tags) {
                out.push(m);
            }
            i = i + 1;
        }
        proof {
            assert(self.ordered().take(n as int) =~= self.ordered());
        }
        out
    }

    fn sessions_listed(&self, ids: &Vec<u128>) -> (r: Vec<&SessionMetadata>)
        ensures
            derefs(r@) == present(ids@, self@),
    {
        let mut out: Vec<&SessionMetadata> = Vec::new();
        let mut i: usize = 0;
        while i < ids.len()
            invariant
                i <= ids@.len(),
                derefs(out@) == present(ids@.take(i as int), self@),
            decreases ids@.len() - i,
        {
            let id = ids[i];
            proof {
                assert(ids@.take(i + 1).drop_last() =~= ids@.take(i as int));
                assert(ids@.take(i + 1).last() == id);
            }
            match self.sessions.get(&SessionId(id)) {
                Some(m) => {
                    proof {
                        assert(derefs(out@.push(m)) =~= derefs(out@) + seq![*m]);
                    }
                    out.push(m);
                },
                None => {},
            }
            i = i + 1;
        }
        proof {
            assert(ids@.take(ids@.len() as int) =~= ids@);
        }
        out
    }

    /// The registered sessions with a name: through the name index where names are indexed
    /// (in the index's order, skipping identifiers no longer registered), else every registered
    /// session of that name in order.
    pub fn list_by_name(&self, name: &str) -> (r: Vec<&SessionMetadata>)
        requires
            self.wf(),
        ensures
            self.settings().enable_name_index ==> derefs(r@) == present(
                list_of(self.names(), name@),
                self@,
            ),
            !self.settings().enable_name_index ==> derefs(r@) == self.ordered().filter(
                |m: SessionMetadata| m.name@ == name@,
            ),
    {
        let key = String::from_str(name);
        if self.config.enable_name_index {
            match self.name_index.get(&key) {
                Some(ids) => self.sessions_listed(ids),
                None => {
                    let out: Vec<&SessionMetadata> = Vec::new();
                    proof {
                        assert(derefs(out@) =~= Seq::<SessionMetadata>::empty());
                        assert(present(Seq::<u128>::empty(), self@) =~= Seq::<SessionMetadata>::empty());
                    }
                    out
                },
            }
        } else {
            let n = self.sessions.len();
            let ghost p = |m: SessionMetadata| m.name@ == name@;
            let mut out: Vec<&SessionMetadata> = Vec::new();
            let mut i: usize = 0;
            while i < n
                invariant
                    p == (|m: SessionMetadata| m.name@ == name@),
                    n == self.sessions.value_seq().len(),
                    n == self.sessions.key_seq().len(),
                    i <= n,
                    key@ == name@,
                    derefs(out@) == self.ordered().take(i as int).filter(p),
                decreases n - i,
            {
                let m = self.sessions.value_at(i);
                proof {
                    let t = self.ordered().take(i as int);
                    let t1 = self.ordered().take(i + 1);
                    assert(t1 =~= t.push(*m));
                    t.lemma_filter_push(*m, p);
                    assert(derefs(out@.push(m)) =~= derefs(out@).push(*m));
                }
                if m.name == key {
                    out.push(m);
                }
                i = i + 1;
            }
            proof {
                assert(self.ordered().take(n as int) =~= self.ordered());
            }
            out
        }
    }

    /// The registered sessions with a connection key, in the index's order.
    pub fn list_by_connection_key(&self, connection_key: &str) -> (r: Vec<&SessionMetadata>)
        requires
            self.wf(),
        ensures
            derefs(r@) == present(list_of(self.connections(), connection_key@), self@),
    {
        let key = String::from_str(connection_key);
        match self.connection_index.get(&key) {
            Some(ids) => self.sessions_listed(ids),
            None => {
                let out: Vec<&SessionMetadata> = Vec::new();
                proof {
                    assert(derefs(out@) =~= Seq::<SessionMetadata>::empty());
                    assert(present(Seq::<u128>::empty(), self@) =~= Seq::<SessionMetadata>::empty());
                }
                out
            },
        }
    }

    /// The number of registered sessions, which never exceeds the limit.
    pub fn count(&self) -> (r: usize)
        requires
            self.wf(),
        ensures
            r == self@.len(),
            r <= self.settings().max_sessions,
    {
        self.sessions.len()
    }

    /// Whether a session is registered.
    pub fn contains_session(&self, session_id: SessionId) -> (r: bool)
        ensures
            r == self@.contains_key(session_id.0),
    {
        self.sessions.contains_key(&session_id)
    }

    /// Removes every session and empties the indexes.
    pub fn clear(&mut self)
        requires
            old(self).wf(),
        ensures
            final(self).wf(),
            final(self).settings() == old(self).settings(),
            final(self)@ == Map::<u128, SessionMetadata>::empty(),
            final(self).names() == Map::<Seq<char>, Seq<u128>>::empty(),
            final(self).connections() == Map::<Seq<char>, Seq<u128>>::empty(),
            final(self).indexes_exact(),
    {
        self.sessions.clear();
        self.name_index.clear();
        self.connection_index.clear();
        proof {
            assert(lists(self.name_index) =~= Map::<Seq<char>, Seq<u128>>::empty());
            assert(lists(self.connection_index) =~= Map::<Seq<char>, Seq<u128>>::empty());
        }
    }
}

} // verus!
