//! Sessions: their identifiers, states and metadata, and the settings of their management.
//!
//! Times are milliseconds since the Unix epoch, as `clock::now_millis` gives them.
use vstd::prelude::*;

use crate::clock::{duration_from_millis, millis_duration, now_millis};
use crate::error::YuhaError;
use crate::keyed::{KeyedList, MapKey};
use crate::text::concat2;
use crate::transport::{connection_key_of, TransportConfig, TransportType};

pub mod index;
pub mod lifecycle;
pub mod manager;
pub mod metrics;
pub mod pool;
pub mod registry;

pub use lifecycle::{SessionLifecycle, SessionLifecycleConfig};
pub use manager::SessionManager;
pub use pool::{SessionPool, SessionPoolConfig};
pub use registry::{SessionRegistry, SessionRegistryConfig};

verus! {

/// The lowercase hexadecimal digit of a number below 16.
pub open spec fn hex_digit(n: nat) -> char {
    if n < 10 {
        ('0' as nat + n) as char
    } else {
        ('a' as nat + (n - 10)) as char
    }
}

/// The last `count` hexadecimal digits of a number, most significant first.
pub open spec fn hex_digits(v: nat, count: nat) -> Seq<char>
    decreases count,
{
    if count == 0 {
        Seq::empty()
    } else {
        hex_digits(v / 16, (count - 1) as nat).push(hex_digit(v % 16))
    }
}

/// What `Uuid::to_string` writes for the UUID whose 128-bit value is given: its 32 lowercase
/// hexadecimal digits, most significant first, with hyphens after the 8th, 12th, 16th and 20th.
pub open spec fn uuid_text(id: u128) -> Seq<char> {
    let d = hex_digits(id as nat, 32);
    d.subrange(0, 8) + "-"@ + d.subrange(8, 12) + "-"@ + d.subrange(12, 16) + "-"@ + d.subrange(16, 20) + "-"@
        + d.subrange(20, 32)
}

/// Whether a parse result is the UUID whose hyphenated lowercase form the text is, when it is
/// one.
pub open spec fn reads_back(text: Seq<char>, r: Result<u128, String>) -> bool {
    forall|v: u128| #[trigger] uuid_text(v) == text ==> r == Ok::<u128, String>(v)
}

/// What `Uuid::parse_str` gives for a text: the 128-bit value of the UUID, or the message of
/// the error.
pub uninterp spec fn uuid_parsed(text: Seq<char>) -> Result<u128, Seq<char>>;

/// Whether a 128-bit value carries the version and variant bits of a random (version 4) UUID.
pub open spec fn is_random_uuid(v: u128) -> bool {
    &&& (v >> 76u128) & 0xfu128 == 4u128
    &&& (v >> 62u128) & 0x3u128 == 2u128
}

/// `Uuid::new_v4`, taken as its 128-bit value: random bits with the version set to 4 and the
/// variant to RFC 4122. Which random bits come out is not stated.
#[verifier::external_body]
fn random_uuid() -> (r: u128)
    ensures
        is_random_uuid(r),
{
    uuid::Uuid::new_v4().as_u128()
}

/// `Uuid::to_string` of the UUID with the 128-bit value: its hyphenated lowercase form.
#[verifier::external_body]
fn uuid_to_text(id: u128) -> (r: String)
    ensures
        r@ == uuid_text(id),
{
    uuid::Uuid::from_u128(id).to_string()
}

/// `Uuid::parse_str`, with the UUID taken as its 128-bit value and the error as its message;
/// the outcome is named `uuid_parsed`. The hyphenated lowercase form of a UUID, which
/// `Uuid::to_string` writes, is read back as that UUID.
#[verifier::external_body]
fn parse_uuid(text: &str) -> (r: Result<u128, String>)
    ensures
        match uuid_parsed(text@) {
            Ok(v) => r matches Ok(w) && w == v,
            Err(m) => r matches Err(e) && e@ == m,
        },
        reads_back(text@, r),
{
    match uuid::Uuid::parse_str(text) {
        Ok(u) => Ok(u.as_u128()),
        Err(e) => Err(e.to_string()),
    }
}

/// The identifier of a session: the 128-bit value of a UUID.
#[derive(Debug, Clone, Copy, PartialEq, Eq, Hash, Structural)]
pub struct SessionId(pub u128);

impl View for SessionId {
    type V = u128;

    open spec fn view(&self) -> u128 {
        self.0
    }
}

impl MapKey for SessionId {
    fn same_key(&self, other: &Self) -> (r: bool) {
        self.0 == other.0
    }

    fn copy_key(&self) -> (r: Self) {
        *self
    }
}

impl SessionId {
    /// A new random identifier.
    pub fn new() -> (r: Self)
        ensures
            is_random_uuid(r.0),
    {
        SessionId(random_uuid())
    }

    /// The hyphenated text of the identifier.
    pub fn as_str(&self) -> (r: String)
        ensures
            r@ == uuid_text(self.0),
    {
        uuid_to_text(self.0)
    }

    /// The text of the identifier, as `as_str`.
    pub fn to_string(&self) -> (r: String)
        ensures
            r@ == uuid_text(self.0),
    {
        self.as_str()
    }

    /// Reads an identifier from its text; text that is no UUID is a session error.
    pub fn parse(s: &str) -> (r: Result<SessionId, YuhaError>)
        ensures
            match uuid_parsed(s@) {
                Ok(v) => r == Ok::<SessionId, YuhaError>(SessionId(v)),
                Err(m) => r matches Err(e) && is_session_error(e, "Invalid session ID: "@ + m),
            },
            forall|v: u128| #[trigger] uuid_text(v) == s@ ==> r == Ok::<SessionId, YuhaError>(SessionId(v)),
    {
        match parse_uuid(s) {
            Ok(v) => Ok(SessionId(v)),
            Err(m) => {
                let text = concat2("Invalid session ID: ", m.as_str());
                Err(YuhaError::session(text.as_str()))
            },
        }
    }
}

/// Whether an error is the one that `YuhaError::session` makes of a message.
pub open spec fn is_session_error(e: YuhaError, message: Seq<char>) -> bool {
    e matches YuhaError::Session(
        crate::error::SessionError::InvalidState { current_state, expected_state },
    ) && current_state@ == "unknown"@ && expected_state@ == message
}

/// The states of a session.
#[derive(Debug, Clone, Copy, PartialEq, Eq, Structural)]
pub enum SessionStatus {
    /// Being created.
    Creating,
    /// Connecting.
    Connecting,
    /// Connected and in use.
    Active,
    /// Connected and not in use.
    Idle,
    /// Being reconnected.
    Reconnecting,
    /// Failed.
    Failed,
    /// Being closed.
    Closing,
    /// Closed.
    Closed,
}

/// The lowercase name of a session state.
pub open spec fn status_name(s: SessionStatus) -> Seq<char> {
    match s {
        SessionStatus::Creating => "creating"@,
        SessionStatus::Connecting => "connecting"@,
        SessionStatus::Active => "active"@,
        SessionStatus::Idle => "idle"@,
        SessionStatus::Reconnecting => "reconnecting"@,
        SessionStatus::Failed => "failed"@,
        SessionStatus::Closing => "closing"@,
        SessionStatus::Closed => "closed"@,
    }
}

impl SessionStatus {
    /// The lowercase name of the state.
    pub fn to_string(&self) -> (r: String)
        ensures
            r@ == status_name(*self),
    {
        match self {
            SessionStatus::Creating => String::from_str("creating"),
            SessionStatus::Connecting => String::from_str("connecting"),
            SessionStatus::Active => String::from_str("active"),
            SessionStatus::Idle => String::from_str("idle"),
            SessionStatus::Reconnecting => String::from_str("reconnecting"),
            SessionStatus::Failed => String::from_str("failed"),
            SessionStatus::Closing => String::from_str("closing"),
            SessionStatus::Closed => String::from_str("closed"),
        }
    }
}

/// Priorities of sessions, lowest first.
#[derive(Debug, Clone, Copy, PartialEq, Eq, PartialOrd, Ord, Structural)]
pub enum SessionPriority {
    /// Low.
    Low,
    /// Normal, the default.
    Normal,
    /// High.
    High,
    /// Critical.
    Critical,
}

impl Default for SessionPriority {
    fn default() -> (r: Self)
        ensures
            r == SessionPriority::Normal,
    {
        SessionPriority::Normal
    }
}

/// Whether a list of tags holds a tag.
pub open spec fn tag_in(tags: Seq<String>, tag: Seq<char>) -> bool {
    exists|j: int| 0 <= j < tags.len() && #[trigger] tags[j]@ == tag
}

pub(crate) fn contains_tag(tags: &Vec<String>, tag: &String) -> (r: bool)
    ensures
        r == tag_in(tags@, tag@),
{
    let mut i: usize = 0;
    while i < tags.len()
        invariant
            i <= tags@.len(),
            forall|j: int| 0 <= j < i ==> #[trigger] tags@[j]@ != tag@,
        decreases tags@.len() - i,
    {
        if tags[i] == *tag {
            return true;
        }
        i = i + 1;
    }
    false
}

/// What is known of a session.
#[derive(Debug, Clone)]
pub struct SessionMetadata {
    /// The identifier.
    pub id: SessionId,
    /// A readable name.
    pub name: String,
    /// How the session connects.
    pub transport_config: TransportConfig,
    /// The state.
    pub status: SessionStatus,
    /// The priority.
    pub priority: SessionPriority,
    /// When the session was created, in milliseconds since the epoch.
    pub created_at: u64,
    /// When the session was last used, in milliseconds since the epoch.
    pub last_used: u64,
    /// How many times the session was used.
    pub use_count: u64,
    /// Tags.
    pub tags: Vec<String>,
    /// A description.
    pub description: Option<String>,
}

/// The time between two instants in milliseconds, or 0 when the later one comes first.
pub open spec fn elapsed(since: u64, now: u64) -> u64 {
    if now >= since {
        (now - since) as u64
    } else {
        0
    }
}

impl SessionMetadata {
    /// A session being created, with an identifier and a creation time.
    pub fn new_at(
        id: SessionId,
        name: &str,
        transport_config: TransportConfig,
        tags: Vec<String>,
        description: Option<String>,
        now: u64,
    ) -> (r: Self)
        ensures
            r.id == id,
            r.name@ == name@,
            r.transport_config == transport_config,
            r.status == SessionStatus::Creating,
            r.priority == SessionPriority::Normal,
            r.created_at == now,
            r.last_used == now,
            r.use_count == 0,
            r.tags == tags,
            r.description == description,
    {
        SessionMetadata {
            id,
            name: String::from_str(name),
            transport_config,
            status: SessionStatus::Creating,
            priority: SessionPriority::default(),
            created_at: now,
            last_used: now,
            use_count: 0,
            tags,
            description,
        }
    }

    /// A session being created now, with a new random identifier.
    pub fn new(
        name: &str,
        transport_config: TransportConfig,
        tags: Vec<String>,
        description: Option<String>,
    ) -> (r: Self)
        ensures
            is_random_uuid(r.id.0),
            r.name@ == name@,
            r.transport_config == transport_config,
            r.status == SessionStatus::Creating,
            r.priority == SessionPriority::Normal,
            r.created_at == r.last_used,
            r.use_count == 0,
            r.tags == tags,
            r.description == description,
    {
        let id = SessionId::new();
        Self::new_at(id, name, transport_config, tags, description, now_millis())
    }

    /// Records a use at a time.
    pub fn mark_used_at(&mut self, now: u64)
        requires
            old(self).use_count < u64::MAX,
        ensures
            *final(self) == (SessionMetadata {
                last_used: now,
                use_count: (old(self).use_count + 1) as u64,
                ..*old(self)
            }),
    {
        self.last_used = now;
        self.use_count = self.use_count + 1;
    }

    /// Records a use now.
    pub fn mark_used(&mut self)
        requires
            old(self).use_count < u64::MAX,
        ensures
            *final(self) == (SessionMetadata {
                last_used: final(self).last_used,
                use_count: (old(self).use_count + 1) as u64,
                ..*old(self)
            }),
    {
        self.mark_used_at(now_millis());
    }

    /// Sets the state at a time; becoming active or idle counts as a use of the connection.
    pub fn set_status_at(&mut self, status: SessionStatus, now: u64)
        ensures
            *final(self) == (SessionMetadata {
                status,
                last_used: if status == SessionStatus::Active || status == SessionStatus::Idle {
                    now
                } else {
                    old(self).last_used
                },
                ..*old(self)
            }),
    {
        self.status = status;
        if status == SessionStatus::Active || status == SessionStatus::Idle {
            self.last_used = now;
        }
    }

    /// Sets the state now.
    pub fn set_status(&mut self, status: SessionStatus)
        ensures
            *final(self) == (SessionMetadata {
                status,
                last_used: final(self).last_used,
                ..*old(self)
            }),
            !(status == SessionStatus::Active || status == SessionStatus::Idle)
                ==> final(self).last_used == old(self).last_used,
    {
        self.set_status_at(status, now_millis());
    }

    /// Sets the priority.
    pub fn set_priority(&mut self, priority: SessionPriority)
        ensures
            *final(self) == (SessionMetadata { priority, ..*old(self) }),
    {
        self.priority = priority;
    }

    /// The age of the session at a time, in milliseconds.
    pub fn age_at(&self, now: u64) -> (r: u64)
        ensures
            r == elapsed(self.created_at, now),
    {
        if now >= self.created_at {
            now - self.created_at
        } else {
            0
        }
    }

    /// How long the session has not been used at a time, in milliseconds.
    pub fn idle_time_at(&self, now: u64) -> (r: u64)
        ensures
            r == elapsed(self.last_used, now),
    {
        if now >= self.last_used {
            now - self.last_used
        } else {
            0
        }
    }

    /// The age of the session now.
    pub fn age(&self) -> (r: std::time::Duration)
        ensures
            exists|now: u64| r == millis_duration(elapsed(self.created_at, now)),
    {
        duration_from_millis(self.age_at(now_millis()))
    }

    /// How long the session has not been used, now.
    pub fn idle_time(&self) -> (r: std::time::Duration)
        ensures
            exists|now: u64| r == millis_duration(elapsed(self.last_used, now)),
    {
        duration_from_millis(self.idle_time_at(now_millis()))
    }

    /// Whether the session carries every one of the tags.
    pub fn has_tags(&self, tags: &[String]) -> (r: bool)
        ensures
            r == forall|i: int| 0 <= i < tags@.len() ==> tag_in(self.tags@, #[trigger] tags@[i]@),
    {
        let mut i: usize = 0;
        while i < tags.len()
            invariant
                i <= tags@.len(),
                forall|k: int| 0 <= k < i ==> tag_in(self.tags@, #[trigger] tags@[k]@),
            decreases tags@.len() - i,
        {
            if !contains_tag(&self.tags, &tags[i]) {
                return false;
            }
            i = i + 1;
        }
        true
    }

    /// Whether the session carries one of the tags at least.
    pub fn has_any_tag(&self, tags: &[String]) -> (r: bool)
        ensures
            r == exists|i: int| 0 <= i < tags@.len() && tag_in(self.tags@, #[trigger] tags@[i]@),
    {
        let mut i: usize = 0;
        while i < tags.len()
            invariant
                i <= tags@.len(),
                forall|k: int| 0 <= k < i ==> !tag_in(self.tags@, #[trigger] tags@[k]@),
            decreases tags@.len() - i,
        {
            if contains_tag(&self.tags, &tags[i]) {
                return true;
            }
            i = i + 1;
        }
        false
    }

    /// The key that groups sessions connecting to the same place.
    pub fn connection_key(&self) -> (r: String)
        ensures
            r@ == connection_key_of(self.transport_config),
    {
        self.transport_config.connection_key()
    }

    /// Whether the session can be used: active or idle.
    pub fn is_usable(&self) -> (r: bool)
        ensures
            r == (self.status == SessionStatus::Active || self.status == SessionStatus::Idle),
    {
        match self.status {
            SessionStatus::Active | SessionStatus::Idle => true,
            _ => false,
        }
    }

    /// Whether the session has failed or is closed.
    pub fn is_terminated(&self) -> (r: bool)
        ensures
            r == (self.status == SessionStatus::Failed || self.status == SessionStatus::Closed),
    {
        match self.status {
            SessionStatus::Failed | SessionStatus::Closed => true,
            _ => false,
        }
    }

    /// Whether the session is between states: being created, connecting, reconnecting or
    /// closing.
    pub fn is_transitional(&self) -> (r: bool)
        ensures
            r == (self.status == SessionStatus::Creating || self.status == SessionStatus::Connecting
                || self.status == SessionStatus::Reconnecting || self.status
                == SessionStatus::Closing),
    {
        match self.status {
            SessionStatus::Creating | SessionStatus::Connecting | SessionStatus::Reconnecting
            | SessionStatus::Closing => true,
            _ => false,
        }
    }
}

/// Counts about sessions.
#[derive(Debug, Clone)]
pub struct SessionStats {
    /// Sessions created.
    pub total_sessions_created: u64,
    /// Sessions active now.
    pub active_sessions: u32,
    /// Sessions idle now.
    pub idle_sessions: u32,
    /// Sessions that failed.
    pub failed_sessions: u32,
    /// Connection attempts.
    pub total_connections: u64,
    /// Connections that succeeded.
    pub successful_connections: u64,
    /// Connections that failed.
    pub failed_connections: u64,
    /// Average session lifetime in milliseconds.
    pub avg_session_lifetime: u64,
    /// Sessions by transport kind.
    pub transport_usage: KeyedList<TransportType, u32>,
}

/// Statistics with every count at 0.
pub open spec fn is_zero_stats(s: SessionStats) -> bool {
    &&& s.total_sessions_created == 0
    &&& s.active_sessions == 0
    &&& s.idle_sessions == 0
    &&& s.failed_sessions == 0
    &&& s.total_connections == 0
    &&& s.successful_connections == 0
    &&& s.failed_connections == 0
    &&& s.avg_session_lifetime == 0
    &&& s.transport_usage@ == Map::<TransportType, u32>::empty()
}

impl Default for SessionStats {
    fn default() -> (r: Self)
        ensures
            is_zero_stats(r),
    {
        SessionStats {
            total_sessions_created: 0,
            active_sessions: 0,
            idle_sessions: 0,
            failed_sessions: 0,
            total_connections: 0,
            successful_connections: 0,
            failed_connections: 0,
            avg_session_lifetime: 0,
            transport_usage: KeyedList::new(),
        }
    }
}

/// Settings of the whole session management.
#[derive(Debug, Clone)]
pub struct SessionManagerConfig {
    /// Registry settings.
    pub registry: SessionRegistryConfig,
    /// Pool settings.
    pub pool: SessionPoolConfig,
    /// Lifecycle settings.
    pub lifecycle: SessionLifecycleConfig,
    /// Whether metrics are collected.
    pub enable_metrics: bool,
}

impl Default for SessionManagerConfig {
    fn default() -> (r: Self)
        ensures
            registry::is_default_registry_config(r.registry),
            pool::is_default_pool_config(r.pool),
            lifecycle::is_default_lifecycle_config(r.lifecycle),
            r.enable_metrics,
    {
        SessionManagerConfig {
            registry: SessionRegistryConfig::default(),
            pool: SessionPoolConfig::default(),
            lifecycle: SessionLifecycleConfig::default(),
            enable_metrics: true,
        }
    }
}

} // verus!
