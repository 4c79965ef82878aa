//! The configuration of yuha: client, remote server, network, logging, metrics and connection
//! profiles.
use vstd::prelude::*;

use crate::clock::{duration_from_millis, duration_from_secs, millis_duration, secs_duration};
use crate::error::{ConfigError, YuhaError};
use crate::keyed::KeyedList;
use crate::logging::{is_default_logging, level_from_name, LogLevel, LoggingConfig};
use crate::metrics::{is_default_metrics, MetricsConfig};
use crate::text::{lowercase, parse_u16, parse_u64, parsed_unsigned};

verus! {

/// The whole configuration.
#[derive(Debug, Clone)]
pub struct YuhaConfig {
    /// Client settings.
    pub client: ClientConfig,
    /// Remote server settings.
    pub remote: RemoteConfig,
    /// Network settings.
    pub network: NetworkConfig,
    /// Logging settings.
    pub logging: LoggingConfig,
    /// Metrics settings.
    pub metrics: MetricsConfig,
    /// Connection profiles by name.
    pub profiles: KeyedList<String, ConnectionProfile>,
}

/// Client settings.
#[derive(Debug, Clone)]
pub struct ClientConfig {
    /// Connection timeout in seconds.
    pub connection_timeout: u64,
    /// Maximum number of retries.
    pub max_retries: u32,
    /// The remote binary used for local execution.
    pub default_binary_path: Option<String>,
    /// Whether the remote binary is uploaded by default.
    pub auto_upload_binary: bool,
    /// Working directory for remote execution.
    pub working_dir: Option<String>,
}

/// Remote server settings.
#[derive(Debug, Clone)]
pub struct RemoteConfig {
    /// The TCP port listened on.
    pub default_port: u16,
    /// Long polling timeout in seconds.
    pub polling_timeout: u64,
    /// Polling interval in milliseconds.
    pub polling_interval: u64,
    /// Buffer size of message channels.
    pub buffer_size: usize,
    /// Paths of diagnostic files.
    pub temp_files: TempFileConfig,
}

/// Network settings.
#[derive(Debug, Clone)]
pub struct NetworkConfig {
    /// The SSH port.
    pub ssh_port: u16,
    /// The address bound to.
    pub bind_address: String,
    /// Port forwarding settings.
    pub port_forward: PortForwardConfig,
    /// Socket timeouts.
    pub timeouts: TimeoutConfig,
}

/// Port forwarding settings.
#[derive(Debug, Clone)]
pub struct PortForwardConfig {
    /// Buffer size.
    pub buffer_size: usize,
    /// The most forwards at once.
    pub max_concurrent: u32,
    /// Connection timeout in seconds.
    pub timeout: u64,
}

/// Socket timeouts in seconds.
#[derive(Debug, Clone)]
pub struct TimeoutConfig {
    /// Connect timeout.
    pub connect: u64,
    /// Read timeout.
    pub read: u64,
    /// Write timeout.
    pub write: u64,
}

/// Paths of diagnostic files.
#[derive(Debug, Clone)]
pub struct TempFileConfig {
    /// Startup log.
    pub startup_file: String,
    /// Panic log.
    pub panic_file: String,
    /// Standard error log.
    pub stderr_file: String,
}

/// Reusable connection settings under a name.
#[derive(Debug, Clone)]
pub struct ConnectionProfile {
    /// The profile's name.
    pub name: String,
    /// SSH connection settings.
    pub ssh: Option<SshConfig>,
    /// Local execution settings.
    pub local: Option<LocalConfig>,
    /// Environment variables.
    pub env_vars: KeyedList<String, String>,
    /// Further settings by key, each value written as TOML text.
    pub overrides: KeyedList<String, String>,
}

/// SSH connection settings of a profile.
#[derive(Debug, Clone)]
pub struct SshConfig {
    /// Host name or address.
    pub host: String,
    /// SSH port.
    pub port: u16,
    /// User name.
    pub username: String,
    /// Password, where password authentication is used.
    pub password: Option<String>,
    /// Private key file.
    pub key_path: Option<String>,
    /// Whether the remote binary is uploaded.
    pub auto_upload_binary: bool,
}

/// Local execution settings of a profile.
#[derive(Debug, Clone)]
pub struct LocalConfig {
    /// The remote binary.
    pub binary_path: String,
    /// Command line arguments.
    pub args: Vec<String>,
    /// Working directory.
    pub working_dir: Option<String>,
}

/// The default client settings: 30 s timeout, 3 retries, nothing else set.
pub open spec fn is_default_client(c: ClientConfig) -> bool {
    &&& c.connection_timeout == 30
    &&& c.max_retries == 3
    &&& c.default_binary_path.is_none()
    &&& !c.auto_upload_binary
    &&& c.working_dir.is_none()
}

/// The default diagnostic file paths under `/tmp`.
pub open spec fn is_default_temp_files(t: TempFileConfig) -> bool {
    &&& t.startup_file@ == "/tmp/yuha_startup.txt"@
    &&& t.panic_file@ == "/tmp/yuha_panic.txt"@
    &&& t.stderr_file@ == "/tmp/yuha_stderr.log"@
}

/// The default remote settings: port 9999, 5 s polling timeout, 10 ms polling interval,
/// 4096-byte buffers.
pub open spec fn is_default_remote(r: RemoteConfig) -> bool {
    &&& r.default_port == 9999
    &&& r.polling_timeout == 5
    &&& r.polling_interval == 10
    &&& r.buffer_size == 4096
    &&& is_default_temp_files(r.temp_files)
}

/// The default network settings: SSH port 22 on all addresses, 4096-byte forwarding buffers,
/// 100 forwards with a 60 s timeout, and 10/30/30 s connect/read/write timeouts.
pub open spec fn is_default_network(n: NetworkConfig) -> bool {
    &&& n.ssh_port == 22
    &&& n.bind_address@ == "0.0.0.0"@
    &&& n.port_forward.buffer_size == 4096
    &&& n.port_forward.max_concurrent == 100
    &&& n.port_forward.timeout == 60
    &&& n.timeouts.connect == 10
    &&& n.timeouts.read == 30
    &&& n.timeouts.write == 30
}

/// The default configuration: each part at its default and no profiles.
pub open spec fn is_default_config(c: YuhaConfig) -> bool {
    &&& is_default_client(c.client)
    &&& is_default_remote(c.remote)
    &&& is_default_network(c.network)
    &&& is_default_logging(c.logging)
    &&& is_default_metrics(c.metrics)
    &&& c.profiles@ == Map::<Seq<char>, ConnectionProfile>::empty()
}

impl Default for ClientConfig {
    fn default() -> (r: Self)
        ensures
            is_default_client(r),
    {
        ClientConfig {
            connection_timeout: 30,
            max_retries: 3,
            default_binary_path: None,
            auto_upload_binary: false,
            working_dir: None,
        }
    }
}

impl Default for TempFileConfig {
    fn default() -> (r: Self)
        ensures
            is_default_temp_files(r),
    {
        TempFileConfig {
            startup_file: String::from_str("/tmp/yuha_startup.txt"),
            panic_file: String::from_str("/tmp/yuha_panic.txt"),
            stderr_file: String::from_str("/tmp/yuha_stderr.log"),
        }
    }
}

impl Default for RemoteConfig {
    fn default() -> (r: Self)
        ensures
            is_default_remote(r),
    {
        RemoteConfig {
            default_port: 9999,
            polling_timeout: 5,
            polling_interval: 10,
            buffer_size: 4096,
            temp_files: TempFileConfig::default(),
        }
    }
}

impl Default for PortForwardConfig {
    fn default() -> (r: Self)
        ensures
            r.buffer_size == 4096,
            r.max_concurrent == 100,
            r.timeout == 60,
    {
        PortForwardConfig { buffer_size: 4096, max_concurrent: 100, timeout: 60 }
    }
}

impl Default for TimeoutConfig {
    fn default() -> (r: Self)
        ensures
            r.connect == 10,
            r.read == 30,
            r.write == 30,
    {
        TimeoutConfig { connect: 10, read: 30, write: 30 }
    }
}

impl Default for NetworkConfig {
    fn default() -> (r: Self)
        ensures
            is_default_network(r),
    {
        NetworkConfig {
            ssh_port: 22,
            bind_address: String::from_str("0.0.0.0"),
            port_forward: PortForwardConfig::default(),
            timeouts: TimeoutConfig::default(),
        }
    }
}

impl Default for YuhaConfig {
    fn default() -> (r: Self)
        ensures
            is_default_config(r),
    {
        YuhaConfig {
            client: ClientConfig::default(),
            remote: RemoteConfig::default(),
            network: NetworkConfig::default(),
            logging: LoggingConfig::default(),
            metrics: MetricsConfig::default(),
            profiles: KeyedList::new(),
        }
    }
}

/// The first check that the configuration fails, with its message.
pub open spec fn config_problem(c: YuhaConfig) -> Option<Seq<char>> {
    if c.network.ssh_port == 0 {
        Some("SSH port cannot be 0"@)
    } else if c.remote.default_port == 0 {
        Some("TCP port cannot be 0"@)
    } else if c.client.connection_timeout == 0 {
        Some("Connection timeout must be greater than 0"@)
    } else if c.remote.polling_timeout == 0 {
        Some("Polling timeout must be greater than 0"@)
    } else if c.remote.buffer_size == 0 {
        Some("Buffer size must be greater than 0"@)
    } else {
        None
    }
}

/// The value that an optional text sets, when it parses, or the old value.
pub open spec fn parsed_or(text: Option<Seq<char>>, max: nat, old: nat) -> nat {
    match text {
        Some(t) => match parsed_unsigned(t, max) {
            Some(v) => v,
            None => old,
        },
        None => old,
    }
}

/// The level that an optional `RUST_LOG` value sets, when it names a level, or the old one.
pub open spec fn level_or(text: Option<Seq<char>>, old: LogLevel) -> LogLevel {
    match text {
        Some(t) => match level_from_name(lowercase(t)) {
            Some(l) => l,
            None => old,
        },
        None => old,
    }
}

/// The view of an optional string slice.
pub open spec fn opt_view(o: Option<&str>) -> Option<Seq<char>> {
    match o {
        Some(s) => Some(s@),
        None => None,
    }
}

impl YuhaConfig {
    /// The profile with the name, if there is one.
    pub fn get_profile(&self, name: &str) -> (r: Option<&ConnectionProfile>)
        ensures
            match r {
                Some(p) => self.profiles@.contains_key(name@) && *p == self.profiles@[name@],
                None => !self.profiles@.contains_key(name@),
            },
    {
        let key = String::from_str(name);
        self.profiles.get(&key)
    }

    /// Adds a profile under its name, replacing one of the same name.
    pub fn set_profile(&mut self, profile: ConnectionProfile)
        ensures
            final(self).profiles@ == old(self).profiles@.insert(profile.name@, profile),
            final(self).client == old(self).client,
            final(self).remote == old(self).remote,
            final(self).network == old(self).network,
            final(self).logging == old(self).logging,
            final(self).metrics == old(self).metrics,
    {
        let key = profile.name.clone();
        self.profiles.insert(key, profile);
    }

    /// Removes the profile with the name and hands it back, if there was one.
    pub fn remove_profile(&mut self, name: &str) -> (r: Option<ConnectionProfile>)
        ensures
            final(self).profiles@ == old(self).profiles@.remove(name@),
            match r {
                Some(p) => old(self).profiles@.contains_key(name@) && p == old(self).profiles@[name@],
                None => !old(self).profiles@.contains_key(name@),
            },
            final(self).client == old(self).client,
            final(self).remote == old(self).remote,
            final(self).network == old(self).network,
            final(self).logging == old(self).logging,
            final(self).metrics == old(self).metrics,
    {
        let key = String::from_str(name);
        self.profiles.remove(&key)
    }

    /// The connection timeout as a span of time.
    pub fn connection_timeout(&self) -> (r: std::time::Duration)
        ensures
            r == secs_duration(self.client.connection_timeout),
    {
        duration_from_secs(self.client.connection_timeout)
    }

    /// The polling timeout as a span of time.
    pub fn polling_timeout(&self) -> (r: std::time::Duration)
        ensures
            r == secs_duration(self.remote.polling_timeout),
    {
        duration_from_secs(self.remote.polling_timeout)
    }

    /// The polling interval as a span of time.
    pub fn polling_interval(&self) -> (r: std::time::Duration)
        ensures
            r == millis_duration(self.remote.polling_interval),
    {
        duration_from_millis(self.remote.polling_interval)
    }

    /// Takes settings from the values of the environment variables `RUST_LOG` (a level name),
    /// `YUHA_TCP_PORT`, `YUHA_TIMEOUT` and `YUHA_BINARY_PATH`; a value that does not parse
    /// leaves its setting as it was.
    pub fn merge_with_env_values(
        &mut self,
        rust_log: Option<&str>,
        tcp_port: Option<&str>,
        timeout: Option<&str>,
        binary_path: Option<&str>,
    )
        ensures
            final(self).logging.level == level_or(opt_view(rust_log), old(self).logging.level),
            final(self).remote.default_port as nat == parsed_or(
                opt_view(tcp_port),
                u16::MAX as nat,
                old(self).remote.default_port as nat,
            ),
            final(self).client.connection_timeout as nat == parsed_or(
                opt_view(timeout),
                u64::MAX as nat,
                old(self).client.connection_timeout as nat,
            ),
            match binary_path {
                Some(p) => final(self).client.default_binary_path matches Some(b) && b@ == p@,
                None => final(self).client.default_binary_path == old(self).client.default_binary_path,
            },
            final(self).logging.module_levels == old(self).logging.module_levels,
            final(self).logging.format == old(self).logging.format,
            final(self).logging.outputs == old(self).logging.outputs,
            final(self).client.max_retries == old(self).client.max_retries,
            final(self).client.auto_upload_binary == old(self).client.auto_upload_binary,
            final(self).client.working_dir == old(self).client.working_dir,
            final(self).remote.polling_timeout == old(self).remote.polling_timeout,
            final(self).remote.polling_interval == old(self).remote.polling_interval,
            final(self).remote.buffer_size == old(self).remote.buffer_size,
            final(self).remote.temp_files == old(self).remote.temp_files,
            final(self).network == old(self).network,
            final(self).metrics == old(self).metrics,
            final(self).profiles == old(self).profiles,
    {
        if let Some(text) = rust_log {
            if let Ok(level) = LogLevel::from_str(text) {
                self.logging.level = level;
            }
        }
        if let Some(text) = tcp_port {
            if let Some(port) = parse_u16(text) {
                self.remote.default_port = port;
            }
        }
        if let Some(text) = timeout {
            if let Some(t) = parse_u64(text) {
                self.client.connection_timeout = t;
            }
        }
        if let Some(p) = binary_path {
            self.client.default_binary_path = Some(String::from_str(p));
        }
    }

    /// Checks that ports, timeouts and the buffer size are not 0.
    pub fn validate(&self) -> (r: Result<(), YuhaError>)
        ensures
            match config_problem(*self) {
                None => r is Ok,
                Some(m) => r matches Err(YuhaError::Config(ConfigError::ValidationFailed { reason }))
                    && reason@ == m,
            },
    {
        if self.network.ssh_port == 0 {
            return Err(YuhaError::config("SSH port cannot be 0"));
        }
        if self.remote.default_port == 0 {
            return Err(YuhaError::config("TCP port cannot be 0"));
        }
        if self.client.connection_timeout == 0 {
            return Err(YuhaError::config("Connection timeout must be greater than 0"));
        }
        if self.remote.polling_timeout == 0 {
            return Err(YuhaError::config("Polling timeout must be greater than 0"));
        }
        if self.remote.buffer_size == 0 {
            return Err(YuhaError::config("Buffer size must be greater than 0"));
        }
        Ok(())
    }
}

/// The user's configuration directory by `dirs::config_dir`, as text; what it is depends on the
/// platform and the environment, so nothing is stated of it.
#[verifier::external_body]
fn user_config_dir() -> Option<String> {
    match dirs::config_dir() {
        Some(p) => Some(p.to_string_lossy().into_owned()),
        None => None,
    }
}

/// The user's home directory by `dirs::home_dir`, as text; what it is depends on the platform
/// and the environment, so nothing is stated of it.
#[verifier::external_body]
fn user_home_dir() -> Option<String> {
    match dirs::home_dir() {
        Some(p) => Some(p.to_string_lossy().into_owned()),
        None => None,
    }
}

/// `Path::join` of a relative path onto a directory, as text; the separator depends on the
/// platform, so nothing is stated of it.
#[verifier::external_body]
fn join_path(dir: &str, relative: &str) -> String {
    std::path::Path::new(dir).join(relative).to_string_lossy().into_owned()
}

/// The configuration files tried in turn: `yuha.toml` and `.yuha.toml` in the working
/// directory, then the user's configuration file and the one in the home directory where they
/// are known, then `/etc/yuha/config.toml`.
pub fn fallback_config_paths_from(user_config: Option<String>, home_config: Option<String>) -> (r: Vec<
    String,
>)
    ensures
        r@.len() == 3 + (if user_config is Some { 1int } else { 0 }) + (if home_config is Some {
            1int
        } else {
            0
        }),
        r@[0]@ == "yuha.toml"@,
        r@[1]@ == ".yuha.toml"@,
        user_config matches Some(u) ==> r@[2] == u,
        home_config matches Some(h) ==> r@[r@.len() - 2] == h,
        r@[r@.len() - 1]@ == "/etc/yuha/config.toml"@,
{
    let mut paths: Vec<String> = Vec::new();
    paths.push(String::from_str("yuha.toml"));
    paths.push(String::from_str(".yuha.toml"));
    if let Some(u) = user_config {
        paths.push(u);
    }
    if let Some(h) = home_config {
        paths.push(h);
    }
    paths.push(String::from_str("/etc/yuha/config.toml"));
    paths
}

/// The configuration files tried in turn, with the user's configuration file at
/// `yuha/config.toml` under the configuration directory and `.yuha.toml` in the home directory.
pub fn fallback_config_paths() -> (r: Vec<String>)
    ensures
        3 <= r@.len() <= 5,
        r@[0]@ == "yuha.toml"@,
        r@[1]@ == ".yuha.toml"@,
        r@[r@.len() - 1]@ == "/etc/yuha/config.toml"@,
{
    let user_config = match user_config_dir() {
        Some(dir) => {
            let sub = join_path(dir.as_str(), "yuha");
            Some(join_path(sub.as_str(), "config.toml"))
        },
        None => None,
    };
    let home_config = match user_home_dir() {
        Some(dir) => Some(join_path(dir.as_str(), ".yuha.toml")),
        None => None,
    };
    fallback_config_paths_from(user_config, home_config)
}

/// A profile that was set is found under its name, holding what was set.
pub proof fn lemma_set_profile_then_get(
    profiles: Map<Seq<char>, ConnectionProfile>,
    profile: ConnectionProfile,
)
    ensures
        profiles.insert(profile.name@, profile).contains_key(profile.name@),
        profiles.insert(profile.name@, profile)[profile.name@] == profile,
{
}

/// A profile that was removed is no longer found.
pub proof fn lemma_remove_profile_then_get(profiles: Map<Seq<char>, ConnectionProfile>, name: Seq<char>)
    ensures
        !profiles.remove(name).contains_key(name),
{
}

/// Setting or removing one profile leaves every profile of another name as it was.
pub proof fn lemma_profile_changes_are_local(
    profiles: Map<Seq<char>, ConnectionProfile>,
    profile: ConnectionProfile,
    other: Seq<char>,
)
    requires
        other != profile.name@,
    ensures
        profiles.insert(profile.name@, profile).contains_key(other) == profiles.contains_key(other),
        profiles.contains_key(other) ==> profiles.insert(profile.name@, profile)[other]
            == profiles[other],
        profiles.remove(profile.name@).contains_key(other) == profiles.contains_key(other),
        profiles.contains_key(other) ==> profiles.remove(profile.name@)[other] == profiles[other],
{
}

/// The default configuration passes validation.
pub proof fn lemma_default_config_is_valid(c: YuhaConfig)
    requires
        is_default_config(c),
    ensures
        config_problem(c) is None,
{
}

} // verus!
