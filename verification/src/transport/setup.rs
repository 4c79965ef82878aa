//! Transport configurations made from the yuha configuration and its connection profiles.
use vstd::prelude::*;

use super::{is_default_local, LocalConfig, SshConfig, TlsConfig, WslConfig};
use super::types::{transport_from_name, TransportType};
use crate::config::{self, YuhaConfig};
use crate::error::{ConfigError, YuhaError};
use crate::keyed::KeyedList;
use crate::platform::{path_exists, target_is_windows};
use crate::text::{concat2, concat3, lowercase, to_lowercase};

verus! {

/// SSH transport settings.
pub type SshTransportConfig = SshConfig;

/// Local process transport settings.
pub type LocalTransportConfig = LocalConfig;

/// WSL transport settings.
pub type WslTransportConfig = WslConfig;

/// TCP transport settings.
#[derive(Debug, Clone)]
pub struct TcpTransportConfig {
    /// The target host.
    pub host: String,
    /// The target port.
    pub port: u16,
    /// Connection timeout in seconds.
    pub timeout: u64,
    /// Whether keep-alive is on.
    pub keepalive: bool,
    /// TLS settings.
    pub tls: Option<TlsConfig>,
}

/// Settings for every transport.
#[derive(Debug, Clone)]
pub struct GeneralTransportConfig {
    /// Maximum number of retries.
    pub max_retries: u32,
    /// Delay between retries in milliseconds.
    pub retry_delay: u64,
    /// Environment variables to set.
    pub env_vars: KeyedList<String, String>,
    /// The remote binary's path, when it differs from the default.
    pub remote_binary_path: Option<String>,
    /// Whether the best transport is detected.
    pub auto_detect: bool,
}

/// A transport configuration for any kind of transport.
#[derive(Debug, Clone)]
pub struct TransportConfig {
    /// The kind of transport to use.
    pub transport_type: TransportType,
    /// SSH settings.
    pub ssh: Option<SshTransportConfig>,
    /// Local process settings.
    pub local: Option<LocalTransportConfig>,
    /// TCP settings.
    pub tcp: Option<TcpTransportConfig>,
    /// WSL settings.
    pub wsl: Option<WslTransportConfig>,
    /// Settings for every transport.
    pub general: GeneralTransportConfig,
}

/// General settings at their defaults but for the number of retries and the environment.
pub open spec fn is_general_with(
    g: GeneralTransportConfig,
    max_retries: u32,
    env: Map<Seq<char>, String>,
) -> bool {
    &&& g.max_retries == max_retries
    &&& g.retry_delay == 1000
    &&& g.env_vars@ == env
    &&& g.remote_binary_path.is_none()
    &&& !g.auto_detect
}

/// The default general settings: 3 retries 1000 ms apart, no variables, no detection.
pub open spec fn is_default_general_transport(g: GeneralTransportConfig) -> bool {
    is_general_with(g, 3, Map::empty())
}

impl Default for GeneralTransportConfig {
    fn default() -> (r: Self)
        ensures
            is_default_general_transport(r),
    {
        GeneralTransportConfig {
            max_retries: 3,
            retry_delay: 1000,
            env_vars: KeyedList::new(),
            remote_binary_path: None,
            auto_detect: false,
        }
    }
}

impl Default for TransportConfig {
    fn default() -> (r: Self)
        ensures
            r.transport_type == TransportType::Local,
            r.ssh.is_none(),
            r.local matches Some(l) && is_default_local(l),
            r.tcp.is_none(),
            r.wsl.is_none(),
            is_default_general_transport(r.general),
    {
        TransportConfig {
            transport_type: TransportType::Local,
            ssh: None,
            local: Some(LocalConfig::default()),
            tcp: None,
            wsl: None,
            general: GeneralTransportConfig::default(),
        }
    }
}

/// Parses a transport kind, ignoring case; an unknown name is a configuration error.
pub fn parse_transport_type(s: &str) -> (r: Result<TransportType, YuhaError>)
    ensures
        match transport_from_name(lowercase(s@)) {
            Some(t) => r == Ok::<TransportType, YuhaError>(t),
            None => r matches Err(YuhaError::Config(ConfigError::ValidationFailed { reason }))
                && reason@ == "Unknown transport type: "@ + s@,
        },
{
    let lower = to_lowercase(s);
    match TransportType::from_lowercase(lower.as_str()) {
        Some(t) => Ok(t),
        None => {
            let m = concat2("Unknown transport type: ", s);
            Err(YuhaError::config(m.as_str()))
        },
    }
}

/// The SSH transport settings of a profile's SSH settings, with a timeout and a 60 s keep-alive.
pub open spec fn ssh_from_profile(s: config::SshConfig, timeout: u64) -> SshConfig {
    SshConfig {
        host: s.host,
        port: s.port,
        username: s.username,
        password: s.password,
        key_path: s.key_path,
        auto_upload_binary: s.auto_upload_binary,
        timeout,
        keepalive: 60,
    }
}

/// Whether local transport settings hold what a profile's local settings say.
pub open spec fn local_from_profile(c: LocalConfig, l: config::LocalConfig) -> bool {
    &&& c.binary_path == l.binary_path
    &&& c.args@ == l.args@
    &&& c.working_dir == l.working_dir
}

/// Whether a result is what `create_from_profile` gives for a profile name under a configuration:
/// the profile's SSH settings if it has them, else its local settings; the default
/// configuration's other parts; the profile's environment variables.
pub open spec fn from_profile(
    settings: YuhaConfig,
    name: Seq<char>,
    r: Result<TransportConfig, YuhaError>,
) -> bool {
    if !settings.profiles@.contains_key(name) {
        r matches Err(YuhaError::Config(ConfigError::ValidationFailed { reason })) && reason@
            == "Profile '"@ + name + "' not found"@
    } else {
        let p = settings.profiles@[name];
        match p.ssh {
            Some(s) => r matches Ok(c) && {
                &&& c.transport_type == TransportType::Ssh
                &&& c.ssh == Some(ssh_from_profile(s, settings.client.connection_timeout))
                &&& c.local matches Some(l) && is_default_local(l)
                &&& c.tcp.is_none()
                &&& c.wsl.is_none()
                &&& is_general_with(c.general, 3, p.env_vars@)
            },
            None => match p.local {
                Some(l) => r matches Ok(c) && {
                    &&& c.transport_type == TransportType::Local
                    &&& c.ssh.is_none()
                    &&& c.local matches Some(cl) && local_from_profile(cl, l)
                    &&& c.tcp.is_none()
                    &&& c.wsl.is_none()
                    &&& is_general_with(c.general, 3, p.env_vars@)
                },
                None => r matches Err(YuhaError::Config(ConfigError::ValidationFailed { reason }))
                    && reason@ == "Profile '"@ + name
                    + "' does not specify a valid transport configuration"@,
            },
        }
    }
}

/// The first check of `validate_config` that a configuration fails, with its message, given
/// whether the local binary exists and whether the platform is Windows.
pub open spec fn setup_problem(c: TransportConfig, binary_exists: bool, windows: bool) -> Option<
    Seq<char>,
> {
    match c.transport_type {
        TransportType::Ssh => match c.ssh {
            None => Some("SSH transport requires SSH configuration"@),
            Some(ssh) => if ssh.host@.len() == 0 {
                Some("SSH host cannot be empty"@)
            } else if ssh.username@.len() == 0 {
                Some("SSH username cannot be empty"@)
            } else if ssh.password.is_none() && ssh.key_path.is_none() {
                Some("SSH transport requires either password or key authentication"@)
            } else {
                None
            },
        },
        TransportType::Local => match c.local {
            None => Some("Local transport requires local configuration"@),
            Some(local) => if !binary_exists {
                Some("Local binary not found: "@ + local.binary_path@)
            } else {
                None
            },
        },
        TransportType::Tcp => match c.tcp {
            None => Some("TCP transport requires TCP configuration"@),
            Some(tcp) => if tcp.host@.len() == 0 {
                Some("TCP host cannot be empty"@)
            } else if tcp.port == 0 {
                Some("TCP port cannot be 0"@)
            } else {
                None
            },
        },
        TransportType::Wsl => match c.wsl {
            None => Some("WSL transport requires WSL configuration"@),
            Some(_) => if !windows {
                Some("WSL transport is only available on Windows"@)
            } else {
                None
            },
        },
    }
}

/// Whether a validation result is the one that the configuration calls for.
pub open spec fn setup_validated(
    c: TransportConfig,
    binary_exists: bool,
    windows: bool,
    r: Result<(), YuhaError>,
) -> bool {
    match setup_problem(c, binary_exists, windows) {
        None => r is Ok,
        Some(m) => r matches Err(YuhaError::Config(ConfigError::ValidationFailed { reason }))
            && reason@ == m,
    }
}

fn clone_opt(o: &Option<String>) -> (r: Option<String>)
    ensures
        r == *o,
{
    match o {
        Some(s) => Some(s.clone()),
        None => None,
    }
}

fn clone_strings(v: &Vec<String>) -> (r: Vec<String>)
    ensures
        r@ == v@,
{
    let mut out: Vec<String> = Vec::new();
    let mut i: usize = 0;
    while i < v.len()
        invariant
            i <= v@.len(),
            out@ == v@.take(i as int),
        decreases v@.len() - i,
    {
        out.push(v[i].clone());
        i = i + 1;
        proof {
            assert(out@ =~= v@.take(i as int));
        }
    }
    proof {
        assert(v@.take(v@.len() as int) =~= v@);
    }
    out
}

fn clone_env(env: &KeyedList<String, String>) -> (r: KeyedList<String, String>)
    ensures
        r@ == env@,
{
    let r = env.clone();
    proof {
        assert forall|i: int| 0 <= i < env.value_seq().len() implies r.value_seq()[i]
            == env.value_seq()[i] by {
            assert(cloned::<String>(env.value_seq()[i], r.value_seq()[i]));
        }
        assert(r.value_seq() =~= env.value_seq());
        r.lemma_same_entries_same_view(env);
    }
    r
}

/// Makes transport configurations from the yuha configuration.
#[derive(Debug)]
pub struct TransportFactory {
    config: YuhaConfig,
}

impl TransportFactory {
    /// The configuration that the factory works from.
    pub closed spec fn settings(&self) -> YuhaConfig {
        self.config
    }

    /// A factory working from the configuration.
    pub fn new(config: YuhaConfig) -> (r: Self)
        ensures
            r.settings() == config,
    {
        TransportFactory { config }
    }

    /// The transport configuration of a connection profile: its SSH settings if it has them,
    /// else its local settings, with the profile's environment variables; an unknown profile or
    /// one with neither is refused.
    pub fn create_from_profile(&self, profile_name: &str) -> (r: Result<TransportConfig, YuhaError>)
        ensures
            from_profile(self.settings(), profile_name@, r),
    {
        let profile = match self.config.get_profile(profile_name) {
            Some(p) => p,
            None => {
                let m = concat3("Profile '", profile_name, "' not found");
                return Err(YuhaError::config(m.as_str()));
            },
        };
        let mut transport_config = TransportConfig::default();
        if let Some(ssh) = &profile.ssh {
            transport_config.transport_type = TransportType::Ssh;
            transport_config.ssh = Some(
                SshConfig {
                    host: ssh.host.clone(),
                    port: ssh.port,
                    username: ssh.username.clone(),
                    password: clone_opt(&ssh.password),
                    key_path: clone_opt(&ssh.key_path),
                    auto_upload_binary: ssh.auto_upload_binary,
                    timeout: self.config.client.connection_timeout,
                    keepalive: 60,
                },
            );
        } else if let Some(local) = &profile.local {
            transport_config.transport_type = TransportType::Local;
            transport_config.local = Some(
                LocalConfig {
                    binary_path: local.binary_path.clone(),
                    args: clone_strings(&local.args),
                    working_dir: clone_opt(&local.working_dir),
                },
            );
        } else {
            let m = concat3(
                "Profile '",
                profile_name,
                "' does not specify a valid transport configuration",
            );
            return Err(YuhaError::config(m.as_str()));
        }
        transport_config.general.env_vars = clone_env(&profile.env_vars);
        Ok(transport_config)
    }

    /// An SSH transport configuration with the client's timeout and retries.
    pub fn create_ssh_config(
        &self,
        host: String,
        port: u16,
        username: String,
        password: Option<String>,
        key_path: Option<String>,
        auto_upload: bool,
    ) -> (r: TransportConfig)
        ensures
            r.transport_type == TransportType::Ssh,
            r.ssh == Some(
                (SshConfig {
                    host,
                    port,
                    username,
                    password,
                    key_path,
                    auto_upload_binary: auto_upload,
                    timeout: self.settings().client.connection_timeout,
                    keepalive: 60,
                }),
            ),
            r.local.is_none(),
            r.tcp.is_none(),
            r.wsl.is_none(),
            is_general_with(r.general, self.settings().client.max_retries, Map::empty()),
    {
        let mut general = GeneralTransportConfig::default();
        general.max_retries = self.config.client.max_retries;
        TransportConfig {
            transport_type: TransportType::Ssh,
            ssh: Some(
                SshConfig {
                    host,
                    port,
                    username,
                    password,
                    key_path,
                    auto_upload_binary: auto_upload,
                    timeout: self.config.client.connection_timeout,
                    keepalive: 60,
                },
            ),
            local: None,
            tcp: None,
            wsl: None,
            general,
        }
    }

    /// A local transport configuration running the given binary, else the client's default
    /// binary, else `yuha-remote`, with `--stdio`, in the client's working directory.
    pub fn create_local_config(&self, binary_path: Option<String>) -> (r: TransportConfig)
        ensures
            r.transport_type == TransportType::Local,
            r.ssh.is_none(),
            r.local matches Some(l) && {
                &&& l.binary_path@ == match binary_path {
                    Some(b) => b@,
                    None => match self.settings().client.default_binary_path {
                        Some(d) => d@,
                        None => "yuha-remote"@,
                    },
                }
                &&& l.args@.len() == 1
                &&& l.args@[0]@ == "--stdio"@
                &&& l.working_dir == self.settings().client.working_dir
            },
            r.tcp.is_none(),
            r.wsl.is_none(),
            is_general_with(r.general, self.settings().client.max_retries, Map::empty()),
    {
        let effective_path = match binary_path {
            Some(b) => b,
            None => match &self.config.client.default_binary_path {
                Some(d) => d.clone(),
                None => String::from_str("yuha-remote"),
            },
        };
        let mut args: Vec<String> = Vec::new();
        args.push(String::from_str("--stdio"));
        let mut general = GeneralTransportConfig::default();
        general.max_retries = self.config.client.max_retries;
        TransportConfig {
            transport_type: TransportType::Local,
            ssh: None,
            local: Some(
                LocalConfig {
                    binary_path: effective_path,
                    args,
                    working_dir: clone_opt(&self.config.client.working_dir),
                },
            ),
            tcp: None,
            wsl: None,
            general,
        }
    }

    /// A TCP transport configuration with the client's timeout and retries, keep-alive on, and
    /// default TLS settings when TLS is asked for.
    pub fn create_tcp_config(&self, host: String, port: u16, use_tls: bool) -> (r: TransportConfig)
        ensures
            r.transport_type == TransportType::Tcp,
            r.ssh.is_none(),
            r.local.is_none(),
            r.tcp matches Some(t) && {
                &&& t.host == host
                &&& t.port == port
                &&& t.timeout == self.settings().client.connection_timeout
                &&& t.keepalive
                &&& (match t.tls {
                    Some(tls) => use_tls && !tls.enabled && tls.verify_cert && tls.client_cert.is_none()
                        && tls.client_key.is_none() && tls.ca_cert.is_none(),
                    None => !use_tls,
                })
            },
            r.wsl.is_none(),
            is_general_with(r.general, self.settings().client.max_retries, Map::empty()),
    {
        let tls = if use_tls {
            Some(TlsConfig::default())
        } else {
            None
        };
        let mut general = GeneralTransportConfig::default();
        general.max_retries = self.config.client.max_retries;
        TransportConfig {
            transport_type: TransportType::Tcp,
            ssh: None,
            local: None,
            tcp: Some(
                TcpTransportConfig {
                    host,
                    port,
                    timeout: self.config.client.connection_timeout,
                    keepalive: true,
                    tls,
                },
            ),
            wsl: None,
            general,
        }
    }

    /// A WSL transport configuration with the client's retries.
    pub fn create_wsl_config(
        &self,
        distribution: Option<String>,
        user: Option<String>,
        binary_path: Option<String>,
    ) -> (r: TransportConfig)
        ensures
            r.transport_type == TransportType::Wsl,
            r.ssh.is_none(),
            r.local.is_none(),
            r.tcp.is_none(),
            r.wsl == Some((WslConfig { distribution, user, binary_path, working_dir: None })),
            is_general_with(r.general, self.settings().client.max_retries, Map::empty()),
    {
        let mut general = GeneralTransportConfig::default();
        general.max_retries = self.config.client.max_retries;
        TransportConfig {
            transport_type: TransportType::Wsl,
            ssh: None,
            local: None,
            tcp: None,
            wsl: Some(WslConfig { distribution, user, binary_path, working_dir: None }),
            general,
        }
    }

    fn is_wsl_available(&self) -> (r: bool)
        ensures
            !r,
    {
        false
    }

    /// The best transport here: WSL on Windows where it is installed, else local. WSL is never
    /// found installed, so this is the local configuration of `create_local_config(None)`.
    pub fn auto_detect_transport(&self) -> (r: Result<TransportConfig, YuhaError>)
        ensures
            r matches Ok(c) && {
                &&& c.transport_type == TransportType::Local
                &&& c.ssh.is_none()
                &&& c.local matches Some(l) && {
                    &&& l.binary_path@ == match self.settings().client.default_binary_path {
                        Some(d) => d@,
                        None => "yuha-remote"@,
                    }
                    &&& l.args@.len() == 1
                    &&& l.args@[0]@ == "--stdio"@
                    &&& l.working_dir == self.settings().client.working_dir
                }
                &&& c.tcp.is_none()
                &&& c.wsl.is_none()
                &&& is_general_with(c.general, self.settings().client.max_retries, Map::empty())
            },
    {
        if target_is_windows() && self.is_wsl_available() {
            return Ok(self.create_wsl_config(None, None, None));
        }
        Ok(self.create_local_config(None))
    }

    /// Validates a configuration, given whether the local binary exists and whether the
    /// platform is Windows.
    pub fn validate_config_with(
        &self,
        config: &TransportConfig,
        binary_exists: bool,
        windows: bool,
    ) -> (r: Result<(), YuhaError>)
        ensures
            setup_validated(*config, binary_exists, windows, r),
    {
        match config.transport_type {
            TransportType::Ssh => {
                let ssh = match &config.ssh {
                    Some(ssh) => ssh,
                    None => {
                        return Err(YuhaError::config("SSH transport requires SSH configuration"));
                    },
                };
                if ssh.host.as_str().is_empty() {
                    return Err(YuhaError::config("SSH host cannot be empty"));
                }
                if ssh.username.as_str().is_empty() {
                    return Err(YuhaError::config("SSH username cannot be empty"));
                }
                if ssh.password.is_none() && ssh.key_path.is_none() {
                    return Err(
                        YuhaError::config(
                            "SSH transport requires either password or key authentication",
                        ),
                    );
                }
            },
            TransportType::Local => {
                let local = match &config.local {
                    Some(local) => local,
                    None => {
                        return Err(
                            YuhaError::config("Local transport requires local configuration"),
                        );
                    },
                };
                if !binary_exists {
                    let m = concat2("Local binary not found: ", local.binary_path.as_str());
                    return Err(YuhaError::config(m.as_str()));
                }
            },
            TransportType::Tcp => {
                let tcp = match &config.tcp {
                    Some(tcp) => tcp,
                    None => {
                        return Err(YuhaError::config("TCP transport requires TCP configuration"));
                    },
                };
                if tcp.host.as_str().is_empty() {
                    return Err(YuhaError::config("TCP host cannot be empty"));
                }
                if tcp.port == 0 {
                    return Err(YuhaError::config("TCP port cannot be 0"));
                }
            },
            TransportType::Wsl => {
                if config.wsl.is_none() {
                    return Err(YuhaError::config("WSL transport requires WSL configuration"));
                }
                if !windows {
                    return Err(YuhaError::config("WSL transport is only available on Windows"));
                }
            },
        }
        Ok(())
    }

    /// Validates a configuration: SSH needs a host, a user and a password or key; the local
    /// binary must exist; TCP needs a host and a port; WSL needs Windows.
    pub fn validate_config(&self, config: &TransportConfig) -> (r: Result<(), YuhaError>)
        ensures
            exists|binary_exists: bool, windows: bool|
                setup_validated(*config, binary_exists, windows, r),
    {
        let binary_exists = match (&config.transport_type, &config.local) {
            (TransportType::Local, Some(local)) => path_exists(local.binary_path.as_str()),
            _ => true,
        };
        let windows = match (&config.transport_type, &config.wsl) {
            (TransportType::Wsl, Some(_)) => target_is_windows(),
            _ => true,
        };
        let r = self.validate_config_with(config, binary_exists, windows);
        assert(setup_validated(*config, binary_exists, windows, r));
        r
    }
}

impl From<config::SshConfig> for SshConfig {
    /// The SSH transport settings of a profile's SSH settings, with a 30 s timeout and a 60 s
    /// keep-alive.
    fn from(config: config::SshConfig) -> (r: Self) {
        SshConfig {
            host: config.host,
            port: config.port,
            username: config.username,
            password: config.password,
            key_path: config.key_path,
            auto_upload_binary: config.auto_upload_binary,
            timeout: 30,
            keepalive: 60,
        }
    }
}

impl vstd::std_specs::convert::FromSpecImpl<config::SshConfig> for SshConfig {
    open spec fn obeys_from_spec() -> bool {
        true
    }

    open spec fn from_spec(config: config::SshConfig) -> Self {
        ssh_from_profile(config, 30)
    }
}

impl From<config::LocalConfig> for LocalConfig {
    /// The local transport settings of a profile's local settings.
    fn from(config: config::LocalConfig) -> (r: Self) {
        LocalConfig {
            binary_path: config.binary_path,
            args: config.args,
            working_dir: config.working_dir,
        }
    }
}

impl vstd::std_specs::convert::FromSpecImpl<config::LocalConfig> for LocalConfig {
    open spec fn obeys_from_spec() -> bool {
        true
    }

    open spec fn from_spec(config: config::LocalConfig) -> Self {
        LocalConfig {
            binary_path: config.binary_path,
            args: config.args,
            working_dir: config.working_dir,
        }
    }
}

} // verus!
