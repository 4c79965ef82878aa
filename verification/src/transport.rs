//! Transport configuration shared by every kind of connection.
use vstd::prelude::*;

use crate::error::{TransportError, YuhaError};
use crate::keyed::KeyedList;
use crate::platform::target_is_windows;
use crate::text::{decimal, u64_to_decimal};

pub mod builder;
pub mod factory;
pub mod setup;
pub mod types;

pub use builder::TransportBuilder;
pub use factory::TransportFactory;
pub use types::{ConnectionState, TransportCapabilities, TransportType};

verus! {

/// A transport configuration for any kind of transport.
#[derive(Debug, Clone)]
pub struct TransportConfig {
    /// The kind of transport to use.
    pub transport_type: TransportType,
    /// SSH settings, for the SSH transport.
    pub ssh: Option<SshConfig>,
    /// Local process settings, for the local transport.
    pub local: Option<LocalConfig>,
    /// TCP settings, for the TCP transport.
    pub tcp: Option<TcpConfig>,
    /// WSL settings, for the WSL transport.
    pub wsl: Option<WslConfig>,
    /// Settings for every transport.
    pub general: GeneralConfig,
}

/// SSH transport settings.
#[derive(Debug, Clone)]
pub struct SshConfig {
    /// The remote host.
    pub host: String,
    /// The SSH port.
    pub port: u16,
    /// The user name.
    pub username: String,
    /// A password, if password authentication is used.
    pub password: Option<String>,
    /// The private key file, if key authentication is used.
    pub key_path: Option<String>,
    /// Whether to upload the remote binary when it is missing.
    pub auto_upload_binary: bool,
    /// Connection timeout in seconds.
    pub timeout: u64,
    /// Keep-alive interval in seconds.
    pub keepalive: u64,
}

/// Local process transport settings.
#[derive(Debug, Clone)]
pub struct LocalConfig {
    /// Path of the remote binary.
    pub binary_path: String,
    /// Command line arguments.
    pub args: Vec<String>,
    /// Working directory of the process.
    pub working_dir: Option<String>,
}

/// TCP transport settings.
#[derive(Debug, Clone)]
pub struct TcpConfig {
    /// The target host.
    pub host: String,
    /// The target port.
    pub port: u16,
    /// Connection timeout in seconds.
    pub timeout: u64,
    /// TLS settings.
    pub tls: Option<TlsConfig>,
}

/// TLS settings of the TCP transport.
#[derive(Debug, Clone)]
pub struct TlsConfig {
    /// Whether TLS is used.
    pub enabled: bool,
    /// Whether the server certificate is verified.
    pub verify_cert: bool,
    /// The client certificate file.
    pub client_cert: Option<String>,
    /// The client private key file.
    pub client_key: Option<String>,
    /// The CA certificate file.
    pub ca_cert: Option<String>,
}

/// WSL transport settings.
#[derive(Debug, Clone)]
pub struct WslConfig {
    /// The WSL distribution.
    pub distribution: Option<String>,
    /// The user to run as.
    pub user: Option<String>,
    /// Path of the remote binary inside WSL.
    pub binary_path: Option<String>,
    /// Working directory inside WSL.
    pub working_dir: Option<String>,
}

/// Settings for every transport.
#[derive(Debug, Clone)]
pub struct GeneralConfig {
    /// Maximum number of retries.
    pub max_retries: u32,
    /// Delay between retries in milliseconds.
    pub retry_delay: u64,
    /// Environment variables to set.
    pub env_vars: KeyedList<String, String>,
    /// The remote binary's path, when it differs from the default.
    pub remote_binary_path: Option<String>,
}

/// What a transport says about itself.
#[derive(Debug, Clone)]
pub struct TransportMetadata {
    /// The kind of transport.
    pub transport_type: TransportType,
    /// A description of the connection.
    pub connection_string: String,
    /// Whether the connection is encrypted.
    pub is_secure: bool,
    /// Whether the transport uploads the remote binary.
    pub supports_auto_upload: bool,
    /// Whether the transport exists only on some platforms.
    pub platform_specific: bool,
}

fn default_ssh_port() -> (r: u16)
    ensures
        r == 22,
{
    22
}

fn default_timeout() -> (r: u64)
    ensures
        r == 30,
{
    30
}

fn default_keepalive() -> (r: u64)
    ensures
        r == 60,
{
    60
}

fn default_max_retries() -> (r: u32)
    ensures
        r == 3,
{
    3
}

fn default_retry_delay() -> (r: u64)
    ensures
        r == 1000,
{
    1000
}

fn default_tls_verify() -> (r: bool)
    ensures
        r,
{
    true
}

/// The default local transport settings: binary `yuha-remote` with argument `--stdio`.
pub open spec fn is_default_local(l: LocalConfig) -> bool {
    &&& l.binary_path@ == "yuha-remote"@
    &&& l.args@.len() == 1
    &&& l.args@[0]@ == "--stdio"@
    &&& l.working_dir.is_none()
}

/// The default settings for every transport: 3 retries 1000 ms apart, no variables.
pub open spec fn is_default_general(g: GeneralConfig) -> bool {
    &&& g.max_retries == 3
    &&& g.retry_delay == 1000
    &&& g.env_vars@ == Map::<Seq<char>, String>::empty()
    &&& g.remote_binary_path.is_none()
}

impl Default for LocalConfig {
    fn default() -> (r: Self)
        ensures
            is_default_local(r),
    {
        let mut args = Vec::new();
        args.push(String::from_str("--stdio"));
        LocalConfig { binary_path: String::from_str("yuha-remote"), args, working_dir: None }
    }
}

impl Default for GeneralConfig {
    fn default() -> (r: Self)
        ensures
            is_default_general(r),
    {
        GeneralConfig {
            max_retries: default_max_retries(),
            retry_delay: default_retry_delay(),
            env_vars: KeyedList::new(),
            remote_binary_path: None,
        }
    }
}

impl Default for TlsConfig {
    fn default() -> (r: Self)
        ensures
            !r.enabled,
            r.verify_cert,
            r.client_cert.is_none(),
            r.client_key.is_none(),
            r.ca_cert.is_none(),
    {
        TlsConfig {
            enabled: false,
            verify_cert: default_tls_verify(),
            client_cert: None,
            client_key: None,
            ca_cert: None,
        }
    }
}

impl Default for TransportConfig {
    fn default() -> (r: Self)
        ensures
            r.transport_type == TransportType::Local,
            r.local matches Some(l) && is_default_local(l),
            r.ssh.is_none(),
            r.tcp.is_none(),
            r.wsl.is_none(),
            is_default_general(r.general),
    {
        TransportConfig {
            transport_type: TransportType::Local,
            ssh: None,
            local: Some(LocalConfig::default()),
            tcp: None,
            wsl: None,
            general: GeneralConfig::default(),
        }
    }
}

/// The text of an optional name, or `default` when there is none.
pub open spec fn or_default(o: Option<String>) -> Seq<char> {
    match o {
        Some(s) => s@,
        None => "default"@,
    }
}

/// The key that identifies connections to the same place.
pub open spec fn connection_key_of(c: TransportConfig) -> Seq<char> {
    match c.transport_type {
        TransportType::Ssh => match c.ssh {
            Some(ssh) => "ssh://"@ + ssh.username@ + "@"@ + ssh.host@ + ":"@ + decimal(ssh.port as nat),
            None => "ssh://unknown"@,
        },
        TransportType::Local => match c.local {
            Some(local) => "local://"@ + local.binary_path@,
            None => "local://unknown"@,
        },
        TransportType::Tcp => match c.tcp {
            Some(tcp) => (if tcp.tls matches Some(t) && t.enabled {
                "tcps"@
            } else {
                "tcp"@
            }) + "://"@ + tcp.host@ + ":"@ + decimal(tcp.port as nat),
            None => "tcp://unknown"@,
        },
        TransportType::Wsl => match c.wsl {
            Some(wsl) => "wsl://"@ + or_default(wsl.user) + "@"@ + or_default(wsl.distribution),
            None => "wsl://default"@,
        },
    }
}

/// A TCP connection with TLS enabled is keyed under `tcps://` and one without under `tcp://`,
/// so two TCP configurations that differ in whether TLS is on never share a connection key,
/// whatever their hosts and ports.
pub proof fn lemma_tls_keys_apart(c: TransportConfig, d: TransportConfig)
    requires
        c.transport_type == TransportType::Tcp,
        d.transport_type == TransportType::Tcp,
        c.tcp is Some,
        d.tcp is Some,
    ensures
        (c.tcp.unwrap().tls matches Some(t) && t.enabled) ==> connection_key_of(c).len() >= 7
            && connection_key_of(c).subrange(0, 7) == "tcps://"@,
        !(c.tcp.unwrap().tls matches Some(t) && t.enabled) ==> connection_key_of(c).len() >= 6
            && connection_key_of(c).subrange(0, 6) == "tcp://"@,
        (c.tcp.unwrap().tls matches Some(t) && t.enabled) != (d.tcp.unwrap().tls matches Some(
            t,
        ) && t.enabled) ==> connection_key_of(c) != connection_key_of(d),
{
    reveal_strlit("tcps");
    reveal_strlit("tcp");
    reveal_strlit("://");
    reveal_strlit("tcps://");
    reveal_strlit("tcp://");
    lemma_tcp_key_prefix(c);
    lemma_tcp_key_prefix(d);
    let kc = connection_key_of(c);
    let kd = connection_key_of(d);
    if (c.tcp.unwrap().tls matches Some(t) && t.enabled) != (d.tcp.unwrap().tls matches Some(t)
        && t.enabled) {
        if c.tcp.unwrap().tls matches Some(t) && t.enabled {
            assert(kc.subrange(0, 7)[3] == 's');
            assert(kd.subrange(0, 6)[3] == ':');
            assert(kc[3] != kd[3]);
        } else {
            assert(kd.subrange(0, 7)[3] == 's');
            assert(kc.subrange(0, 6)[3] == ':');
            assert(kc[3] != kd[3]);
        }
    }
}

proof fn lemma_tcp_key_prefix(c: TransportConfig)
    requires
        c.transport_type == TransportType::Tcp,
        c.tcp is Some,
    ensures
        (c.tcp.unwrap().tls matches Some(t) && t.enabled) ==> connection_key_of(c).len() >= 7
            && connection_key_of(c).subrange(0, 7) == "tcps://"@,
        !(c.tcp.unwrap().tls matches Some(t) && t.enabled) ==> connection_key_of(c).len() >= 6
            && connection_key_of(c).subrange(0, 6) == "tcp://"@,
{
    reveal_strlit("tcps");
    reveal_strlit("tcp");
    reveal_strlit("://");
    reveal_strlit("tcps://");
    reveal_strlit("tcp://");
    let tcp = c.tcp.unwrap();
    if tcp.tls matches Some(t) && t.enabled {
        assert(connection_key_of(c) == "tcps"@ + "://"@ + tcp.host@ + ":"@ + decimal(tcp.port as nat));
        assert(connection_key_of(c).subrange(0, 7) =~= "tcps://"@);
    } else {
        assert(connection_key_of(c) == "tcp"@ + "://"@ + tcp.host@ + ":"@ + decimal(tcp.port as nat));
        assert(connection_key_of(c).subrange(0, 6) =~= "tcp://"@);
    }
}

/// Why a configuration is refused, given whether the platform is Windows: whether the
/// transport is unavailable (rather than misconfigured), and the reason. A local configuration
/// needs only its local settings; whether its binary exists is found when it is started.
pub open spec fn validation_failure(c: TransportConfig, windows: bool) -> Option<
    (bool, Seq<char>),
> {
    match c.transport_type {
        TransportType::Ssh => match c.ssh {
            None => Some((false, "SSH transport requires SSH configuration"@)),
            Some(ssh) => if ssh.host@.len() == 0 {
                Some((false, "SSH host cannot be empty"@))
            } else if ssh.username@.len() == 0 {
                Some((false, "SSH username cannot be empty"@))
            } else if ssh.password.is_none() && ssh.key_path.is_none() {
                Some((false, "SSH transport requires either password or key authentication"@))
            } else {
                None
            },
        },
        TransportType::Local => match c.local {
            None => Some((false, "Local transport requires local configuration"@)),
            Some(_) => None,
        },
        TransportType::Tcp => match c.tcp {
            None => Some((false, "TCP transport requires TCP configuration"@)),
            Some(tcp) => if tcp.host@.len() == 0 {
                Some((false, "TCP host cannot be empty"@))
            } else if tcp.port == 0 {
                Some((false, "TCP port cannot be 0"@))
            } else {
                None
            },
        },
        TransportType::Wsl => if !windows {
            Some((true, "WSL is only available on Windows"@))
        } else {
            None
        },
    }
}

/// Whether a validation result is the one that a configuration calls for.
pub open spec fn validated(
    c: TransportConfig,
    windows: bool,
    r: Result<(), YuhaError>,
) -> bool {
    match validation_failure(c, windows) {
        None => r is Ok,
        Some((unavailable, m)) => if unavailable {
            r matches Err(YuhaError::Transport(TransportError::NotAvailable { transport_type, reason }))
                && transport_type@ == "WSL"@ && reason@ == m
        } else {
            r matches Err(YuhaError::Transport(TransportError::ConfigurationError { reason }))
                && reason@ == m
        },
    }
}

/// An SSH configuration with a host and a user is accepted as soon as it has a key or a
/// password (or both); it is refused for want of authentication only when it has neither.
pub proof fn lemma_ssh_key_or_password_suffices(c: TransportConfig, windows: bool)
    requires
        c.transport_type == TransportType::Ssh,
        c.ssh matches Some(ssh) && ssh.host@.len() > 0 && ssh.username@.len() > 0,
    ensures
        c.ssh.unwrap().key_path is Some ==> validation_failure(c, windows) is None,
        c.ssh.unwrap().password is Some ==> validation_failure(c, windows) is None,
        c.ssh.unwrap().key_path is None && c.ssh.unwrap().password is None ==> validation_failure(
            c,
            windows,
        ) == Some((false, "SSH transport requires either password or key authentication"@)),
        forall|r: Result<(), YuhaError>|
            c.ssh.unwrap().key_path is Some && #[trigger] validated(c, windows, r) ==> r is Ok,
{
}

fn config_error(reason: &str) -> (r: YuhaError)
    ensures
        r matches YuhaError::Transport(TransportError::ConfigurationError { reason: m }) && m@
            == reason@,
{
    YuhaError::Transport(TransportError::ConfigurationError { reason: String::from_str(reason) })
}

impl TransportConfig {
    /// The key that identifies connections to the same place, such as `ssh://user@host:22`.
    pub fn connection_key(&self) -> (r: String)
        ensures
            r@ == connection_key_of(*self),
    {
        match self.transport_type {
            TransportType::Ssh => match &self.ssh {
                Some(ssh) => {
                    let mut s = String::from_str("ssh://");
                    s.append(ssh.username.as_str());
                    s.append("@");
                    s.append(ssh.host.as_str());
                    s.append(":");
                    let p = u64_to_decimal(ssh.port as u64);
                    s.append(p.as_str());
                    s
                },
                None => String::from_str("ssh://unknown"),
            },
            TransportType::Local => match &self.local {
                Some(local) => {
                    let mut s = String::from_str("local://");
                    s.append(local.binary_path.as_str());
                    s
                },
                None => String::from_str("local://unknown"),
            },
            TransportType::Tcp => match &self.tcp {
                Some(tcp) => {
                    let secure = match &tcp.tls {
                        Some(t) => t.enabled,
                        None => false,
                    };
                    let mut s = if secure {
                        String::from_str("tcps")
                    } else {
                        String::from_str("tcp")
                    };
                    s.append("://");
                    s.append(tcp.host.as_str());
                    s.append(":");
                    let p = u64_to_decimal(tcp.port as u64);
                    s.append(p.as_str());
                    s
                },
                None => String::from_str("tcp://unknown"),
            },
            TransportType::Wsl => match &self.wsl {
                Some(wsl) => {
                    let mut s = String::from_str("wsl://");
                    match &wsl.user {
                        Some(u) => s.append(u.as_str()),
                        None => s.append("default"),
                    }
                    s.append("@");
                    match &wsl.distribution {
                        Some(d) => s.append(d.as_str()),
                        None => s.append("default"),
                    }
                    s
                },
                None => String::from_str("wsl://default"),
            },
        }
    }

    /// Validates the configuration, given whether the platform is Windows.
    pub fn validate_with(&self, windows: bool) -> (r: Result<(), YuhaError>)
        ensures
            validated(*self, windows, r),
    {
        match self.transport_type {
            TransportType::Ssh => {
                let ssh = match &self.ssh {
                    Some(ssh) => ssh,
                    None => {
                        return Err(config_error("SSH transport requires SSH configuration"));
                    },
                };
                if ssh.host.as_str().is_empty() {
                    return Err(config_error("SSH host cannot be empty"));
                }
                if ssh.username.as_str().is_empty() {
                    return Err(config_error("SSH username cannot be empty"));
                }
                if ssh.password.is_none() && ssh.key_path.is_none() {
                    return Err(
                        config_error("SSH transport requires either password or key authentication"),
                    );
                }
            },
            TransportType::Local => {
                if self.local.is_none() {
                    return Err(config_error("Local transport requires local configuration"));
                }
            },
            TransportType::Tcp => {
                let tcp = match &self.tcp {
                    Some(tcp) => tcp,
                    None => {
                        return Err(config_error("TCP transport requires TCP configuration"));
                    },
                };
                if tcp.host.as_str().is_empty() {
                    return Err(config_error("TCP host cannot be empty"));
                }
                if tcp.port == 0 {
                    return Err(config_error("TCP port cannot be 0"));
                }
            },
            TransportType::Wsl => {
                if !windows {
                    return Err(
                        YuhaError::Transport(
                            TransportError::NotAvailable {
                                transport_type: String::from_str("WSL"),
                                reason: String::from_str("WSL is only available on Windows"),
                            },
                        ),
                    );
                }
            },
        }
        Ok(())
    }

    /// Validates the configuration: SSH needs a host, a user and a password or key, TCP a host
    /// and a port, a local transport its local settings, and WSL is accepted only on Windows.
    pub fn validate(&self) -> (r: Result<(), YuhaError>)
        ensures
            exists|windows: bool| validated(*self, windows, r),
    {
        let windows = match self.transport_type {
            TransportType::Wsl => target_is_windows(),
            _ => false,
        };
        let r = self.validate_with(windows);
        assert(validated(*self, windows, r));
        r
    }

    /// Whether the transport kind can be used, given whether the platform is Windows.
    pub fn is_available_on(&self, windows: bool) -> (r: bool)
        ensures
            r == (self.transport_type != TransportType::Wsl || windows),
    {
        match self.transport_type {
            TransportType::Ssh | TransportType::Local | TransportType::Tcp => true,
            TransportType::Wsl => windows,
        }
    }

    /// Whether the transport kind can be used on this platform; only WSL depends on it.
    pub fn is_available(&self) -> (r: bool)
        ensures
            self.transport_type != TransportType::Wsl ==> r,
    {
        self.is_available_on(target_is_windows())
    }
}

} // verus!
