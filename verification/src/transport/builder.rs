//! Builders for transport configurations.
use vstd::prelude::*;

use super::{
    GeneralConfig, LocalConfig, SshConfig, TcpConfig, TlsConfig, TransportConfig, TransportType,
    WslConfig, is_default_general, is_default_local, validated,
};
use crate::error::YuhaError;

verus! {

/// A build result taken as a validation result: `Ok(())` for a configuration, the error as it is.
pub open spec fn as_unit(r: Result<TransportConfig, YuhaError>) -> Result<(), YuhaError> {
    match r {
        Ok(_) => Ok(()),
        Err(e) => Err(e),
    }
}

/// Whether a build result is the assembled configuration checked by validation, given whether
/// the platform is Windows: the configuration itself where validation passes, and the error
/// that validation gives otherwise.
pub open spec fn checked(
    assembled: TransportConfig,
    windows: bool,
    r: Result<TransportConfig, YuhaError>,
) -> bool {
    &&& validated(assembled, windows, as_unit(r))
    &&& (r is Ok ==> r == Ok::<TransportConfig, YuhaError>(assembled))
}

/// Whether a build result is the assembled configuration checked by
/// `TransportConfig::validate` on this platform.
pub open spec fn built(assembled: TransportConfig, r: Result<TransportConfig, YuhaError>) -> bool {
    exists|windows: bool| checked(assembled, windows, r)
}

fn finish(config: TransportConfig) -> (r: Result<TransportConfig, YuhaError>)
    ensures
        built(config, r),
{
    let v = config.validate();
    let ghost windows = choose|windows: bool| validated(config, windows, v);
    let r = match v {
        Ok(()) => Ok(config),
        Err(e) => Err(e),
    };
    assert(checked(config, windows, r));
    r
}

/// Builds a transport configuration of any kind.
pub struct TransportBuilder {
    config: TransportConfig,
}

impl View for TransportBuilder {
    type V = TransportConfig;

    closed spec fn view(&self) -> TransportConfig {
        self.config
    }
}

impl TransportBuilder {
    /// A builder starting from the default (local) configuration.
    pub fn new() -> (r: Self)
        ensures
            r@.transport_type == TransportType::Local,
            r@.local matches Some(l) && is_default_local(l),
            r@.ssh.is_none(),
            r@.tcp.is_none(),
            r@.wsl.is_none(),
            is_default_general(r@.general),
    {
        TransportBuilder { config: TransportConfig::default() }
    }

    /// A builder for an SSH configuration.
    pub fn ssh() -> (r: SshTransportBuilder)
        ensures
            r@.0.host@.len() == 0,
            r@.0.port == 22,
            r@.0.username@.len() == 0,
            r@.0.password.is_none(),
            r@.0.key_path.is_none(),
            !r@.0.auto_upload_binary,
            r@.0.timeout == 30,
            r@.0.keepalive == 60,
            is_default_general(r@.1),
    {
        SshTransportBuilder::new()
    }

    /// A builder for a local configuration.
    pub fn local() -> (r: LocalTransportBuilder)
        ensures
            is_default_local(r@.0),
            is_default_general(r@.1),
    {
        LocalTransportBuilder::new()
    }

    /// A builder for a TCP configuration.
    pub fn tcp() -> (r: TcpTransportBuilder)
        ensures
            r@.0.host@.len() == 0,
            r@.0.port == 0,
            r@.0.timeout == 30,
            r@.0.tls.is_none(),
            is_default_general(r@.1),
    {
        TcpTransportBuilder::new()
    }

    /// A builder for a WSL configuration.
    pub fn wsl() -> (r: WslTransportBuilder)
        ensures
            r@.0.distribution.is_none(),
            r@.0.user.is_none(),
            r@.0.binary_path.is_none(),
            r@.0.working_dir.is_none(),
            is_default_general(r@.1),
    {
        WslTransportBuilder::new()
    }

    /// Replaces the settings for every transport.
    pub fn with_general(self, general: GeneralConfig) -> (r: Self)
        ensures
            r@ == (TransportConfig { general, ..self@ }),
    {
        let mut b = self;
        b.config.general = general;
        b
    }

    /// Adds an environment variable.
    pub fn with_env_var(self, key: &str, value: &str) -> (r: Self)
        ensures
            r@.general.env_vars@ == self@.general.env_vars@.insert(
                key@,
                r@.general.env_vars@[key@],
            ),
            r@.general.env_vars@[key@]@ == value@,
            r@ == (TransportConfig {
                general: GeneralConfig { env_vars: r@.general.env_vars, ..self@.general },
                ..self@
            }),
    {
        let mut b = self;
        b.config.general.env_vars.insert(String::from_str(key), String::from_str(value));
        b
    }

    /// Sets the retry count and the delay between retries in milliseconds.
    pub fn with_retries(self, max_retries: u32, retry_delay: u64) -> (r: Self)
        ensures
            r@ == (TransportConfig {
                general: GeneralConfig { max_retries, retry_delay, ..self@.general },
                ..self@
            }),
    {
        let mut b = self;
        b.config.general.max_retries = max_retries;
        b.config.general.retry_delay = retry_delay;
        b
    }

    /// The configuration, once `TransportConfig::validate` accepts it; its error otherwise.
    pub fn build(self) -> (r: Result<TransportConfig, YuhaError>)
        ensures
            built(self@, r),
    {
        finish(self.config)
    }
}

impl Default for TransportBuilder {
    fn default() -> (r: Self)
        ensures
            r@.transport_type == TransportType::Local,
            is_default_general(r@.general),
    {
        Self::new()
    }
}

/// The SSH configuration that a builder holds.
pub open spec fn ssh_assembled(ssh: SshConfig, general: GeneralConfig) -> TransportConfig {
    TransportConfig {
        transport_type: TransportType::Ssh,
        ssh: Some(ssh),
        local: None,
        tcp: None,
        wsl: None,
        general,
    }
}

/// Builds an SSH configuration.
pub struct SshTransportBuilder {
    config: SshConfig,
    general: GeneralConfig,
}

impl View for SshTransportBuilder {
    type V = (SshConfig, GeneralConfig);

    closed spec fn view(&self) -> (SshConfig, GeneralConfig) {
        (self.config, self.general)
    }
}

impl SshTransportBuilder {
    fn new() -> (r: Self)
        ensures
            r@.0.host@.len() == 0,
            r@.0.port == 22,
            r@.0.username@.len() == 0,
            r@.0.password.is_none(),
            r@.0.key_path.is_none(),
            !r@.0.auto_upload_binary,
            r@.0.timeout == 30,
            r@.0.keepalive == 60,
            is_default_general(r@.1),
    {
        SshTransportBuilder {
            config: SshConfig {
                host: String::new(),
                port: 22,
                username: String::new(),
                password: None,
                key_path: None,
                auto_upload_binary: false,
                timeout: 30,
                keepalive: 60,
            },
            general: GeneralConfig::default(),
        }
    }

    /// Sets the host.
    pub fn host(self, host: &str) -> (r: Self)
        ensures
            r@.0 == (SshConfig { host: r@.0.host, ..self@.0 }),
            r@.0.host@ == host@,
            r@.1 == self@.1,
    {
        let mut b = self;
        b.config.host = String::from_str(host);
        b
    }

    /// Sets the port.
    pub fn port(self, port: u16) -> (r: Self)
        ensures
            r@.0 == (SshConfig { port, ..self@.0 }),
            r@.1 == self@.1,
    {
        let mut b = self;
        b.config.port = port;
        b
    }

    /// Sets the user name.
    pub fn username(self, username: &str) -> (r: Self)
        ensures
            r@.0 == (SshConfig { username: r@.0.username, ..self@.0 }),
            r@.0.username@ == username@,
            r@.1 == self@.1,
    {
        let mut b = self;
        b.config.username = String::from_str(username);
        b
    }

    /// Uses password authentication.
    pub fn password(self, password: &str) -> (r: Self)
        ensures
            r@.0 == (SshConfig { password: r@.0.password, ..self@.0 }),
            r@.0.password matches Some(p) && p@ == password@,
            r@.1 == self@.1,
    {
        let mut b = self;
        b.config.password = Some(String::from_str(password));
        b
    }

    /// Uses key authentication with the key file at the path.
    pub fn key_file(self, path: &str) -> (r: Self)
        ensures
            r@.0 == (SshConfig { key_path: r@.0.key_path, ..self@.0 }),
            r@.0.key_path matches Some(p) && p@ == path@,
            r@.1 == self@.1,
    {
        let mut b = self;
        b.config.key_path = Some(String::from_str(path));
        b
    }

    /// Uploads the remote binary when it is missing.
    pub fn auto_upload_binary(self) -> (r: Self)
        ensures
            r@.0 == (SshConfig { auto_upload_binary: true, ..self@.0 }),
            r@.1 == self@.1,
    {
        let mut b = self;
        b.config.auto_upload_binary = true;
        b
    }

    /// Sets the connection timeout in seconds.
    pub fn timeout(self, seconds: u64) -> (r: Self)
        ensures
            r@.0 == (SshConfig { timeout: seconds, ..self@.0 }),
            r@.1 == self@.1,
    {
        let mut b = self;
        b.config.timeout = seconds;
        b
    }

    /// Sets the keep-alive interval in seconds.
    pub fn keepalive(self, seconds: u64) -> (r: Self)
        ensures
            r@.0 == (SshConfig { keepalive: seconds, ..self@.0 }),
            r@.1 == self@.1,
    {
        let mut b = self;
        b.config.keepalive = seconds;
        b
    }

    /// Adds an environment variable.
    pub fn with_env_var(self, key: &str, value: &str) -> (r: Self)
        ensures
            r@.0 == self@.0,
            r@.1.env_vars@ == self@.1.env_vars@.insert(key@, r@.1.env_vars@[key@]),
            r@.1.env_vars@[key@]@ == value@,
            r@.1 == (GeneralConfig { env_vars: r@.1.env_vars, ..self@.1 }),
    {
        let mut b = self;
        b.general.env_vars.insert(String::from_str(key), String::from_str(value));
        b
    }

    /// The SSH configuration, as assembled; it is not validated here, so that a configuration
    /// can be built first and completed or checked later.
    pub fn build(self) -> (r: Result<TransportConfig, YuhaError>)
        ensures
            r == Ok::<TransportConfig, YuhaError>(ssh_assembled(self@.0, self@.1)),
    {
        let config = TransportConfig {
            transport_type: TransportType::Ssh,
            ssh: Some(self.config),
            local: None,
            tcp: None,
            wsl: None,
            general: self.general,
        };
        Ok(config)
    }
}

/// The local configuration that a builder holds.
pub open spec fn local_assembled(local: LocalConfig, general: GeneralConfig) -> TransportConfig {
    TransportConfig {
        transport_type: TransportType::Local,
        ssh: None,
        local: Some(local),
        tcp: None,
        wsl: None,
        general,
    }
}

/// Builds a local process configuration.
pub struct LocalTransportBuilder {
    config: LocalConfig,
    general: GeneralConfig,
}

impl View for LocalTransportBuilder {
    type V = (LocalConfig, GeneralConfig);

    closed spec fn view(&self) -> (LocalConfig, GeneralConfig) {
        (self.config, self.general)
    }
}

impl LocalTransportBuilder {
    fn new() -> (r: Self)
        ensures
            is_default_local(r@.0),
            is_default_general(r@.1),
    {
        LocalTransportBuilder { config: LocalConfig::default(), general: GeneralConfig::default() }
    }

    /// Sets the path of the remote binary.
    pub fn binary_path(self, path: &str) -> (r: Self)
        ensures
            r@.0 == (LocalConfig { binary_path: r@.0.binary_path, ..self@.0 }),
            r@.0.binary_path@ == path@,
            r@.1 == self@.1,
    {
        let mut b = self;
        b.config.binary_path = String::from_str(path);
        b
    }

    /// Appends a command line argument.
    pub fn arg(self, arg: &str) -> (r: Self)
        ensures
            r@.0 == (LocalConfig { args: r@.0.args, ..self@.0 }),
            r@.0.args@.len() == self@.0.args@.len() + 1,
            r@.0.args@.drop_last() == self@.0.args@,
            r@.0.args@.last()@ == arg@,
            r@.1 == self@.1,
    {
        let mut b = self;
        b.config.args.push(String::from_str(arg));
        proof {
            assert(b.config.args@.drop_last() =~= self@.0.args@);
        }
        b
    }

    /// Replaces the command line arguments.
    pub fn args(self, args: &[&str]) -> (r: Self)
        ensures
            r@.0 == (LocalConfig { args: r@.0.args, ..self@.0 }),
            r@.0.args@.len() == args@.len(),
            forall|i: int| 0 <= i < args@.len() ==> #[trigger] r@.0.args@[i]@ == args@[i]@,
            r@.1 == self@.1,
    {
        let mut v: Vec<String> = Vec::new();
        let mut i: usize = 0;
        while i < args.len()
            invariant
                i <= args@.len(),
                v@.len() == i,
                forall|j: int| 0 <= j < i ==> #[trigger] v@[j]@ == args@[j]@,
            decreases args@.len() - i,
        {
            v.push(String::from_str(args[i]));
            i = i + 1;
        }
        let mut b = self;
        b.config.args = v;
        b
    }

    /// Sets the working directory.
    pub fn working_dir(self, path: &str) -> (r: Self)
        ensures
            r@.0 == (LocalConfig { working_dir: r@.0.working_dir, ..self@.0 }),
            r@.0.working_dir matches Some(p) && p@ == path@,
            r@.1 == self@.1,
    {
        let mut b = self;
        b.config.working_dir = Some(String::from_str(path));
        b
    }

    /// Adds an environment variable.
    pub fn with_env_var(self, key: &str, value: &str) -> (r: Self)
        ensures
            r@.0 == self@.0,
            r@.1.env_vars@ == self@.1.env_vars@.insert(key@, r@.1.env_vars@[key@]),
            r@.1.env_vars@[key@]@ == value@,
            r@.1 == (GeneralConfig { env_vars: r@.1.env_vars, ..self@.1 }),
    {
        let mut b = self;
        b.general.env_vars.insert(String::from_str(key), String::from_str(value));
        b
    }

    /// The local configuration, checked by validation, which accepts every local configuration:
    /// whether its binary exists is found when the transport is started.
    pub fn build(self) -> (r: Result<TransportConfig, YuhaError>)
        ensures
            built(local_assembled(self@.0, self@.1), r),
            r == Ok::<TransportConfig, YuhaError>(local_assembled(self@.0, self@.1)),
    {
        let config = TransportConfig {
            transport_type: TransportType::Local,
            ssh: None,
            local: Some(self.config),
            tcp: None,
            wsl: None,
            general: self.general,
        };
        finish(config)
    }
}

/// The TCP configuration that a builder holds.
pub open spec fn tcp_assembled(tcp: TcpConfig, general: GeneralConfig) -> TransportConfig {
    TransportConfig {
        transport_type: TransportType::Tcp,
        ssh: None,
        local: None,
        tcp: Some(tcp),
        wsl: None,
        general,
    }
}

/// Builds a TCP configuration.
pub struct TcpTransportBuilder {
    config: TcpConfig,
    general: GeneralConfig,
}

impl View for TcpTransportBuilder {
    type V = (TcpConfig, GeneralConfig);

    closed spec fn view(&self) -> (TcpConfig, GeneralConfig) {
        (self.config, self.general)
    }
}

impl TcpTransportBuilder {
    fn new() -> (r: Self)
        ensures
            r@.0.host@.len() == 0,
            r@.0.port == 0,
            r@.0.timeout == 30,
            r@.0.tls.is_none(),
            is_default_general(r@.1),
    {
        TcpTransportBuilder {
            config: TcpConfig { host: String::new(), port: 0, timeout: 30, tls: None },
            general: GeneralConfig::default(),
        }
    }

    /// Sets the host.
    pub fn host(self, host: &str) -> (r: Self)
        ensures
            r@.0 == (TcpConfig { host: r@.0.host, ..self@.0 }),
            r@.0.host@ == host@,
            r@.1 == self@.1,
    {
        let mut b = self;
        b.config.host = String::from_str(host);
        b
    }

    /// Sets the port.
    pub fn port(self, port: u16) -> (r: Self)
        ensures
            r@.0 == (TcpConfig { port, ..self@.0 }),
            r@.1 == self@.1,
    {
        let mut b = self;
        b.config.port = port;
        b
    }

    /// Sets the connection timeout in seconds.
    pub fn timeout(self, seconds: u64) -> (r: Self)
        ensures
            r@.0 == (TcpConfig { timeout: seconds, ..self@.0 }),
            r@.1 == self@.1,
    {
        let mut b = self;
        b.config.timeout = seconds;
        b
    }

    /// Continues with TLS settings, starting with TLS on and certificates verified.
    pub fn with_tls(self) -> (r: TlsBuilder)
        ensures
            r@.0 == self@,
            r@.1.enabled,
            r@.1.verify_cert,
            r@.1.client_cert.is_none(),
            r@.1.client_key.is_none(),
            r@.1.ca_cert.is_none(),
    {
        TlsBuilder::new(self)
    }

    /// Adds an environment variable.
    pub fn with_env_var(self, key: &str, value: &str) -> (r: Self)
        ensures
            r@.0 == self@.0,
            r@.1.env_vars@ == self@.1.env_vars@.insert(key@, r@.1.env_vars@[key@]),
            r@.1.env_vars@[key@]@ == value@,
            r@.1 == (GeneralConfig { env_vars: r@.1.env_vars, ..self@.1 }),
    {
        let mut b = self;
        b.general.env_vars.insert(String::from_str(key), String::from_str(value));
        b
    }

    /// The TCP configuration, once validation accepts it: it needs a host and a port.
    pub fn build(self) -> (r: Result<TransportConfig, YuhaError>)
        ensures
            built(tcp_assembled(self@.0, self@.1), r),
            r is Ok <==> self@.0.host@.len() > 0 && self@.0.port != 0,
    {
        let config = TransportConfig {
            transport_type: TransportType::Tcp,
            ssh: None,
            local: None,
            tcp: Some(self.config),
            wsl: None,
            general: self.general,
        };
        finish(config)
    }
}

/// Builds the TLS settings of a TCP configuration.
pub struct TlsBuilder {
    tcp_builder: TcpTransportBuilder,
    tls_config: TlsConfig,
}

impl View for TlsBuilder {
    type V = ((TcpConfig, GeneralConfig), TlsConfig);

    closed spec fn view(&self) -> ((TcpConfig, GeneralConfig), TlsConfig) {
        (self.tcp_builder@, self.tls_config)
    }
}

impl TlsBuilder {
    fn new(tcp_builder: TcpTransportBuilder) -> (r: Self)
        ensures
            r@.0 == tcp_builder@,
            r@.1.enabled,
            r@.1.verify_cert,
            r@.1.client_cert.is_none(),
            r@.1.client_key.is_none(),
            r@.1.ca_cert.is_none(),
    {
        TlsBuilder {
            tcp_builder,
            tls_config: TlsConfig {
                enabled: true,
                verify_cert: true,
                client_cert: None,
                client_key: None,
                ca_cert: None,
            },
        }
    }

    /// Turns certificate verification off.
    pub fn insecure(self) -> (r: Self)
        ensures
            r@.0 == self@.0,
            r@.1 == (TlsConfig { verify_cert: false, ..self@.1 }),
    {
        let mut b = self;
        b.tls_config.verify_cert = false;
        b
    }

    /// Sets the client certificate file.
    pub fn client_cert(self, cert_path: &str) -> (r: Self)
        ensures
            r@.0 == self@.0,
            r@.1 == (TlsConfig { client_cert: r@.1.client_cert, ..self@.1 }),
            r@.1.client_cert matches Some(p) && p@ == cert_path@,
    {
        let mut b = self;
        b.tls_config.client_cert = Some(String::from_str(cert_path));
        b
    }

    /// Sets the client private key file.
    pub fn client_key(self, key_path: &str) -> (r: Self)
        ensures
            r@.0 == self@.0,
            r@.1 == (TlsConfig { client_key: r@.1.client_key, ..self@.1 }),
            r@.1.client_key matches Some(p) && p@ == key_path@,
    {
        let mut b = self;
        b.tls_config.client_key = Some(String::from_str(key_path));
        b
    }

    /// Sets the CA certificate file.
    pub fn ca_cert(self, ca_path: &str) -> (r: Self)
        ensures
            r@.0 == self@.0,
            r@.1 == (TlsConfig { ca_cert: r@.1.ca_cert, ..self@.1 }),
            r@.1.ca_cert matches Some(p) && p@ == ca_path@,
    {
        let mut b = self;
        b.tls_config.ca_cert = Some(String::from_str(ca_path));
        b
    }

    /// Returns to the TCP builder with these TLS settings.
    pub fn done(self) -> (r: TcpTransportBuilder)
        ensures
            r@.0 == (TcpConfig { tls: Some(self@.1), ..self@.0.0 }),
            r@.1 == self@.0.1,
    {
        let mut tcp = self.tcp_builder;
        tcp.config.tls = Some(self.tls_config);
        tcp
    }
}

/// The WSL configuration that a builder holds.
pub open spec fn wsl_assembled(wsl: WslConfig, general: GeneralConfig) -> TransportConfig {
    TransportConfig {
        transport_type: TransportType::Wsl,
        ssh: None,
        local: None,
        tcp: None,
        wsl: Some(wsl),
        general,
    }
}

/// Builds a WSL configuration.
pub struct WslTransportBuilder {
    config: WslConfig,
    general: GeneralConfig,
}

impl View for WslTransportBuilder {
    type V = (WslConfig, GeneralConfig);

    closed spec fn view(&self) -> (WslConfig, GeneralConfig) {
        (self.config, self.general)
    }
}

impl WslTransportBuilder {
    fn new() -> (r: Self)
        ensures
            r@.0.distribution.is_none(),
            r@.0.user.is_none(),
            r@.0.binary_path.is_none(),
            r@.0.working_dir.is_none(),
            is_default_general(r@.1),
    {
        WslTransportBuilder {
            config: WslConfig { distribution: None, user: None, binary_path: None, working_dir: None },
            general: GeneralConfig::default(),
        }
    }

    /// Sets the distribution.
    pub fn distribution(self, distribution: &str) -> (r: Self)
        ensures
            r@.0 == (WslConfig { distribution: r@.0.distribution, ..self@.0 }),
            r@.0.distribution matches Some(d) && d@ == distribution@,
            r@.1 == self@.1,
    {
        let mut b = self;
        b.config.distribution = Some(String::from_str(distribution));
        b
    }

    /// Sets the user.
    pub fn user(self, user: &str) -> (r: Self)
        ensures
            r@.0 == (WslConfig { user: r@.0.user, ..self@.0 }),
            r@.0.user matches Some(u) && u@ == user@,
            r@.1 == self@.1,
    {
        let mut b = self;
        b.config.user = Some(String::from_str(user));
        b
    }

    /// Sets the path of the remote binary.
    pub fn binary_path(self, path: &str) -> (r: Self)
        ensures
            r@.0 == (WslConfig { binary_path: r@.0.binary_path, ..self@.0 }),
            r@.0.binary_path matches Some(p) && p@ == path@,
            r@.1 == self@.1,
    {
        let mut b = self;
        b.config.binary_path = Some(String::from_str(path));
        b
    }

    /// Sets the working directory.
    pub fn working_dir(self, path: &str) -> (r: Self)
        ensures
            r@.0 == (WslConfig { working_dir: r@.0.working_dir, ..self@.0 }),
            r@.0.working_dir matches Some(p) && p@ == path@,
            r@.1 == self@.1,
    {
        let mut b = self;
        b.config.working_dir = Some(String::from_str(path));
        b
    }

    /// Adds an environment variable.
    pub fn with_env_var(self, key: &str, value: &str) -> (r: Self)
        ensures
            r@.0 == self@.0,
            r@.1.env_vars@ == self@.1.env_vars@.insert(key@, r@.1.env_vars@[key@]),
            r@.1.env_vars@[key@]@ == value@,
            r@.1 == (GeneralConfig { env_vars: r@.1.env_vars, ..self@.1 }),
    {
        let mut b = self;
        b.general.env_vars.insert(String::from_str(key), String::from_str(value));
        b
    }

    /// The WSL configuration, once validation accepts it: WSL is available on Windows only.
    pub fn build(self) -> (r: Result<TransportConfig, YuhaError>)
        ensures
            built(wsl_assembled(self@.0, self@.1), r),
    {
        let config = TransportConfig {
            transport_type: TransportType::Wsl,
            ssh: None,
            local: None,
            tcp: None,
            wsl: Some(self.config),
            general: self.general,
        };
        finish(config)
    }
}

} // verus!
