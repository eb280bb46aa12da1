//! The settings that the proxy runs with.

use crate::message::text_view;
use vstd::prelude::*;

verus! {

/// An address of the upstream host, as resolved at startup.
#[derive(Clone, Copy, Debug)]
pub enum IpAddress {
    V4([u8; 4]),
    V6([u8; 16]),
}

/// The resolved settings. They are fixed at startup and only read
/// afterwards.
#[derive(Clone, Debug)]
pub struct Config {
    pub port: u16,
    pub upstream: String,
    pub upstream_ip: IpAddress,
    pub upstream_tls: bool,
    pub upstream_port: u16,
    pub tapes: String,
    pub bind: String,
    pub replay_only: bool,
    pub listen_tls: bool,
    pub tls_port: u16,
    pub cert_file: Option<String>,
    pub private_key_file: Option<String>,
}

/// What a [`Config`] holds.
pub struct ConfigView {
    pub port: u16,
    pub upstream: Seq<char>,
    pub upstream_ip: IpAddress,
    pub upstream_tls: bool,
    pub upstream_port: u16,
    pub tapes: Seq<char>,
    pub bind: Seq<char>,
    pub replay_only: bool,
    pub listen_tls: bool,
    pub tls_port: u16,
    pub cert_file: Option<Seq<char>>,
    pub private_key_file: Option<Seq<char>>,
}

impl View for Config {
    type V = ConfigView;

    open spec fn view(&self) -> ConfigView {
        ConfigView {
            port: self.port,
            upstream: self.upstream@,
            upstream_ip: self.upstream_ip,
            upstream_tls: self.upstream_tls,
            upstream_port: self.upstream_port,
            tapes: self.tapes@,
            bind: self.bind@,
            replay_only: self.replay_only,
            listen_tls: self.listen_tls,
            tls_port: self.tls_port,
            cert_file: text_view(self.cert_file),
            private_key_file: text_view(self.private_key_file),
        }
    }
}

/// The settings given on the command line. A flag that was not given is
/// `None`, or the default that the command line declares for it.
#[derive(Debug)]
pub struct CliArgs {
    pub port: Option<u16>,
    pub upstream: Option<String>,
    pub upstream_port: u16,
    pub upstream_tls: bool,
    pub tapes: Option<String>,
    pub bind: Option<String>,
    pub config_path: String,
    pub replay_only: bool,
    pub listen_tls: bool,
    pub tls_port: u16,
    pub cert_file: Option<String>,
    pub private_key_file: Option<String>,
}

/// What a [`CliArgs`] holds.
pub struct CliArgsView {
    pub port: Option<u16>,
    pub upstream: Option<Seq<char>>,
    pub upstream_port: u16,
    pub upstream_tls: bool,
    pub tapes: Option<Seq<char>>,
    pub bind: Option<Seq<char>>,
    pub config_path: Seq<char>,
    pub replay_only: bool,
    pub listen_tls: bool,
    pub tls_port: u16,
    pub cert_file: Option<Seq<char>>,
    pub private_key_file: Option<Seq<char>>,
}

impl View for CliArgs {
    type V = CliArgsView;

    open spec fn view(&self) -> CliArgsView {
        CliArgsView {
            port: self.port,
            upstream: text_view(self.upstream),
            upstream_port: self.upstream_port,
            upstream_tls: self.upstream_tls,
            tapes: text_view(self.tapes),
            bind: text_view(self.bind),
            config_path: self.config_path@,
            replay_only: self.replay_only,
            listen_tls: self.listen_tls,
            tls_port: self.tls_port,
            cert_file: text_view(self.cert_file),
            private_key_file: text_view(self.private_key_file),
        }
    }
}

/// The settings read from the configuration file. A key that the file does
/// not hold is `None`.
#[derive(Debug)]
pub struct TomlConfig {
    pub port: Option<u16>,
    pub upstream: Option<String>,
    pub tapes: Option<String>,
    pub bind: Option<String>,
    pub replay_only: Option<bool>,
    pub listen_tls: Option<bool>,
    pub tls_port: Option<u16>,
    pub cert_file: Option<String>,
    pub private_key_file: Option<String>,
    pub upstream_tls: Option<bool>,
    pub upstream_port: Option<u16>,
}

/// What a [`TomlConfig`] holds.
pub struct TomlConfigView {
    pub port: Option<u16>,
    pub upstream: Option<Seq<char>>,
    pub tapes: Option<Seq<char>>,
    pub bind: Option<Seq<char>>,
    pub replay_only: Option<bool>,
    pub listen_tls: Option<bool>,
    pub tls_port: Option<u16>,
    pub cert_file: Option<Seq<char>>,
    pub private_key_file: Option<Seq<char>>,
    pub upstream_tls: Option<bool>,
    pub upstream_port: Option<u16>,
}

impl View for TomlConfig {
    type V = TomlConfigView;

    open spec fn view(&self) -> TomlConfigView {
        TomlConfigView {
            port: self.port,
            upstream: text_view(self.upstream),
            tapes: text_view(self.tapes),
            bind: text_view(self.bind),
            replay_only: self.replay_only,
            listen_tls: self.listen_tls,
            tls_port: self.tls_port,
            cert_file: text_view(self.cert_file),
            private_key_file: text_view(self.private_key_file),
            upstream_tls: self.upstream_tls,
            upstream_port: self.upstream_port,
        }
    }
}

/// Why the settings cannot be used.
#[derive(Clone, Copy, Debug, PartialEq, Eq, Structural)]
pub enum ConfigError {
    /// Neither the command line nor the file names an upstream.
    MissingUpstream,
    /// TLS listening is asked for without a certificate file.
    MissingCertFile,
    /// TLS listening is asked for without a private key file.
    MissingPrivateKeyFile,
}

/// The port to listen on when none is given.
pub const DEFAULT_PORT: u16 = 5050;

/// The upstream port of plain HTTP.
pub const HTTP_PORT: u16 = 80;

/// The upstream port of HTTP over TLS.
pub const HTTPS_PORT: u16 = 443;

/// The tape root when none is given.
pub open spec fn default_tapes() -> Seq<char> {
    "tapes"@
}

/// The address to bind to when none is given.
pub open spec fn default_bind() -> Seq<char> {
    "127.0.0.1"@
}

/// `a` where it is given, else `b`.
pub open spec fn or_else<T>(a: Option<T>, b: Option<T>) -> Option<T> {
    match a {
        Some(_) => a,
        None => b,
    }
}

/// `a` where it is given, else `b`.
pub open spec fn or_value<T>(a: Option<T>, b: T) -> T {
    match a {
        Some(v) => v,
        None => b,
    }
}

/// The upstream port in use: the file's port before the command line's;
/// and where TLS is asked for and that port is 80, port 443 in its place.
pub open spec fn effective_upstream_port(args: CliArgsView, toml: TomlConfigView) -> u16 {
    let port = or_value(toml.upstream_port, args.upstream_port);
    if or_value(toml.upstream_tls, args.upstream_tls) && port == HTTP_PORT {
        HTTPS_PORT
    } else {
        port
    }
}

/// The name of the upstream to resolve, where the settings can be used at
/// all: an upstream is named, and TLS listening comes with both of its
/// files. The first of these that fails is the error.
pub open spec fn checked_upstream(args: CliArgsView, toml: TomlConfigView) -> Result<
    Seq<char>,
    ConfigError,
> {
    let listen_tls = or_value(toml.listen_tls, args.listen_tls);
    match or_else(args.upstream, toml.upstream) {
        None => Err(ConfigError::MissingUpstream),
        Some(upstream) => if listen_tls && or_else(args.cert_file, toml.cert_file) is None {
            Err(ConfigError::MissingCertFile)
        } else if listen_tls && or_else(args.private_key_file, toml.private_key_file) is None {
            Err(ConfigError::MissingPrivateKeyFile)
        } else {
            Ok(upstream)
        },
    }
}

/// The settings that the command line and the file come to, with the
/// upstream resolved to `upstream_ip`.
///
/// The command line goes before the file for the port, the upstream, the
/// tape root, the bind address and the TLS files; the file goes before the
/// command line for the flags and the other ports.
pub open spec fn merged(args: CliArgsView, toml: TomlConfigView, upstream_ip: IpAddress) -> Result<
    ConfigView,
    ConfigError,
> {
    match checked_upstream(args, toml) {
        Err(e) => Err(e),
        Ok(upstream) => Ok(
            ConfigView {
                port: or_value(or_else(args.port, toml.port), DEFAULT_PORT),
                upstream,
                upstream_ip,
                upstream_tls: or_value(toml.upstream_tls, args.upstream_tls),
                upstream_port: effective_upstream_port(args, toml),
                tapes: or_value(or_else(args.tapes, toml.tapes), default_tapes()),
                bind: or_value(or_else(args.bind, toml.bind), default_bind()),
                replay_only: or_value(toml.replay_only, args.replay_only),
                listen_tls: or_value(toml.listen_tls, args.listen_tls),
                tls_port: or_value(toml.tls_port, args.tls_port),
                cert_file: or_else(args.cert_file, toml.cert_file),
                private_key_file: or_else(args.private_key_file, toml.private_key_file),
            },
        ),
    }
}

/// The outcome of the check, seen through its view.
pub open spec fn upstream_view(r: Result<String, ConfigError>) -> Result<Seq<char>, ConfigError> {
    match r {
        Ok(s) => Ok(s@),
        Err(e) => Err(e),
    }
}

/// The outcome of merging, seen through its view.
pub open spec fn config_view(r: Result<Config, ConfigError>) -> Result<ConfigView, ConfigError> {
    match r {
        Ok(c) => Ok(c@),
        Err(e) => Err(e),
    }
}

/// The first of two optional texts that is given.
fn first_text(a: Option<String>, b: Option<String>) -> (r: Option<String>)
    ensures
        text_view(r) == or_else(text_view(a), text_view(b)),
{
    match a {
        Some(s) => Some(s),
        None => b,
    }
}

/// The text that is given, else a default.
fn text_or(a: Option<String>, b: &str) -> (r: String)
    ensures
        r@ == or_value(text_view(a), b@),
{
    match a {
        Some(s) => s,
        None => String::from_str(b),
    }
}

/// Whether an upstream is named, on the command line or in the file.
pub fn validate(args: &CliArgs, toml: &TomlConfig) -> (ok: bool)
    ensures
        ok == or_else(args@.upstream, toml@.upstream).is_some(),
{
    args.upstream.is_some() || toml.upstream.is_some()
}

/// Checks that the settings can be used, and names the upstream that is to
/// be resolved before they are merged.
pub fn upstream_host(args: &CliArgs, toml: &TomlConfig) -> (r: Result<String, ConfigError>)
    ensures
        upstream_view(r) == checked_upstream(args@, toml@),
{
    let listen_tls = match toml.listen_tls {
        Some(v) => v,
        None => args.listen_tls,
    };
    let upstream = match &args.upstream {
        Some(s) => s.clone(),
        None => match &toml.upstream {
            Some(s) => s.clone(),
            None => {
                return Err(ConfigError::MissingUpstream);
            },
        },
    };
    if listen_tls && args.cert_file.is_none() && toml.cert_file.is_none() {
        return Err(ConfigError::MissingCertFile);
    }
    if listen_tls && args.private_key_file.is_none() && toml.private_key_file.is_none() {
        return Err(ConfigError::MissingPrivateKeyFile);
    }
    Ok(upstream)
}

/// Merges the command line and the file into the settings to run with.
/// `upstream_ip` is what the upstream's name resolved to.
pub fn get_config(args: CliArgs, toml: TomlConfig, upstream_ip: IpAddress) -> (r: Result<
    Config,
    ConfigError,
>)
    ensures
        config_view(r) == merged(args@, toml@, upstream_ip),
{
    let listen_tls = match toml.listen_tls {
        Some(v) => v,
        None => args.listen_tls,
    };
    let cert_file = first_text(args.cert_file, toml.cert_file);
    let private_key_file = first_text(args.private_key_file, toml.private_key_file);
    let upstream = match first_text(args.upstream, toml.upstream) {
        Some(upstream) => upstream,
        None => {
            return Err(ConfigError::MissingUpstream);
        },
    };
    if listen_tls && cert_file.is_none() {
        return Err(ConfigError::MissingCertFile);
    }
    if listen_tls && private_key_file.is_none() {
        return Err(ConfigError::MissingPrivateKeyFile);
    }
    let upstream_tls = match toml.upstream_tls {
        Some(v) => v,
        None => args.upstream_tls,
    };
    let given_port = match toml.upstream_port {
        Some(v) => v,
        None => args.upstream_port,
    };
    let upstream_port = if upstream_tls && given_port == HTTP_PORT {
        HTTPS_PORT
    } else {
        given_port
    };
    let port = match args.port {
        Some(v) => v,
        None => match toml.port {
            Some(v) => v,
            None => DEFAULT_PORT,
        },
    };
    Ok(
        Config {
            port,
            upstream,
            upstream_ip,
            upstream_tls,
            upstream_port,
            tapes: text_or(first_text(args.tapes, toml.tapes), "tapes"),
            bind: text_or(first_text(args.bind, toml.bind), "127.0.0.1"),
            replay_only: match toml.replay_only {
                Some(v) => v,
                None => args.replay_only,
            },
            listen_tls,
            tls_port: match toml.tls_port {
                Some(v) => v,
                None => args.tls_port,
            },
            cert_file,
            private_key_file,
        },
    )
}

} // verus!
