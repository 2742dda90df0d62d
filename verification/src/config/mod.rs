//! The server and policy configuration, as the YAML files describe it.

use vstd::prelude::*;

pub mod load;

verus! {

/// The whole server configuration.
#[derive(Debug, Clone)]
pub struct ServerConfig {
    pub listen_address: String,
    pub listen_port: i32,
    pub ssl: SSLServer,
    pub logging: LoggingConfig,
    pub domain_server: DomainServerConfig,
    pub virtual_server: VirtualServerConfig,
}

/// Where the log goes and how much of the traffic it records.
#[derive(Debug, Clone)]
pub struct LoggingConfig {
    pub mode: String,
    pub trace_traffic: bool,
    pub file_path: String,
    pub file_name: String,
}

/// The domain-based routes.
#[derive(Debug, Clone)]
pub struct DomainServerConfig {
    pub enabled: bool,
    pub config: Vec<DomainServer>,
}

/// The path-based routes.
#[derive(Debug, Clone)]
pub struct VirtualServerConfig {
    pub enabled: bool,
    pub config: Vec<VirtualServer>,
}

/// The blocking policy: its rules, in order.
#[derive(Debug, Clone)]
pub struct PolicyConfig {
    pub policy_block: Vec<RulesConfig>,
}

/// One blocking rule: a regular expression and the parts of a request it is tried on.
#[derive(Debug, Clone, PartialEq, Eq)]
pub struct RulesConfig {
    pub policy_id: i32,
    pub name: String,
    pub pattern: String,
    pub option: RulesOptions,
}

/// The parts of a request a rule is tried on.
#[derive(Debug, Clone, Copy, PartialEq, Eq)]
pub struct RulesOptions {
    pub header: bool,
    pub body: bool,
    pub uri: bool,
}

/// A route by path prefix to an upstream address.
#[derive(Debug, Clone, PartialEq, Eq)]
pub struct VirtualServer {
    pub name: String,
    pub path: String,
    pub remote_address: String,
}

/// A route by host name to an upstream address.
#[derive(Debug, Clone, PartialEq, Eq)]
pub struct DomainServer {
    pub name: String,
    pub domain_name: String,
    pub remote_address: String,
}

/// TLS settings.
#[derive(Debug, Clone)]
pub struct SSLServer {
    pub enabled: bool,
    pub ca_path: String,
    pub key_path: String,
}

/// The level at which traffic is logged.
#[derive(Debug, Clone, Copy, PartialEq, Eq)]
pub enum TrafficLevel {
    Trace,
    Debug,
}

/// Where the log is written.
#[derive(Debug, Clone, Copy, PartialEq, Eq)]
pub enum LogOutput {
    Stdout,
    File,
}

/// A configuration that cannot be used.
#[derive(Debug, Clone, Copy, PartialEq, Eq)]
pub enum ConfigError {
    /// The logging mode is neither `stdout` nor `file`.
    UnknownLoggingMode,
}

} // verus!
