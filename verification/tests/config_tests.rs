use novaflow::config::{
    ConfigError, DomainServerConfig, LogOutput, LoggingConfig, RulesConfig, RulesOptions, SSLServer,
    ServerConfig, TrafficLevel, VirtualServerConfig,
};

fn logging(mode: &str, trace: bool) -> LoggingConfig {
    LoggingConfig {
        mode: mode.to_string(),
        trace_traffic: trace,
        file_path: "".to_string(),
        file_name: "".to_string(),
    }
}

fn server(address: &str, port: i32) -> ServerConfig {
    ServerConfig {
        listen_address: address.to_string(),
        listen_port: port,
        ssl: SSLServer { enabled: false, ca_path: "".to_string(), key_path: "".to_string() },
        logging: logging("stdout", false),
        domain_server: DomainServerConfig { enabled: true, config: vec![] },
        virtual_server: VirtualServerConfig { enabled: true, config: vec![] },
    }
}

#[test]
fn traffic_logging_at_trace_level_when_enabled() {
    assert_eq!(logging("stdout", true).is_tafficlogging(), TrafficLevel::Trace);
}

#[test]
fn traffic_logging_at_debug_level_when_disabled() {
    assert_eq!(logging("stdout", false).is_tafficlogging(), TrafficLevel::Debug);
}

#[test]
fn stdout_mode_selects_stdout() {
    assert_eq!(logging("stdout", false).output_mode(), Ok(LogOutput::Stdout));
}

#[test]
fn file_mode_selects_file() {
    assert_eq!(logging("file", true).output_mode(), Ok(LogOutput::File));
}

#[test]
fn other_mode_is_refused() {
    assert_eq!(logging("syslog", true).output_mode(), Err(ConfigError::UnknownLoggingMode));
    assert_eq!(logging("", true).output_mode(), Err(ConfigError::UnknownLoggingMode));
    assert_eq!(logging("Stdout", true).output_mode(), Err(ConfigError::UnknownLoggingMode));
}

#[test]
fn listen_address_joins_host_and_port() {
    assert_eq!(server("0.0.0.0", 9000).listen_addr(), "0.0.0.0:9000");
    assert_eq!(server("127.0.0.1", 0).listen_addr(), "127.0.0.1:0");
    assert_eq!(server("", 7).listen_addr(), ":7");
}

#[test]
fn listen_address_writes_extreme_ports_as_format_does() {
    assert_eq!(server("h", -42).listen_addr(), format!("h:{}", -42));
    assert_eq!(server("h", i32::MAX).listen_addr(), format!("h:{}", i32::MAX));
    assert_eq!(server("h", i32::MIN).listen_addr(), format!("h:{}", i32::MIN));
}

#[test]
fn duplicate_copies_every_field() {
    let rule = RulesConfig {
        policy_id: 12,
        name: "sqli".to_string(),
        pattern: "union.*select".to_string(),
        option: RulesOptions { header: true, body: false, uri: true },
    };
    assert_eq!(rule.duplicate(), rule);
}
