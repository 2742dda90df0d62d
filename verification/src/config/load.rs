//! What the configuration says once loaded: logging level and output,
//! the listening address, and copies of rules.

use vstd::prelude::*;

use super::{ConfigError, LogOutput, LoggingConfig, RulesConfig, ServerConfig, TrafficLevel};
use crate::outside::string_from_chars;
use crate::text::{chars_of, decimal, push_decimal, str_eq};

verus! {

impl RulesConfig {
    /// A copy of the rule, field by field.
    pub fn duplicate(&self) -> (res: RulesConfig)
        ensures
            res == *self,
    {
        RulesConfig {
            policy_id: self.policy_id,
            name: self.name.clone(),
            pattern: self.pattern.clone(),
            option: self.option,
        }
    }
}

impl LoggingConfig {
    /// Traffic is logged at trace level when `trace_traffic` is set, at debug level otherwise.
    pub fn is_tafficlogging(&self) -> (res: TrafficLevel)
        ensures
            res == (if self.trace_traffic {
                TrafficLevel::Trace
            } else {
                TrafficLevel::Debug
            }),
    {
        if self.trace_traffic {
            TrafficLevel::Trace
        } else {
            TrafficLevel::Debug
        }
    }

    /// The log output that `mode` selects: `stdout` or `file`; any other mode is refused.
    pub fn output_mode(&self) -> (res: Result<LogOutput, ConfigError>)
        ensures
            self.mode@ == "stdout"@ ==> res == Ok::<LogOutput, ConfigError>(LogOutput::Stdout),
            self.mode@ == "file"@ ==> res == Ok::<LogOutput, ConfigError>(LogOutput::File),
            self.mode@ != "stdout"@ && self.mode@ != "file"@ ==> res == Err::<
                LogOutput,
                ConfigError,
            >(ConfigError::UnknownLoggingMode),
    {
        proof {
            reveal_strlit("stdout");
            reveal_strlit("file");
            assert("file"@.len() != "stdout"@.len());
        }
        if str_eq(self.mode.as_str(), "stdout") {
            Ok(LogOutput::Stdout)
        } else if str_eq(self.mode.as_str(), "file") {
            Ok(LogOutput::File)
        } else {
            Err(ConfigError::UnknownLoggingMode)
        }
    }
}

impl ServerConfig {
    /// The address the server listens on: `listen_address`, a colon, and the port in decimal.
    pub fn listen_addr(&self) -> (res: String)
        ensures
            res@ == self.listen_address@ + seq![':'] + decimal(self.listen_port as int),
    {
        let mut out = chars_of(self.listen_address.as_str());
        out.push(':');
        push_decimal(&mut out, self.listen_port);
        string_from_chars(out.as_slice())
    }
}

} // verus!
