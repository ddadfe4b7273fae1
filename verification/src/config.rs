//! The configuration loader: merges raw values from a file of defaults
//! and from the environment (environment taking precedence) into a
//! typed structure, failing fast when a required value is absent or
//! malformed. Reading the sources is I/O and happens outside this
//! crate; the raw optional strings are handed in as plain values.

use vstd::prelude::*;

use crate::numeric::{parse_i32, spec_parse_i32};

verus! {

/// The server part of the configuration.
pub struct ServerConfig {
    pub host: String,
    pub port: i32,
}

/// The whole configuration.
pub struct Config {
    pub server: ServerConfig,
}

/// Why configuration loading failed; a startup-time fatal error.
/// Absence of the host is reported first, then absence of the port,
/// then a port value that is not a decimal integer in range.
#[derive(Debug, PartialEq, Eq, Structural)]
pub enum ConfigError {
    MissingHost,
    MissingPort,
    InvalidPort,
}

/// One configuration source: the raw optional values as read from a
/// file of defaults or from the environment.
pub struct RawSettings {
    pub host: Option<String>,
    pub port: Option<String>,
}

/// The mathematical value of a [`RawSettings`].
pub struct RawSettingsView {
    pub host: Option<Seq<char>>,
    pub port: Option<Seq<char>>,
}

impl View for RawSettings {
    type V = RawSettingsView;

    open spec fn view(&self) -> RawSettingsView {
        RawSettingsView {
            host: match self.host {
                Some(h) => Some(h@),
                None => None,
            },
            port: match self.port {
                Some(p) => Some(p@),
                None => None,
            },
        }
    }
}

/// The source merge: a value set in the environment wins over the file
/// default; a value set in neither is absent.
pub open spec fn spec_effective(file: RawSettingsView, env: RawSettingsView) -> RawSettingsView {
    RawSettingsView {
        host: if env.host is Some {
            env.host
        } else {
            file.host
        },
        port: if env.port is Some {
            env.port
        } else {
            file.port
        },
    }
}

impl Config {
    /// Builds the configuration from the two raw sources, environment
    /// taking precedence, and rejects an absent host or port or a port
    /// that is not a decimal integer in the `i32` range.
    pub fn from_env(file: RawSettings, env: RawSettings) -> (r: Result<Config, ConfigError>)
        ensures
            ({
                let eff = spec_effective(file@, env@);
                match eff.host {
                    None => r == Err::<Config, ConfigError>(ConfigError::MissingHost),
                    Some(h) => match eff.port {
                        None => r == Err::<Config, ConfigError>(ConfigError::MissingPort),
                        Some(p) => match spec_parse_i32(p) {
                            None => r == Err::<Config, ConfigError>(ConfigError::InvalidPort),
                            Some(v) => r matches Ok(c) && c.server.host@ == h && c.server.port
                                == v,
                        },
                    },
                }
            }),
    {
        let host_opt = match env.host {
            Some(h) => Some(h),
            None => file.host,
        };
        let host = match host_opt {
            Some(h) => h,
            None => {
                return Err(ConfigError::MissingHost);
            },
        };
        let port_opt = match env.port {
            Some(p) => Some(p),
            None => file.port,
        };
        let port_str = match port_opt {
            Some(p) => p,
            None => {
                return Err(ConfigError::MissingPort);
            },
        };
        let port = match parse_i32(port_str.as_str()) {
            Some(v) => v,
            None => {
                return Err(ConfigError::InvalidPort);
            },
        };
        Ok(Config { server: ServerConfig { host, port } })
    }
}

} // verus!
