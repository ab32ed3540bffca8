//! Configuration of the client: where the media server is and how to
//! authenticate against it.
//!
//! A `Config` is assembled once at startup from whatever sources the host
//! program consults, merged in precedence order, and then materialized.
//! Core logic never looks anything up ambiently.

use vstd::prelude::*;

use crate::error::ConfigNotMaterializeable;

verus! {

/// The hostname (with port) used when none is configured.
pub open spec fn default_hostname() -> Seq<char> {
    "localhost:7878"@
}

/// The protocol used when none is configured.
pub open spec fn default_protocol() -> Seq<char> {
    "http"@
}

/// A possibly incomplete configuration: each field is present or still
/// unset. Later sources fill or override earlier ones via `merge`.
#[derive(Debug)]
pub struct Config {
    pub api_token: Option<String>,
    pub hostname: Option<String>,
    pub protocol: Option<String>,
}

/// The names of the fields a configuration misses, in the order reports
/// list them.
pub open spec fn missing_field_names(c: Config) -> Seq<Seq<char>> {
    (if c.api_token is None {
        seq!["api_token"@]
    } else {
        Seq::<Seq<char>>::empty()
    }) + (if c.hostname is None {
        seq!["hostname"@]
    } else {
        Seq::<Seq<char>>::empty()
    }) + (if c.protocol is None {
        seq!["protocol"@]
    } else {
        Seq::<Seq<char>>::empty()
    })
}

impl Config {
    /// A configuration from an API token and an optional hostname, with
    /// the built-in defaults for whatever else is unset.
    pub fn new_with_defaults(api_token: String, hostname: Option<String>) -> (r: Config)
        ensures
            r.api_token == Some(api_token),
            hostname is Some ==> r.hostname == hostname,
            hostname is None ==> (r.hostname matches Some(h) && h@ == default_hostname()),
            r.protocol matches Some(p) && p@ == default_protocol(),
    {
        let hostname = match hostname {
            Some(h) => Some(h),
            None => Some("localhost:7878".to_owned()),
        };
        Config { api_token: Some(api_token), hostname, protocol: Some("http".to_owned()) }
    }

    /// A configuration from optional values, as a host program reads them
    /// from its surroundings: the token stays as given, while hostname
    /// and protocol fall back to the built-in defaults.
    pub fn from_options_with_defaults(
        api_token: Option<String>,
        hostname: Option<String>,
        protocol: Option<String>,
    ) -> (r: Config)
        ensures
            r.api_token == api_token,
            hostname is Some ==> r.hostname == hostname,
            hostname is None ==> (r.hostname matches Some(h) && h@ == default_hostname()),
            protocol is Some ==> r.protocol == protocol,
            protocol is None ==> (r.protocol matches Some(p) && p@ == default_protocol()),
    {
        let hostname = match hostname {
            Some(h) => Some(h),
            None => Some("localhost:7878".to_owned()),
        };
        let protocol = match protocol {
            Some(p) => Some(p),
            None => Some("http".to_owned()),
        };
        Config { api_token, hostname, protocol }
    }

    /// Overlays another configuration onto this one: every field the
    /// other configuration sets wins; unset fields change nothing.
    pub fn merge(&mut self, config: Config)
        ensures
            final(self).api_token == if config.api_token is Some {
                config.api_token
            } else {
                old(self).api_token
            },
            final(self).hostname == if config.hostname is Some {
                config.hostname
            } else {
                old(self).hostname
            },
            final(self).protocol == if config.protocol is Some {
                config.protocol
            } else {
                old(self).protocol
            },
    {
        if config.api_token.is_some() {
            self.api_token = config.api_token;
        }
        if config.hostname.is_some() {
            self.hostname = config.hostname;
        }
        if config.protocol.is_some() {
            self.protocol = config.protocol;
        }
    }

    /// Reports which required fields are still unset: `None` when the
    /// configuration is complete, otherwise the error naming exactly the
    /// missing fields.
    pub fn errors(&self) -> (r: Option<ConfigNotMaterializeable>)
        ensures
            r is None <==> (self.api_token is Some && self.hostname is Some
                && self.protocol is Some),
            r matches Some(e) ==> e.fields_view() == missing_field_names(*self),
    {
        let mut fields: Vec<String> = Vec::new();

        if self.api_token.is_none() {
            fields.push("api_token".to_owned());
        }
        if self.hostname.is_none() {
            fields.push("hostname".to_owned());
        }
        if self.protocol.is_none() {
            fields.push("protocol".to_owned());
        }

        proof {
            assert(fields.deep_view() =~= missing_field_names(*self));
        }

        if fields.len() == 0 {
            None
        } else {
            Some(ConfigNotMaterializeable::with_fields(fields))
        }
    }
}

/// A complete configuration: every field present, ready for building URLs
/// and authenticating requests.
#[derive(Debug)]
pub struct MaterializedConfig {
    pub api_token: String,
    pub hostname: String,
    pub protocol: String,
}

impl MaterializedConfig {
    /// Materializes a configuration, succeeding exactly when every
    /// required field is set and otherwise naming the missing fields.
    pub fn new_from_config(config: Config) -> (r: Result<
        MaterializedConfig,
        ConfigNotMaterializeable,
    >)
        ensures
            r is Ok <==> (config.api_token is Some && config.hostname is Some
                && config.protocol is Some),
            r matches Ok(m) ==> Some(m.api_token) == config.api_token && Some(m.hostname)
                == config.hostname && Some(m.protocol) == config.protocol,
            r matches Err(e) ==> e.fields_view() == missing_field_names(config),
    {
        if let Some(error) = config.errors() {
            return Err(error);
        }

        Ok(MaterializedConfig {
            api_token: config.api_token.unwrap(),
            hostname: config.hostname.unwrap(),
            protocol: config.protocol.unwrap(),
        })
    }
}

} // verus!
