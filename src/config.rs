//! Connection settings and their validation.
use vstd::prelude::*;
use crate::error::OpenFireError;
use crate::text::owned;
use vstd::string::StrSliceExecFns;

verus! {

/// Settings for one connection to a server.
#[derive(Debug, Clone)]
pub struct Config {
    /// Server host name or address.
    pub server: String,
    /// Server port.
    pub port: u16,
    /// Domain used to form full identifiers.
    pub domain: String,
    /// Whether to use TLS.
    pub use_tls: bool,
    /// Whether to verify TLS certificates.
    pub verify_certificates: bool,
    /// Connection timeout in seconds.
    pub connection_timeout: u64,
    /// Authentication timeout in seconds.
    pub auth_timeout: u64,
    /// Resource identifier of this client.
    pub resource: String,
    /// Presence priority.
    pub priority: i8,
}

/// The first problem that validation finds in `c`, if any.
pub open spec fn config_problem(c: Config) -> Option<Seq<char>> {
    if c.server@.len() == 0 {
        Some("Server cannot be empty"@)
    } else if c.domain@.len() == 0 {
        Some("Domain cannot be empty"@)
    } else if c.port == 0 {
        Some("Port must be greater than 0"@)
    } else if c.connection_timeout == 0 || c.auth_timeout == 0 {
        Some("Timeout values must be greater than 0"@)
    } else {
        None
    }
}

/// Whether `c` is a usable configuration.
pub open spec fn config_valid(c: Config) -> bool {
    config_problem(c) is None
}

/// The settings used when none are given.
pub open spec fn is_default_config(c: Config) -> bool {
    &&& c.server@ == "localhost"@
    &&& c.port == 5222
    &&& c.domain@ == "localhost"@
    &&& c.use_tls
    &&& c.verify_certificates
    &&& c.connection_timeout == 30
    &&& c.auth_timeout == 10
    &&& c.resource@ == "SparkRust"@
    &&& c.priority == 1
}

impl Default for Config {
    fn default() -> (r: Config)
        ensures
            is_default_config(r),
    {
        Config {
            server: owned("localhost"),
            port: 5222,
            domain: owned("localhost"),
            use_tls: true,
            verify_certificates: true,
            connection_timeout: 30,
            auth_timeout: 10,
            resource: owned("SparkRust"),
            priority: 1,
        }
    }
}

impl Config {
    /// Default settings with the given server and domain.
    pub fn new(server: String, domain: String) -> (r: Config)
        ensures
            r.server == server,
            r.domain == domain,
            r.port == 5222,
            r.use_tls,
            r.verify_certificates,
            r.connection_timeout == 30,
            r.auth_timeout == 10,
            r.resource@ == "SparkRust"@,
            r.priority == 1,
    {
        Config {
            server,
            port: 5222,
            domain,
            use_tls: true,
            verify_certificates: true,
            connection_timeout: 30,
            auth_timeout: 10,
            resource: owned("SparkRust"),
            priority: 1,
        }
    }

    /// A field-by-field copy.
    pub fn duplicate(&self) -> (r: Config)
        ensures
            r == *self,
    {
        Config {
            server: self.server.clone(),
            port: self.port,
            domain: self.domain.clone(),
            use_tls: self.use_tls,
            verify_certificates: self.verify_certificates,
            connection_timeout: self.connection_timeout,
            auth_timeout: self.auth_timeout,
            resource: self.resource.clone(),
            priority: self.priority,
        }
    }

    /// Checks the settings: server and domain non-empty, port non-zero,
    /// both timeouts positive. The priority is in range by its type.
    pub fn validate(&self) -> (r: Result<(), OpenFireError>)
        ensures
            r is Ok <==> config_valid(*self),
            r is Err ==> (r->Err_0 matches OpenFireError::ConfigError { message }
                && config_problem(*self) == Some(message@)),
    {
        if self.server.as_str().unicode_len() == 0 {
            return Err(OpenFireError::ConfigError { message: owned("Server cannot be empty") });
        }
        if self.domain.as_str().unicode_len() == 0 {
            return Err(OpenFireError::ConfigError { message: owned("Domain cannot be empty") });
        }
        if self.port == 0 {
            return Err(OpenFireError::ConfigError { message: owned("Port must be greater than 0") });
        }
        if self.connection_timeout == 0 || self.auth_timeout == 0 {
            return Err(
                OpenFireError::ConfigError { message: owned("Timeout values must be greater than 0") },
            );
        }
        Ok(())
    }
}

} // verus!
