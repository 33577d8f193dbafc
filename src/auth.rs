//! Credentials, the authentication state machine and its results.
use vstd::prelude::*;
use vstd::string::StrSliceExecFns;
use vstd::string::StringExecFns;
use crate::clock::unix_time_nanos;
use crate::config::{Config, config_problem, config_valid};
use crate::error::{OpenFireError, error_text};
use crate::text::{append_radix, contains_char, decimal, hex, join2, owned, same_text};

verus! {

/// A user's login input.
#[derive(Debug, Clone)]
pub struct Credentials {
    pub username: String,
    pub password: String,
    /// Domain to use instead of the configured one.
    pub domain: Option<String>,
}

/// Whether credentials are well formed: non-empty username and password, and
/// a username without spaces or `@`.
pub open spec fn credentials_wellformed(c: Credentials) -> bool {
    &&& c.username@.len() > 0
    &&& c.password@.len() > 0
    &&& !c.username@.contains(' ')
    &&& !c.username@.contains('@')
}

/// The first problem that validation finds in `c`, if any.
pub open spec fn credentials_problem(c: Credentials) -> Option<Seq<char>> {
    if c.username@.len() == 0 {
        Some("Username cannot be empty"@)
    } else if c.password@.len() == 0 {
        Some("Password cannot be empty"@)
    } else if c.username@.contains(' ') || c.username@.contains('@') {
        Some("Username contains invalid characters"@)
    } else {
        None
    }
}

/// The full identifier `username@domain`, with the credentials' own domain
/// taking precedence over `default_domain`.
pub open spec fn jid_of(c: Credentials, default_domain: Seq<char>) -> Seq<char> {
    c.username@ + "@"@ + match c.domain {
        Some(d) => d@,
        None => default_domain,
    }
}

impl Credentials {
    /// Credentials without a domain of their own.
    pub fn new(username: String, password: String) -> (r: Credentials)
        ensures
            r.username == username,
            r.password == password,
            r.domain is None,
    {
        Credentials { username, password, domain: None }
    }

    /// Credentials with a domain of their own.
    pub fn with_domain(username: String, password: String, domain: String) -> (r: Credentials)
        ensures
            r.username == username,
            r.password == password,
            r.domain == Some(domain),
    {
        Credentials { username, password, domain: Some(domain) }
    }

    /// The full identifier `username@domain`.
    pub fn get_jid(&self, default_domain: &str) -> (r: String)
        ensures
            r@ == jid_of(*self, default_domain@),
    {
        let mut r = join2(self.username.as_str(), "@");
        match &self.domain {
            Some(d) => r.append(d.as_str()),
            None => r.append(default_domain),
        }
        r
    }

    /// Checks the format of the credentials; changes nothing.
    pub fn validate(&self) -> (r: Result<(), OpenFireError>)
        ensures
            r is Ok <==> credentials_wellformed(*self),
            r is Err ==> (r->Err_0 matches OpenFireError::InvalidCredentials { message }
                && credentials_problem(*self) == Some(message@)),
    {
        if self.username.as_str().unicode_len() == 0 {
            return Err(
                OpenFireError::InvalidCredentials { message: owned("Username cannot be empty") },
            );
        }
        if self.password.as_str().unicode_len() == 0 {
            return Err(
                OpenFireError::InvalidCredentials { message: owned("Password cannot be empty") },
            );
        }
        if contains_char(self.username.as_str(), ' ') || contains_char(
            self.username.as_str(),
            '@',
        ) {
            return Err(
                OpenFireError::InvalidCredentials {
                    message: owned("Username contains invalid characters"),
                },
            );
        }
        Ok(())
    }
}

/// Where a session stands in authenticating.
#[derive(Debug, Clone)]
pub enum AuthState {
    Disconnected,
    Connecting,
    Authenticating,
    Authenticated,
    Failed(String),
}

/// The outcome of one authentication attempt.
#[derive(Debug, Clone)]
pub struct AuthResult {
    pub success: bool,
    pub message: String,
    pub full_jid: Option<String>,
    pub session_id: Option<String>,
    pub auth_time_ms: u64,
}

impl AuthResult {
    /// A successful outcome.
    pub fn success(full_jid: String, session_id: Option<String>, auth_time_ms: u64) -> (r:
        AuthResult)
        ensures
            r.success,
            r.message@ == "Authentication successful"@,
            r.full_jid == Some(full_jid),
            r.session_id == session_id,
            r.auth_time_ms == auth_time_ms,
    {
        AuthResult {
            success: true,
            message: owned("Authentication successful"),
            full_jid: Some(full_jid),
            session_id,
            auth_time_ms,
        }
    }

    /// A failed outcome.
    pub fn failure(message: String, auth_time_ms: u64) -> (r: AuthResult)
        ensures
            !r.success,
            r.message == message,
            r.full_jid is None,
            r.session_id is None,
            r.auth_time_ms == auth_time_ms,
    {
        AuthResult { success: false, message, full_jid: None, session_id: None, auth_time_ms }
    }
}

/// Identifier text built from the clock.
pub struct Uuid(pub String);

impl Uuid {
    /// A fresh identifier, `uuid-` followed by the clock's nanoseconds in hex.
    pub fn new_v4() -> (r: Uuid)
        ensures
            exists|n: nat| r.0@ == "uuid-"@ + hex(n),
    {
        let n = unix_time_nanos();
        let mut s = owned("uuid-");
        append_radix(&mut s, n, 16);
        assert(s@ == "uuid-"@ + hex(n as nat));
        Uuid(s)
    }
}

/// The text of the error with which the exchange rejects well-formed
/// credentials `c` after `elapsed_ms` milliseconds, against a limit of
/// `timeout_s` seconds; `None` when it accepts them.
pub open spec fn exchange_rejection(c: Credentials, timeout_s: u64, elapsed_ms: u64) -> Option<
    Seq<char>,
> {
    if c.username@ == "invalid"@ {
        Some("Authentication failed: "@ + "Invalid username"@)
    } else if c.password@ == "wrong"@ {
        Some("Authentication failed: "@ + "Invalid password"@)
    } else if elapsed_ms > timeout_s * 1000 {
        Some(error_text(OpenFireError::TimeoutError { seconds: timeout_s }))
    } else {
        None
    }
}

/// Whether `s` is the end state of an attempt.
pub open spec fn is_settled(s: AuthState) -> bool {
    s is Authenticated || s is Failed
}

/// Drives one session through authentication.
pub struct AuthManager {
    pub config: Config,
    pub state: AuthState,
}

impl AuthManager {
    /// Whether the manager holds valid settings.
    pub open spec fn wf(&self) -> bool {
        config_valid(self.config)
    }

    /// A manager in the `Disconnected` state; fails on invalid settings.
    pub fn new(config: Config) -> (r: Result<AuthManager, OpenFireError>)
        ensures
            r is Ok <==> config_valid(config),
            r is Ok ==> r->Ok_0.config == config && r->Ok_0.state is Disconnected,
            r is Err ==> (r->Err_0 matches OpenFireError::ConfigError { message }
                && config_problem(config) == Some(message@)),
    {
        match config.validate() {
            Ok(()) => Ok(AuthManager { config, state: AuthState::Disconnected }),
            Err(e) => Err(e),
        }
    }

    /// The current state.
    pub fn get_state(&self) -> (r: &AuthState)
        ensures
            *r == self.state,
    {
        &self.state
    }

    /// Whether the state is `Authenticated`.
    pub fn is_authenticated(&self) -> (r: bool)
        ensures
            r == self.state is Authenticated,
    {
        matches!(self.state, AuthState::Authenticated)
    }

    /// The error with which the exchange rejects `credentials` after
    /// `elapsed_ms`, if it does.
    fn perform_authentication(&self, credentials: &Credentials, elapsed_ms: u64) -> (r: Option<
        OpenFireError,
    >)
        ensures
            r is None <==> exchange_rejection(*credentials, self.config.auth_timeout, elapsed_ms)
                is None,
            r is Some ==> exchange_rejection(*credentials, self.config.auth_timeout, elapsed_ms)
                == Some(error_text(r->0)),
    {
        if same_text(credentials.username.as_str(), "invalid") {
            return Some(OpenFireError::AuthenticationFailed { message: owned("Invalid username") });
        }
        if same_text(credentials.password.as_str(), "wrong") {
            return Some(OpenFireError::AuthenticationFailed { message: owned("Invalid password") });
        }
        if elapsed_ms as u128 > self.config.auth_timeout as u128 * 1000 {
            return Some(OpenFireError::TimeoutError { seconds: self.config.auth_timeout });
        }
        None
    }

    /// One authentication attempt whose exchange took `elapsed_ms`
    /// milliseconds. Malformed credentials are an error and change nothing.
    /// Otherwise the state passes through `Connecting` and `Authenticating`
    /// and ends in `Authenticated` or `Failed`, and a rejection by the
    /// exchange is reported as a failed result, not as an error.
    pub fn authenticate(&mut self, credentials: Credentials, elapsed_ms: u64) -> (r: Result<
        AuthResult,
        OpenFireError,
    >)
        ensures
            final(self).config == old(self).config,
            r is Err <==> !credentials_wellformed(credentials),
            r is Err ==> final(self).state == old(self).state && (
            r->Err_0 matches OpenFireError::InvalidCredentials { message }
                && credentials_problem(credentials) == Some(message@)),
            r is Ok ==> is_settled(final(self).state),
            r is Ok ==> r->Ok_0.auth_time_ms == elapsed_ms,
            r is Ok ==> match exchange_rejection(
                credentials,
                old(self).config.auth_timeout,
                elapsed_ms,
            ) {
                None => {
                    &&& r->Ok_0.success
                    &&& final(self).state is Authenticated
                    &&& r->Ok_0.message@ == "Authentication successful"@
                    &&& r->Ok_0.full_jid matches Some(j) && j@ == jid_of(
                        credentials,
                        old(self).config.domain@,
                    )
                    &&& r->Ok_0.session_id matches Some(t) && exists|n: nat|
                        t@ == "session_"@ + "uuid-"@ + hex(n)
                },
                Some(why) => {
                    &&& !r->Ok_0.success
                    &&& final(self).state matches AuthState::Failed(m) && m@
                        == "Authentication failed: "@ + why
                    &&& r->Ok_0.message@ == "Authentication failed: "@ + why
                    &&& r->Ok_0.full_jid is None
                    &&& r->Ok_0.session_id is None
                },
            },
    {
        match credentials.validate() {
            Ok(()) => {},
            Err(e) => return Err(e),
        }
        self.state = AuthState::Connecting;
        self.state = AuthState::Authenticating;
        match self.perform_authentication(&credentials, elapsed_ms) {
            None => {
                let full_jid = credentials.get_jid(self.config.domain.as_str());
                let uuid = Uuid::new_v4();
                let session_id = join2("session_", uuid.0.as_str());
                proof {
                    let n = choose|n: nat| uuid.0@ == "uuid-"@ + hex(n);
                    assert(session_id@ =~= "session_"@ + "uuid-"@ + hex(n));
                }
                self.state = AuthState::Authenticated;
                Ok(AuthResult::success(full_jid, Some(session_id), elapsed_ms))
            },
            Some(e) => {
                let message = join2("Authentication failed: ", e.describe().as_str());
                self.state = AuthState::Failed(message.clone());
                Ok(AuthResult::failure(message, elapsed_ms))
            },
        }
    }

    /// Back to `Disconnected`, whatever the state was.
    pub fn disconnect(&mut self) -> (r: Result<(), OpenFireError>)
        ensures
            r is Ok,
            final(self).state is Disconnected,
            final(self).config == old(self).config,
    {
        self.state = AuthState::Disconnected;
        Ok(())
    }

    /// `server:port (domain: domain)`.
    pub fn get_server_info(&self) -> (r: String)
        ensures
            r@ == self.config.server@ + ":"@ + decimal(self.config.port as nat) + " (domain: "@
                + self.config.domain@ + ")"@,
    {
        let mut r = join2(self.config.server.as_str(), ":");
        append_radix(&mut r, self.config.port as u128, 10);
        r.append(" (domain: ");
        r.append(self.config.domain.as_str());
        r.append(")");
        r
    }
}

} // verus!
