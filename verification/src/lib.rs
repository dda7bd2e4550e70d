//! A client library for a Splunk-style event-ingestion service: server
//! configuration and URL resolution, credential selection, and a buffered
//! event publisher that flushes queued events in size-bounded batches.
//!
//! The library holds the decision logic - what URL to contact, which
//! credential to present, how to wrap, batch and account for events - and
//! states it in contracts. The HTTP transport itself is driven by callers
//! from outside, which hand the results of each request back in.

use vstd::prelude::*;

pub mod client;
pub mod errors;
pub mod hec;
pub mod json;
pub mod search;
pub mod text;

use crate::client::AuthenticationMethod;
use crate::client::RequestAuth;
use crate::errors::SplunkError;
use crate::text::all_dec_digits;
use crate::text::dec_chars;
use crate::text::dec_val;
use crate::text::u64_to_string;

verus! {

/// What we're going to use to connect to the server.
#[derive(Clone, Debug)]
pub struct ServerConfig {
    /// Server hostname - just something like example.com (or an IP, if you're like that)
    pub hostname: String,
    /// Port - defaults to 8089
    pub port: u16,
    /// Whether certificates are checked when TLS is used
    pub verify_tls: bool,
    /// Whether requests go over https rather than http
    pub use_tls: bool,
    /// The selected credential
    pub auth_method: AuthenticationMethod,
    /// Connection timeout in seconds
    pub connection_timeout: u16,
}

/// What `url::Url::parse` says of a URL string: nothing when the string
/// parses as a URL, or the rendering of its parse error when it does not.
/// The parser is deterministic, so this is a function of the string alone.
pub uninterp spec fn url_parse_error(s: Seq<char>) -> Option<Seq<char>>;

/// Relies on `url::Url::parse`: checks that a URL string is valid, handing
/// back the parse error's rendering when it is not.
#[verifier::external_body]
fn check_url(s: &str) -> (r: Option<String>)
    ensures
        r is Some <==> url_parse_error(s@) is Some,
        r matches Some(m) ==> (url_parse_error(s@) matches Some(e) && m@ == e),
{
    match url::Url::parse(s) {
        Ok(_) => None,
        Err(e) => Some(format!("{e:?}")),
    }
}

/// The URL scheme implied by the TLS setting.
pub open spec fn spec_scheme(use_tls: bool) -> Seq<char> {
    if use_tls {
        "https"@
    } else {
        "http"@
    }
}

/// The default port of the scheme implied by the TLS setting.
pub open spec fn spec_default_port(use_tls: bool) -> u16 {
    if use_tls {
        443u16
    } else {
        80u16
    }
}

/// The full URL for an endpoint: scheme, hostname, the port unless it is the
/// scheme's default, then the endpoint path.
pub open spec fn spec_url(c: ServerConfig, endpoint: Seq<char>) -> Seq<char> {
    spec_scheme(c.use_tls) + "://"@ + c.hostname@ + (if c.port == spec_default_port(c.use_tls) {
        Seq::<char>::empty()
    } else {
        ":"@ + dec_chars(c.port as nat)
    }) + endpoint
}

impl ServerConfig {
    /// The fields every freshly constructed configuration starts from.
    pub open spec fn is_default(c: ServerConfig) -> bool {
        &&& c.hostname@ == "localhost"@
        &&& c.port == 8089u16
        &&& c.verify_tls
        &&& c.use_tls
        &&& c.auth_method is Unknown
        &&& c.connection_timeout == 30u16
    }

    /// build a url based on the server/endpoint: the assembled string is
    /// returned if it is a valid URL, else the parse failure's description
    pub fn get_url(&self, endpoint: &str) -> (r: Result<String, SplunkError>)
        ensures
            url_parse_error(spec_url(*self, endpoint@)) is None ==> (r matches Ok(u) && u@
                == spec_url(*self, endpoint@)),
            url_parse_error(spec_url(*self, endpoint@)) matches Some(m) ==> (r matches Err(e)
                && e matches SplunkError::Generic(s) && s@ == m),
    {
        let mut url = String::new();
        if self.use_tls {
            url.append("https");
        } else {
            url.append("http");
        }
        url.append("://");
        url.append(self.hostname.as_str());
        let dport: u16 = if self.use_tls {
            443
        } else {
            80
        };
        if self.port != dport {
            url.append(":");
            let p = u64_to_string(self.port as u64);
            url.append(p.as_str());
        }
        url.append(endpoint);
        proof {
            assert(url@ =~= spec_url(*self, endpoint@));
        }
        match check_url(url.as_str()) {
            None => Ok(url),
            Some(m) => Err(SplunkError::Generic(m)),
        }
    }

    /// Point at a server
    pub fn new(hostname: String) -> (r: Self)
        ensures
            r.hostname == hostname,
            r.port == 8089u16,
            r.verify_tls,
            r.use_tls,
            r.auth_method is Unknown,
            r.connection_timeout == 30u16,
    {
        ServerConfig {
            hostname,
            port: 8089,
            verify_tls: true,
            use_tls: true,
            auth_method: AuthenticationMethod::Unknown,
            connection_timeout: 30,
        }
    }

    /// Set the authentication method to token and set the token
    pub fn with_token(self, token: String) -> (r: Self)
        ensures
            r.auth_method == (AuthenticationMethod::Token { token }),
            r.hostname == self.hostname,
            r.port == self.port,
            r.verify_tls == self.verify_tls,
            r.use_tls == self.use_tls,
            r.connection_timeout == self.connection_timeout,
    {
        ServerConfig { auth_method: AuthenticationMethod::Token { token }, ..self }
    }

    /// Are we using https?
    pub fn use_tls(self, setting: bool) -> (r: Self)
        ensures
            r.use_tls == setting,
            r.hostname == self.hostname,
            r.port == self.port,
            r.verify_tls == self.verify_tls,
            r.auth_method == self.auth_method,
            r.connection_timeout == self.connection_timeout,
    {
        ServerConfig { use_tls: setting, ..self }
    }

    /// Set the authentication method to basic and set the credentials
    pub fn with_username_password(self, username: String, password: String) -> (r: Self)
        ensures
            r.auth_method == (AuthenticationMethod::Basic { username, password }),
            r.hostname == self.hostname,
            r.port == self.port,
            r.verify_tls == self.verify_tls,
            r.use_tls == self.use_tls,
            r.connection_timeout == self.connection_timeout,
    {
        ServerConfig { auth_method: AuthenticationMethod::Basic { username, password }, ..self }
    }

    /// Get the token from the auth method, if it exists
    pub fn token(&self) -> (r: Option<String>)
        ensures
            match self.auth_method {
                AuthenticationMethod::Basic { username, password } => r matches Some(t) && t
                    == password,
                AuthenticationMethod::Token { token } => r matches Some(t) && t == token,
                AuthenticationMethod::Cookie { .. } => r is None,
                AuthenticationMethod::Unknown => r is None,
            },
    {
        match &self.auth_method {
            AuthenticationMethod::Basic { username: _, password } => Some(password.clone()),
            AuthenticationMethod::Token { token } => Some(token.clone()),
            AuthenticationMethod::Unknown => None,
            AuthenticationMethod::Cookie { .. } => None,
        }
    }

    /// Resolves the configured credential for one request: a token credential
    /// yields the `Authorization` header, basic credentials tell the
    /// transport to use HTTP Basic authentication, and a missing or cookie
    /// credential is rejected rather than sent unauthenticated.
    pub fn auth_header(&self) -> (r: Result<RequestAuth, SplunkError>)
        ensures
            self.auth_method matches AuthenticationMethod::Token { token } ==> (r matches Ok(
                RequestAuth::Header { name, value },
            ) && name@ == "Authorization"@ && value@ == "Splunk "@ + token@),
            self.auth_method matches AuthenticationMethod::Basic { username, password } ==> (
            r matches Ok(RequestAuth::Basic { username: u, password: p }) && u == username && p
                == password),
            self.auth_method is Unknown ==> (r matches Err(e) && e is NotAuthenticated),
            self.auth_method is Cookie ==> (r matches Err(e) && e is InvalidAuthmethod),
    {
        match &self.auth_method {
            AuthenticationMethod::Token { token } => {
                let mut value = String::from_str("Splunk ");
                value.append(token.as_str());
                Ok(RequestAuth::Header { name: String::from_str("Authorization"), value })
            },
            AuthenticationMethod::Basic { username, password } => Ok(
                RequestAuth::Basic { username: username.clone(), password: password.clone() },
            ),
            AuthenticationMethod::Unknown => Err(SplunkError::NotAuthenticated),
            AuthenticationMethod::Cookie { .. } => Err(
                SplunkError::InvalidAuthmethod(
                    String::from_str("cookie auth is not supported for this operation"),
                ),
            ),
        }
    }

    /// Set the port
    pub fn with_port(self, port: u16) -> (r: Self)
        ensures
            r.port == port,
            r.hostname == self.hostname,
            r.verify_tls == self.verify_tls,
            r.use_tls == self.use_tls,
            r.auth_method == self.auth_method,
            r.connection_timeout == self.connection_timeout,
    {
        ServerConfig { port, ..self }
    }

    /// Set the hostname
    pub fn with_hostname(self, hostname: String) -> (r: Self)
        ensures
            r.hostname == hostname,
            r.port == self.port,
            r.verify_tls == self.verify_tls,
            r.use_tls == self.use_tls,
            r.auth_method == self.auth_method,
            r.connection_timeout == self.connection_timeout,
    {
        ServerConfig { hostname, ..self }
    }

    /// Do we verify TLS on send?
    pub fn with_verify_tls(self, verify_tls: bool) -> (r: Self)
        ensures
            r.verify_tls == verify_tls,
            r.hostname == self.hostname,
            r.port == self.port,
            r.use_tls == self.use_tls,
            r.auth_method == self.auth_method,
            r.connection_timeout == self.connection_timeout,
    {
        ServerConfig { verify_tls, ..self }
    }
}

impl Default for ServerConfig {
    /// The default server configuration.
    fn default() -> (r: Self)
        ensures
            ServerConfig::is_default(r),
    {
        let r = ServerConfig::new(String::from_str("localhost"));
        r
    }
}

/// This is just used when loading a configuration so you can say "I need a
/// HEC one or I need an API one!"
#[derive(Copy, Clone, Debug)]
pub enum ServerConfigType {
    /// You're using the HTTP Event Collector - looks for SPLUNK_HEC_*
    Hec,
    /// You're using API Endpoints - looks for SPLUNK_API_*
    Api,
}

/// The environment-variable prefix of a configuration family.
pub open spec fn spec_env_prefix(t: ServerConfigType) -> Seq<char> {
    match t {
        ServerConfigType::Hec => "SPLUNK_HEC_"@,
        ServerConfigType::Api => "SPLUNK_API_"@,
    }
}

/// The message produced when a required variable is absent.
pub open spec fn missing_var_msg(prefix: Seq<char>, var: Seq<char>) -> Seq<char> {
    "Please ensure env var "@ + prefix + var + " is set"@
}

/// The message produced when the port variable does not hold a port number.
pub open spec fn bad_port_msg(prefix: Seq<char>) -> Seq<char> {
    "Please ensure env var "@ + prefix + "PORT is a valid port number"@
}

/// Whether `r` is the `Generic` error carrying exactly the message `m`.
pub open spec fn err_generic(r: Result<ServerConfig, SplunkError>, m: Seq<char>) -> bool {
    r matches Err(e) && e matches SplunkError::Generic(s) && s@ == m
}

/// Whether a port string holds a value that fits a port.
pub open spec fn port_ok(s: Seq<char>) -> bool {
    s.len() > 0 && all_dec_digits(s) && dec_val(s) <= 0xFFFF
}

/// Whether the optional port value, if given, parses.
pub open spec fn spec_port_given_ok(port: Option<String>) -> bool {
    match port {
        Some(p) => port_ok(p@),
        None => true,
    }
}

/// The port a configuration ends up with: the parsed value if one was given,
/// else the family's default.
pub open spec fn spec_chosen_port(t: ServerConfigType, port: Option<String>) -> nat {
    match port {
        Some(p) => dec_val(p@),
        None => match t {
            ServerConfigType::Hec => 8088,
            ServerConfigType::Api => 8089,
        },
    }
}

/// The environment-variable prefix of a configuration family.
pub fn env_prefix(t: ServerConfigType) -> (r: &'static str)
    ensures
        r@ == spec_env_prefix(t),
{
    match t {
        ServerConfigType::Hec => "SPLUNK_HEC_",
        ServerConfigType::Api => "SPLUNK_API_",
    }
}

/// The error for a required environment variable that is absent.
fn env_error(prefix: &str, var: &str) -> (r: SplunkError)
    ensures
        r matches SplunkError::Generic(m) && m@ == missing_var_msg(prefix@, var@),
{
    let mut m = String::from_str("Please ensure env var ");
    m.append(prefix);
    m.append(var);
    m.append(" is set");
    SplunkError::Generic(m)
}

impl ServerConfig {
    /// Builds a [ServerConfig] from environment-variable values handed in by
    /// the caller: the required ones must be present, the port must parse,
    /// and every failure names the variable concerned. The hostname, port
    /// and token variables carry the family prefix; the management
    /// credentials come from the separate `SPLUNK_USERNAME` and
    /// `SPLUNK_PASSWORD` variables.
    pub fn try_from_values(
        configtype: ServerConfigType,
        hostname: Option<String>,
        port: Option<String>,
        token: Option<String>,
        username: Option<String>,
        password: Option<String>,
    ) -> (r: Result<ServerConfig, SplunkError>)
        ensures
            hostname is None ==> err_generic(
                r,
                missing_var_msg(spec_env_prefix(configtype), "HOSTNAME"@),
            ),
            hostname is Some ==> (match port {
                Some(p) => !port_ok(p@) ==> err_generic(
                    r,
                    bad_port_msg(spec_env_prefix(configtype)),
                ),
                None => true,
            }),
            configtype is Hec && hostname is Some && spec_port_given_ok(port) && token is None
                ==> err_generic(r, missing_var_msg(spec_env_prefix(configtype), "TOKEN"@)),
            configtype is Hec && spec_port_given_ok(port) ==> (match (hostname, token) {
                (Some(h), Some(t)) => (r matches Ok(c) && c.hostname == h && c.port as nat
                    == spec_chosen_port(configtype, port) && c.auth_method
                    == (AuthenticationMethod::Token { token: t }) && c.use_tls && c.verify_tls
                    && c.connection_timeout == 30u16),
                _ => true,
            }),
            configtype is Api && hostname is Some && spec_port_given_ok(port) && username is None
                ==> err_generic(r, missing_var_msg("SPLUNK_"@, "USERNAME"@)),
            configtype is Api && hostname is Some && spec_port_given_ok(port)
                && username is Some && password is None ==> err_generic(
                r,
                missing_var_msg("SPLUNK_"@, "PASSWORD"@),
            ),
            configtype is Api && spec_port_given_ok(port) ==> (match (hostname, username, password) {
                (Some(h), Some(u), Some(pw)) => (r matches Ok(c) && c.hostname == h
                    && c.port as nat == spec_chosen_port(configtype, port) && c.auth_method
                    == (AuthenticationMethod::Basic { username: u, password: pw }) && c.use_tls
                    && c.verify_tls && c.connection_timeout == 30u16),
                _ => true,
            }),
    {
        let env_prefix = env_prefix(configtype);

        let hostname = match hostname {
            Some(h) => h,
            None => {
                return Err(env_error(env_prefix, "HOSTNAME"));
            },
        };
        let port_num: u16 = match &port {
            Some(p) => match crate::text::parse_u16(p.as_str()) {
                Some(v) => v,
                None => {
                    let mut m = String::from_str("Please ensure env var ");
                    m.append(env_prefix);
                    m.append("PORT is a valid port number");
                    return Err(SplunkError::Generic(m));
                },
            },
            None => match configtype {
                ServerConfigType::Hec => 8088,
                ServerConfigType::Api => 8089,
            },
        };

        let config = ServerConfig::new(hostname).with_port(port_num);
        match configtype {
            ServerConfigType::Hec => {
                let token = match token {
                    Some(t) => t,
                    None => {
                        return Err(env_error(env_prefix, "TOKEN"));
                    },
                };
                Ok(config.with_token(token))
            },
            ServerConfigType::Api => {
                let username = match username {
                    Some(u) => u,
                    None => {
                        return Err(env_error("SPLUNK_", "USERNAME"));
                    },
                };
                let password = match password {
                    Some(pw) => pw,
                    None => {
                        return Err(env_error("SPLUNK_", "PASSWORD"));
                    },
                };
                Ok(config.with_username_password(username, password))
            },
        }
    }
}

} // verus!
