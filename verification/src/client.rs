//! Client-side state for the management API: credential variants, session
//! modes, request-authorization resolution, endpoint construction and the
//! paging rules for listing saved searches.

use vstd::prelude::*;

use crate::errors::SplunkError;
use crate::text::bool_chars;
use crate::text::bool_str;
use crate::text::dec_chars;
use crate::text::u64_to_string;
use crate::ServerConfig;

verus! {

/// The current auth method for the client.
#[derive(Clone, Debug)]
pub enum AuthenticationMethod {
    /// Basic auth
    Basic {
        /// username
        username: String,
        /// password
        password: String,
    },
    /// Token auth
    Token {
        /// token auth
        token: String,
    },
    /// Cookie based
    Cookie {
        /// cookie store, as key/value pairs
        cookie: Vec<(String, String)>,
    },
    /// we haven't set it yet
    Unknown,
}

/// The current auth mode - you can auth with username/password then get a
/// cookie or a session token and go from there.
#[derive(Clone, Debug)]
pub enum AuthenticatedSessionMode {
    /// cookie auth
    Cookie {
        /// cookie values, as key/value pairs
        value: Vec<(String, String)>,
    },
    /// token auth
    Token(
        /// the token
        String,
    ),
    /// we haven't set it yet
    Unset,
}

/// How a single request must be authorized, as resolved from a credential.
#[derive(Clone, Debug)]
pub enum RequestAuth {
    /// Send this header with the request.
    Header {
        /// header name
        name: String,
        /// header value
        value: String,
    },
    /// Use HTTP Basic authentication with these credentials.
    Basic {
        /// username
        username: String,
        /// password
        password: String,
    },
}

/// What the urlencoding crate produces for a string: every byte of its UTF-8
/// form other than the unreserved ones percent-encoded.
pub uninterp spec fn url_encoded_of(s: Seq<char>) -> Seq<char>;

/// Whether percent-encoding leaves `c` unchanged: the ASCII alphanumerics
/// and `-`, `_`, `.`, `~`.
pub open spec fn url_unreserved_char(c: char) -> bool {
    ||| (97 <= (c as int) && (c as int) <= 122)
    ||| (65 <= (c as int) && (c as int) <= 90)
    ||| (48 <= (c as int) && (c as int) <= 57)
    ||| c == '-'
    ||| c == '_'
    ||| c == '.'
    ||| c == '~'
}

/// Relies on `urlencoding::encode`: percent-encodes every byte except
/// alphanumerics and `-`, `_`, `.`, `~`, so a string of unreserved
/// characters passes through unchanged. The result depends on the input
/// alone.
#[verifier::external_body]
fn url_encode(s: &str) -> (r: String)
    ensures
        r@ == url_encoded_of(s@),
        (forall|i: int| 0 <= i < s@.len() ==> url_unreserved_char(s@[i])) ==> r@ == s@,
{
    urlencoding::encode(s).into_owned()
}

/// One query pair as rendered into a URL: key, `=`, the encoded value.
pub open spec fn pair_chars(p: (Seq<char>, Seq<char>)) -> Seq<char> {
    p.0 + "="@ + url_encoded_of(p.1)
}

/// The rendered query pairs, joined with `&`.
pub open spec fn query_string(params: Seq<(Seq<char>, Seq<char>)>) -> Seq<char>
    decreases params.len(),
{
    if params.len() == 0 {
        Seq::<char>::empty()
    } else if params.len() == 1 {
        pair_chars(params[0])
    } else {
        query_string(params.drop_last()) + "&"@ + pair_chars(params.last())
    }
}

/// The views of a list of string pairs.
pub open spec fn param_views(params: Seq<(String, String)>) -> Seq<(Seq<char>, Seq<char>)> {
    params.map_values(|p: (String, String)| (p.0@, p.1@))
}

/// Takes a list of key/value pairs to add to the URL and appends the query
/// values to the endpoint, in order, percent-encoding each value.
pub fn add_query_params_to_endpoint(endpoint: &mut String, params: &Vec<(String, String)>)
    ensures
        params@.len() == 0 ==> final(endpoint)@ == old(endpoint)@,
        params@.len() > 0 ==> final(endpoint)@ == old(endpoint)@ + "?"@ + query_string(
            param_views(params@),
        ),
{
    if params.len() == 0 {
        return ;
    }
    let ghost e0 = endpoint@;
    endpoint.append("?");
    let mut i: usize = 0;
    while i < params.len()
        invariant
            0 <= i <= params@.len(),
            i == 0 ==> endpoint@ == e0 + "?"@,
            i > 0 ==> endpoint@ == e0 + "?"@ + query_string(param_views(params@.take(i as int))),
        decreases params@.len() - i,
    {
        if i > 0 {
            endpoint.append("&");
        }
        endpoint.append(params[i].0.as_str());
        endpoint.append("=");
        let encoded = url_encode(params[i].1.as_str());
        endpoint.append(encoded.as_str());
        proof {
            let pv1 = param_views(params@.take(i + 1));
            assert(pv1.drop_last() =~= param_views(params@.take(i as int)));
            assert(pv1.last() == (params@[i as int].0@, params@[i as int].1@));
            assert(endpoint@ =~= e0 + "?"@ + query_string(pv1));
        }
        i = i + 1;
    }
    proof {
        assert(params@.take(params@.len() as int) =~= params@);
    }
}

/// The view of an optional borrowed string.
pub open spec fn opt_str_view(o: Option<&str>) -> Option<Seq<char>> {
    match o {
        Some(s) => Some(s@),
        None => None,
    }
}

/// The query parameters of one saved-searches listing request, in the order
/// they are rendered: the output mode, then each given option.
pub open spec fn saved_searches_params(
    earliest_time: Option<Seq<char>>,
    latest_time: Option<Seq<char>>,
    list_default_action_args: Option<bool>,
    add_orphan_field: Option<bool>,
    offset: Option<u32>,
) -> Seq<(Seq<char>, Seq<char>)> {
    seq![("output_mode"@, "json"@)] + (match offset {
        Some(o) => seq![("offset"@, dec_chars(o as nat))],
        None => Seq::<(Seq<char>, Seq<char>)>::empty(),
    }) + (match earliest_time {
        Some(s) => seq![("earliest_time"@, s)],
        None => Seq::<(Seq<char>, Seq<char>)>::empty(),
    }) + (match latest_time {
        Some(s) => seq![("latest_time"@, s)],
        None => Seq::<(Seq<char>, Seq<char>)>::empty(),
    }) + (match list_default_action_args {
        Some(b) => seq![("list_default_action_args"@, bool_chars(b))],
        None => Seq::<(Seq<char>, Seq<char>)>::empty(),
    }) + (match add_orphan_field {
        Some(b) => seq![("add_orphan_field"@, bool_chars(b))],
        None => Seq::<(Seq<char>, Seq<char>)>::empty(),
    })
}

/// The endpoint for one saved-searches listing request, query string
/// included.
pub fn saved_searches_endpoint(
    earliest_time: Option<&str>,
    latest_time: Option<&str>,
    list_default_action_args: Option<bool>,
    add_orphan_field: Option<bool>,
    offset: Option<u32>,
) -> (r: String)
    ensures
        r@ == "/services/saved/searches"@ + "?"@ + query_string(
            saved_searches_params(
                opt_str_view(earliest_time),
                opt_str_view(latest_time),
                list_default_action_args,
                add_orphan_field,
                offset,
            ),
        ),
{
    let ghost g_off = (match offset {
        Some(o) => seq![("offset"@, dec_chars(o as nat))],
        None => Seq::<(Seq<char>, Seq<char>)>::empty(),
    });
    let ghost g_earliest = (match opt_str_view(earliest_time) {
        Some(s) => seq![("earliest_time"@, s)],
        None => Seq::<(Seq<char>, Seq<char>)>::empty(),
    });
    let ghost g_latest = (match opt_str_view(latest_time) {
        Some(s) => seq![("latest_time"@, s)],
        None => Seq::<(Seq<char>, Seq<char>)>::empty(),
    });
    let ghost g_lda = (match list_default_action_args {
        Some(b) => seq![("list_default_action_args"@, bool_chars(b))],
        None => Seq::<(Seq<char>, Seq<char>)>::empty(),
    });
    let ghost g_orphan = (match add_orphan_field {
        Some(b) => seq![("add_orphan_field"@, bool_chars(b))],
        None => Seq::<(Seq<char>, Seq<char>)>::empty(),
    });

    let mut params: Vec<(String, String)> = Vec::new();
    params.push((String::from_str("output_mode"), String::from_str("json")));
    proof {
        assert(param_views(params@) =~= seq![("output_mode"@, "json"@)]);
    }
    let ghost p0 = params@;
    if let Some(o) = offset {
        params.push((String::from_str("offset"), u64_to_string(o as u64)));
    }
    proof {
        assert(param_views(params@) =~= param_views(p0) + g_off);
    }
    let ghost p1 = params@;
    if let Some(e) = earliest_time {
        params.push((String::from_str("earliest_time"), String::from_str(e)));
    }
    proof {
        assert(param_views(params@) =~= param_views(p1) + g_earliest);
    }
    let ghost p2 = params@;
    if let Some(l) = latest_time {
        params.push((String::from_str("latest_time"), String::from_str(l)));
    }
    proof {
        assert(param_views(params@) =~= param_views(p2) + g_latest);
    }
    let ghost p3 = params@;
    if let Some(b) = list_default_action_args {
        params.push((String::from_str("list_default_action_args"), String::from_str(bool_str(b))));
    }
    proof {
        assert(param_views(params@) =~= param_views(p3) + g_lda);
    }
    let ghost p4 = params@;
    if let Some(b) = add_orphan_field {
        params.push((String::from_str("add_orphan_field"), String::from_str(bool_str(b))));
    }
    proof {
        assert(param_views(params@) =~= param_views(p4) + g_orphan);
        assert(param_views(params@) =~= saved_searches_params(
            opt_str_view(earliest_time),
            opt_str_view(latest_time),
            list_default_action_args,
            add_orphan_field,
            offset,
        ));
    }
    let mut endpoint = String::from_str("/services/saved/searches");
    add_query_params_to_endpoint(&mut endpoint, &params);
    endpoint
}

/// This is the "generator" element in API Responses
#[derive(Debug, Clone)]
pub struct ApiResponseGenerator {
    /// The build ID
    pub build: String,
    /// The version number
    pub version: String,
}

/// This is the "paging" element in API Responses
#[derive(Debug, Clone)]
pub struct ApiResponsePaging {
    /// Total possible responses
    pub total: u32,
    /// Number returned per page
    pub per_page: u32,
    /// Current request offset
    pub offset: u32,
}

/// Whether the paging element says more results remain past this page.
pub open spec fn spec_has_more(p: ApiResponsePaging) -> bool {
    p.offset <= p.total && p.total - p.per_page > p.offset
}

impl ApiResponsePaging {
    /// Is there more pages?
    pub fn has_more(&self) -> (r: bool)
        ensures
            r == spec_has_more(*self),
    {
        if self.offset > self.total {
            false
        } else {
            self.total - self.offset > self.per_page
        }
    }
}

/// Trying to capture an API response as a struct!
#[derive(Debug)]
pub struct ApiResponse {
    /// Links to other endpoints
    pub links: Vec<(String, String)>,
    /// The endpoint which generated this response
    pub origin: String,
    /// The timestamp of the request
    pub updated: String,
    /// Version/build that generated this response
    pub generator: Option<ApiResponseGenerator>,
    /// The results
    pub entry: Vec<serde_json::Value>,
    /// Information/error messages in your response
    pub messages: Vec<serde_json::Value>,
    /// Details of where you are in the response set
    pub paging: Option<ApiResponsePaging>,
}

/// Whether the response's paging element says more results remain.
pub open spec fn spec_paging_has_more(r: ApiResponse) -> bool {
    match r.paging {
        Some(p) => spec_has_more(p),
        None => false,
    }
}

impl ApiResponse {
    /// Check that the paging indicates we have more results - if there's no
    /// paging data in the response, then you get a false regardless.
    pub fn paging_has_more(&self) -> (r: bool)
        ensures
            r == spec_paging_has_more(*self),
    {
        match &self.paging {
            Some(p) => p.has_more(),
            None => false,
        }
    }

    /// The offset of the next page to fetch, or `None` when every result has
    /// been listed: the decision one pagination round makes when pulling all
    /// saved searches.
    pub fn next_offset(&self, offset: u32) -> (r: Result<Option<u32>, SplunkError>)
        ensures
            !spec_paging_has_more(*self) ==> (r matches Ok(o) && o is None),
            spec_paging_has_more(*self) ==> (match self.paging {
                Some(p) => (offset + p.per_page <= u32::MAX ==> (r matches Ok(o) && o == Some(
                    (offset + p.per_page) as u32,
                ))) && (offset + p.per_page > u32::MAX ==> (r matches Err(e) && e is Generic)),
                None => true,
            }),
    {
        match &self.paging {
            Some(p) => {
                if !p.has_more() {
                    Ok(None)
                } else if offset <= u32::MAX - p.per_page {
                    Ok(Some(offset + p.per_page))
                } else {
                    Err(
                        SplunkError::Generic(
                            String::from_str("paging offset does not fit in a u32"),
                        ),
                    )
                }
            },
            None => Ok(None),
        }
    }
}

/// Client for enterprise/cloud API things: login, search, manipulate config
/// items etc. The HTTP transport itself lives outside the library and is
/// driven by the decisions made here.
#[derive(Debug)]
pub struct SplunkClient {
    /// server configuration object
    pub serverconfig: ServerConfig,
    /// what mode we're using for authentication (token, cookie etc)
    pub auth_session_mode: AuthenticatedSessionMode,
}

impl Default for SplunkClient {
    /// An unauthenticated client pointed at the default server.
    fn default() -> (r: Self)
        ensures
            ServerConfig::is_default(r.serverconfig),
            r.auth_session_mode is Unset,
    {
        SplunkClient {
            serverconfig: ServerConfig::default(),
            auth_session_mode: AuthenticatedSessionMode::Unset,
        }
    }
}

impl SplunkClient {
    /// set the config on build
    pub fn with_config(self, serverconfig: ServerConfig) -> (r: Self)
        ensures
            r.serverconfig == serverconfig,
            r.auth_session_mode == self.auth_session_mode,
    {
        SplunkClient { serverconfig, auth_session_mode: self.auth_session_mode }
    }

    /// Set the authentication session mode
    pub fn with_auth_session_mode(self, mode: AuthenticatedSessionMode) -> (r: Self)
        ensures
            r.serverconfig == self.serverconfig,
            r.auth_session_mode == mode,
    {
        SplunkClient { serverconfig: self.serverconfig, auth_session_mode: mode }
    }

    /// Resolves the session credential for a GET request: a session token
    /// yields an `Authorization` header; an unset session is rejected rather
    /// than sent unauthenticated, and so is cookie mode, which no request
    /// path here supports.
    pub fn session_auth(&self) -> (r: Result<RequestAuth, SplunkError>)
        ensures
            self.auth_session_mode matches AuthenticatedSessionMode::Token(value) ==> (
            r matches Ok(RequestAuth::Header { name, value: v }) && name@ == "Authorization"@
                && v@ == "Splunk "@ + value@),
            self.auth_session_mode is Cookie ==> (r matches Err(e) && e is InvalidAuthmethod),
            self.auth_session_mode is Unset ==> (r matches Err(e) && e is NotAuthenticated),
    {
        match &self.auth_session_mode {
            AuthenticatedSessionMode::Token(value) => {
                let mut header = String::from_str("Splunk ");
                header.append(value.as_str());
                Ok(RequestAuth::Header { name: String::from_str("Authorization"), value: header })
            },
            AuthenticatedSessionMode::Cookie { .. } => Err(
                SplunkError::InvalidAuthmethod(
                    String::from_str("cookie auth is not supported for this operation"),
                ),
            ),
            AuthenticatedSessionMode::Unset => Err(SplunkError::NotAuthenticated),
        }
    }

    /// The form fields for a login request: basic credentials become the
    /// username/password fields, a missing method is rejected, and the other
    /// methods cannot be used to log in.
    pub fn login_payload(&self) -> (r: Result<Vec<(String, String)>, SplunkError>)
        ensures
            self.serverconfig.auth_method matches AuthenticationMethod::Basic {
                username,
                password,
            } ==> (r matches Ok(p) && p@.len() == 2 && p@[0].0@ == "username"@ && p@[0].1
                == username && p@[1].0@ == "password"@ && p@[1].1 == password),
            self.serverconfig.auth_method is Unknown ==> (r matches Err(e)
                && e is NoAuthMethodSelected),
            (self.serverconfig.auth_method is Token || self.serverconfig.auth_method is Cookie)
                ==> (r matches Err(e) && e is InvalidAuthmethod),
    {
        match &self.serverconfig.auth_method {
            AuthenticationMethod::Basic { username, password } => {
                let mut payload: Vec<(String, String)> = Vec::new();
                payload.push((String::from_str("username"), username.clone()));
                payload.push((String::from_str("password"), password.clone()));
                Ok(payload)
            },
            AuthenticationMethod::Unknown => Err(SplunkError::NoAuthMethodSelected),
            AuthenticationMethod::Token { .. } => Err(
                SplunkError::InvalidAuthmethod(
                    String::from_str("token auth cannot establish a login session"),
                ),
            ),
            AuthenticationMethod::Cookie { .. } => Err(
                SplunkError::InvalidAuthmethod(
                    String::from_str("cookie auth cannot establish a login session"),
                ),
            ),
        }
    }

    /// Records the session key handed back by a successful login.
    pub fn complete_login(&mut self, session_key: String)
        ensures
            final(self).serverconfig == old(self).serverconfig,
            final(self).auth_session_mode == AuthenticatedSessionMode::Token(session_key),
    {
        self.auth_session_mode = AuthenticatedSessionMode::Token(session_key);
    }
}

} // verus!
