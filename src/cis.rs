use crate::common::{api_url, api_url_of, ApiResponse};
use crate::time::{utc_instant, Timestamp};
use crate::transport::client_accepts_invalid_certs;
use vstd::prelude::*;

verus! {

/// Why a request or its answer could not be carried through.
#[derive(Debug)]
pub enum TransportError {
    /// The HTTP client could not be built, the request could not be carried
    /// out, or the response body could not be decoded.
    Reqwest(reqwest::Error),
    /// A timestamp in a response body is not a date and time.
    Timestamp(chrono::ParseError),
}

/// What can go wrong in a session operation.
#[derive(Debug)]
pub enum SessionError {
    /// The transport failed, or the body of a successful answer could not be read.
    Transport(TransportError),
    /// The server rejected the session token presented with a status query.
    Unauthorized,
    /// The server answered with a status code that the operation does not expect.
    UnexpectedStatusCode(u16),
}

/// The endpoint that creates (POST) and deletes (DELETE) a session.
pub const SESSION_ENDPOINT: &'static str = "com/vmware/cis/session";

/// The endpoint that describes the current session.
pub const SESSION_GET_ENDPOINT: &'static str = "com/vmware/cis/session?~action=get";

/// The header that carries the session token.
pub const SESSION_HEADER: &'static str = "vmware-api-session-id";

/// The HTTP status of a successful operation.
pub const STATUS_OK: u16 = 200;

/// The HTTP status of a request whose credentials or token were refused.
pub const STATUS_UNAUTHORIZED: u16 = 401;

/// The HTTP methods that the session operations use.
#[derive(PartialEq, Eq, Structural, Clone, Copy, Debug)]
pub enum Method {
    Post,
    Delete,
}

/// A request to send, as plain values.
#[derive(Debug)]
pub struct Request {
    pub method: Method,
    /// The absolute URL.
    pub url: String,
    /// User name and password for HTTP Basic authentication.
    pub basic_auth: Option<(String, String)>,
    /// The value of the `SESSION_HEADER` header, where the request carries it.
    pub session_id: Option<String>,
}

/// What the server answered to a request.
pub enum Reply<T> {
    /// Status 200, with the body decoded from its envelope.
    Body(ApiResponse<T>),
    /// A status other than 200; the body is not read.
    Status(u16),
}

/// The description of a session that the server returns, timestamps as text.
#[derive(Clone, Debug)]
pub struct LoginStatusText {
    pub user: String,
    pub created_time: String,
    pub last_accessed_time: String,
}

/// The server's description of the current session.
#[derive(Debug)]
pub struct LoginStatus {
    /// The user that the server associates with the token.
    pub user: String,
    /// When the session was created.
    pub created_time: Timestamp,
    /// When the session was last used.
    pub last_accessed_time: Timestamp,
}

/// The password that Basic authentication sends: an absent one is sent empty.
pub open spec fn password_sent(password: Option<&str>) -> Seq<char> {
    match password {
        Some(p) => p@,
        None => Seq::empty(),
    }
}

/// The value of the session header: the token, or empty when there is none.
pub open spec fn session_id_of(v: SessionView) -> Seq<char> {
    match v.token {
        Some(t) => t,
        None => Seq::empty(),
    }
}

/// The state after the server accepted a login of `user` with `token`.
pub open spec fn logged_in(v: SessionView, user: Seq<char>, token: Seq<char>) -> SessionView {
    SessionView { hostname: v.hostname, token: Some(token), user: Some(user) }
}

/// The state after a logout.
pub open spec fn logged_out(v: SessionView) -> SessionView {
    SessionView { hostname: v.hostname, token: None, user: None }
}

/// `s` is `text` with its user kept and its timestamps read.
pub open spec fn login_status_of(text: LoginStatusText, s: LoginStatus) -> bool {
    &&& s.user@ == text.user@
    &&& utc_instant(text.created_time@) == Some((s.created_time.secs, s.created_time.nanos))
    &&& utc_instant(text.last_accessed_time@) == Some(
        (s.last_accessed_time.secs, s.last_accessed_time.nanos),
    )
}

/// Whether the session holds a token, and for whom.
enum Auth {
    Anonymous,
    Authenticated { token: String, user: String },
}

/// A session with the API of one host.
pub struct Session {
    hostname: String,
    client: reqwest::Client,
    auth: Auth,
}

/// The state of a session as its operations see it.
pub struct SessionView {
    pub hostname: Seq<char>,
    /// The session token, absent while not logged in.
    pub token: Option<Seq<char>>,
    /// The user who logged in, present exactly when `token` is.
    pub user: Option<Seq<char>>,
}

impl View for Session {
    type V = SessionView;

    closed spec fn view(&self) -> SessionView {
        match self.auth {
            Auth::Anonymous => SessionView { hostname: self.hostname@, token: None, user: None },
            Auth::Authenticated { token, user } => SessionView {
                hostname: self.hostname@,
                token: Some(token@),
                user: Some(user@),
            },
        }
    }
}

impl Session {
    /// The HTTP client, which stays the same for the session's lifetime.
    pub closed spec fn transport(&self) -> reqwest::Client {
        self.client
    }

    /// A session with `hostname`, not logged in. Certificate validation is
    /// switched off when `insecure_certs` is set. Fails only where the HTTP
    /// client cannot be built; no request is sent.
    pub fn new(hostname: &str, insecure_certs: bool) -> (r: Result<Session, SessionError>)
        ensures
            r matches Ok(s) ==> s@ == (SessionView { hostname: hostname@, token: None, user: None }),
            r matches Ok(s) ==> client_accepts_invalid_certs(s.transport()) == insecure_certs,
            r matches Err(e) ==> e matches SessionError::Transport(TransportError::Reqwest(_)),
    {
        let builder = reqwest::Client::builder();
        let builder = builder.danger_accept_invalid_certs(insecure_certs);
        let builder = builder.use_rustls_tls();
        match builder.build() {
            Ok(client) => Ok(
                Session { hostname: String::from_str(hostname), client, auth: Auth::Anonymous },
            ),
            Err(e) => Err(SessionError::Transport(TransportError::Reqwest(e))),
        }
    }

    /// The host whose API the session speaks to.
    pub fn hostname(&self) -> (r: &str)
        ensures
            r@ == self@.hostname,
    {
        self.hostname.as_str()
    }

    /// The HTTP client through which the session's requests go.
    pub fn client(&self) -> (r: &reqwest::Client)
        ensures
            *r == self.transport(),
    {
        &self.client
    }

    /// The session token, absent while not logged in.
    pub fn session_token(&self) -> (r: Option<&str>)
        ensures
            match r {
                Some(t) => self@.token == Some(t@),
                None => self@.token is None,
            },
    {
        match &self.auth {
            Auth::Authenticated { token, .. } => Some(token.as_str()),
            Auth::Anonymous => None,
        }
    }

    /// The user who logged in, absent while not logged in.
    pub fn logged_in_user(&self) -> (r: Option<&str>)
        ensures
            match r {
                Some(u) => self@.user == Some(u@),
                None => self@.user is None,
            },
    {
        match &self.auth {
            Auth::Authenticated { user, .. } => Some(user.as_str()),
            Auth::Anonymous => None,
        }
    }

    /// A request to `endpoint` that carries the session token, or an empty
    /// value in its place, so that the server decides on authorization.
    fn authenticated_request(&self, method: Method, endpoint: &str) -> (r: Request)
        ensures
            r.method == method,
            r.url@ == api_url_of(self@.hostname, endpoint@),
            r.basic_auth is None,
            r.session_id matches Some(id) && id@ == session_id_of(self@),
    {
        let session_id = match &self.auth {
            Auth::Authenticated { token, .. } => token.clone(),
            Auth::Anonymous => String::new(),
        };
        Request {
            method,
            url: api_url(self.hostname.as_str(), endpoint),
            basic_auth: None,
            session_id: Some(session_id),
        }
    }

    /// The request that logs `username` in with HTTP Basic authentication. An
    /// absent password is sent as an empty one.
    pub fn login_request(&self, username: &str, password: Option<&str>) -> (r: Request)
        ensures
            r.method == Method::Post,
            r.url@ == api_url_of(self@.hostname, SESSION_ENDPOINT@),
            r.basic_auth matches Some((u, p)) && u@ == username@ && p@ == password_sent(password),
            r.session_id is None,
    {
        let password = match password {
            Some(p) => String::from_str(p),
            None => String::new(),
        };
        Request {
            method: Method::Post,
            url: api_url(self.hostname.as_str(), SESSION_ENDPOINT),
            basic_auth: Some((String::from_str(username), password)),
            session_id: None,
        }
    }

    /// Takes the server's answer to `login_request(username, ..)`. Status 200
    /// logs `username` in with the token of the body and gives `true`; 401, a
    /// refusal of the credentials, gives `false` and leaves the session as it
    /// was; any other status, or a failed exchange, is an error and leaves the
    /// session as it was.
    pub fn finish_login(
        &mut self,
        username: &str,
        reply: Result<Reply<String>, reqwest::Error>,
    ) -> (r: Result<bool, SessionError>)
        ensures
            final(self).transport() == old(self).transport(),
            match reply {
                Ok(Reply::Body(body)) => r == Ok::<bool, SessionError>(true) && final(self)@
                    == logged_in(old(self)@, username@, body.value@),
                Ok(Reply::Status(code)) => final(self)@ == old(self)@ && if code
                    == STATUS_UNAUTHORIZED {
                    r == Ok::<bool, SessionError>(false)
                } else {
                    r == Err::<bool, SessionError>(SessionError::UnexpectedStatusCode(code))
                },
                Err(e) => final(self)@ == old(self)@ && r == Err::<bool, SessionError>(
                    SessionError::Transport(TransportError::Reqwest(e)),
                ),
            },
    {
        match reply {
            Ok(Reply::Body(body)) => {
                self.auth = Auth::Authenticated { token: body.value, user: String::from_str(username) };
                Ok(true)
            },
            Ok(Reply::Status(code)) => {
                if code == STATUS_UNAUTHORIZED {
                    Ok(false)
                } else {
                    Err(SessionError::UnexpectedStatusCode(code))
                }
            },
            Err(e) => Err(SessionError::Transport(TransportError::Reqwest(e))),
        }
    }

    /// The request that asks the server about the current session.
    pub fn login_status_request(&self) -> (r: Request)
        ensures
            r.method == Method::Post,
            r.url@ == api_url_of(self@.hostname, SESSION_GET_ENDPOINT@),
            r.basic_auth is None,
            r.session_id matches Some(id) && id@ == session_id_of(self@),
    {
        self.authenticated_request(Method::Post, SESSION_GET_ENDPOINT)
    }

    /// Takes the server's answer to `login_status_request`. Status 200 gives
    /// the description in the body, with its timestamps read; 401 means the
    /// token was refused; any other status, or a failed exchange, is an error.
    pub fn finish_login_status(
        &self,
        reply: Result<Reply<LoginStatusText>, reqwest::Error>,
    ) -> (r: Result<LoginStatus, SessionError>)
        ensures
            match reply {
                Ok(Reply::Body(body)) => match r {
                    Ok(s) => login_status_of(body.value, s),
                    Err(e) => (e matches SessionError::Transport(TransportError::Timestamp(_)))
                        && (utc_instant(body.value.created_time@) is None
                        || utc_instant(body.value.last_accessed_time@) is None),
                },
                Ok(Reply::Status(code)) => if code == STATUS_UNAUTHORIZED {
                    r matches Err(SessionError::Unauthorized)
                } else {
                    r matches Err(SessionError::UnexpectedStatusCode(c)) && c == code
                },
                Err(e) => r == Err::<LoginStatus, SessionError>(
                    SessionError::Transport(TransportError::Reqwest(e)),
                ),
            },
    {
        match reply {
            Ok(Reply::Body(body)) => {
                let text = body.value;
                let created_time = match Timestamp::parse(text.created_time.as_str()) {
                    Ok(t) => t,
                    Err(e) => return Err(SessionError::Transport(TransportError::Timestamp(e))),
                };
                let last_accessed_time = match Timestamp::parse(text.last_accessed_time.as_str()) {
                    Ok(t) => t,
                    Err(e) => return Err(SessionError::Transport(TransportError::Timestamp(e))),
                };
                Ok(LoginStatus { user: text.user, created_time, last_accessed_time })
            },
            Ok(Reply::Status(code)) => {
                if code == STATUS_UNAUTHORIZED {
                    Err(SessionError::Unauthorized)
                } else {
                    Err(SessionError::UnexpectedStatusCode(code))
                }
            },
            Err(e) => Err(SessionError::Transport(TransportError::Reqwest(e))),
        }
    }

    /// The request that ends the session.
    pub fn logout_request(&self) -> (r: Request)
        ensures
            r.method == Method::Delete,
            r.url@ == api_url_of(self@.hostname, SESSION_ENDPOINT@),
            r.basic_auth is None,
            r.session_id matches Some(id) && id@ == session_id_of(self@),
    {
        self.authenticated_request(Method::Delete, SESSION_ENDPOINT)
    }

    /// Takes the status the server answered to `logout_request`. Status 200
    /// ends the session, and so does 401: the server no longer knows it. Any
    /// other status, or a failed exchange, is an error and leaves the session
    /// as it was, since what became of it on the server is unknown.
    pub fn finish_logout(&mut self, reply: Result<u16, reqwest::Error>) -> (r: Result<(), SessionError>)
        ensures
            final(self).transport() == old(self).transport(),
            match reply {
                Ok(code) => if code == STATUS_OK || code == STATUS_UNAUTHORIZED {
                    r is Ok && final(self)@ == logged_out(old(self)@)
                } else {
                    final(self)@ == old(self)@ && r == Err::<(), SessionError>(
                        SessionError::UnexpectedStatusCode(code),
                    )
                },
                Err(e) => final(self)@ == old(self)@ && r == Err::<(), SessionError>(
                    SessionError::Transport(TransportError::Reqwest(e)),
                ),
            },
    {
        match reply {
            Ok(code) => {
                if code == STATUS_OK || code == STATUS_UNAUTHORIZED {
                    self.auth = Auth::Anonymous;
                    Ok(())
                } else {
                    Err(SessionError::UnexpectedStatusCode(code))
                }
            },
            Err(e) => Err(SessionError::Transport(TransportError::Reqwest(e))),
        }
    }
}

/// After a login that the server accepted with `token`, every authenticated
/// request of the session carries exactly `token` in the session header.
pub proof fn login_token_is_sent(v: SessionView, user: Seq<char>, token: Seq<char>)
    ensures
        session_id_of(logged_in(v, user, token)) == token,
{
}

/// Logging out of a session that is already logged out changes nothing, and a
/// login followed by a logout leaves the session as a fresh one on its host.
pub proof fn logout_is_idempotent(v: SessionView, user: Seq<char>, token: Seq<char>)
    ensures
        logged_out(logged_out(v)) == logged_out(v),
        logged_out(logged_in(v, user, token)) == logged_out(v),
        logged_out(v).token is None && logged_out(v).user is None,
{
}

/// A session holds a token exactly when it holds the user who logged in.
pub proof fn token_iff_user(s: &Session)
    ensures
        s@.token is Some <==> s@.user is Some,
{
}

} // verus!
