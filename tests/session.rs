use vsphere::cis::{
    LoginStatusText, Method, Reply, Session, SessionError, TransportError, SESSION_HEADER,
};
use vsphere::common::{api_url, ApiResponse};
use vsphere::time::Timestamp;

const VCENTER_HOSTNAME: &str = "";
const VCENTER_USERNAME: &str = "";
const VCENTER_PASSWORD: &str = "";

fn token_reply(token: &str) -> Result<Reply<String>, reqwest::Error> {
    Ok(Reply::Body(ApiResponse { value: token.to_string() }))
}

fn status_text(user: &str, created: &str, last: &str) -> Result<Reply<LoginStatusText>, reqwest::Error> {
    Ok(Reply::Body(ApiResponse {
        value: LoginStatusText {
            user: user.to_string(),
            created_time: created.to_string(),
            last_accessed_time: last.to_string(),
        },
    }))
}

fn transport_error() -> reqwest::Error {
    reqwest::Client::new().get("not a url").build().unwrap_err()
}

fn logged_in_session(token: &str) -> Session {
    let mut session = Session::new("vc.example", false).expect("Session::new");
    assert!(session.finish_login("alice", token_reply(token)).expect("login"));
    session
}

#[test]
fn login_login_status_logout() {
    let mut session = Session::new(VCENTER_HOSTNAME, true).expect("Session::new");
    let _ = session.login_request(VCENTER_USERNAME, Some("abc"));
    let login_ok = session
        .finish_login(VCENTER_USERNAME, Ok(Reply::Status(401)))
        .expect("session.login");
    assert!(!login_ok);
    let _ = session.login_request(VCENTER_USERNAME, Some(VCENTER_PASSWORD));
    let login_ok = session.finish_login(VCENTER_USERNAME, token_reply("tok")).expect("login");
    assert!(login_ok);
    let _ = session.login_status_request();
    let login_status = session
        .finish_login_status(status_text(VCENTER_USERNAME, "2024-01-01T00:00:00Z", "2024-01-01T00:05:00Z"))
        .expect("session.login_status");
    assert_eq!(login_status.user, VCENTER_USERNAME);
    let _ = session.logout_request();
    session.finish_logout(Ok(200)).expect("session.logout");
}

#[test]
fn new_session_is_not_logged_in() {
    for insecure in [true, false] {
        let session = Session::new("vc.example", insecure).expect("Session::new");
        assert_eq!(session.hostname(), "vc.example");
        assert_eq!(session.session_token(), None);
        assert_eq!(session.logged_in_user(), None);
    }
}

#[test]
fn bad_credentials_give_false_and_keep_state() {
    let mut session = Session::new("vc.example", true).unwrap();
    let r = session.finish_login("alice", Ok(Reply::Status(401)));
    assert!(matches!(r, Ok(false)));
    assert_eq!(session.session_token(), None);
    assert_eq!(session.logged_in_user(), None);

    let mut session = logged_in_session("tok1");
    let r = session.finish_login("bob", Ok(Reply::Status(401)));
    assert!(matches!(r, Ok(false)));
    assert_eq!(session.session_token(), Some("tok1"));
    assert_eq!(session.logged_in_user(), Some("alice"));
}

#[test]
fn successful_login_sends_token() {
    let session = logged_in_session("tok123");
    assert_eq!(session.session_token(), Some("tok123"));
    assert_eq!(session.logged_in_user(), Some("alice"));
    let status = session.login_status_request();
    assert_eq!(status.session_id.as_deref(), Some("tok123"));
    assert_eq!(status.method, Method::Post);
    assert_eq!(status.url, "https://vc.example/rest/com/vmware/cis/session?~action=get");
    assert!(status.basic_auth.is_none());
    let logout = session.logout_request();
    assert_eq!(logout.session_id.as_deref(), Some("tok123"));
    assert_eq!(logout.method, Method::Delete);
    assert_eq!(logout.url, "https://vc.example/rest/com/vmware/cis/session");
    assert_eq!(SESSION_HEADER, "vmware-api-session-id");
}

#[test]
fn anonymous_requests_send_empty_token() {
    let session = Session::new("vc.example", false).unwrap();
    assert_eq!(session.login_status_request().session_id.as_deref(), Some(""));
    assert_eq!(session.logout_request().session_id.as_deref(), Some(""));
}

#[test]
fn login_request_uses_basic_auth() {
    let session = Session::new("vc.example", false).unwrap();
    let r = session.login_request("alice", Some("secret"));
    assert_eq!(r.method, Method::Post);
    assert_eq!(r.url, "https://vc.example/rest/com/vmware/cis/session");
    assert_eq!(r.basic_auth, Some(("alice".to_string(), "secret".to_string())));
    assert_eq!(r.session_id, None);
    let r = session.login_request("alice", None);
    assert_eq!(r.basic_auth, Some(("alice".to_string(), String::new())));
}

#[test]
fn login_status_round_trip() {
    let session = logged_in_session("tok123");
    let s = session
        .finish_login_status(status_text("alice", "2024-01-01T00:00:00Z", "2024-01-01T00:05:00Z"))
        .expect("login_status");
    assert_eq!(s.user, "alice");
    assert_eq!(s.created_time, Timestamp { secs: 1704067200, nanos: 0 });
    assert_eq!(s.last_accessed_time, Timestamp { secs: 1704067500, nanos: 0 });
}

#[test]
fn login_status_bad_timestamp() {
    let session = logged_in_session("tok123");
    let r = session.finish_login_status(status_text("alice", "2024-01-01T00:00:00Z", "yesterday"));
    assert!(matches!(r, Err(SessionError::Transport(TransportError::Timestamp(_)))));
}

#[test]
fn login_status_unauthorized() {
    let session = logged_in_session("tok123");
    let r = session.finish_login_status(Ok(Reply::Status(401)));
    assert!(matches!(r, Err(SessionError::Unauthorized)));
    assert_eq!(session.session_token(), Some("tok123"));
    assert_eq!(session.logged_in_user(), Some("alice"));
}

#[test]
fn logout_on_ok_ends_session() {
    let mut session = logged_in_session("tok123");
    assert!(session.finish_logout(Ok(200)).is_ok());
    assert_eq!(session.session_token(), None);
    assert_eq!(session.logged_in_user(), None);
    assert_eq!(session.logout_request().session_id.as_deref(), Some(""));
}

#[test]
fn logout_on_unauthorized_ends_session() {
    let mut session = logged_in_session("tok123");
    assert!(session.finish_logout(Ok(401)).is_ok());
    assert_eq!(session.session_token(), None);
    assert_eq!(session.logged_in_user(), None);
    assert!(session.finish_logout(Ok(401)).is_ok());
    assert_eq!(session.session_token(), None);
}

#[test]
fn unexpected_status_is_reported() {
    let mut session = logged_in_session("tok123");
    let r = session.finish_login("bob", Ok(Reply::Status(500)));
    assert!(matches!(r, Err(SessionError::UnexpectedStatusCode(500))));
    let r = session.finish_login_status(Ok(Reply::Status(500)));
    assert!(matches!(r, Err(SessionError::UnexpectedStatusCode(500))));
    let r = session.finish_logout(Ok(500));
    assert!(matches!(r, Err(SessionError::UnexpectedStatusCode(500))));
    assert_eq!(session.session_token(), Some("tok123"));
    assert_eq!(session.logged_in_user(), Some("alice"));
}

#[test]
fn transport_failure_keeps_state() {
    let mut session = Session::new("vc.example", false).unwrap();
    let r = session.finish_login("alice", Err(transport_error()));
    assert!(matches!(r, Err(SessionError::Transport(TransportError::Reqwest(_)))));
    assert_eq!(session.session_token(), None);
    assert_eq!(session.logged_in_user(), None);

    let mut session = logged_in_session("tok1");
    let r = session.finish_login("bob", Err(transport_error()));
    assert!(matches!(r, Err(SessionError::Transport(TransportError::Reqwest(_)))));
    assert_eq!(session.session_token(), Some("tok1"));
    assert_eq!(session.logged_in_user(), Some("alice"));
    let r = session.finish_logout(Err(transport_error()));
    assert!(matches!(r, Err(SessionError::Transport(TransportError::Reqwest(_)))));
    assert_eq!(session.session_token(), Some("tok1"));
    let r = session.finish_login_status(Err(transport_error()));
    assert!(matches!(r, Err(SessionError::Transport(TransportError::Reqwest(_)))));
}

#[test]
fn relogin_replaces_token() {
    let mut session = logged_in_session("tok1");
    assert!(session.finish_login("bob", token_reply("tok2")).unwrap());
    assert_eq!(session.session_token(), Some("tok2"));
    assert_eq!(session.logged_in_user(), Some("bob"));
}

#[test]
fn api_url_joins_host_and_endpoint() {
    assert_eq!(api_url("host.example", "com/vmware/cis/session"), "https://host.example/rest/com/vmware/cis/session");
    assert_eq!(api_url("", ""), "https:///rest/");
}

#[test]
fn timestamp_parse_reads_offsets_and_fractions() {
    assert_eq!(Timestamp::parse("2024-01-01T01:00:00+01:00").unwrap(), Timestamp { secs: 1704067200, nanos: 0 });
    assert_eq!(Timestamp::parse("1970-01-01T00:00:01.5Z").unwrap(), Timestamp { secs: 1, nanos: 500_000_000 });
    assert!(Timestamp::parse("").is_err());
    assert!(Timestamp::parse("2024-13-01T00:00:00Z").is_err());
}
