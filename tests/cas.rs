use cas_client::client::{ticket_from_request, CasClient};
use cas_client::interpret::{failure_reason_of, interpret_response};
use cas_client::types::{RequestUri, ServiceResponse, VerifyError};

const NO_REPLY: &str = "did not detect authentication reply from CAS server";

fn client() -> CasClient {
    CasClient::new(
        "https://login.case.edu/cas",
        "/login",
        "/logout",
        "/serviceValidate",
        "http://localhost:8080/callback",
    )
    .unwrap()
}

fn reply(inner: &str) -> Vec<u8> {
    format!(
        "<cas:serviceResponse xmlns:cas=\"http://www.yale.edu/tp/cas\">{}</cas:serviceResponse>",
        inner
    )
    .into_bytes()
}

fn success(r: Result<ServiceResponse, VerifyError>) -> String {
    match r {
        Ok(ServiceResponse::Success(n)) => n,
        other => panic!("expected success, got {:?}", other),
    }
}

fn failure(r: Result<ServiceResponse, VerifyError>) -> String {
    match r {
        Ok(ServiceResponse::Failure(m)) => m,
        other => panic!("expected failure, got {:?}", other),
    }
}

#[test]
fn new_accepts_absolute_urls() {
    let c = client();
    assert_eq!(c.get_logout_url(), "https://login.case.edu/cas/logout");
}

#[test]
fn new_rejects_relative_base() {
    let e = CasClient::new("login.case.edu", "/login", "/logout", "/v", "http://s/").unwrap_err();
    assert_eq!(e.input, "login.case.edu/login");
}

#[test]
fn new_rejects_bad_service_url() {
    let e = CasClient::new("https://cas", "/login", "/logout", "/v", "callback").unwrap_err();
    assert_eq!(e.input, "callback");
}

#[test]
fn new_reports_first_bad_url_in_order() {
    let e = CasClient::new("https://exa mple.org", "/a", "/b", "/c", "also bad").unwrap_err();
    assert_eq!(e.input, "https://exa mple.org/a");
}

#[test]
fn login_url_has_encoded_service() {
    assert_eq!(
        client().get_login_url(),
        "https://login.case.edu/cas/login?service=http%3A%2F%2Flocalhost%3A8080%2Fcallback"
    );
}

#[test]
fn login_url_replaces_query_and_keeps_fragment() {
    let c = CasClient::new("https://cas.example", "/login?renew=true#top", "/logout", "/v", "http://s/a b")
        .unwrap();
    assert_eq!(c.get_login_url(), "https://cas.example/login?service=http%3A%2F%2Fs%2Fa%2520b#top");
}

#[test]
fn logout_url_is_unchanged() {
    let c = CasClient::new("https://cas.example", "/login", "/logout?x=1", "/v", "http://s/").unwrap();
    assert_eq!(c.get_logout_url(), "https://cas.example/logout?x=1");
}

#[test]
fn validation_url_has_service_then_ticket() {
    assert_eq!(
        client().validation_url("ST-1 &x"),
        "https://login.case.edu/cas/serviceValidate?service=http%3A%2F%2Flocalhost%3A8080%2Fcallback&ticket=ST-1+%26x"
    );
}

#[test]
fn redirects_point_at_login_and_logout() {
    let c = client();
    let login = c.login_redirect();
    assert_eq!(login.status, 302);
    assert_eq!(login.location, c.get_login_url());
    let logout = c.logout_redirect();
    assert_eq!(logout.status, 302);
    assert_eq!(logout.location, "https://login.case.edu/cas/logout");
}

#[test]
fn success_reply_gives_user() {
    let body = reply("<cas:authenticationSuccess><cas:user>alice</cas:user></cas:authenticationSuccess>");
    assert_eq!(success(interpret_response(body)), "alice");
}

#[test]
fn failure_reply_gives_code_not_text() {
    let body = reply(
        "<cas:authenticationFailure code=\"INVALID_TICKET\">Ticket not recognized</cas:authenticationFailure>",
    );
    assert_eq!(failure(interpret_response(body)), "INVALID_TICKET");
}

#[test]
fn failure_reply_reads_code_by_name() {
    let body = reply("<cas:authenticationFailure lang=\"en\" code=\"INVALID_SERVICE\"/>");
    assert_eq!(failure(interpret_response(body)), "INVALID_SERVICE");
}

#[test]
fn failure_reply_without_code_uses_first_attribute() {
    let body = reply("<cas:authenticationFailure reason=\"EXPIRED\"/>");
    assert_eq!(failure(interpret_response(body)), "EXPIRED");
}

#[test]
fn failure_reply_without_attributes_has_empty_reason() {
    let body = reply("<cas:authenticationFailure>no code</cas:authenticationFailure>");
    assert_eq!(failure(interpret_response(body)), "");
}

#[test]
fn reply_without_outcome_is_sentinel_failure() {
    let body = reply("<cas:proxySuccess>text</cas:proxySuccess>");
    assert_eq!(failure(interpret_response(body)), NO_REPLY);
}

#[test]
fn empty_root_is_sentinel_failure() {
    assert_eq!(failure(interpret_response(b"<root/>".to_vec())), NO_REPLY);
}

#[test]
fn text_before_success_is_ignored() {
    let body = reply("before<cas:authenticationSuccess><cas:user>bob</cas:user></cas:authenticationSuccess>");
    assert_eq!(success(interpret_response(body)), "bob");
}

#[test]
fn malformed_reply_is_xml_error() {
    let r = interpret_response(b"<cas:serviceResponse><unclosed".to_vec());
    assert!(matches!(r, Err(VerifyError::Xml(_))));
}

#[test]
fn empty_body_is_xml_error() {
    let r = interpret_response(Vec::new());
    assert!(matches!(r, Err(VerifyError::Xml(_))));
}

#[test]
fn mismatched_tags_are_xml_error() {
    let r = interpret_response(b"<a><b></a>".to_vec());
    assert!(matches!(r, Err(VerifyError::Xml(_))));
}

#[test]
fn success_stops_before_later_malformation() {
    let body = b"<r><authenticationSuccess>carol</authenticationSuccess></x>".to_vec();
    assert_eq!(success(interpret_response(body)), "carol");
}

#[test]
fn reason_picker_prefers_code() {
    let attrs = vec![
        ("a".to_string(), "1".to_string()),
        ("code".to_string(), "2".to_string()),
        ("code".to_string(), "3".to_string()),
    ];
    assert_eq!(failure_reason_of(&attrs), "2");
    assert_eq!(failure_reason_of(&Vec::new()), "");
}

#[test]
fn ticket_from_path_request() {
    let uri = RequestUri::AbsolutePath("/callback?ticket=ST-123&foo=bar".to_string());
    assert_eq!(ticket_from_request(&uri).unwrap(), "ST-123");
}

#[test]
fn request_url_matches_ticket_url() {
    let c = client();
    let uri = RequestUri::AbsolutePath("/callback?ticket=ST-123&foo=bar".to_string());
    assert_eq!(c.request_validation_url(&uri).unwrap(), c.validation_url("ST-123"));
}

#[test]
fn ticket_from_absolute_uri_is_decoded() {
    let uri = RequestUri::AbsoluteUri("https://svc.example/cb?ticket=ST%2D9+x".to_string());
    assert_eq!(ticket_from_request(&uri).unwrap(), "ST-9 x");
}

#[test]
fn last_ticket_wins() {
    let uri = RequestUri::AbsolutePath("/cb?ticket=ST-1&ticket=ST-2".to_string());
    assert_eq!(ticket_from_request(&uri).unwrap(), "ST-2");
}

#[test]
fn no_query_is_no_ticket() {
    let uri = RequestUri::AbsolutePath("/callback".to_string());
    assert!(matches!(ticket_from_request(&uri), Err(VerifyError::NoTicketFound)));
}

#[test]
fn empty_query_is_no_ticket() {
    let uri = RequestUri::AbsolutePath("/callback?".to_string());
    assert!(matches!(ticket_from_request(&uri), Err(VerifyError::NoTicketFound)));
}

#[test]
fn missing_ticket_is_no_ticket() {
    let uri = RequestUri::AbsolutePath("/callback?foo=bar".to_string());
    assert!(matches!(ticket_from_request(&uri), Err(VerifyError::NoTicketFound)));
}

#[test]
fn empty_last_ticket_is_no_ticket() {
    let uri = RequestUri::AbsolutePath("/callback?ticket=ST-1&ticket=".to_string());
    assert!(matches!(ticket_from_request(&uri), Err(VerifyError::NoTicketFound)));
}

#[test]
fn authority_uri_is_unsupported() {
    let uri = RequestUri::Authority("example.org:443".to_string());
    assert!(matches!(ticket_from_request(&uri), Err(VerifyError::UnsupportedUriType)));
    let c = client();
    assert!(matches!(c.request_validation_url(&RequestUri::Star), Err(VerifyError::UnsupportedUriType)));
}

#[test]
fn bad_absolute_uri_is_url_error() {
    let uri = RequestUri::AbsoluteUri("no scheme here".to_string());
    assert!(matches!(ticket_from_request(&uri), Err(VerifyError::Url(_))));
}
