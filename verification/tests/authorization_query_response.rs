use graph_oauth::authorization_query_response::AuthorizationQueryResponse;
use graph_oauth::error::AuthorizationFailure;
use graph_oauth::round_trip::read_pairs;
use graph_oauth::url_text::Url;

#[test]
fn answer_is_read_from_the_query() {
    let response = AuthorizationQueryResponse::from_redirect(
        "http://localhost:8000/redirect?code=M.R3%2BBAY&state=a+b&session_state=x#id_token=ignored",
    )
    .unwrap();
    assert_eq!(response.code.as_deref(), Some("M.R3+BAY"));
    assert_eq!(response.state.as_deref(), Some("a b"));
    assert_eq!(response.id_token, None);
    assert_eq!(response.access_token, None);
    assert_eq!(response.nonce, None);
    assert_eq!(response.error, None);
    assert_eq!(response.error_description, None);
}

#[test]
fn answer_is_read_from_the_fragment_where_there_is_no_query() {
    let response = AuthorizationQueryResponse::from_redirect(
        "http://localhost:8000/redirect#id_token=eyJ0&access_token=t&nonce=n&state=s",
    )
    .unwrap();
    assert_eq!(response.id_token.as_deref(), Some("eyJ0"));
    assert_eq!(response.access_token.as_deref(), Some("t"));
    assert_eq!(response.nonce.as_deref(), Some("n"));
    assert_eq!(response.state.as_deref(), Some("s"));
    assert_eq!(response.code, None);
}

#[test]
fn empty_query_is_a_payload() {
    let response =
        AuthorizationQueryResponse::from_redirect("http://localhost:8000/redirect?#code=c").unwrap();
    assert_eq!(response.code, None);
}

#[test]
fn error_answer_is_read() {
    let response = AuthorizationQueryResponse::from_redirect(
        "http://localhost/?error=access_denied&error_description=the+user+canceled&error=second",
    )
    .unwrap();
    assert_eq!(response.error.as_deref(), Some("access_denied"));
    assert_eq!(response.error_description.as_deref(), Some("the user canceled"));
}

#[test]
fn redirect_without_query_and_fragment_names_the_url() {
    match AuthorizationQueryResponse::from_redirect("HTTP://LocalHost:8000/redirect") {
        Err(AuthorizationFailure::MissingRedirectPayload { url }) => {
            assert_eq!(url, "http://localhost:8000/redirect")
        }
        other => panic!("unexpected: {:?}", other),
    }
}

#[test]
fn redirect_that_is_no_url_is_malformed() {
    match AuthorizationQueryResponse::from_redirect("/redirect?code=1") {
        Err(AuthorizationFailure::MalformedUrl { input }) => assert_eq!(input, "/redirect?code=1"),
        other => panic!("unexpected: {:?}", other),
    }
}

#[test]
fn payload_prefers_the_query() {
    let url = Url::parse("https://a/b?x=1#y=2").unwrap();
    assert_eq!(url.query(), Some("x=1"));
    assert_eq!(url.fragment(), Some("y=2"));
    assert_eq!(AuthorizationQueryResponse::payload(&url).unwrap(), "x=1");
    let url = Url::parse("https://a/b#y=2").unwrap();
    assert_eq!(AuthorizationQueryResponse::payload(&url).unwrap(), "y=2");
    assert_eq!(url.clone().as_str(), "https://a/b#y=2");
}

#[test]
fn pairs_are_read_as_the_wire_format_says() {
    assert_eq!(read_pairs(""), vec![]);
    assert_eq!(
        read_pairs("&a=1&&b&=c&d=e=f&%zz=%4"),
        vec![
            ("a".to_string(), "1".to_string()),
            ("b".to_string(), "".to_string()),
            ("".to_string(), "c".to_string()),
            ("d".to_string(), "e=f".to_string()),
            ("%zz".to_string(), "%4".to_string()),
        ]
    );
    let answer = AuthorizationQueryResponse::from_query("code=1&code=2&state=%41%2b+");
    assert_eq!(answer.code.as_deref(), Some("1"));
    assert_eq!(answer.state.as_deref(), Some("A+ "));
    let answer = AuthorizationQueryResponse::from_pairs(&vec![
        ("nonce".to_string(), "n".to_string()),
        ("other".to_string(), "o".to_string()),
    ]);
    assert_eq!(answer.nonce.as_deref(), Some("n"));
    assert_eq!(answer.code, None);
}

#[test]
fn failures_have_a_message() {
    assert_eq!(
        AuthorizationFailure::required("scope").message(),
        "missing required value: scope"
    );
    assert_eq!(
        AuthorizationFailure::conflict("authorization_code", "refresh_token").message(),
        "conflicting values: authorization_code and refresh_token"
    );
    assert_eq!(
        AuthorizationFailure::invalid_value("openid", "use OpenIdCredential instead").message(),
        "invalid value for openid: use OpenIdCredential instead"
    );
    assert_eq!(AuthorizationFailure::malformed_url("x").message(), "malformed url: x");
    assert_eq!(
        AuthorizationFailure::missing_redirect_payload("http://a/").clone().message(),
        "no query or fragment in redirect url: http://a/"
    );
    assert_eq!(AuthorizationFailure::conflict("a", "b").field(), "a");
}
