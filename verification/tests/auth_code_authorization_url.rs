use graph_oauth::auth_code_authorization_url::AuthCodeAuthorizationUrlParameterBuilder;
use graph_oauth::auth_code_authorization_url::AuthCodeAuthorizationUrlParameters;
use graph_oauth::auth_code_authorization_url::ProofKeyCodeExchange;
use graph_oauth::authority::Authority;
use graph_oauth::crypto::random_text;
use graph_oauth::crypto::secure_random_32;
use graph_oauth::authority::AzureCloudInstance;
use graph_oauth::error::AuthorizationFailure;
use graph_oauth::response_type::Prompt;
use graph_oauth::response_type::ResponseMode;
use graph_oauth::response_type::ResponseType;
use graph_oauth::response_type::ResponseTypes;
use graph_oauth::round_trip::read_pairs;
use graph_oauth::url_text::Url;
use uuid::Uuid;

const CLIENT_ID: &str = "a1a2a3a4-b1b2-c1c2-d1d2-d3d4d5d6d7d8";

fn redirect() -> Url {
    Url::parse("https://localhost:8080").unwrap()
}

fn value_of(pairs: &[(String, String)], name: &str) -> Option<String> {
    pairs.iter().find(|pair| pair.0 == name).map(|pair| pair.1.clone())
}

#[test]
fn serialize_uri() {
    let authorizer = AuthCodeAuthorizationUrlParameters::builder(&Uuid::new_v4().to_string())
        .with_redirect_uri(redirect())
        .with_scope(vec!["read", "write"])
        .build();

    let url_result = authorizer.url();
    assert!(url_result.is_ok());
}

#[test]
fn url_with_host() {
    let authorizer = AuthCodeAuthorizationUrlParameters::builder(&Uuid::new_v4().to_string())
        .with_redirect_uri(redirect())
        .with_scope(vec!["read", "write"])
        .build();

    let url_result = authorizer.url_with_host(&AzureCloudInstance::AzureGermany);
    assert!(url_result.is_ok());
}

#[test]
fn response_mode_set() {
    let url = AuthCodeAuthorizationUrlParameters::builder(&Uuid::new_v4().to_string())
        .with_redirect_uri(redirect())
        .with_scope(vec!["read", "write"])
        .with_response_type(vec![ResponseType::IdToken])
        .url()
        .unwrap();

    let query = url.query().unwrap();
    assert!(query.contains("response_mode=fragment"));
    assert!(query.contains("response_type=code+id_token"));
}

#[test]
fn response_mode_not_set() {
    let url = AuthCodeAuthorizationUrlParameters::builder(&Uuid::new_v4().to_string())
        .with_redirect_uri(redirect())
        .with_scope(vec!["read", "write"])
        .url()
        .unwrap();

    let query = url.query().unwrap();
    assert!(!query.contains("response_mode"));
    assert!(query.contains("response_type=code"));
}

#[test]
fn multi_response_type_set() {
    let url = AuthCodeAuthorizationUrlParameters::builder(&Uuid::new_v4().to_string())
        .with_redirect_uri(redirect())
        .with_scope(vec!["read", "write"])
        .with_response_mode(ResponseMode::FormPost)
        .with_response_type(vec![ResponseType::IdToken, ResponseType::Code])
        .url()
        .unwrap();

    let query = url.query().unwrap();
    assert!(query.contains("response_mode=form_post"));
    assert!(query.contains("response_type=code+id_token"));
}

#[test]
fn generate_nonce() {
    let mut builder = AuthCodeAuthorizationUrlParameters::builder(&Uuid::new_v4().to_string());
    builder
        .with_redirect_uri(redirect())
        .with_scope(vec!["read", "write"])
        .with_response_type(vec![ResponseType::Code, ResponseType::IdToken]);
    assert!(builder.with_nonce_generated());
    let url = builder.url().unwrap();

    let query = url.query().unwrap();
    assert!(query.contains("response_mode=fragment"));
    assert!(query.contains("response_type=code+id_token"));
    assert!(query.contains("nonce"));
}

#[test]
fn generated_nonces_are_43_characters_and_differ() {
    let mut first = AuthCodeAuthorizationUrlParameterBuilder::new(CLIENT_ID);
    let mut second = AuthCodeAuthorizationUrlParameterBuilder::new(CLIENT_ID);
    assert!(first.with_nonce_generated());
    assert!(second.with_nonce_generated());
    let first = first.build();
    let second = second.build();
    let a = first.nonce().unwrap();
    let b = second.nonce().unwrap();
    assert_eq!(a.len(), 43);
    assert_eq!(b.len(), 43);
    assert!(a.chars().all(|c| c.is_ascii_alphanumeric() || c == '-' || c == '_'));
    assert_ne!(a, b);
}

#[test]
fn query_of_a_code_request_is_exact() {
    let parameters = AuthCodeAuthorizationUrlParameters::builder(CLIENT_ID)
        .with_redirect_uri(redirect())
        .with_scope(vec!["read", "write"])
        .build();

    assert_eq!(
        parameters.encoded_query().unwrap(),
        "client_id=a1a2a3a4-b1b2-c1c2-d1d2-d3d4d5d6d7d8&response_type=code\
         &redirect_uri=https%3A%2F%2Flocalhost%3A8080%2F&scope=read+write"
    );
}

#[test]
fn url_of_a_code_request_is_exact() {
    let url = AuthCodeAuthorizationUrlParameters::builder(CLIENT_ID)
        .with_redirect_uri(redirect())
        .with_scope(vec!["read", "write"])
        .url()
        .unwrap();

    assert_eq!(
        url.as_str(),
        "https://login.microsoftonline.com/common/oauth2/v2.0/authorize?client_id=a1a2a3a4-b1b2-c1c2-d1d2-d3d4d5d6d7d8&response_type=code&redirect_uri=https%3A%2F%2Flocalhost%3A8080%2F&scope=read+write"
    );
    assert_eq!(url.fragment(), None);
}

#[test]
fn optional_parameters_follow_in_their_order() {
    let parameters = AuthCodeAuthorizationUrlParameters::builder(CLIENT_ID)
        .with_redirect_uri(redirect())
        .with_scope(vec!["User.Read"])
        .with_code_challenge_method("S256")
        .with_code_challenge("challenge")
        .with_nonce("n-0S6")
        .with_domain_hint("contoso.com")
        .with_login_hint("a user@contoso.com")
        .with_prompt(Prompt::SelectAccount)
        .with_state("a&b=c")
        .with_response_mode(ResponseMode::Query)
        .build();

    assert_eq!(
        parameters.encoded_query().unwrap(),
        "client_id=a1a2a3a4-b1b2-c1c2-d1d2-d3d4d5d6d7d8&response_type=code\
         &redirect_uri=https%3A%2F%2Flocalhost%3A8080%2F&scope=User.Read\
         &response_mode=query&state=a%26b%3Dc&prompt=select_account\
         &login_hint=a+user%40contoso.com&domain_hint=contoso.com&nonce=n-0S6\
         &code_challenge=challenge&code_challenge_method=S256"
    );
}

#[test]
fn host_and_tenant_select_the_endpoint() {
    let url = AuthCodeAuthorizationUrlParameters::builder(CLIENT_ID)
        .with_redirect_uri(redirect())
        .with_scope(vec!["read"])
        .with_tenant("contoso")
        .build()
        .url_with_host(&AzureCloudInstance::AzureUsGovernment)
        .unwrap();
    assert!(url
        .as_str()
        .starts_with("https://login.microsoftonline.us/contoso/oauth2/v2.0/authorize?"));

    let url = AuthCodeAuthorizationUrlParameters::builder(CLIENT_ID)
        .with_redirect_uri(redirect())
        .with_scope(vec!["read"])
        .with_authority(Authority::Organizations)
        .build()
        .authorization_url_with_host(&AzureCloudInstance::AzureChina)
        .unwrap();
    assert!(url
        .as_str()
        .starts_with("https://login.chinacloudapi.cn/organizations/oauth2/v2.0/authorize?"));
}

#[test]
fn missing_redirect_uri_is_reported_first() {
    let parameters = AuthCodeAuthorizationUrlParameters::builder("not a uuid").build();
    match parameters.url() {
        Err(AuthorizationFailure::MissingRequiredValue { name }) => assert_eq!(name, "redirect_uri"),
        other => panic!("unexpected: {:?}", other),
    }
}

#[test]
fn blank_redirect_uri_is_missing() {
    let mut parameters = AuthCodeAuthorizationUrlParameters::builder(CLIENT_ID)
        .with_scope(vec!["read"])
        .build();
    parameters.app_config.redirect_uri =
        Some(Url { text: " \t".to_string(), query: None, fragment: None });
    match parameters.encoded_query() {
        Err(AuthorizationFailure::MissingRequiredValue { name }) => assert_eq!(name, "redirect_uri"),
        other => panic!("unexpected: {:?}", other),
    }
}

#[test]
fn client_id_that_is_no_uuid_is_missing() {
    let parameters = AuthCodeAuthorizationUrlParameters::builder("client-id")
        .with_redirect_uri(redirect())
        .with_scope(vec!["read"])
        .build();
    assert_eq!(parameters.app_config.client_id, 0);
    match parameters.url() {
        Err(AuthorizationFailure::MissingRequiredValue { name }) => assert_eq!(name, "client_id"),
        other => panic!("unexpected: {:?}", other),
    }
}

#[test]
fn nil_client_id_is_missing() {
    let parameters =
        AuthCodeAuthorizationUrlParameters::builder("00000000-0000-0000-0000-000000000000")
            .with_redirect_uri(redirect())
            .with_scope(vec!["read"])
            .build();
    match parameters.url() {
        Err(AuthorizationFailure::MissingRequiredValue { name }) => assert_eq!(name, "client_id"),
        other => panic!("unexpected: {:?}", other),
    }
}

#[test]
fn empty_scope_is_missing() {
    let parameters = AuthCodeAuthorizationUrlParameters::builder(CLIENT_ID)
        .with_redirect_uri(redirect())
        .build();
    match parameters.url() {
        Err(AuthorizationFailure::MissingRequiredValue { name }) => assert_eq!(name, "scope"),
        other => panic!("unexpected: {:?}", other),
    }
}

#[test]
fn openid_scope_is_invalid() {
    let parameters = AuthCodeAuthorizationUrlParameters::builder(CLIENT_ID)
        .with_redirect_uri(redirect())
        .with_scope(vec!["User.Read", " openid "])
        .build();
    match parameters.url() {
        Err(AuthorizationFailure::InvalidValue { name, reason }) => {
            assert_eq!(name, "openid");
            assert_eq!(reason, "use OpenIdCredential instead");
        }
        other => panic!("unexpected: {:?}", other),
    }
}

#[test]
fn id_token_alone_defaults_to_fragment() {
    let mut parameters = AuthCodeAuthorizationUrlParameters::builder(CLIENT_ID)
        .with_redirect_uri(redirect())
        .with_scope(vec!["read"])
        .build();
    parameters.response_type = ResponseTypes { code: false, id_token: true, token: false };
    let query = parameters.encoded_query().unwrap();
    assert!(query.contains("response_mode=fragment"));
    assert!(query.contains("response_type=id_token"));
    assert!(!query.contains("response_type=code"));
}

#[test]
fn id_token_with_query_mode_is_sent_as_fragment() {
    let query = AuthCodeAuthorizationUrlParameters::builder(CLIENT_ID)
        .with_redirect_uri(redirect())
        .with_scope(vec!["read"])
        .with_response_type(vec![ResponseType::IdToken])
        .with_response_mode(ResponseMode::Query)
        .build()
        .encoded_query()
        .unwrap();
    assert!(query.contains("response_mode=fragment"));
    assert!(!query.contains("response_mode=query"));
}

#[test]
fn code_and_id_token_are_in_canonical_order() {
    let query = AuthCodeAuthorizationUrlParameters::builder(CLIENT_ID)
        .with_redirect_uri(redirect())
        .with_scope(vec!["read"])
        .with_response_type(vec![ResponseType::IdToken, ResponseType::Code])
        .build()
        .encoded_query()
        .unwrap();
    assert!(query.contains("response_type=code+id_token"));
    assert!(query.contains("response_mode=fragment"));
}

#[test]
fn all_response_types_are_in_canonical_order() {
    let query = AuthCodeAuthorizationUrlParameters::builder(CLIENT_ID)
        .with_redirect_uri(redirect())
        .with_scope(vec!["read"])
        .with_response_type(vec![ResponseType::Token, ResponseType::IdToken])
        .build()
        .encoded_query()
        .unwrap();
    assert!(query.contains("response_type=code+id_token+token"));
}

#[test]
fn explicit_form_post_overrides_the_id_token_default() {
    let query = AuthCodeAuthorizationUrlParameters::builder(CLIENT_ID)
        .with_redirect_uri(redirect())
        .with_scope(vec!["read"])
        .with_response_type(vec![ResponseType::IdToken, ResponseType::Code])
        .with_response_mode(ResponseMode::FormPost)
        .build()
        .encoded_query()
        .unwrap();
    assert!(query.contains("response_mode=form_post"));
}

#[test]
fn no_response_type_defaults_to_code_without_mode() {
    let mut parameters = AuthCodeAuthorizationUrlParameters::builder(CLIENT_ID)
        .with_redirect_uri(redirect())
        .with_scope(vec!["read"])
        .build();
    parameters.response_type = ResponseTypes::new();
    let query = parameters.encoded_query().unwrap();
    assert!(query.contains("response_type=code"));
    assert!(!query.contains("response_mode"));
}

#[test]
fn mode_without_id_token_is_passed_through() {
    let query = AuthCodeAuthorizationUrlParameters::builder(CLIENT_ID)
        .with_redirect_uri(redirect())
        .with_scope(vec!["read"])
        .with_response_mode(ResponseMode::Query)
        .build()
        .encoded_query()
        .unwrap();
    assert!(query.contains("response_mode=query"));
}

#[test]
fn query_round_trips_scope_and_response_type() {
    let scope = vec!["User.Read", "Mail.Send", "offline_access"];
    let query = AuthCodeAuthorizationUrlParameters::builder(CLIENT_ID)
        .with_redirect_uri(redirect())
        .with_scope(scope.clone())
        .with_response_type(vec![ResponseType::Token, ResponseType::IdToken])
        .with_state("äöü & more")
        .build()
        .encoded_query()
        .unwrap();
    let pairs = read_pairs(&query);
    let read: Vec<String> =
        value_of(&pairs, "scope").unwrap().split(' ').map(String::from).collect();
    assert_eq!(read, scope);
    assert_eq!(value_of(&pairs, "response_type").unwrap(), "code id_token token");
    assert_eq!(value_of(&pairs, "state").unwrap(), "äöü & more");
    assert_eq!(value_of(&pairs, "client_id").unwrap(), CLIENT_ID);
    assert_eq!(value_of(&pairs, "redirect_uri").unwrap(), "https://localhost:8080/");
}

#[test]
fn query_agrees_with_the_url_crate() {
    let url = AuthCodeAuthorizationUrlParameters::builder(CLIENT_ID)
        .with_redirect_uri(redirect())
        .with_scope(vec!["User.Read", "Mail.Send"])
        .with_state("a b+c")
        .url()
        .unwrap();
    let parsed = url::Url::parse(url.as_str()).unwrap();
    let pairs: Vec<(String, String)> = parsed.query_pairs().into_owned().collect();
    assert_eq!(value_of(&pairs, "scope").unwrap(), "User.Read Mail.Send");
    assert_eq!(value_of(&pairs, "state").unwrap(), "a b+c");
    assert_eq!(parsed.query(), url.query());
}

#[test]
fn scopes_are_trimmed_and_appended() {
    let parameters = AuthCodeAuthorizationUrlParameters::builder(CLIENT_ID)
        .with_scope(vec!["  read ", "write\n"])
        .with_scope(vec!["\u{2003}mail\u{00A0}"])
        .with_offline_access()
        .build();
    assert_eq!(parameters.scope, vec!["read", "write", "mail", "offline_access"]);
}

#[test]
fn new_parses_client_id_and_redirect_uri() {
    let parameters =
        AuthCodeAuthorizationUrlParameters::new(CLIENT_ID, "HTTPS://LocalHost:8080/a b").unwrap();
    assert_eq!(parameters.app_config.client_id, 0xa1a2a3a4b1b2c1c2d1d2d3d4d5d6d7d8);
    assert_eq!(parameters.redirect_uri().unwrap().as_str(), "https://localhost:8080/a%20b");
    assert_eq!(parameters.response_type, ResponseTypes { code: true, id_token: false, token: false });
    assert!(parameters.scope.is_empty());
    assert!(parameters.nonce().is_none());
}

#[test]
fn new_refuses_a_redirect_uri_that_is_no_url() {
    match AuthCodeAuthorizationUrlParameters::new(CLIENT_ID, "localhost") {
        Err(AuthorizationFailure::MalformedUrl { input }) => assert_eq!(input, "localhost"),
        other => panic!("unexpected: {:?}", other),
    }
}

#[test]
fn client_id_is_set_from_any_form_of_a_uuid() {
    let mut builder = AuthCodeAuthorizationUrlParameterBuilder::new("");
    assert!(!builder.try_with_client_id("client-id"));
    assert_eq!(builder.build().app_config.client_id, 0);
    assert!(builder.try_with_client_id("{A1A2A3A4-B1B2-C1C2-D1D2-D3D4D5D6D7D8}"));
    assert_eq!(builder.build().app_config.client_id, 0xa1a2a3a4b1b2c1c2d1d2d3d4d5d6d7d8);
    builder.with_client_id("00000000000000000000000000000001");
    assert_eq!(builder.build().app_config.client_id, 1);
    let query = builder
        .with_redirect_uri(redirect())
        .with_scope(vec!["read"])
        .build()
        .encoded_query()
        .unwrap();
    assert!(query.starts_with("client_id=00000000-0000-0000-0000-000000000001&"));
}

#[test]
fn pkce_sets_challenge_and_method() {
    let pkce = ProofKeyCodeExchange {
        code_verifier: "verifier".to_string(),
        code_challenge: "challenge".to_string(),
        code_challenge_method: "S256".to_string(),
    };
    let parameters = AuthCodeAuthorizationUrlParameters::builder(CLIENT_ID).with_pkce(&pkce).build();
    assert_eq!(parameters.code_challenge.as_deref(), Some("challenge"));
    assert_eq!(parameters.code_challenge_method.as_deref(), Some("S256"));
}

#[test]
fn random_bytes_become_url_safe_base64_without_padding() {
    assert_eq!(random_text(None), None);
    assert_eq!(random_text(Some(vec![0u8; 32])), Some("A".repeat(43)));
    assert_eq!(random_text(Some(vec![0xffu8; 32])), Some(format!("{}8", "_".repeat(42))));
    assert_eq!(random_text(Some(vec![0xfbu8, 0xf0])), Some("-_A".to_string()));
    assert_eq!(random_text(Some(vec![])), Some(String::new()));
    let fresh = secure_random_32().unwrap();
    assert_eq!(fresh.len(), 43);
    assert_ne!(Some(fresh), secure_random_32());
}

#[test]
fn nonce_is_set_only_where_one_is_given() {
    let mut builder = AuthCodeAuthorizationUrlParameterBuilder::new(CLIENT_ID);
    builder.with_state("s");
    assert!(!builder.with_nonce_if_some(None));
    assert_eq!(builder.build().nonce(), None);
    assert!(builder.with_nonce_if_some(Some("n-0S6".to_string())));
    assert_eq!(builder.build().nonce().map(|n| n.as_str()), Some("n-0S6"));
    assert!(!builder.with_nonce_if_some(None));
    let built = builder.build();
    assert_eq!(built.nonce().map(|n| n.as_str()), Some("n-0S6"));
    assert_eq!(built.state.as_deref(), Some("s"));
}
