use graph_oauth::authority::authorization_url;
use graph_oauth::authority::token_url;
use graph_oauth::authority::Authority;
use graph_oauth::authority::AzureCloudInstance;
use graph_oauth::error::AuthorizationFailure;
use graph_oauth::oauth_serializer::FormCredential;
use graph_oauth::oauth_serializer::OAuthParameter;
use graph_oauth::oauth_serializer::OAuthSerializer;
use graph_oauth::response_type::resolve_response_mode;
use graph_oauth::response_type::resolve_response_type;
use graph_oauth::response_type::Prompt;
use graph_oauth::response_type::ResponseMode;
use graph_oauth::response_type::ResponseType;
use graph_oauth::response_type::ResponseTypes;
use graph_oauth::round_trip::read_pairs;
use graph_oauth::text::contains_str;
use graph_oauth::text::is_blank;
use graph_oauth::text::join;
use graph_oauth::text::str_eq;

#[test]
fn encode_follows_the_order_of_the_lists() {
    let mut serializer = OAuthSerializer::new();
    serializer.state("s").client_id("id").nonce("n").scope("a b");
    let mut encoder = String::new();
    serializer
        .encode_query(
            vec![OAuthParameter::Nonce, OAuthParameter::Prompt, OAuthParameter::State],
            vec![OAuthParameter::Scope, OAuthParameter::ClientId],
            &mut encoder,
        )
        .unwrap();
    assert_eq!(encoder, "scope=a+b&client_id=id&nonce=n&state=s");
}

#[test]
fn encode_stops_at_the_first_missing_required_value() {
    let mut serializer = OAuthSerializer::new();
    serializer.client_id("id").state("s");
    let mut encoder = String::from("x=y");
    let result = serializer.encode_query(
        vec![OAuthParameter::State],
        vec![OAuthParameter::ClientId, OAuthParameter::RedirectUri, OAuthParameter::Scope],
        &mut encoder,
    );
    match result {
        Err(AuthorizationFailure::MissingRequiredValue { name }) => assert_eq!(name, "redirect_uri"),
        other => panic!("unexpected: {:?}", other),
    }
    assert_eq!(encoder, "x=y&client_id=id");
}

#[test]
fn encode_serializes_bytes_as_the_url_standard_says() {
    let mut serializer = OAuthSerializer::new();
    serializer.state("AZaz09*-._ ~!'()/?#%+&=é\u{1F600}");
    let mut encoder = String::new();
    serializer.encode_query(vec![OAuthParameter::State], vec![], &mut encoder).unwrap();
    assert_eq!(
        encoder,
        "state=AZaz09*-._+%7E%21%27%28%29%2F%3F%23%25%2B%26%3D%C3%A9%F0%9F%98%80"
    );
    assert_eq!(
        read_pairs(&encoder),
        vec![("state".to_string(), "AZaz09*-._ ~!'()/?#%+&=é\u{1F600}".to_string())]
    );
}

#[test]
fn setters_overwrite() {
    let mut serializer = OAuthSerializer::new();
    assert!(!serializer.contains(OAuthParameter::GrantType));
    assert_eq!(serializer.get(OAuthParameter::GrantType), None);
    serializer.grant_type("a").grant_type("b");
    assert!(serializer.contains(OAuthParameter::GrantType));
    assert_eq!(serializer.get(OAuthParameter::GrantType).as_deref(), Some("b"));
    serializer.insert(OAuthParameter::GrantType, "c");
    assert_eq!(serializer.get(OAuthParameter::GrantType).as_deref(), Some("c"));
    assert_eq!(serializer.get(OAuthParameter::ClientId), None);
}

#[test]
fn scopes_are_joined_and_extended() {
    let mut serializer = OAuthSerializer::new();
    serializer.extend_scopes(&vec![]);
    assert_eq!(serializer.get(OAuthParameter::Scope), None);
    serializer.extend_scopes(&vec!["a".to_string(), "b".to_string()]);
    assert_eq!(serializer.get(OAuthParameter::Scope).as_deref(), Some("a b"));
    serializer.extend_scopes(&vec!["c".to_string()]);
    assert_eq!(serializer.get(OAuthParameter::Scope).as_deref(), Some("a b c"));
}

#[test]
fn authority_sets_the_three_endpoints() {
    let mut serializer = OAuthSerializer::new();
    serializer.authority(&AzureCloudInstance::AzureUsGovernment, &Authority::Consumers);
    assert_eq!(
        serializer.get(OAuthParameter::AuthorizationUrl).as_deref(),
        Some("https://login.microsoftonline.us/consumers/oauth2/v2.0/authorize")
    );
    assert_eq!(
        serializer.get(OAuthParameter::AccessTokenUrl).as_deref(),
        Some("https://login.microsoftonline.us/consumers/oauth2/v2.0/token")
    );
    assert_eq!(
        serializer.get(OAuthParameter::RefreshTokenUrl),
        serializer.get(OAuthParameter::AccessTokenUrl)
    );
}

#[test]
fn endpoints_of_each_cloud_and_authority() {
    assert_eq!(
        authorization_url(&AzureCloudInstance::AzurePublic, &Authority::Common),
        "https://login.microsoftonline.com/common/oauth2/v2.0/authorize"
    );
    assert_eq!(
        token_url(&AzureCloudInstance::AzureChina, &Authority::Organizations),
        "https://login.chinacloudapi.cn/organizations/oauth2/v2.0/token"
    );
    assert_eq!(
        token_url(&AzureCloudInstance::AzureGermany, &Authority::AzureDirectoryFederatedServices),
        "https://login.microsoftonline.de/adfs/oauth2/v2.0/token"
    );
    assert_eq!(
        token_url(&AzureCloudInstance::default(), &Authority::tenant("contoso.com")),
        "https://login.microsoftonline.com/contoso.com/oauth2/v2.0/token"
    );
    assert_eq!(Authority::default(), Authority::Common);
    assert_eq!(Authority::tenant("a").clone(), Authority::TenantId("a".into()));
    assert_ne!(Authority::tenant("a"), Authority::tenant("b"));
    assert_ne!(Authority::Common, Authority::tenant("common"));
}

#[test]
fn form_takes_usable_values_in_table_order() {
    let mut serializer = OAuthSerializer::new();
    serializer.client_id("id").code_verifier(" ").grant_type("g");
    let form = serializer
        .authorization_form(vec![
            FormCredential::Required(OAuthParameter::GrantType),
            FormCredential::NotRequired(OAuthParameter::CodeVerifier),
            FormCredential::NotRequired(OAuthParameter::Scope),
            FormCredential::Required(OAuthParameter::ClientId),
        ])
        .unwrap();
    assert_eq!(
        form,
        vec![("grant_type".to_string(), "g".to_string()), ("client_id".to_string(), "id".to_string())]
    );
    let result = serializer.authorization_form(vec![
        FormCredential::Required(OAuthParameter::ClientId),
        FormCredential::Required(OAuthParameter::CodeVerifier),
        FormCredential::Required(OAuthParameter::AuthorizationCode),
    ]);
    match result {
        Err(AuthorizationFailure::MissingRequiredValue { name }) => assert_eq!(name, "code_verifier"),
        other => panic!("unexpected: {:?}", other),
    }
    let result = serializer.authorization_form(vec![FormCredential::Required(
        OAuthParameter::AuthorizationCode,
    )]);
    match result {
        Err(AuthorizationFailure::MissingRequiredValue { name }) => assert_eq!(name, "code"),
        other => panic!("unexpected: {:?}", other),
    }
}

#[test]
fn parameters_have_their_wire_names_and_places() {
    let all = [
        (OAuthParameter::ClientId, "client_id"),
        (OAuthParameter::ClientSecret, "client_secret"),
        (OAuthParameter::AuthorizationUrl, "authorization_url"),
        (OAuthParameter::AccessTokenUrl, "access_token_url"),
        (OAuthParameter::RefreshTokenUrl, "refresh_token_url"),
        (OAuthParameter::RedirectUri, "redirect_uri"),
        (OAuthParameter::AuthorizationCode, "code"),
        (OAuthParameter::RefreshToken, "refresh_token"),
        (OAuthParameter::ResponseMode, "response_mode"),
        (OAuthParameter::State, "state"),
        (OAuthParameter::ResponseType, "response_type"),
        (OAuthParameter::GrantType, "grant_type"),
        (OAuthParameter::Nonce, "nonce"),
        (OAuthParameter::Prompt, "prompt"),
        (OAuthParameter::DomainHint, "domain_hint"),
        (OAuthParameter::Scope, "scope"),
        (OAuthParameter::LoginHint, "login_hint"),
        (OAuthParameter::CodeVerifier, "code_verifier"),
        (OAuthParameter::CodeChallenge, "code_challenge"),
        (OAuthParameter::CodeChallengeMethod, "code_challenge_method"),
    ];
    for (place, (parameter, name)) in all.iter().enumerate() {
        assert_eq!(parameter.alias(), *name);
        assert_eq!(parameter.index(), place);
    }
}

#[test]
fn response_types_join_in_canonical_order() {
    let mut types = ResponseTypes::new();
    assert!(types.is_empty());
    assert_eq!(resolve_response_type(&types), "code");
    types.extend(&vec![ResponseType::Token, ResponseType::Code, ResponseType::Token]);
    assert!(types.contains(ResponseType::Token));
    assert!(!types.contains(ResponseType::IdToken));
    assert_eq!(types.to_vec(), vec![ResponseType::Code, ResponseType::Token]);
    assert_eq!(types.join(), "code token");
    types.insert(ResponseType::IdToken);
    assert_eq!(resolve_response_type(&types), "code id_token token");
    assert_eq!(ResponseType::IdToken.as_ref(), "id_token");
}

#[test]
fn response_mode_is_resolved_against_the_types() {
    let code = ResponseTypes { code: true, id_token: false, token: false };
    let hybrid = ResponseTypes { code: true, id_token: true, token: false };
    assert_eq!(resolve_response_mode(&code, None), None);
    assert_eq!(resolve_response_mode(&code, Some(ResponseMode::Query)), Some(ResponseMode::Query));
    assert_eq!(resolve_response_mode(&hybrid, None), Some(ResponseMode::Fragment));
    assert_eq!(
        resolve_response_mode(&hybrid, Some(ResponseMode::Query)),
        Some(ResponseMode::Fragment)
    );
    assert_eq!(
        resolve_response_mode(&hybrid, Some(ResponseMode::FormPost)),
        Some(ResponseMode::FormPost)
    );
    assert_eq!(ResponseMode::FormPost.as_ref(), "form_post");
    assert_eq!(ResponseMode::Fragment.as_ref(), "fragment");
    assert_eq!(ResponseMode::Query.as_ref(), "query");
    assert_eq!(Prompt::AttemptNone.as_ref(), "none");
    assert_eq!(Prompt::Login.as_ref(), "login");
    assert_eq!(Prompt::Consent.as_ref(), "consent");
    assert_eq!(Prompt::SelectAccount.as_ref(), "select_account");
}

#[test]
fn text_helpers() {
    assert!(is_blank(""));
    assert!(is_blank(" \t\r\n\u{0085}\u{00A0}\u{1680}\u{2000}\u{200A}\u{2028}\u{2029}\u{202F}\u{205F}\u{3000}"));
    assert!(!is_blank(" a "));
    assert!(!is_blank("\u{200B}"));
    assert!(str_eq("scope", "scope"));
    assert!(!str_eq("scope", "state"));
    assert!(!str_eq("scope", "scopes"));
    assert!(str_eq("", ""));
    assert_eq!(join(&vec![], " "), "");
    assert_eq!(join(&vec!["a".to_string()], ", "), "a");
    assert_eq!(join(&vec!["a".to_string(), "".to_string(), "b".to_string()], ", "), "a, , b");
    assert!(contains_str(&vec!["a".to_string(), "openid".to_string()], "openid"));
    assert!(!contains_str(&vec!["a".to_string(), "openid ".to_string()], "openid"));
}
