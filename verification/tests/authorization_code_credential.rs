use graph_oauth::auth_code_authorization_url::AuthCodeAuthorizationUrlParameters;
use graph_oauth::auth_code_authorization_url::ProofKeyCodeExchange;
use graph_oauth::authority::Authority;
use graph_oauth::authority::AzureCloudInstance;
use graph_oauth::authorization_code_credential::AuthorizationCodeCredential;
use graph_oauth::authorization_code_credential::AuthorizationCodeCredentialBuilder;
use graph_oauth::client_secret_credential::ClientSecretCredential;
use graph_oauth::error::AuthorizationFailure;
use graph_oauth::token_credential_executor::prepare_token_request;
use graph_oauth::token_credential_executor::AuthorizationSerializer;
use graph_oauth::token_credential_executor::TokenCredentialOptions;
use graph_oauth::url_text::Url;

fn pair(name: &str, value: &str) -> (String, String) {
    (name.to_string(), value.to_string())
}

fn field_of(failure: AuthorizationFailure) -> String {
    failure.field().to_string()
}

#[test]
fn with_tenant_id_common() {
    let credential = AuthorizationCodeCredential::builder()
        .with_authority(Authority::TenantId("common".into()))
        .build();

    assert_eq!(credential.authority, Authority::TenantId("common".into()))
}

#[test]
fn with_tenant_id_adfs() {
    let credential = AuthorizationCodeCredential::builder()
        .with_authority(Authority::AzureDirectoryFederatedServices)
        .build();

    assert_eq!(credential.authority.as_ref(), "adfs");
}

#[test]
#[should_panic]
fn authorization_code_missing_required_value() {
    let mut credential_builder = AuthorizationCodeCredential::builder();
    credential_builder
        .with_redirect_uri("https://localhost:8080")
        .with_client_id("client_id")
        .with_client_secret("client_secret")
        .with_scope(vec!["scope"])
        .with_tenant("tenant_id");
    let mut credential = credential_builder.build();
    let _ = credential.form().unwrap();
}

#[test]
#[should_panic]
fn required_value_missing_client_id() {
    let mut credential_builder = AuthorizationCodeCredential::builder();
    credential_builder
        .with_authorization_code("code")
        .with_refresh_token("token");
    let mut credential = credential_builder.build();
    let _ = credential.form().unwrap();
}

#[test]
fn neither_code_nor_refresh_token_names_both() {
    let mut credential = AuthorizationCodeCredential::builder()
        .with_redirect_uri("https://localhost:8080")
        .with_client_id("client_id")
        .with_client_secret("client_secret")
        .build();
    match credential.form() {
        Err(AuthorizationFailure::MissingRequiredValue { name }) => {
            assert_eq!(name, "authorization_code or refresh_token")
        }
        other => panic!("unexpected: {:?}", other),
    }
}

#[test]
fn code_and_refresh_token_conflict() {
    let mut credential = AuthorizationCodeCredential::new("id", "secret", "code", "https://a/");
    credential.refresh_token = Some("token".to_string());
    match credential.form() {
        Err(AuthorizationFailure::ConflictingValues { first, second }) => {
            assert_eq!(first, "authorization_code");
            assert_eq!(second, "refresh_token");
        }
        other => panic!("unexpected: {:?}", other),
    }
    credential.client_id = String::new();
    assert!(matches!(credential.form(), Err(AuthorizationFailure::ConflictingValues { .. })));
}

#[test]
fn blank_client_id_or_secret_is_missing() {
    let mut credential = AuthorizationCodeCredential::new("  ", "secret", "code", "https://a/");
    assert_eq!(field_of(credential.form().unwrap_err()), "client_id");
    let mut credential = AuthorizationCodeCredential::new("id", "\t\n", "code", "https://a/");
    assert_eq!(field_of(credential.form().unwrap_err()), "client_secret");
    let mut credential = AuthorizationCodeCredential::new("", "", "code", "https://a/");
    assert_eq!(field_of(credential.form().unwrap_err()), "client_id");
    let mut credential = ClientSecretCredential::new("", "secret");
    assert_eq!(field_of(credential.form().unwrap_err()), "client_id");
    let mut credential = ClientSecretCredential::new("id", " ");
    assert_eq!(field_of(credential.form().unwrap_err()), "client_secret");
}

#[test]
fn blank_code_redirect_uri_or_refresh_token_is_missing() {
    let mut credential = AuthorizationCodeCredential::new("id", "secret", " ", "https://a/");
    assert_eq!(field_of(credential.form().unwrap_err()), "authorization_code");
    let mut credential = AuthorizationCodeCredential::new("id", "secret", "code", "");
    assert_eq!(field_of(credential.form().unwrap_err()), "redirect_uri");
    let mut credential = AuthorizationCodeCredential::new("id", "secret", "code", "");
    credential.with_refresh_token(" ");
    assert_eq!(field_of(credential.form().unwrap_err()), "refresh_token");
}

#[test]
fn form_of_a_code_is_in_table_order() {
    let pkce = ProofKeyCodeExchange {
        code_verifier: "verifier".to_string(),
        code_challenge: "challenge".to_string(),
        code_challenge_method: "S256".to_string(),
    };
    let mut credential = AuthorizationCodeCredential::builder()
        .with_authorization_code("the code")
        .with_client_id("id")
        .with_client_secret("secret")
        .with_redirect_uri("https://localhost:8080")
        .with_scope(vec!["User.Read", "Mail.Send"])
        .with_proof_key_for_code_exchange(&pkce)
        .build();
    assert_eq!(
        credential.form().unwrap(),
        vec![
            pair("client_id", "id"),
            pair("client_secret", "secret"),
            pair("redirect_uri", "https://localhost:8080"),
            pair("code", "the code"),
            pair("grant_type", "authorization_code"),
            pair("scope", "User.Read Mail.Send"),
            pair("code_verifier", "verifier"),
        ]
    );
    assert_eq!(credential.authorization_code.as_deref(), Some("the code"));
}

#[test]
fn form_of_a_code_leaves_out_what_is_absent_or_blank() {
    let mut credential = AuthorizationCodeCredential::new("id", "secret", "code", "https://a/");
    credential.code_verifier = Some("  ".to_string());
    assert_eq!(
        credential.form().unwrap(),
        vec![
            pair("client_id", "id"),
            pair("client_secret", "secret"),
            pair("redirect_uri", "https://a/"),
            pair("code", "code"),
            pair("grant_type", "authorization_code"),
        ]
    );
}

#[test]
fn form_of_a_refresh_token_is_in_table_order() {
    let mut credential = AuthorizationCodeCredential::new("id", "secret", "code", "");
    credential.with_refresh_token("token");
    credential.scope = vec!["User.Read".to_string()];
    credential.code_verifier = Some("verifier".to_string());
    assert_eq!(credential.authorization_code, None);
    assert_eq!(
        credential.form().unwrap(),
        vec![
            pair("client_id", "id"),
            pair("client_secret", "secret"),
            pair("refresh_token", "token"),
            pair("grant_type", "refresh_token"),
            pair("scope", "User.Read"),
        ]
    );
}

#[test]
fn builder_setters_replace_code_and_refresh_token() {
    let credential = AuthorizationCodeCredential::builder()
        .with_refresh_token("token")
        .with_authorization_code("code")
        .build();
    assert_eq!(credential.authorization_code.as_deref(), Some("code"));
    assert_eq!(credential.refresh_token, None);
    let credential = AuthorizationCodeCredential::builder()
        .with_authorization_code("code")
        .with_refresh_token("token")
        .with_code_verifier("verifier")
        .build();
    assert_eq!(credential.authorization_code, None);
    assert_eq!(credential.refresh_token.as_deref(), Some("token"));
    assert_eq!(credential.code_verifier.as_deref(), Some("verifier"));
}

#[test]
fn basic_auth_is_client_id_and_secret() {
    let credential = AuthorizationCodeCredential::new("id", "secret", "code", "https://a/");
    assert_eq!(credential.basic_auth(), Some(pair("id", "secret")));
}

#[test]
fn uri_is_the_token_endpoint() {
    let mut credential = AuthorizationCodeCredential::builder().with_tenant("contoso").build();
    assert_eq!(
        credential.uri(&AzureCloudInstance::AzureGermany).unwrap().as_str(),
        "https://login.microsoftonline.de/contoso/oauth2/v2.0/token"
    );
    credential.with_refresh_token("token");
    assert_eq!(
        credential.uri(&AzureCloudInstance::AzurePublic).unwrap().as_str(),
        "https://login.microsoftonline.com/contoso/oauth2/v2.0/token"
    );
}

#[test]
fn token_request_is_prepared_for_the_host_of_the_options() {
    let mut builder = AuthorizationCodeCredentialBuilder::new();
    builder
        .with_authorization_code("code")
        .with_client_id("id")
        .with_client_secret("secret")
        .with_redirect_uri("https://localhost/");
    builder.with_token_credential_options(TokenCredentialOptions {
        azure_authority_host: AzureCloudInstance::AzureChina,
    });
    let mut credential = builder.build();
    let request = prepare_token_request(&mut credential).unwrap();
    assert_eq!(
        request.uri.as_str(),
        "https://login.chinacloudapi.cn/common/oauth2/v2.0/token"
    );
    assert_eq!(request.form.len(), 5);
    assert_eq!(request.basic_auth, Some(pair("id", "secret")));

    credential.client_secret = String::new();
    assert_eq!(field_of(prepare_token_request(&mut credential).unwrap_err()), "client_secret");
}

#[test]
fn credential_builder_from_an_authorization_request() {
    let request = AuthCodeAuthorizationUrlParameters::builder("a1a2a3a4b1b2c1c2d1d2d3d4d5d6d7d8")
        .with_redirect_uri(Url::parse("https://localhost:8080").unwrap())
        .with_scope(vec!["User.Read"])
        .with_tenant("contoso")
        .build();
    let credential = AuthorizationCodeCredentialBuilder::from(request).build();
    assert_eq!(credential.client_id, "a1a2a3a4-b1b2-c1c2-d1d2-d3d4d5d6d7d8");
    assert_eq!(credential.redirect_uri, "https://localhost:8080/");
    assert_eq!(credential.scope, vec!["User.Read"]);
    assert_eq!(credential.authority, Authority::TenantId("contoso".into()));
    assert_eq!(credential.authorization_code, None);

    let again = AuthorizationCodeCredentialBuilder::from(credential.clone()).build();
    assert_eq!(again.client_id, credential.client_id);
}

#[test]
fn form_of_client_credentials() {
    let mut credential = ClientSecretCredential::new("id", "secret");
    assert_eq!(
        credential.form().unwrap(),
        vec![
            pair("client_id", "id"),
            pair("client_secret", "secret"),
            pair("grant_type", "client_credentials"),
        ]
    );
    credential.scope = vec!["https://graph.microsoft.com/.default".to_string()];
    assert_eq!(
        credential.form().unwrap()[3],
        pair("scope", "https://graph.microsoft.com/.default")
    );
    assert_eq!(credential.basic_auth(), Some(pair("id", "secret")));
}
