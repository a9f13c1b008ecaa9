use graph_oauth::authority::Authority;
use graph_oauth::authority::AzureCloudInstance;
use graph_oauth::authorization_code_credential::AuthorizationCodeCredential;
use graph_oauth::client_secret_credential::ClientSecretCredential;
use graph_oauth::confidential_client_application::ConfidentialClient;
use graph_oauth::confidential_client_application::ConfidentialClientApplication;
use graph_oauth::token_credential_executor::TokenCredentialExecutor;
use uuid::Uuid;

#[test]
fn confidential_client_new() {
    let client_id = Uuid::new_v4();
    let client_id_string = client_id.to_string();
    let credential = ConfidentialClientApplication::builder(client_id_string.as_str())
        .with_authorization_code("code")
        .with_client_secret("ALDSKFJLKERLKJALSDKJF2209LAKJGFL")
        .with_scope(vec!["Read.Write"])
        .with_redirect_uri("http://localhost:8888/redirect")
        .build();
    let mut confidential_client = ConfidentialClientApplication::from(credential);

    let credential_uri = confidential_client.uri().unwrap();

    assert_eq!(
        "https://login.microsoftonline.com/common/oauth2/v2.0/token",
        credential_uri.as_str()
    );
}

#[test]
fn confidential_client_authority_tenant() {
    let client_id = Uuid::new_v4();
    let client_id_string = client_id.to_string();
    let credential = ConfidentialClientApplication::builder(client_id_string.as_str())
        .with_authorization_code("code")
        .with_tenant("tenant")
        .with_client_secret("ALDSKFJLKERLKJALSDKJF2209LAKJGFL")
        .with_scope(vec!["Read.Write"])
        .with_redirect_uri("http://localhost:8888/redirect")
        .build();
    let mut confidential_client = ConfidentialClient::new(credential);

    let credential_uri = confidential_client.credential.uri().unwrap();

    assert_eq!(
        "https://login.microsoftonline.com/tenant/oauth2/v2.0/token",
        credential_uri.as_str()
    );
}

#[test]
fn confidential_client_authority_consumers() {
    let client_id = Uuid::new_v4();
    let client_id_string = client_id.to_string();
    let credential = ConfidentialClientApplication::builder(client_id_string.as_str())
        .with_authorization_code("code")
        .with_authority(Authority::Consumers)
        .with_client_secret("ALDSKFJLKERLKJALSDKJF2209LAKJGFL")
        .with_scope(vec!["Read.Write", "Fall.Down"])
        .with_redirect_uri("http://localhost:8888/redirect")
        .build();
    let mut confidential_client = ConfidentialClient::credential(credential);

    let credential_uri = confidential_client.uri().unwrap();

    assert_eq!(
        "https://login.microsoftonline.com/consumers/oauth2/v2.0/token",
        credential_uri.as_str()
    );
}

#[test]
fn client_forwards_to_its_credential() {
    let credential = AuthorizationCodeCredential::new("id", "secret", "code", "https://a/");
    let mut client = ConfidentialClient::new(credential.clone());
    assert_eq!(client.form_urlencode().unwrap().len(), 5);
    assert_eq!(client.basic_auth(), Some(("id".to_string(), "secret".to_string())));
    assert_eq!(client.client_id(), "id");
    assert_eq!(client.authority(), Authority::Common);
    assert_eq!(client.azure_cloud_instance(), AzureCloudInstance::AzurePublic);

    let mut application = ConfidentialClientApplication::from(credential);
    assert_eq!(application.form_urlencode().unwrap(), client.form_urlencode().unwrap());
    assert_eq!(application.client_id(), "id");
    assert_eq!(application.authority(), Authority::Common);
    assert_eq!(application.basic_auth(), client.basic_auth());
}

#[test]
fn application_holds_a_client_secret_credential() {
    let client_id = "a1a2a3a4-b1b2-c1c2-d1d2-d3d4d5d6d7d8";
    let mut builder = ConfidentialClientApplication::builder(client_id);
    builder.with_tenant("contoso");
    let credential: ClientSecretCredential = builder.with_client_secret("secret");
    let mut application = ConfidentialClientApplication::from(credential);
    assert_eq!(
        application.uri().unwrap().as_str(),
        "https://login.microsoftonline.com/contoso/oauth2/v2.0/token"
    );
    let form = application.form_urlencode().unwrap();
    assert_eq!(form[0], ("client_id".to_string(), client_id.to_string()));
    assert_eq!(form[2], ("grant_type".to_string(), "client_credentials".to_string()));
    assert_eq!(application.azure_cloud_instance(), AzureCloudInstance::AzurePublic);
}

#[test]
fn application_starts_the_authorization_request() {
    let client_id = "a1a2a3a4-b1b2-c1c2-d1d2-d3d4d5d6d7d8";
    let mut builder = ConfidentialClient::<AuthorizationCodeCredential>::builder(client_id);
    builder.with_authority(Authority::Organizations);
    let query = builder
        .auth_code_url_builder()
        .with_redirect_uri(graph_oauth::url_text::Url::parse("http://localhost:8000/redirect").unwrap())
        .with_scope(vec!["user.read"])
        .url()
        .unwrap();
    assert_eq!(
        query.as_str(),
        "https://login.microsoftonline.com/organizations/oauth2/v2.0/authorize?client_id=a1a2a3a4-b1b2-c1c2-d1d2-d3d4d5d6d7d8&response_type=code&redirect_uri=http%3A%2F%2Flocalhost%3A8000%2Fredirect&scope=user.read"
    );
}
