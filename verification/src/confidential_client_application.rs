//! Applications that can keep a secret: one interface over the credentials
//! of the grants that such an application can use.

use vstd::pervasive::cloned;
use vstd::prelude::*;
use vstd::std_specs::convert::FromSpecImpl;

use crate::app_config::AppConfig;
use crate::app_config::AppConfigView;
use crate::auth_code_authorization_url::AuthCodeAuthorizationUrlParameterBuilder;
use crate::auth_code_authorization_url::AuthCodeUrlView;
use crate::authority::Authority;
use crate::authority::AuthorityView;
use crate::authority::AzureCloudInstance;
use crate::authorization_code_credential::AuthorizationCodeCredential;
use crate::authorization_code_credential::AuthorizationCodeCredentialBuilder;
use crate::authorization_code_credential::AuthorizationCodeView;
use crate::client_id::hyphenated;
use crate::client_id::uuid_parsed;
use crate::client_id::uuid_text;
use crate::client_id::NIL;
use crate::client_secret_credential::ClientSecretCredential;
use crate::client_secret_credential::ClientSecretView;
use crate::error::AuthorizationFailure;
use crate::error::FailureView;
use crate::form_urlencoded::Pair;
use crate::token_credential_executor::TokenCredentialExecutor;
use crate::token_credential_executor::TokenCredentialOptions;
use crate::url_text::Url;

verus! {

/// The place of a token cache. This library keeps none.
#[derive(Clone, Copy, Debug)]
pub struct ClientCache {}

/// A confidential client that holds a credential of one kind.
#[derive(Debug)]
pub struct ConfidentialClient<Credential> {
    pub credential: Credential,
}

impl<Credential: Clone> Clone for ConfidentialClient<Credential> {
    fn clone(&self) -> (r: ConfidentialClient<Credential>)
        ensures
            cloned(self.credential, r.credential),
    {
        ConfidentialClient { credential: self.credential.clone() }
    }
}

impl<Credential: TokenCredentialExecutor> ConfidentialClient<Credential> {
    pub fn new(credential: Credential) -> (r: ConfidentialClient<Credential>)
        ensures
            r.credential == credential,
    {
        ConfidentialClient { credential }
    }

    pub fn credential(credential: Credential) -> (r: ConfidentialClient<Credential>)
        ensures
            r.credential == credential,
    {
        ConfidentialClient { credential }
    }

    /// A builder for the application with the given identifier.
    pub fn builder(client_id: &str) -> (r: ConfidentialClientApplicationBuilder)
        ensures
            r.app_config@ == AppConfigView::initial(
                match uuid_parsed(client_id@) {
                    Some(value) => value,
                    None => NIL,
                },
                None,
                None,
            ),
    {
        ConfidentialClientApplicationBuilder::new(client_id)
    }
}

impl<Credential: TokenCredentialExecutor> TokenCredentialExecutor for ConfidentialClient<
    Credential,
> {
    open spec fn target(&self) -> Seq<char> {
        self.credential.target()
    }

    open spec fn failure(&self) -> Option<FailureView> {
        self.credential.failure()
    }

    open spec fn fields(&self) -> Seq<Pair> {
        self.credential.fields()
    }

    open spec fn basic_pair(&self) -> Option<Pair> {
        self.credential.basic_pair()
    }

    open spec fn client(&self) -> Seq<char> {
        self.credential.client()
    }

    open spec fn realm(&self) -> AuthorityView {
        self.credential.realm()
    }

    open spec fn cloud(&self) -> AzureCloudInstance {
        self.credential.cloud()
    }

    fn uri(&mut self) -> (r: Result<Url, AuthorizationFailure>) {
        self.credential.uri()
    }

    fn form_urlencode(&mut self) -> (r: Result<Vec<(String, String)>, AuthorizationFailure>) {
        self.credential.form_urlencode()
    }

    fn client_id(&self) -> (r: &String) {
        self.credential.client_id()
    }

    fn authority(&self) -> (r: Authority) {
        self.credential.authority()
    }

    fn azure_cloud_instance(&self) -> (r: AzureCloudInstance) {
        self.credential.azure_cloud_instance()
    }

    fn basic_auth(&self) -> (r: Option<(String, String)>) {
        self.credential.basic_auth()
    }
}

/// A confidential client that holds a credential of any kind.
#[derive(Debug)]
pub enum ConfidentialClientApplication {
    /// The authorization code grant, which also redeems refresh tokens.
    AuthorizationCode(AuthorizationCodeCredential),
    /// The client credentials grant with a shared secret.
    ClientSecret(ClientSecretCredential),
}

impl Clone for ConfidentialClientApplication {
    fn clone(&self) -> (r: ConfidentialClientApplication)
        ensures
            match (*self, r) {
                (
                    ConfidentialClientApplication::AuthorizationCode(a),
                    ConfidentialClientApplication::AuthorizationCode(b),
                ) => a@ == b@,
                (
                    ConfidentialClientApplication::ClientSecret(a),
                    ConfidentialClientApplication::ClientSecret(b),
                ) => a@ == b@,
                _ => false,
            },
    {
        match self {
            ConfidentialClientApplication::AuthorizationCode(credential) => {
                ConfidentialClientApplication::AuthorizationCode(credential.clone())
            },
            ConfidentialClientApplication::ClientSecret(credential) => {
                ConfidentialClientApplication::ClientSecret(credential.clone())
            },
        }
    }
}

impl ConfidentialClientApplication {
    /// A builder for the application with the given identifier.
    pub fn builder(client_id: &str) -> (r: ConfidentialClientApplicationBuilder)
        ensures
            r.app_config@ == AppConfigView::initial(
                match uuid_parsed(client_id@) {
                    Some(value) => value,
                    None => NIL,
                },
                None,
                None,
            ),
    {
        ConfidentialClientApplicationBuilder::new(client_id)
    }
}

impl TokenCredentialExecutor for ConfidentialClientApplication {
    open spec fn target(&self) -> Seq<char> {
        match self {
            ConfidentialClientApplication::AuthorizationCode(c) => c.target(),
            ConfidentialClientApplication::ClientSecret(c) => c.target(),
        }
    }

    open spec fn failure(&self) -> Option<FailureView> {
        match self {
            ConfidentialClientApplication::AuthorizationCode(c) => c@.failure(),
            ConfidentialClientApplication::ClientSecret(c) => c@.failure(),
        }
    }

    open spec fn fields(&self) -> Seq<Pair> {
        match self {
            ConfidentialClientApplication::AuthorizationCode(c) => c@.fields(),
            ConfidentialClientApplication::ClientSecret(c) => c@.fields(),
        }
    }

    open spec fn basic_pair(&self) -> Option<Pair> {
        match self {
            ConfidentialClientApplication::AuthorizationCode(c) => c.basic_pair(),
            ConfidentialClientApplication::ClientSecret(c) => c.basic_pair(),
        }
    }

    open spec fn client(&self) -> Seq<char> {
        match self {
            ConfidentialClientApplication::AuthorizationCode(c) => c@.client_id,
            ConfidentialClientApplication::ClientSecret(c) => c@.client_id,
        }
    }

    open spec fn realm(&self) -> AuthorityView {
        match self {
            ConfidentialClientApplication::AuthorizationCode(c) => c@.authority,
            ConfidentialClientApplication::ClientSecret(c) => c@.authority,
        }
    }

    open spec fn cloud(&self) -> AzureCloudInstance {
        match self {
            ConfidentialClientApplication::AuthorizationCode(c) => c.cloud(),
            ConfidentialClientApplication::ClientSecret(c) => c.cloud(),
        }
    }

    fn uri(&mut self) -> (r: Result<Url, AuthorizationFailure>) {
        match self {
            ConfidentialClientApplication::AuthorizationCode(c) => TokenCredentialExecutor::uri(c),
            ConfidentialClientApplication::ClientSecret(c) => TokenCredentialExecutor::uri(c),
        }
    }

    fn form_urlencode(&mut self) -> (r: Result<Vec<(String, String)>, AuthorizationFailure>) {
        match self {
            ConfidentialClientApplication::AuthorizationCode(c) => c.form_urlencode(),
            ConfidentialClientApplication::ClientSecret(c) => c.form_urlencode(),
        }
    }

    fn client_id(&self) -> (r: &String) {
        match self {
            ConfidentialClientApplication::AuthorizationCode(c) => &c.client_id,
            ConfidentialClientApplication::ClientSecret(c) => &c.client_id,
        }
    }

    fn authority(&self) -> (r: Authority) {
        match self {
            ConfidentialClientApplication::AuthorizationCode(c) => c.authority.clone(),
            ConfidentialClientApplication::ClientSecret(c) => c.authority.clone(),
        }
    }

    fn azure_cloud_instance(&self) -> (r: AzureCloudInstance) {
        match self {
            ConfidentialClientApplication::AuthorizationCode(c) => {
                c.token_credential_options.azure_authority_host
            },
            ConfidentialClientApplication::ClientSecret(c) => {
                c.token_credential_options.azure_authority_host
            },
        }
    }

    fn basic_auth(&self) -> (r: Option<(String, String)>) {
        match self {
            ConfidentialClientApplication::AuthorizationCode(c) => {
                TokenCredentialExecutor::basic_auth(c)
            },
            ConfidentialClientApplication::ClientSecret(c) => TokenCredentialExecutor::basic_auth(c),
        }
    }
}

impl From<AuthorizationCodeCredential> for ConfidentialClientApplication {
    fn from(value: AuthorizationCodeCredential) -> (r: ConfidentialClientApplication) {
        ConfidentialClientApplication::AuthorizationCode(value)
    }
}

impl FromSpecImpl<AuthorizationCodeCredential> for ConfidentialClientApplication {
    open spec fn obeys_from_spec() -> bool {
        true
    }

    open spec fn from_spec(value: AuthorizationCodeCredential) -> Self {
        ConfidentialClientApplication::AuthorizationCode(value)
    }
}

impl From<ClientSecretCredential> for ConfidentialClientApplication {
    fn from(value: ClientSecretCredential) -> (r: ConfidentialClientApplication) {
        ConfidentialClientApplication::ClientSecret(value)
    }
}

impl FromSpecImpl<ClientSecretCredential> for ConfidentialClientApplication {
    open spec fn obeys_from_spec() -> bool {
        true
    }

    open spec fn from_spec(value: ClientSecretCredential) -> Self {
        ConfidentialClientApplication::ClientSecret(value)
    }
}

impl From<AuthorizationCodeCredential> for ConfidentialClient<AuthorizationCodeCredential> {
    fn from(value: AuthorizationCodeCredential) -> (r: ConfidentialClient<
        AuthorizationCodeCredential,
    >) {
        ConfidentialClient::new(value)
    }
}

impl FromSpecImpl<AuthorizationCodeCredential> for ConfidentialClient<AuthorizationCodeCredential> {
    open spec fn obeys_from_spec() -> bool {
        true
    }

    open spec fn from_spec(value: AuthorizationCodeCredential) -> Self {
        ConfidentialClient { credential: value }
    }
}

impl From<ClientSecretCredential> for ConfidentialClient<ClientSecretCredential> {
    fn from(value: ClientSecretCredential) -> (r: ConfidentialClient<ClientSecretCredential>) {
        ConfidentialClient::credential(value)
    }
}

impl FromSpecImpl<ClientSecretCredential> for ConfidentialClient<ClientSecretCredential> {
    open spec fn obeys_from_spec() -> bool {
        true
    }

    open spec fn from_spec(value: ClientSecretCredential) -> Self {
        ConfidentialClient { credential: value }
    }
}

/// Starts the credentials and requests of one application.
#[derive(Debug)]
pub struct ConfidentialClientApplicationBuilder {
    pub app_config: AppConfig,
}

impl ConfidentialClientApplicationBuilder {
    /// A builder for the application with the given identifier. A text
    /// that holds no UUID gives the nil identifier.
    pub fn new(client_id: &str) -> (r: ConfidentialClientApplicationBuilder)
        ensures
            r.app_config@ == AppConfigView::initial(
                match uuid_parsed(client_id@) {
                    Some(value) => value,
                    None => NIL,
                },
                None,
                None,
            ),
    {
        ConfidentialClientApplicationBuilder { app_config: AppConfig::new_with_client_id(client_id) }
    }

    /// Makes the given directory the authority.
    pub fn with_tenant(&mut self, tenant: &str) -> (r: &mut ConfidentialClientApplicationBuilder)
        ensures
            r.app_config@ == (AppConfigView {
                authority: AuthorityView::TenantId(tenant@),
                ..old(self).app_config@
            }),
            *final(self) == *final(r),
    {
        self.app_config.authority = Authority::tenant(tenant);
        self
    }

    pub fn with_authority(&mut self, authority: Authority) -> (r:
        &mut ConfidentialClientApplicationBuilder)
        ensures
            r.app_config@ == (AppConfigView { authority: authority@, ..old(self).app_config@ }),
            *final(self) == *final(r),
    {
        self.app_config.authority = authority;
        self
    }

    /// A builder for the request that acquires an authorization code for
    /// the application.
    pub fn auth_code_url_builder(&self) -> (r: AuthCodeAuthorizationUrlParameterBuilder)
        ensures
            r@ == AuthCodeUrlView::initial(self.app_config@),
    {
        AuthCodeAuthorizationUrlParameterBuilder::new_with_app_config(self.app_config.clone())
    }

    /// A builder for the credential that redeems the given authorization
    /// code for the application: its client id in hyphenated form, its
    /// authority, its cloud, and its redirect URI where it has one.
    pub fn with_authorization_code(&self, authorization_code: &str) -> (r:
        AuthorizationCodeCredentialBuilder)
        ensures
            r@ == (AuthorizationCodeView {
                authorization_code: Some(authorization_code@),
                client_id: hyphenated(self.app_config.client_id),
                redirect_uri: match self.app_config@.redirect_uri {
                    Some(url) => url.text,
                    None => Seq::empty(),
                },
                authority: self.app_config@.authority,
                token_credential_options: TokenCredentialOptions {
                    azure_authority_host: self.app_config.azure_cloud_instance,
                },
                ..AuthorizationCodeView::empty()
            }),
    {
        let mut builder = AuthorizationCodeCredentialBuilder::new();
        let client_id = uuid_text(self.app_config.client_id);
        builder.with_authorization_code(authorization_code).with_client_id(
            client_id.as_str(),
        ).with_authority(self.app_config.authority.clone());
        match &self.app_config.redirect_uri {
            Some(url) => {
                builder.with_redirect_uri(url.as_str());
            },
            None => {},
        }
        builder.with_token_credential_options(
            TokenCredentialOptions { azure_authority_host: self.app_config.azure_cloud_instance },
        );
        builder
    }

    /// The credential of the client credentials grant for the application,
    /// with the given secret.
    pub fn with_client_secret(&self, client_secret: &str) -> (r: ClientSecretCredential)
        ensures
            r@ == (ClientSecretView {
                client_id: hyphenated(self.app_config.client_id),
                client_secret: client_secret@,
                scope: Seq::empty(),
                authority: self.app_config@.authority,
                token_credential_options: TokenCredentialOptions {
                    azure_authority_host: self.app_config.azure_cloud_instance,
                },
            }),
    {
        let client_id = uuid_text(self.app_config.client_id);
        let mut credential = ClientSecretCredential::new(client_id.as_str(), client_secret);
        credential.authority = self.app_config.authority.clone();
        credential.token_credential_options = TokenCredentialOptions {
            azure_authority_host: self.app_config.azure_cloud_instance,
        };
        credential
    }
}

} // verus!
