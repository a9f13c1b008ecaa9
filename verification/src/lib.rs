//! Requests of OAuth 2.0 and OpenID Connect for the Microsoft identity
//! platform, built and checked before anything is sent.
//!
//! An authorization request is described by
//! [`AuthCodeAuthorizationUrlParameters`], which gives the URL that the
//! user is sent to. A token request is described by a credential, such as
//! [`AuthorizationCodeCredential`], which gives the URL of the token
//! endpoint, the fields of the form and the pair for HTTP Basic
//! authentication. The answer of the authorization endpoint is read from
//! the redirect by [`AuthorizationQueryResponse`].
//!
//! Every function states what it returns in a contract that Verus checks.
//! What the crates `url`, `uuid`, `ring` and `base64` do is taken on trust,
//! in one small function for each call.

pub mod app_config;
pub mod auth_code_authorization_url;
pub mod authority;
pub mod authorization_code_credential;
pub mod authorization_query_response;
pub mod client_id;
pub mod client_secret_credential;
pub mod confidential_client_application;
pub mod crypto;
pub mod error;
pub mod form_urlencoded;
pub mod oauth_serializer;
pub mod response_type;
pub mod round_trip;
pub mod text;
pub mod token_credential_executor;
pub mod url_text;

pub use crate::app_config::AppConfig;
pub use crate::auth_code_authorization_url::AuthCodeAuthorizationUrlParameterBuilder;
pub use crate::auth_code_authorization_url::AuthCodeAuthorizationUrlParameters;
pub use crate::auth_code_authorization_url::ProofKeyCodeExchange;
pub use crate::authority::Authority;
pub use crate::authority::AzureCloudInstance;
pub use crate::authorization_code_credential::AuthorizationCodeCredential;
pub use crate::authorization_code_credential::AuthorizationCodeCredentialBuilder;
pub use crate::authorization_query_response::AuthorizationQueryResponse;
pub use crate::client_secret_credential::ClientSecretCredential;
pub use crate::confidential_client_application::ClientCache;
pub use crate::confidential_client_application::ConfidentialClient;
pub use crate::confidential_client_application::ConfidentialClientApplication;
pub use crate::confidential_client_application::ConfidentialClientApplicationBuilder;
pub use crate::error::AuthorizationFailure;
pub use crate::oauth_serializer::FormCredential;
pub use crate::oauth_serializer::OAuthParameter;
pub use crate::oauth_serializer::OAuthSerializer;
pub use crate::response_type::Prompt;
pub use crate::response_type::ResponseMode;
pub use crate::response_type::ResponseType;
pub use crate::response_type::ResponseTypes;
pub use crate::token_credential_executor::AuthorizationSerializer;
pub use crate::token_credential_executor::TokenCredentialExecutor;
pub use crate::token_credential_executor::TokenCredentialOptions;
pub use crate::token_credential_executor::TokenRequest;
pub use crate::url_text::Url;
