//! The credential of the authorization code grant. It redeems an
//! authorization code, or a refresh token, for tokens at the token endpoint.

use vstd::prelude::*;
use vstd::std_specs::convert::FromSpecImpl;
use vstd::string::StringExecFns;

use crate::app_config::AppConfig;
use crate::app_config::AppConfigView;
use crate::auth_code_authorization_url::AuthCodeAuthorizationUrlParameterBuilder;
use crate::auth_code_authorization_url::AuthCodeAuthorizationUrlParameters;
use crate::auth_code_authorization_url::AuthCodeUrlView;
use crate::auth_code_authorization_url::ProofKeyCodeExchange;
use crate::authority::token_endpoint;
use crate::authority::Authority;
use crate::authority::AuthorityView;
use crate::authority::AzureCloudInstance;
use crate::client_id::hyphenated;
use crate::client_id::uuid_text;
use crate::client_id::NIL;
use crate::error::conflicting;
use crate::error::missing;
use crate::error::AuthorizationFailure;
use crate::error::FailureView;
use crate::form_urlencoded::Pair;
use crate::oauth_serializer::first_unmet;
use crate::oauth_serializer::lemma_all_met;
use crate::oauth_serializer::lemma_form_pairs_push;
use crate::oauth_serializer::put;
use crate::oauth_serializer::unless_blank;
use crate::oauth_serializer::usable_value;
use crate::oauth_serializer::with_optional;
use crate::oauth_serializer::form_pairs;
use crate::oauth_serializer::with_authority;
use crate::oauth_serializer::Entries;
use crate::oauth_serializer::FormCredential;
use crate::oauth_serializer::OAuthParameter;
use crate::oauth_serializer::OAuthSerializer;
use crate::text::blank;
use crate::text::clone_opt;
use crate::text::clone_strings;
use crate::text::is_blank;
use crate::text::joined;
use crate::text::opt_view;
use crate::text::views;
use crate::token_credential_executor::AuthorizationSerializer;
use crate::token_credential_executor::TokenCredentialExecutor;
use crate::token_credential_executor::TokenCredentialOptions;
use crate::token_credential_executor::TokenRequest;
use crate::url_text::Url;

verus! {

/// The credential of the authorization code grant.
#[derive(Debug)]
pub struct AuthorizationCodeCredential {
    /// The code that the authorization endpoint returned. Not set together
    /// with a refresh token.
    pub authorization_code: Option<String>,
    /// The refresh token that is redeemed in place of a code.
    pub refresh_token: Option<String>,
    /// The identifier of the application.
    pub client_id: String,
    /// The secret of the application.
    pub client_secret: String,
    /// The redirect URI that the code was acquired with.
    pub redirect_uri: String,
    /// The permissions that the token is asked for.
    pub scope: Vec<String>,
    pub authority: Authority,
    /// The verifier of the proof key that the code was acquired with.
    pub code_verifier: Option<String>,
    pub token_credential_options: TokenCredentialOptions,
}

/// An `AuthorizationCodeCredential` over sequences of characters.
pub struct AuthorizationCodeView {
    pub authorization_code: Option<Seq<char>>,
    pub refresh_token: Option<Seq<char>>,
    pub client_id: Seq<char>,
    pub client_secret: Seq<char>,
    pub redirect_uri: Seq<char>,
    pub scope: Seq<Seq<char>>,
    pub authority: AuthorityView,
    pub code_verifier: Option<Seq<char>>,
    pub token_credential_options: TokenCredentialOptions,
}

impl View for AuthorizationCodeCredential {
    type V = AuthorizationCodeView;

    open spec fn view(&self) -> AuthorizationCodeView {
        AuthorizationCodeView {
            authorization_code: opt_view(self.authorization_code),
            refresh_token: opt_view(self.refresh_token),
            client_id: self.client_id@,
            client_secret: self.client_secret@,
            redirect_uri: self.redirect_uri@,
            scope: views(self.scope@),
            authority: self.authority@,
            code_verifier: opt_view(self.code_verifier),
            token_credential_options: self.token_credential_options,
        }
    }
}

impl AuthorizationCodeView {
    /// A credential of which nothing is set.
    pub open spec fn empty() -> AuthorizationCodeView {
        AuthorizationCodeView {
            authorization_code: None,
            refresh_token: None,
            client_id: Seq::empty(),
            client_secret: Seq::empty(),
            redirect_uri: Seq::empty(),
            scope: Seq::empty(),
            authority: AuthorityView::Common,
            code_verifier: None,
            token_credential_options: TokenCredentialOptions {
                azure_authority_host: AzureCloudInstance::AzurePublic,
            },
        }
    }

    /// The scopes as they are sent: joined by one space, where there are any.
    pub open spec fn scope_value(self) -> Option<Seq<char>> {
        if self.scope.len() > 0 {
            Some(joined(self.scope, " "@))
        } else {
            None
        }
    }

    /// Why the form cannot be built: the first of the checks that fails.
    /// A code and a refresh token exclude each other; the client id and the
    /// client secret must not be blank; a refresh token must not be blank;
    /// a code must not be blank, nor the redirect URI that goes with it;
    /// and one of the two must be there. Nothing where the form can be built.
    pub open spec fn failure(self) -> Option<FailureView> {
        if self.authorization_code is Some && self.refresh_token is Some {
            Some(conflicting("authorization_code"@, "refresh_token"@))
        } else if blank(self.client_id) {
            Some(missing("client_id"@))
        } else if blank(self.client_secret) {
            Some(missing("client_secret"@))
        } else if self.refresh_token is Some {
            if blank(self.refresh_token->0) {
                Some(missing("refresh_token"@))
            } else {
                None
            }
        } else if self.authorization_code is Some {
            if blank(self.authorization_code->0) {
                Some(missing("authorization_code"@))
            } else if blank(self.redirect_uri) {
                Some(missing("redirect_uri"@))
            } else {
                None
            }
        } else {
            Some(missing("authorization_code or refresh_token"@))
        }
    }

    /// The fields of the form in their order. With a refresh token: client
    /// id, client secret, refresh token and grant type, then the scope. With
    /// a code: client id, client secret, redirect URI, code and grant type,
    /// then the scope and the code verifier. The scope and the verifier are
    /// sent only where they are not blank.
    pub open spec fn fields(self) -> Seq<Pair> {
        if self.refresh_token is Some {
            with_optional(
                seq![
                    (OAuthParameter::ClientId.name(), self.client_id),
                    (OAuthParameter::ClientSecret.name(), self.client_secret),
                    (OAuthParameter::RefreshToken.name(), self.refresh_token->0),
                    (OAuthParameter::GrantType.name(), "refresh_token"@),
                ],
                OAuthParameter::Scope,
                unless_blank(self.scope_value()),
            )
        } else {
            with_optional(
                with_optional(
                    seq![
                        (OAuthParameter::ClientId.name(), self.client_id),
                        (OAuthParameter::ClientSecret.name(), self.client_secret),
                        (OAuthParameter::RedirectUri.name(), self.redirect_uri),
                        (OAuthParameter::AuthorizationCode.name(), self.authorization_code->0),
                        (OAuthParameter::GrantType.name(), "authorization_code"@),
                    ],
                    OAuthParameter::Scope,
                    unless_blank(self.scope_value()),
                ),
                OAuthParameter::CodeVerifier,
                unless_blank(self.code_verifier),
            )
        }
    }

    /// The table of the grant that redeems a refresh token.
    pub open spec fn refresh_table() -> Seq<FormCredential> {
        seq![
            FormCredential::Required(OAuthParameter::ClientId),
            FormCredential::Required(OAuthParameter::ClientSecret),
            FormCredential::Required(OAuthParameter::RefreshToken),
            FormCredential::Required(OAuthParameter::GrantType),
            FormCredential::NotRequired(OAuthParameter::Scope),
        ]
    }

    /// The table of the grant that redeems an authorization code.
    pub open spec fn code_table() -> Seq<FormCredential> {
        seq![
            FormCredential::Required(OAuthParameter::ClientId),
            FormCredential::Required(OAuthParameter::ClientSecret),
            FormCredential::Required(OAuthParameter::RedirectUri),
            FormCredential::Required(OAuthParameter::AuthorizationCode),
            FormCredential::Required(OAuthParameter::GrantType),
            FormCredential::NotRequired(OAuthParameter::Scope),
            FormCredential::NotRequired(OAuthParameter::CodeVerifier),
        ]
    }

    /// What the store holds when a refresh token is redeemed.
    pub open spec fn refresh_entries(self) -> Entries {
        put(
            Entries::empty().insert(OAuthParameter::ClientId, self.client_id).insert(
                OAuthParameter::ClientSecret,
                self.client_secret,
            ),
            OAuthParameter::Scope,
            self.scope_value(),
        ).insert(OAuthParameter::GrantType, "refresh_token"@).insert(
            OAuthParameter::RefreshToken,
            self.refresh_token->0,
        )
    }

    /// What the store holds when a code is redeemed.
    pub open spec fn code_entries(self) -> Entries {
        put(
            put(
                Entries::empty().insert(OAuthParameter::ClientId, self.client_id).insert(
                    OAuthParameter::ClientSecret,
                    self.client_secret,
                ),
                OAuthParameter::Scope,
                self.scope_value(),
            ).insert(OAuthParameter::AuthorizationCode, self.authorization_code->0).insert(
                OAuthParameter::GrantType,
                "authorization_code"@,
            ).insert(OAuthParameter::RedirectUri, self.redirect_uri),
            OAuthParameter::CodeVerifier,
            self.code_verifier,
        )
    }
}

proof fn lemma_grant_names_not_blank()
    ensures
        !blank("refresh_token"@),
        !blank("authorization_code"@),
{
    reveal_strlit("refresh_token");
    reveal_strlit("authorization_code");
    assert("refresh_token"@[0] == 'r');
    assert("authorization_code"@[0] == 'a');
}

/// The store of a refresh that can be sent meets its table and gives the
/// fields of the form.
pub proof fn lemma_refresh_form(v: AuthorizationCodeView)
    requires
        v.failure() is None,
        v.refresh_token is Some,
    ensures
        first_unmet(v.refresh_entries(), AuthorizationCodeView::refresh_table())
            == AuthorizationCodeView::refresh_table().len(),
        form_pairs(v.refresh_entries(), AuthorizationCodeView::refresh_table()) == v.fields(),
{
    let e = v.refresh_entries();
    let table = AuthorizationCodeView::refresh_table();
    lemma_grant_names_not_blank();
    lemma_all_met(e, table);
    let t0 = Seq::<FormCredential>::empty();
    let t1 = t0.push(table[0]);
    let t2 = t1.push(table[1]);
    let t3 = t2.push(table[2]);
    let t4 = t3.push(table[3]);
    let t5 = t4.push(table[4]);
    lemma_form_pairs_push(e, t0, table[0]);
    lemma_form_pairs_push(e, t1, table[1]);
    lemma_form_pairs_push(e, t2, table[2]);
    lemma_form_pairs_push(e, t3, table[3]);
    lemma_form_pairs_push(e, t4, table[4]);
    assert(t5 =~= table);
    assert(form_pairs(e, t4) =~= seq![
        (OAuthParameter::ClientId.name(), v.client_id),
        (OAuthParameter::ClientSecret.name(), v.client_secret),
        (OAuthParameter::RefreshToken.name(), v.refresh_token->0),
        (OAuthParameter::GrantType.name(), "refresh_token"@),
    ]);
    assert(usable_value(e, OAuthParameter::Scope) == unless_blank(v.scope_value()));
}

/// The store of a code that can be sent meets its table and gives the
/// fields of the form.
pub proof fn lemma_code_form(v: AuthorizationCodeView)
    requires
        v.failure() is None,
        v.refresh_token is None,
    ensures
        first_unmet(v.code_entries(), AuthorizationCodeView::code_table())
            == AuthorizationCodeView::code_table().len(),
        form_pairs(v.code_entries(), AuthorizationCodeView::code_table()) == v.fields(),
{
    let e = v.code_entries();
    let table = AuthorizationCodeView::code_table();
    lemma_grant_names_not_blank();
    lemma_all_met(e, table);
    let t0 = Seq::<FormCredential>::empty();
    let t1 = t0.push(table[0]);
    let t2 = t1.push(table[1]);
    let t3 = t2.push(table[2]);
    let t4 = t3.push(table[3]);
    let t5 = t4.push(table[4]);
    let t6 = t5.push(table[5]);
    let t7 = t6.push(table[6]);
    lemma_form_pairs_push(e, t0, table[0]);
    lemma_form_pairs_push(e, t1, table[1]);
    lemma_form_pairs_push(e, t2, table[2]);
    lemma_form_pairs_push(e, t3, table[3]);
    lemma_form_pairs_push(e, t4, table[4]);
    lemma_form_pairs_push(e, t5, table[5]);
    lemma_form_pairs_push(e, t6, table[6]);
    assert(t7 =~= table);
    assert(form_pairs(e, t5) =~= seq![
        (OAuthParameter::ClientId.name(), v.client_id),
        (OAuthParameter::ClientSecret.name(), v.client_secret),
        (OAuthParameter::RedirectUri.name(), v.redirect_uri),
        (OAuthParameter::AuthorizationCode.name(), v.authorization_code->0),
        (OAuthParameter::GrantType.name(), "authorization_code"@),
    ]);
    assert(usable_value(e, OAuthParameter::Scope) == unless_blank(v.scope_value()));
    assert(usable_value(e, OAuthParameter::CodeVerifier) == unless_blank(v.code_verifier));
}

/// A credential with an authorization code and a refresh token is refused
/// for the two, whatever else it holds.
pub proof fn lemma_code_and_refresh_token_conflict(v: AuthorizationCodeView)
    requires
        v.authorization_code is Some,
        v.refresh_token is Some,
    ensures
        v.failure() == Some(conflicting("authorization_code"@, "refresh_token"@)),
{
}

/// A credential with a blank client id is refused for it, and one with a
/// blank client secret for that, where it does not hold both an
/// authorization code and a refresh token.
pub proof fn lemma_blank_client_is_refused(v: AuthorizationCodeView)
    requires
        !(v.authorization_code is Some && v.refresh_token is Some),
    ensures
        blank(v.client_id) ==> v.failure() == Some(missing("client_id"@)),
        !blank(v.client_id) && blank(v.client_secret) ==> v.failure() == Some(
            missing("client_secret"@),
        ),
{
}

impl Clone for AuthorizationCodeCredential {
    fn clone(&self) -> (r: AuthorizationCodeCredential)
        ensures
            r@ == self@,
    {
        AuthorizationCodeCredential {
            authorization_code: clone_opt(&self.authorization_code),
            refresh_token: clone_opt(&self.refresh_token),
            client_id: self.client_id.clone(),
            client_secret: self.client_secret.clone(),
            redirect_uri: self.redirect_uri.clone(),
            scope: clone_strings(&self.scope),
            authority: self.authority.clone(),
            code_verifier: clone_opt(&self.code_verifier),
            token_credential_options: self.token_credential_options,
        }
    }
}

impl AuthorizationCodeCredential {
    /// The credential that redeems the given code for the given application.
    pub fn new(client_id: &str, client_secret: &str, authorization_code: &str, redirect_uri: &str) -> (r:
        AuthorizationCodeCredential)
        ensures
            r@ == (AuthorizationCodeView {
                authorization_code: Some(authorization_code@),
                client_id: client_id@,
                client_secret: client_secret@,
                redirect_uri: redirect_uri@,
                ..AuthorizationCodeView::empty()
            }),
    {
        let r = AuthorizationCodeCredential {
            authorization_code: Some(String::from_str(authorization_code)),
            refresh_token: None,
            client_id: String::from_str(client_id),
            client_secret: String::from_str(client_secret),
            redirect_uri: String::from_str(redirect_uri),
            scope: Vec::new(),
            authority: Authority::Common,
            code_verifier: None,
            token_credential_options: TokenCredentialOptions {
                azure_authority_host: AzureCloudInstance::AzurePublic,
            },
        };
        assert(views(r.scope@) =~= Seq::empty());
        r
    }

    /// Puts a refresh token in the place of the authorization code.
    pub fn with_refresh_token(&mut self, refresh_token: &str)
        ensures
            final(self)@ == (AuthorizationCodeView {
                authorization_code: None,
                refresh_token: Some(refresh_token@),
                ..old(self)@
            }),
    {
        self.authorization_code = None;
        self.refresh_token = Some(String::from_str(refresh_token));
    }

    /// A builder for a credential of which nothing is set.
    pub fn builder() -> (r: AuthorizationCodeCredentialBuilder)
        ensures
            r@ == AuthorizationCodeView::empty(),
    {
        AuthorizationCodeCredentialBuilder::new()
    }

    /// A builder for the request that acquires the authorization code. The
    /// identifier of the application is not set yet.
    pub fn authorization_url_builder() -> (r: AuthCodeAuthorizationUrlParameterBuilder)
        ensures
            r@ == AuthCodeUrlView::initial(AppConfigView::initial(NIL, None, None)),
    {
        AuthCodeAuthorizationUrlParameterBuilder::new_with_app_config(
            AppConfig::new_init(NIL, None, None),
        )
    }

    fn filled(&self) -> (r: OAuthSerializer)
        ensures
            r@ == put(
                Entries::empty().insert(OAuthParameter::ClientId, self@.client_id).insert(
                    OAuthParameter::ClientSecret,
                    self@.client_secret,
                ),
                OAuthParameter::Scope,
                self@.scope_value(),
            ),
    {
        let mut serializer = OAuthSerializer::new();
        serializer.client_id(self.client_id.as_str()).client_secret(
            self.client_secret.as_str(),
        ).extend_scopes(&self.scope);
        serializer
    }
}

impl AuthorizationSerializer for AuthorizationCodeCredential {
    open spec fn endpoint(&self, host: AzureCloudInstance) -> Seq<char> {
        token_endpoint(host, self@.authority)
    }

    open spec fn form_failure(&self) -> Option<FailureView> {
        self@.failure()
    }

    open spec fn form_fields(&self) -> Seq<Pair> {
        self@.fields()
    }

    open spec fn basic_auth_pair(&self) -> Option<Pair> {
        Some((self@.client_id, self@.client_secret))
    }

    /// The URL of the token endpoint of the credential's authority on the
    /// host, for a code and for a refresh token alike.
    fn uri(&mut self, azure_authority_host: &AzureCloudInstance) -> (r: Result<
        Url,
        AuthorizationFailure,
    >) {
        let mut serializer = OAuthSerializer::new();
        serializer.authority(azure_authority_host, &self.authority);
        let endpoint = if self.refresh_token.is_none() {
            serializer.get(OAuthParameter::AccessTokenUrl)
        } else {
            serializer.get(OAuthParameter::RefreshTokenUrl)
        };
        match endpoint {
            Some(text) => Url::parse(text.as_str()),
            None => Err(AuthorizationFailure::required("access_token_url")),
        }
    }

    /// The fields of the token request's body, by the table of the grant.
    /// The secret is sent in the body also where it is sent for Basic
    /// authentication.
    fn form(&mut self) -> (r: Result<Vec<(String, String)>, AuthorizationFailure>) {
        if self.authorization_code.is_some() && self.refresh_token.is_some() {
            return Err(AuthorizationFailure::conflict("authorization_code", "refresh_token"));
        }
        if is_blank(self.client_id.as_str()) {
            return Err(AuthorizationFailure::required("client_id"));
        }
        if is_blank(self.client_secret.as_str()) {
            return Err(AuthorizationFailure::required("client_secret"));
        }
        let mut serializer = self.filled();
        match &self.refresh_token {
            Some(refresh_token) => {
                if is_blank(refresh_token.as_str()) {
                    return Err(AuthorizationFailure::required("refresh_token"));
                }
                serializer.grant_type("refresh_token").refresh_token(refresh_token.as_str());
                proof {
                    assert(serializer@ == self@.refresh_entries());
                    lemma_refresh_form(self@);
                }
                let table = vec![
                    FormCredential::Required(OAuthParameter::ClientId),
                    FormCredential::Required(OAuthParameter::ClientSecret),
                    FormCredential::Required(OAuthParameter::RefreshToken),
                    FormCredential::Required(OAuthParameter::GrantType),
                    FormCredential::NotRequired(OAuthParameter::Scope),
                ];
                assert(table@ =~= AuthorizationCodeView::refresh_table());
                return serializer.authorization_form(table);
            },
            None => {},
        }
        match &self.authorization_code {
            Some(authorization_code) => {
                if is_blank(authorization_code.as_str()) {
                    return Err(AuthorizationFailure::required("authorization_code"));
                }
                if is_blank(self.redirect_uri.as_str()) {
                    return Err(AuthorizationFailure::required("redirect_uri"));
                }
                serializer.authorization_code(authorization_code.as_str()).grant_type(
                    "authorization_code",
                ).redirect_uri(self.redirect_uri.as_str());
                match &self.code_verifier {
                    Some(code_verifier) => {
                        serializer.code_verifier(code_verifier.as_str());
                    },
                    None => {},
                }
                proof {
                    assert(serializer@ == self@.code_entries());
                    lemma_code_form(self@);
                }
                let table = vec![
                    FormCredential::Required(OAuthParameter::ClientId),
                    FormCredential::Required(OAuthParameter::ClientSecret),
                    FormCredential::Required(OAuthParameter::RedirectUri),
                    FormCredential::Required(OAuthParameter::AuthorizationCode),
                    FormCredential::Required(OAuthParameter::GrantType),
                    FormCredential::NotRequired(OAuthParameter::Scope),
                    FormCredential::NotRequired(OAuthParameter::CodeVerifier),
                ];
                assert(table@ =~= AuthorizationCodeView::code_table());
                return serializer.authorization_form(table);
            },
            None => {},
        }
        Err(AuthorizationFailure::required("authorization_code or refresh_token"))
    }

    /// The client id and the client secret, always.
    fn basic_auth(&self) -> (r: Option<(String, String)>) {
        Some((self.client_id.clone(), self.client_secret.clone()))
    }
}

impl TokenRequest for AuthorizationCodeCredential {
    open spec fn host(&self) -> AzureCloudInstance {
        self.token_credential_options.azure_authority_host
    }

    fn token_credential_options(&self) -> (r: &TokenCredentialOptions) {
        &self.token_credential_options
    }
}

impl TokenCredentialExecutor for AuthorizationCodeCredential {
    open spec fn target(&self) -> Seq<char> {
        token_endpoint(self.token_credential_options.azure_authority_host, self@.authority)
    }

    open spec fn failure(&self) -> Option<FailureView> {
        self@.failure()
    }

    open spec fn fields(&self) -> Seq<Pair> {
        self@.fields()
    }

    open spec fn basic_pair(&self) -> Option<Pair> {
        Some((self@.client_id, self@.client_secret))
    }

    open spec fn client(&self) -> Seq<char> {
        self@.client_id
    }

    open spec fn realm(&self) -> AuthorityView {
        self@.authority
    }

    open spec fn cloud(&self) -> AzureCloudInstance {
        self.token_credential_options.azure_authority_host
    }

    fn uri(&mut self) -> (r: Result<Url, AuthorizationFailure>) {
        let host = self.token_credential_options.azure_authority_host;
        AuthorizationSerializer::uri(self, &host)
    }

    fn form_urlencode(&mut self) -> (r: Result<Vec<(String, String)>, AuthorizationFailure>) {
        AuthorizationSerializer::form(self)
    }

    fn client_id(&self) -> (r: &String) {
        &self.client_id
    }

    fn authority(&self) -> (r: Authority) {
        self.authority.clone()
    }

    fn azure_cloud_instance(&self) -> (r: AzureCloudInstance) {
        self.token_credential_options.azure_authority_host
    }

    fn basic_auth(&self) -> (r: Option<(String, String)>) {
        AuthorizationSerializer::basic_auth(self)
    }
}

/// Sets the fields of an `AuthorizationCodeCredential` one by one. Nothing
/// is checked before the form is built.
#[derive(Debug)]
pub struct AuthorizationCodeCredentialBuilder {
    pub credential: AuthorizationCodeCredential,
}

impl View for AuthorizationCodeCredentialBuilder {
    type V = AuthorizationCodeView;

    open spec fn view(&self) -> AuthorizationCodeView {
        self.credential@
    }
}

impl Clone for AuthorizationCodeCredentialBuilder {
    fn clone(&self) -> (r: AuthorizationCodeCredentialBuilder)
        ensures
            r@ == self@,
    {
        AuthorizationCodeCredentialBuilder { credential: self.credential.clone() }
    }
}

impl AuthorizationCodeCredentialBuilder {
    /// A builder for a credential of which nothing is set.
    pub fn new() -> (r: AuthorizationCodeCredentialBuilder)
        ensures
            r@ == AuthorizationCodeView::empty(),
    {
        let r = AuthorizationCodeCredentialBuilder {
            credential: AuthorizationCodeCredential {
                authorization_code: None,
                refresh_token: None,
                client_id: String::new(),
                client_secret: String::new(),
                redirect_uri: String::new(),
                scope: Vec::new(),
                authority: Authority::Common,
                code_verifier: None,
                token_credential_options: TokenCredentialOptions {
                    azure_authority_host: AzureCloudInstance::AzurePublic,
                },
            },
        };
        assert(views(r.credential.scope@) =~= Seq::empty());
        r
    }

    /// Sets the authorization code, and takes the refresh token away.
    pub fn with_authorization_code(&mut self, authorization_code: &str) -> (r:
        &mut AuthorizationCodeCredentialBuilder)
        ensures
            r@ == (AuthorizationCodeView {
                authorization_code: Some(authorization_code@),
                refresh_token: None,
                ..old(self)@
            }),
            *final(self) == *final(r),
    {
        self.credential.authorization_code = Some(String::from_str(authorization_code));
        self.credential.refresh_token = None;
        self
    }

    /// Sets the refresh token, and takes the authorization code away.
    pub fn with_refresh_token(&mut self, refresh_token: &str) -> (r:
        &mut AuthorizationCodeCredentialBuilder)
        ensures
            r@ == (AuthorizationCodeView {
                authorization_code: None,
                refresh_token: Some(refresh_token@),
                ..old(self)@
            }),
            *final(self) == *final(r),
    {
        self.credential.authorization_code = None;
        self.credential.refresh_token = Some(String::from_str(refresh_token));
        self
    }

    pub fn with_redirect_uri(&mut self, redirect_uri: &str) -> (r:
        &mut AuthorizationCodeCredentialBuilder)
        ensures
            r@ == (AuthorizationCodeView { redirect_uri: redirect_uri@, ..old(self)@ }),
            *final(self) == *final(r),
    {
        self.credential.redirect_uri = String::from_str(redirect_uri);
        self
    }

    pub fn with_client_id(&mut self, client_id: &str) -> (r: &mut AuthorizationCodeCredentialBuilder)
        ensures
            r@ == (AuthorizationCodeView { client_id: client_id@, ..old(self)@ }),
            *final(self) == *final(r),
    {
        self.credential.client_id = String::from_str(client_id);
        self
    }

    pub fn with_client_secret(&mut self, client_secret: &str) -> (r:
        &mut AuthorizationCodeCredentialBuilder)
        ensures
            r@ == (AuthorizationCodeView { client_secret: client_secret@, ..old(self)@ }),
            *final(self) == *final(r),
    {
        self.credential.client_secret = String::from_str(client_secret);
        self
    }

    /// Makes the given directory the authority.
    pub fn with_tenant(&mut self, tenant: &str) -> (r: &mut AuthorizationCodeCredentialBuilder)
        ensures
            r@ == (AuthorizationCodeView {
                authority: AuthorityView::TenantId(tenant@),
                ..old(self)@
            }),
            *final(self) == *final(r),
    {
        self.credential.authority = Authority::tenant(tenant);
        self
    }

    pub fn with_authority(&mut self, authority: Authority) -> (r:
        &mut AuthorizationCodeCredentialBuilder)
        ensures
            r@ == (AuthorizationCodeView { authority: authority@, ..old(self)@ }),
            *final(self) == *final(r),
    {
        self.credential.authority = authority;
        self
    }

    pub fn with_code_verifier(&mut self, code_verifier: &str) -> (r:
        &mut AuthorizationCodeCredentialBuilder)
        ensures
            r@ == (AuthorizationCodeView { code_verifier: Some(code_verifier@), ..old(self)@ }),
            *final(self) == *final(r),
    {
        self.credential.code_verifier = Some(String::from_str(code_verifier));
        self
    }

    /// Sets the code verifier from a proof key for code exchange.
    pub fn with_proof_key_for_code_exchange(
        &mut self,
        proof_key_for_code_exchange: &ProofKeyCodeExchange,
    ) -> (r: &mut AuthorizationCodeCredentialBuilder)
        ensures
            r@ == (AuthorizationCodeView {
                code_verifier: Some(proof_key_for_code_exchange@.code_verifier),
                ..old(self)@
            }),
            *final(self) == *final(r),
    {
        self.with_code_verifier(proof_key_for_code_exchange.code_verifier.as_str());
        self
    }

    /// Puts the given scopes in the place of those that are there.
    pub fn with_scope(&mut self, scopes: Vec<&str>) -> (r: &mut AuthorizationCodeCredentialBuilder)
        ensures
            r@ == (AuthorizationCodeView {
                scope: scopes@.map_values(|s: &str| s@),
                ..old(self)@
            }),
            *final(self) == *final(r),
    {
        let mut owned: Vec<String> = Vec::new();
        let mut i: usize = 0;
        while i < scopes.len()
            invariant
                i <= scopes.len(),
                owned@.len() == i,
                forall|j: int| 0 <= j < i ==> owned@[j]@ == scopes@[j]@,
            decreases scopes.len() - i,
        {
            owned.push(String::from_str(scopes[i]));
            i += 1;
        }
        assert(views(owned@) =~= scopes@.map_values(|s: &str| s@));
        self.credential.scope = owned;
        self
    }

    pub fn with_token_credential_options(&mut self, token_credential_options: TokenCredentialOptions)
        ensures
            final(self)@ == (AuthorizationCodeView { token_credential_options, ..old(self)@ }),
    {
        self.credential.token_credential_options = token_credential_options;
    }

    /// The credential as it is set.
    pub fn build(&self) -> (r: AuthorizationCodeCredential)
        ensures
            r@ == self@,
    {
        self.credential.clone()
    }
}

/// The credential that goes with an authorization request: its scope, its
/// client id in hyphenated form, its redirect URI, empty where the request
/// has none, and its authority.
pub open spec fn credential_for(request: AuthCodeUrlView) -> AuthorizationCodeView {
    AuthorizationCodeView {
        scope: request.scope,
        client_id: hyphenated(request.app_config.client_id),
        redirect_uri: match request.app_config.redirect_uri {
            Some(url) => url.text,
            None => Seq::empty(),
        },
        authority: request.app_config.authority,
        ..AuthorizationCodeView::empty()
    }
}

impl AuthorizationCodeCredentialBuilder {
    /// A builder for the credential that goes with an authorization
    /// request.
    pub fn from_authorization_url(value: AuthCodeAuthorizationUrlParameters) -> (r:
        AuthorizationCodeCredentialBuilder)
        ensures
            r@ == credential_for(value@),
    {
        let mut builder = AuthorizationCodeCredentialBuilder::new();
        let client_id = uuid_text(value.app_config.client_id);
        builder.credential.scope = value.scope;
        builder.with_client_id(client_id.as_str());
        match &value.app_config.redirect_uri {
            Some(url) => {
                builder.with_redirect_uri(url.as_str());
            },
            None => {},
        }
        builder.with_authority(value.app_config.authority);
        builder
    }
}

impl From<AuthCodeAuthorizationUrlParameters> for AuthorizationCodeCredentialBuilder {
    fn from(value: AuthCodeAuthorizationUrlParameters) -> (r: AuthorizationCodeCredentialBuilder) {
        AuthorizationCodeCredentialBuilder::from_authorization_url(value)
    }
}

impl FromSpecImpl<AuthCodeAuthorizationUrlParameters> for AuthorizationCodeCredentialBuilder {
    open spec fn obeys_from_spec() -> bool {
        false
    }

    open spec fn from_spec(value: AuthCodeAuthorizationUrlParameters) -> Self {
        arbitrary()
    }
}

impl From<AuthorizationCodeCredential> for AuthorizationCodeCredentialBuilder {
    fn from(credential: AuthorizationCodeCredential) -> (r: AuthorizationCodeCredentialBuilder) {
        AuthorizationCodeCredentialBuilder { credential }
    }
}

impl FromSpecImpl<AuthorizationCodeCredential> for AuthorizationCodeCredentialBuilder {
    open spec fn obeys_from_spec() -> bool {
        true
    }

    open spec fn from_spec(credential: AuthorizationCodeCredential) -> Self {
        AuthorizationCodeCredentialBuilder { credential }
    }
}

} // verus!
