//! The credential of the client credentials grant with a shared secret:
//! the application asks for a token in its own name.

use vstd::prelude::*;
use vstd::string::StringExecFns;

use crate::authority::token_endpoint;
use crate::authority::token_url;
use crate::authority::Authority;
use crate::authority::AuthorityView;
use crate::authority::AzureCloudInstance;
use crate::error::missing;
use crate::error::AuthorizationFailure;
use crate::error::FailureView;
use crate::form_urlencoded::Pair;
use crate::oauth_serializer::first_unmet;
use crate::oauth_serializer::lemma_all_met;
use crate::oauth_serializer::lemma_form_pairs_push;
use crate::oauth_serializer::put;
use crate::oauth_serializer::unless_blank;
use crate::oauth_serializer::usable_value;
use crate::oauth_serializer::with_optional;
use crate::oauth_serializer::form_pairs;
use crate::oauth_serializer::Entries;
use crate::oauth_serializer::FormCredential;
use crate::oauth_serializer::OAuthParameter;
use crate::oauth_serializer::OAuthSerializer;
use crate::text::blank;
use crate::text::clone_strings;
use crate::text::is_blank;
use crate::text::joined;
use crate::text::views;
use crate::token_credential_executor::AuthorizationSerializer;
use crate::token_credential_executor::TokenCredentialExecutor;
use crate::token_credential_executor::TokenCredentialOptions;
use crate::token_credential_executor::TokenRequest;
use crate::url_text::Url;

verus! {

/// The credential of the client credentials grant with a shared secret.
#[derive(Debug)]
pub struct ClientSecretCredential {
    /// The identifier of the application.
    pub client_id: String,
    /// The secret of the application.
    pub client_secret: String,
    /// The permissions that the token is asked for.
    pub scope: Vec<String>,
    pub authority: Authority,
    pub token_credential_options: TokenCredentialOptions,
}

/// A `ClientSecretCredential` over sequences of characters.
pub struct ClientSecretView {
    pub client_id: Seq<char>,
    pub client_secret: Seq<char>,
    pub scope: Seq<Seq<char>>,
    pub authority: AuthorityView,
    pub token_credential_options: TokenCredentialOptions,
}

impl View for ClientSecretCredential {
    type V = ClientSecretView;

    open spec fn view(&self) -> ClientSecretView {
        ClientSecretView {
            client_id: self.client_id@,
            client_secret: self.client_secret@,
            scope: views(self.scope@),
            authority: self.authority@,
            token_credential_options: self.token_credential_options,
        }
    }
}

impl ClientSecretView {
    /// The scopes as they are sent: joined by one space, where there are any.
    pub open spec fn scope_value(self) -> Option<Seq<char>> {
        if self.scope.len() > 0 {
            Some(joined(self.scope, " "@))
        } else {
            None
        }
    }

    /// Why the form cannot be built: a blank client id, else a blank client
    /// secret. Nothing where the form can be built.
    pub open spec fn failure(self) -> Option<FailureView> {
        if blank(self.client_id) {
            Some(missing("client_id"@))
        } else if blank(self.client_secret) {
            Some(missing("client_secret"@))
        } else {
            None
        }
    }

    /// The fields of the form in their order: client id, client secret and
    /// grant type, then the scope where it is not blank.
    pub open spec fn fields(self) -> Seq<Pair> {
        with_optional(
            seq![
                (OAuthParameter::ClientId.name(), self.client_id),
                (OAuthParameter::ClientSecret.name(), self.client_secret),
                (OAuthParameter::GrantType.name(), "client_credentials"@),
            ],
            OAuthParameter::Scope,
            unless_blank(self.scope_value()),
        )
    }

    /// The table of the grant.
    pub open spec fn table() -> Seq<FormCredential> {
        seq![
            FormCredential::Required(OAuthParameter::ClientId),
            FormCredential::Required(OAuthParameter::ClientSecret),
            FormCredential::Required(OAuthParameter::GrantType),
            FormCredential::NotRequired(OAuthParameter::Scope),
        ]
    }

    /// What the store holds when the form is built.
    pub open spec fn entries(self) -> Entries {
        put(
            Entries::empty().insert(OAuthParameter::ClientId, self.client_id).insert(
                OAuthParameter::ClientSecret,
                self.client_secret,
            ).insert(OAuthParameter::GrantType, "client_credentials"@),
            OAuthParameter::Scope,
            self.scope_value(),
        )
    }
}

/// The store of a credential that can be sent meets the table of the grant
/// and gives the fields of the form.
pub proof fn lemma_client_secret_form(v: ClientSecretView)
    requires
        v.failure() is None,
    ensures
        first_unmet(v.entries(), ClientSecretView::table()) == ClientSecretView::table().len(),
        form_pairs(v.entries(), ClientSecretView::table()) == v.fields(),
{
    let e = v.entries();
    let table = ClientSecretView::table();
    reveal_strlit("client_credentials");
    assert("client_credentials"@[0] == 'c');
    lemma_all_met(e, table);
    let t0 = Seq::<FormCredential>::empty();
    let t1 = t0.push(table[0]);
    let t2 = t1.push(table[1]);
    let t3 = t2.push(table[2]);
    let t4 = t3.push(table[3]);
    lemma_form_pairs_push(e, t0, table[0]);
    lemma_form_pairs_push(e, t1, table[1]);
    lemma_form_pairs_push(e, t2, table[2]);
    lemma_form_pairs_push(e, t3, table[3]);
    assert(t4 =~= table);
    assert(form_pairs(e, t3) =~= seq![
        (OAuthParameter::ClientId.name(), v.client_id),
        (OAuthParameter::ClientSecret.name(), v.client_secret),
        (OAuthParameter::GrantType.name(), "client_credentials"@),
    ]);
    assert(usable_value(e, OAuthParameter::Scope) == unless_blank(v.scope_value()));
}

/// A credential with a blank client id is refused for it, and one with a
/// blank client secret for that.
pub proof fn lemma_blank_client_is_refused(v: ClientSecretView)
    ensures
        blank(v.client_id) ==> v.failure() == Some(missing("client_id"@)),
        !blank(v.client_id) && blank(v.client_secret) ==> v.failure() == Some(
            missing("client_secret"@),
        ),
{
}

impl Clone for ClientSecretCredential {
    fn clone(&self) -> (r: ClientSecretCredential)
        ensures
            r@ == self@,
    {
        ClientSecretCredential {
            client_id: self.client_id.clone(),
            client_secret: self.client_secret.clone(),
            scope: clone_strings(&self.scope),
            authority: self.authority.clone(),
            token_credential_options: self.token_credential_options,
        }
    }
}

impl ClientSecretCredential {
    /// The credential of the given application, for the common authority
    /// on the public cloud, with no scope.
    pub fn new(client_id: &str, client_secret: &str) -> (r: ClientSecretCredential)
        ensures
            r@ == (ClientSecretView {
                client_id: client_id@,
                client_secret: client_secret@,
                scope: Seq::empty(),
                authority: AuthorityView::Common,
                token_credential_options: TokenCredentialOptions {
                    azure_authority_host: AzureCloudInstance::AzurePublic,
                },
            }),
    {
        let r = ClientSecretCredential {
            client_id: String::from_str(client_id),
            client_secret: String::from_str(client_secret),
            scope: Vec::new(),
            authority: Authority::Common,
            token_credential_options: TokenCredentialOptions {
                azure_authority_host: AzureCloudInstance::AzurePublic,
            },
        };
        assert(views(r.scope@) =~= Seq::empty());
        r
    }
}

impl AuthorizationSerializer for ClientSecretCredential {
    open spec fn endpoint(&self, host: AzureCloudInstance) -> Seq<char> {
        token_endpoint(host, self@.authority)
    }

    open spec fn form_failure(&self) -> Option<FailureView> {
        self@.failure()
    }

    open spec fn form_fields(&self) -> Seq<Pair> {
        self@.fields()
    }

    open spec fn basic_auth_pair(&self) -> Option<Pair> {
        Some((self@.client_id, self@.client_secret))
    }

    fn uri(&mut self, azure_authority_host: &AzureCloudInstance) -> (r: Result<
        Url,
        AuthorizationFailure,
    >) {
        let endpoint = token_url(azure_authority_host, &self.authority);
        Url::parse(endpoint.as_str())
    }

    fn form(&mut self) -> (r: Result<Vec<(String, String)>, AuthorizationFailure>) {
        if is_blank(self.client_id.as_str()) {
            return Err(AuthorizationFailure::required("client_id"));
        }
        if is_blank(self.client_secret.as_str()) {
            return Err(AuthorizationFailure::required("client_secret"));
        }
        let mut serializer = OAuthSerializer::new();
        serializer.client_id(self.client_id.as_str()).client_secret(
            self.client_secret.as_str(),
        ).grant_type("client_credentials").extend_scopes(&self.scope);
        proof {
            assert(serializer@ == self@.entries());
            lemma_client_secret_form(self@);
        }
        let table = vec![
            FormCredential::Required(OAuthParameter::ClientId),
            FormCredential::Required(OAuthParameter::ClientSecret),
            FormCredential::Required(OAuthParameter::GrantType),
            FormCredential::NotRequired(OAuthParameter::Scope),
        ];
        assert(table@ =~= ClientSecretView::table());
        serializer.authorization_form(table)
    }

    fn basic_auth(&self) -> (r: Option<(String, String)>) {
        Some((self.client_id.clone(), self.client_secret.clone()))
    }
}

impl TokenRequest for ClientSecretCredential {
    open spec fn host(&self) -> AzureCloudInstance {
        self.token_credential_options.azure_authority_host
    }

    fn token_credential_options(&self) -> (r: &TokenCredentialOptions) {
        &self.token_credential_options
    }
}

impl TokenCredentialExecutor for ClientSecretCredential {
    open spec fn target(&self) -> Seq<char> {
        token_endpoint(self.token_credential_options.azure_authority_host, self@.authority)
    }

    open spec fn failure(&self) -> Option<FailureView> {
        self@.failure()
    }

    open spec fn fields(&self) -> Seq<Pair> {
        self@.fields()
    }

    open spec fn basic_pair(&self) -> Option<Pair> {
        Some((self@.client_id, self@.client_secret))
    }

    open spec fn client(&self) -> Seq<char> {
        self@.client_id
    }

    open spec fn realm(&self) -> AuthorityView {
        self@.authority
    }

    open spec fn cloud(&self) -> AzureCloudInstance {
        self.token_credential_options.azure_authority_host
    }

    fn uri(&mut self) -> (r: Result<Url, AuthorizationFailure>) {
        let host = self.token_credential_options.azure_authority_host;
        AuthorizationSerializer::uri(self, &host)
    }

    fn form_urlencode(&mut self) -> (r: Result<Vec<(String, String)>, AuthorizationFailure>) {
        AuthorizationSerializer::form(self)
    }

    fn client_id(&self) -> (r: &String) {
        &self.client_id
    }

    fn authority(&self) -> (r: Authority) {
        self.authority.clone()
    }

    fn azure_cloud_instance(&self) -> (r: AzureCloudInstance) {
        self.token_credential_options.azure_authority_host
    }

    fn basic_auth(&self) -> (r: Option<(String, String)>) {
        AuthorizationSerializer::basic_auth(self)
    }
}

} // verus!
