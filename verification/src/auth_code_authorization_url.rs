//! The request that starts the authorization code flow: the URL of the
//! authorization endpoint to which the user is sent, with the parameters of
//! the request in its query.

use vstd::prelude::*;
use vstd::string::StringExecFns;

use crate::app_config::AppConfig;
use crate::app_config::AppConfigView;
use crate::authority::authorization_url;
use crate::authority::authorize_endpoint;
use crate::authority::Authority;
use crate::authority::AuthorityView;
use crate::authority::AzureCloudInstance;
use crate::client_id::hyphenated;
use crate::crypto::is_random_32;
use crate::crypto::secure_random_32;
use crate::client_id::parse_uuid;
use crate::client_id::uuid_parsed;
use crate::client_id::uuid_text;
use crate::client_id::NIL;
use crate::error::invalid;
use crate::error::malformed;
use crate::error::missing;
use crate::error::AuthorizationFailure;
use crate::error::FailureView;
use crate::form_urlencoded::as_text;
use crate::form_urlencoded::encoded;
use crate::form_urlencoded::lemma_appended_to_empty;
use crate::form_urlencoded::pairs_encoded;
use crate::form_urlencoded::Pair;
use crate::round_trip::kept;
use crate::round_trip::lemma_two_words_on_the_wire;
use crate::round_trip::lemma_written_pairs_read_back;
use crate::round_trip::pairs_in;
use crate::oauth_serializer::first_absent;
use crate::oauth_serializer::lemma_names_differ;
use crate::oauth_serializer::lemma_all_present;
use crate::oauth_serializer::lemma_pairs_of_push;
use crate::oauth_serializer::lookup;
use crate::oauth_serializer::put;
use crate::oauth_serializer::with_optional;
use crate::oauth_serializer::pairs_of;
use crate::oauth_serializer::Entries;
use crate::oauth_serializer::OAuthParameter;
use crate::oauth_serializer::OAuthSerializer;
use crate::response_type::lemma_types_read_back;
use crate::response_type::resolve_response_mode;
use crate::response_type::resolve_response_type;
use crate::response_type::resolved_mode;
use crate::response_type::resolved_types;
use crate::response_type::types_in;
use crate::response_type::Prompt;
use crate::response_type::ResponseMode;
use crate::response_type::ResponseType;
use crate::response_type::ResponseTypes;
use crate::text::blank;
use crate::text::clone_opt;
use crate::text::clone_strings;
use crate::text::contains_str;
use crate::text::is_blank;
use crate::text::joined;
use crate::text::lemma_split_joined;
use crate::text::split;
use crate::text::without;
use crate::text::opt_view;
use crate::text::trimmed;
use crate::text::views;
use crate::url_text::url_parsed;
use crate::url_text::Url;

verus! {

/// The parameters of a request for an authorization code.
#[derive(Debug)]
pub struct AuthCodeAuthorizationUrlParameters {
    pub app_config: AppConfig,
    /// What the endpoint is asked to return; `code` where nothing is chosen.
    pub response_type: ResponseTypes,
    /// How the endpoint hands its answer to the redirect URI.
    pub response_mode: Option<ResponseMode>,
    /// A value that comes back as a claim of the id_token, against replay.
    pub nonce: Option<String>,
    /// A value that comes back with the answer as it was sent.
    pub state: Option<String>,
    /// The permissions that the user is asked to consent to.
    pub scope: Vec<String>,
    /// The interaction with the user that is asked for.
    pub prompt: Option<Prompt>,
    /// The realm of the user in a federated directory.
    pub domain_hint: Option<String>,
    /// The user name that the sign-in page starts with.
    pub login_hint: Option<String>,
    /// The challenge of a proof key for code exchange.
    pub code_challenge: Option<String>,
    /// How the challenge was made from the verifier.
    pub code_challenge_method: Option<String>,
}

/// The parameters of a request for an authorization code, over sequences
/// of characters.
pub struct AuthCodeUrlView {
    pub app_config: AppConfigView,
    pub response_type: ResponseTypes,
    pub response_mode: Option<ResponseMode>,
    pub nonce: Option<Seq<char>>,
    pub state: Option<Seq<char>>,
    pub scope: Seq<Seq<char>>,
    pub prompt: Option<Prompt>,
    pub domain_hint: Option<Seq<char>>,
    pub login_hint: Option<Seq<char>>,
    pub code_challenge: Option<Seq<char>>,
    pub code_challenge_method: Option<Seq<char>>,
}

impl View for AuthCodeAuthorizationUrlParameters {
    type V = AuthCodeUrlView;

    open spec fn view(&self) -> AuthCodeUrlView {
        AuthCodeUrlView {
            app_config: self.app_config@,
            response_type: self.response_type,
            response_mode: self.response_mode,
            nonce: opt_view(self.nonce),
            state: opt_view(self.state),
            scope: views(self.scope@),
            prompt: self.prompt,
            domain_hint: opt_view(self.domain_hint),
            login_hint: opt_view(self.login_hint),
            code_challenge: opt_view(self.code_challenge),
            code_challenge_method: opt_view(self.code_challenge_method),
        }
    }
}

/// The parameters without which the request is not sent, in the order in
/// which they are written.
pub open spec fn required_keys() -> Seq<OAuthParameter> {
    seq![
        OAuthParameter::ClientId,
        OAuthParameter::ResponseType,
        OAuthParameter::RedirectUri,
        OAuthParameter::Scope,
    ]
}

/// The parameters that are sent where they have a value, in the order in
/// which they are written.
pub open spec fn optional_keys() -> Seq<OAuthParameter> {
    seq![
        OAuthParameter::ResponseMode,
        OAuthParameter::State,
        OAuthParameter::Prompt,
        OAuthParameter::LoginHint,
        OAuthParameter::DomainHint,
        OAuthParameter::Nonce,
        OAuthParameter::CodeChallenge,
        OAuthParameter::CodeChallengeMethod,
    ]
}

/// Why the scope `openid` is refused.
pub open spec fn openid_reason() -> Seq<char> {
    "use OpenIdCredential instead"@
}

impl AuthCodeUrlView {
    /// The name of the response mode that the request is sent with, where
    /// it is sent with one.
    pub open spec fn mode_name(self) -> Option<Seq<char>> {
        match resolved_mode(self.response_type, self.response_mode) {
            Some(mode) => Some(mode.name()),
            None => None,
        }
    }

    /// The name of the prompt, where one is chosen.
    pub open spec fn prompt_name(self) -> Option<Seq<char>> {
        match self.prompt {
            Some(prompt) => Some(prompt.name()),
            None => None,
        }
    }

    /// Why the request cannot be sent: the first of the checks that fails,
    /// in the order redirect URI, client id, scope, `openid`. Nothing where
    /// the request can be sent.
    pub open spec fn failure(self) -> Option<FailureView> {
        if self.app_config.redirect_uri is None || blank(self.app_config.redirect_uri->0.text) {
            Some(missing("redirect_uri"@))
        } else if self.app_config.client_id == NIL {
            Some(missing("client_id"@))
        } else if self.scope.len() == 0 {
            Some(missing("scope"@))
        } else if self.scope.contains("openid"@) {
            Some(invalid("openid"@, openid_reason()))
        } else {
            None
        }
    }

    /// The four pairs that every request carries.
    pub open spec fn required_pairs(self) -> Seq<Pair> {
        seq![
            (OAuthParameter::ClientId.name(), hyphenated(self.app_config.client_id)),
            (OAuthParameter::ResponseType.name(), resolved_types(self.response_type)),
            (OAuthParameter::RedirectUri.name(), self.app_config.redirect_uri->0.text),
            (OAuthParameter::Scope.name(), joined(self.scope, " "@)),
        ]
    }

    /// The pairs of the request's query, in the order in which they are
    /// written: the required ones, then those optional ones that have a
    /// value.
    pub open spec fn pairs(self) -> Seq<Pair> {
        let p0 = self.required_pairs();
        let p1 = with_optional(p0, OAuthParameter::ResponseMode, self.mode_name());
        let p2 = with_optional(p1, OAuthParameter::State, self.state);
        let p3 = with_optional(p2, OAuthParameter::Prompt, self.prompt_name());
        let p4 = with_optional(p3, OAuthParameter::LoginHint, self.login_hint);
        let p5 = with_optional(p4, OAuthParameter::DomainHint, self.domain_hint);
        let p6 = with_optional(p5, OAuthParameter::Nonce, self.nonce);
        let p7 = with_optional(p6, OAuthParameter::CodeChallenge, self.code_challenge);
        with_optional(p7, OAuthParameter::CodeChallengeMethod, self.code_challenge_method)
    }

    /// The query of the request on the wire.
    pub open spec fn query(self) -> Seq<char> {
        as_text(pairs_encoded(self.pairs()))
    }

    /// The text of the request's URL on the host: the authorization
    /// endpoint, `?` and the query.
    pub open spec fn url_text(self, host: AzureCloudInstance) -> Seq<char> {
        authorize_endpoint(host, self.app_config.authority) + "?"@ + self.query()
    }

    /// Whether `r` is what sending the request to the host gives: the
    /// failure of the first check that fails; else the URL that the text of
    /// the request's URL reads as, or the failure to read it.
    pub open spec fn sent_as(self, host: AzureCloudInstance, r: Result<Url, AuthorizationFailure>) -> bool {
        match r {
            Ok(url) => self.failure() is None && url_parsed(self.url_text(host)) == Some(url@),
            Err(e) => match self.failure() {
                Some(failure) => e@ == failure,
                None => url_parsed(self.url_text(host)) is None && e@ == malformed(
                    self.url_text(host),
                ),
            },
        }
    }

    /// The parameters of a request of which only the application is known:
    /// the response type is `code`.
    pub open spec fn initial(app_config: AppConfigView) -> AuthCodeUrlView {
        AuthCodeUrlView {
            app_config,
            response_type: ResponseTypes { code: true, id_token: false, token: false },
            response_mode: None,
            nonce: None,
            state: None,
            scope: Seq::empty(),
            prompt: None,
            domain_hint: None,
            login_hint: None,
            code_challenge: None,
            code_challenge_method: None,
        }
    }

    /// What the store of the request holds when the query is written.
    pub open spec fn entries(self) -> Entries {
        let e0 = Entries::empty().insert(
            OAuthParameter::RedirectUri,
            self.app_config.redirect_uri->0.text,
        ).insert(OAuthParameter::ClientId, hyphenated(self.app_config.client_id)).insert(
            OAuthParameter::Scope,
            joined(self.scope, " "@),
        ).insert(OAuthParameter::ResponseType, resolved_types(self.response_type));
        let e1 = put(e0, OAuthParameter::ResponseMode, self.mode_name());
        let e2 = put(e1, OAuthParameter::State, self.state);
        let e3 = put(e2, OAuthParameter::Prompt, self.prompt_name());
        let e4 = put(e3, OAuthParameter::DomainHint, self.domain_hint);
        let e5 = put(e4, OAuthParameter::LoginHint, self.login_hint);
        let e6 = put(e5, OAuthParameter::Nonce, self.nonce);
        let e7 = put(e6, OAuthParameter::CodeChallenge, self.code_challenge);
        put(e7, OAuthParameter::CodeChallengeMethod, self.code_challenge_method)
    }
}

/// The store of a request that can be sent has each required parameter, and
/// written out by the two lists of keys it gives the pairs of the request.
pub proof fn lemma_store_gives_pairs(v: AuthCodeUrlView)
    requires
        v.failure() is None,
    ensures
        first_absent(v.entries(), required_keys()) == required_keys().len(),
        pairs_of(v.entries(), required_keys() + optional_keys()) == v.pairs(),
{
    let e = v.entries();
    lemma_all_present(e, required_keys());
    let k0 = Seq::<OAuthParameter>::empty();
    let k1 = k0.push(OAuthParameter::ClientId);
    let k2 = k1.push(OAuthParameter::ResponseType);
    let k3 = k2.push(OAuthParameter::RedirectUri);
    let k4 = k3.push(OAuthParameter::Scope);
    let k5 = k4.push(OAuthParameter::ResponseMode);
    let k6 = k5.push(OAuthParameter::State);
    let k7 = k6.push(OAuthParameter::Prompt);
    let k8 = k7.push(OAuthParameter::LoginHint);
    let k9 = k8.push(OAuthParameter::DomainHint);
    let k10 = k9.push(OAuthParameter::Nonce);
    let k11 = k10.push(OAuthParameter::CodeChallenge);
    let k12 = k11.push(OAuthParameter::CodeChallengeMethod);
    lemma_pairs_of_push(e, k0, OAuthParameter::ClientId);
    lemma_pairs_of_push(e, k1, OAuthParameter::ResponseType);
    lemma_pairs_of_push(e, k2, OAuthParameter::RedirectUri);
    lemma_pairs_of_push(e, k3, OAuthParameter::Scope);
    lemma_pairs_of_push(e, k4, OAuthParameter::ResponseMode);
    lemma_pairs_of_push(e, k5, OAuthParameter::State);
    lemma_pairs_of_push(e, k6, OAuthParameter::Prompt);
    lemma_pairs_of_push(e, k7, OAuthParameter::LoginHint);
    lemma_pairs_of_push(e, k8, OAuthParameter::DomainHint);
    lemma_pairs_of_push(e, k9, OAuthParameter::Nonce);
    lemma_pairs_of_push(e, k10, OAuthParameter::CodeChallenge);
    lemma_pairs_of_push(e, k11, OAuthParameter::CodeChallengeMethod);
    assert(k12 =~= required_keys() + optional_keys());
    assert(pairs_of(e, k4) =~= v.required_pairs());
    assert(lookup(e, OAuthParameter::ResponseMode) == v.mode_name());
    assert(lookup(e, OAuthParameter::State) == v.state);
    assert(lookup(e, OAuthParameter::Prompt) == v.prompt_name());
    assert(lookup(e, OAuthParameter::LoginHint) == v.login_hint);
    assert(lookup(e, OAuthParameter::DomainHint) == v.domain_hint);
    assert(lookup(e, OAuthParameter::Nonce) == v.nonce);
    assert(lookup(e, OAuthParameter::CodeChallenge) == v.code_challenge);
    assert(lookup(e, OAuthParameter::CodeChallengeMethod) == v.code_challenge_method);
}

/// The pairs of a request begin with its four required pairs.
pub proof fn lemma_required_pairs_first(v: AuthCodeUrlView)
    ensures
        v.pairs().len() >= 4,
        v.pairs().take(4) == v.required_pairs(),
{
    let p0 = v.required_pairs();
    let p1 = with_optional(p0, OAuthParameter::ResponseMode, v.mode_name());
    let p2 = with_optional(p1, OAuthParameter::State, v.state);
    let p3 = with_optional(p2, OAuthParameter::Prompt, v.prompt_name());
    let p4 = with_optional(p3, OAuthParameter::LoginHint, v.login_hint);
    let p5 = with_optional(p4, OAuthParameter::DomainHint, v.domain_hint);
    let p6 = with_optional(p5, OAuthParameter::Nonce, v.nonce);
    let p7 = with_optional(p6, OAuthParameter::CodeChallenge, v.code_challenge);
    let p8 = with_optional(p7, OAuthParameter::CodeChallengeMethod, v.code_challenge_method);
    assert(p1.take(4) =~= p0);
    assert(p2.take(4) =~= p0);
    assert(p3.take(4) =~= p0);
    assert(p4.take(4) =~= p0);
    assert(p5.take(4) =~= p0);
    assert(p6.take(4) =~= p0);
    assert(p7.take(4) =~= p0);
    assert(p8.take(4) =~= p0);
}

/// Where a request is sent with a response mode, the mode is its fifth
/// pair.
pub proof fn lemma_mode_pair_fifth(v: AuthCodeUrlView)
    requires
        v.mode_name() is Some,
    ensures
        v.pairs().len() >= 5,
        v.pairs()[4] == (OAuthParameter::ResponseMode.name(), v.mode_name()->0),
{
    let p0 = v.required_pairs();
    let p1 = with_optional(p0, OAuthParameter::ResponseMode, v.mode_name());
    let p2 = with_optional(p1, OAuthParameter::State, v.state);
    let p3 = with_optional(p2, OAuthParameter::Prompt, v.prompt_name());
    let p4 = with_optional(p3, OAuthParameter::LoginHint, v.login_hint);
    let p5 = with_optional(p4, OAuthParameter::DomainHint, v.domain_hint);
    let p6 = with_optional(p5, OAuthParameter::Nonce, v.nonce);
    let p7 = with_optional(p6, OAuthParameter::CodeChallenge, v.code_challenge);
    let p8 = with_optional(p7, OAuthParameter::CodeChallengeMethod, v.code_challenge_method);
    assert(p1.len() == 5 && p1[4] == (OAuthParameter::ResponseMode.name(), v.mode_name()->0));
    assert(p2.take(5) =~= p1);
    assert(p3.take(5) =~= p1);
    assert(p4.take(5) =~= p1);
    assert(p5.take(5) =~= p1);
    assert(p6.take(5) =~= p1);
    assert(p7.take(5) =~= p1);
    assert(p8.take(5) =~= p1);
    assert(p8[4] == p8.take(5)[4]);
}

/// A request with a redirect URI that is not blank, a client id that is
/// not nil, and scopes of which none is `openid` can be sent. Where it
/// asks for a code only, or names no response type, its query holds, as
/// its first four pairs, the client id in hyphenated form, the response
/// type `code`, the redirect URI and the scopes joined by one space.
pub proof fn lemma_code_request_is_sent(v: AuthCodeUrlView)
    requires
        v.app_config.redirect_uri is Some,
        !blank(v.app_config.redirect_uri->0.text),
        v.app_config.client_id != NIL,
        v.scope.len() > 0,
        !v.scope.contains("openid"@),
        !v.response_type.id_token,
        !v.response_type.token,
    ensures
        v.failure() is None,
        pairs_in(v.query()) == v.pairs(),
        v.pairs().len() >= 4,
        v.pairs()[0] == ("client_id"@, hyphenated(v.app_config.client_id)),
        v.pairs()[1] == ("response_type"@, "code"@),
        v.pairs()[2] == ("redirect_uri"@, v.app_config.redirect_uri->0.text),
        v.pairs()[3] == ("scope"@, joined(v.scope, " "@)),
{
    lemma_written_pairs_read_back(v.pairs());
    lemma_required_pairs_first(v);
    if v.response_type.code {
        assert(v.response_type.ordered() =~= seq![ResponseType::Code]);
        assert(v.response_type.ordered().map_values(|t: ResponseType| t.name()) =~= seq![
            "code"@,
        ]);
    }
    assert(resolved_types(v.response_type) == "code"@);
    let first = v.pairs().take(4);
    assert(v.pairs()[0] == first[0]);
    assert(v.pairs()[1] == first[1]);
    assert(v.pairs()[2] == first[2]);
    assert(v.pairs()[3] == first[3]);
}

/// A request without scopes is refused for its scope, where its redirect
/// URI and its client id pass.
pub proof fn lemma_empty_scope_is_refused(v: AuthCodeUrlView)
    requires
        v.app_config.redirect_uri is Some,
        !blank(v.app_config.redirect_uri->0.text),
        v.app_config.client_id != NIL,
        v.scope.len() == 0,
    ensures
        v.failure() == Some(missing("scope"@)),
{
}

/// A request with the scope `openid` is refused for that scope, where its
/// redirect URI and its client id pass.
pub proof fn lemma_openid_scope_is_refused(v: AuthCodeUrlView)
    requires
        v.app_config.redirect_uri is Some,
        !blank(v.app_config.redirect_uri->0.text),
        v.app_config.client_id != NIL,
        v.scope.contains("openid"@),
    ensures
        v.failure() == Some(invalid("openid"@, openid_reason())),
{
}

/// A request for an id_token alone that names no response mode is sent
/// with the response type `id_token` and the response mode `fragment`.
pub proof fn lemma_id_token_alone(v: AuthCodeUrlView)
    requires
        v.response_type == (ResponseTypes { code: false, id_token: true, token: false }),
        v.response_mode is None,
    ensures
        v.pairs().len() >= 5,
        v.pairs()[1] == ("response_type"@, "id_token"@),
        v.pairs()[4] == ("response_mode"@, "fragment"@),
{
    assert(v.response_type.ordered() =~= seq![ResponseType::IdToken]);
    assert(v.response_type.ordered().map_values(|t: ResponseType| t.name()) =~= seq![
        "id_token"@,
    ]);
    assert(resolved_types(v.response_type) == "id_token"@);
    lemma_required_pairs_first(v);
    lemma_mode_pair_fifth(v);
    assert(v.pairs()[1] == v.pairs().take(4)[1]);
}

/// A request for a code and an id_token is sent with the response type
/// `code id_token`, in this order however the two were chosen, and, where
/// it names no response mode, with the response mode `fragment`.
pub proof fn lemma_code_and_id_token(v: AuthCodeUrlView)
    requires
        v.response_type == (ResponseTypes { code: true, id_token: true, token: false }),
    ensures
        v.pairs().len() >= 5,
        v.pairs()[1] == ("response_type"@, "code id_token"@),
        v.response_mode is None ==> v.pairs()[4] == ("response_mode"@, "fragment"@),
{
    let names = v.response_type.ordered().map_values(|t: ResponseType| t.name());
    assert(v.response_type.ordered() =~= seq![ResponseType::Code, ResponseType::IdToken]);
    assert(names =~= seq!["code"@, "id_token"@]);
    assert(names.drop_last() =~= seq!["code"@]);
    assert(joined(names.drop_last(), " "@) == "code"@);
    assert(joined(names, " "@) == "code"@ + " "@ + "id_token"@);
    reveal_strlit("code");
    reveal_strlit("id_token");
    reveal_strlit(" ");
    reveal_strlit("code id_token");
    assert("code"@ + " "@ + "id_token"@ =~= "code id_token"@);
    assert(resolved_types(v.response_type) == "code id_token"@);
    lemma_required_pairs_first(v);
    assert(v.pairs()[1] == v.pairs().take(4)[1]);
    lemma_mode_pair_fifth(v);
}

/// On the wire, the response type of a request for a code and an id_token
/// is `code+id_token`.
pub proof fn lemma_code_and_id_token_on_the_wire()
    ensures
        as_text(encoded("code id_token"@)) == "code+id_token"@,
{
    reveal_strlit("code");
    reveal_strlit("id_token");
    reveal_strlit("code id_token");
    reveal_strlit("code+id_token");
    assert("code"@ =~= seq!['c', 'o', 'd', 'e']);
    assert("id_token"@ =~= seq!['i', 'd', '_', 't', 'o', 'k', 'e', 'n']);
    assert(kept("code"@));
    assert(kept("id_token"@));
    lemma_two_words_on_the_wire("code"@, "id_token"@);
    assert("code"@ + seq![' '] + "id_token"@ =~= "code id_token"@);
    assert("code"@ + seq!['+'] + "id_token"@ =~= "code+id_token"@);
}

/// A response mode that the request names is the one it is sent with,
/// but for the query where an id_token is asked for.
pub proof fn lemma_named_mode_is_kept(v: AuthCodeUrlView, mode: ResponseMode)
    requires
        v.response_mode == Some(mode),
        !v.response_type.id_token || mode != ResponseMode::Query,
    ensures
        v.pairs().len() >= 5,
        v.pairs()[4] == ("response_mode"@, mode.name()),
{
    lemma_mode_pair_fifth(v);
}

/// A request that names neither a response type nor a response mode is
/// sent with the response type `code` and without a response mode.
pub proof fn lemma_no_response_type(v: AuthCodeUrlView)
    requires
        v.response_type.none(),
        v.response_mode is None,
    ensures
        v.pairs()[1] == ("response_type"@, "code"@),
        forall|i: int| 0 <= i < v.pairs().len() ==> (#[trigger] v.pairs()[i]).0 != "response_mode"@,
{
    lemma_required_pairs_first(v);
    assert(v.pairs()[1] == v.pairs().take(4)[1]);
    let p0 = v.required_pairs();
    let p1 = with_optional(p0, OAuthParameter::ResponseMode, v.mode_name());
    let p2 = with_optional(p1, OAuthParameter::State, v.state);
    let p3 = with_optional(p2, OAuthParameter::Prompt, v.prompt_name());
    let p4 = with_optional(p3, OAuthParameter::LoginHint, v.login_hint);
    let p5 = with_optional(p4, OAuthParameter::DomainHint, v.domain_hint);
    let p6 = with_optional(p5, OAuthParameter::Nonce, v.nonce);
    let p7 = with_optional(p6, OAuthParameter::CodeChallenge, v.code_challenge);
    let p8 = with_optional(p7, OAuthParameter::CodeChallengeMethod, v.code_challenge_method);
    let mode = OAuthParameter::ResponseMode;
    lemma_names_differ(OAuthParameter::ClientId, mode);
    lemma_names_differ(OAuthParameter::ResponseType, mode);
    lemma_names_differ(OAuthParameter::RedirectUri, mode);
    lemma_names_differ(OAuthParameter::Scope, mode);
    lemma_names_differ(OAuthParameter::State, mode);
    lemma_names_differ(OAuthParameter::Prompt, mode);
    lemma_names_differ(OAuthParameter::LoginHint, mode);
    lemma_names_differ(OAuthParameter::DomainHint, mode);
    lemma_names_differ(OAuthParameter::Nonce, mode);
    lemma_names_differ(OAuthParameter::CodeChallenge, mode);
    lemma_names_differ(OAuthParameter::CodeChallengeMethod, mode);
    assert(p1 == p0);
    assert forall|i: int| 0 <= i < p8.len() implies (#[trigger] p8[i]).0 != mode.name() by {
        assert(forall|j: int| 0 <= j < p0.len() ==> (#[trigger] p0[j]).0 != mode.name());
        assert(forall|j: int| 0 <= j < p2.len() ==> (#[trigger] p2[j]).0 != mode.name());
        assert(forall|j: int| 0 <= j < p3.len() ==> (#[trigger] p3[j]).0 != mode.name());
        assert(forall|j: int| 0 <= j < p4.len() ==> (#[trigger] p4[j]).0 != mode.name());
        assert(forall|j: int| 0 <= j < p5.len() ==> (#[trigger] p5[j]).0 != mode.name());
        assert(forall|j: int| 0 <= j < p6.len() ==> (#[trigger] p6[j]).0 != mode.name());
        assert(forall|j: int| 0 <= j < p7.len() ==> (#[trigger] p7[j]).0 != mode.name());
    }
}

/// The value of the `scope` pair of a request's query, as the query reads
/// back.
pub open spec fn scope_read(v: AuthCodeUrlView) -> Seq<char> {
    pairs_in(v.query())[3].1
}

/// The value of the `response_type` pair of a request's query, as the
/// query reads back.
pub open spec fn response_type_read(v: AuthCodeUrlView) -> Seq<char> {
    pairs_in(v.query())[1].1
}

/// The query of a request reads back as the pairs of the request. The
/// value of its `scope` pair, split at the spaces, is the list of scopes
/// in its order, where there is a scope and no scope holds a space; the
/// value of its `response_type` pair names the set of response types,
/// where the set is not empty.
pub proof fn lemma_query_reads_back(v: AuthCodeUrlView)
    ensures
        pairs_in(v.query()) == v.pairs(),
        pairs_in(v.query())[3].0 == "scope"@,
        pairs_in(v.query())[1].0 == "response_type"@,
        v.scope.len() > 0 && (forall|i: int|
            0 <= i < v.scope.len() ==> without(#[trigger] v.scope[i], ' ')) ==> split(
            scope_read(v),
            ' ',
        ) == v.scope,
        !v.response_type.none() ==> types_in(response_type_read(v)) == v.response_type,
{
    lemma_written_pairs_read_back(v.pairs());
    lemma_required_pairs_first(v);
    assert(v.pairs()[3] == v.pairs().take(4)[3]);
    assert(v.pairs()[1] == v.pairs().take(4)[1]);
    assert(scope_read(v) == joined(v.scope, " "@));
    assert(response_type_read(v) == resolved_types(v.response_type));
    reveal_strlit(" ");
    assert(" "@ =~= seq![' ']);
    if v.scope.len() > 0 && (forall|i: int|
        0 <= i < v.scope.len() ==> without(#[trigger] v.scope[i], ' ')) {
        lemma_split_joined(v.scope, ' ');
    }
    if !v.response_type.none() {
        lemma_types_read_back(v.response_type);
    }
}

impl Clone for AuthCodeAuthorizationUrlParameters {
    fn clone(&self) -> (r: AuthCodeAuthorizationUrlParameters)
        ensures
            r@ == self@,
    {
        AuthCodeAuthorizationUrlParameters {
            app_config: self.app_config.clone(),
            response_type: self.response_type,
            response_mode: self.response_mode,
            nonce: clone_opt(&self.nonce),
            state: clone_opt(&self.state),
            scope: clone_strings(&self.scope),
            prompt: self.prompt,
            domain_hint: clone_opt(&self.domain_hint),
            login_hint: clone_opt(&self.login_hint),
            code_challenge: clone_opt(&self.code_challenge),
            code_challenge_method: clone_opt(&self.code_challenge_method),
        }
    }
}

fn put_opt(serializer: &mut OAuthSerializer, parameter: OAuthParameter, value: &Option<String>)
    ensures
        final(serializer)@ == put(old(serializer)@, parameter, opt_view(*value)),
{
    match value {
        Some(v) => {
            serializer.insert(parameter, v.as_str());
        },
        None => {},
    }
}

impl AuthCodeAuthorizationUrlParameters {
    /// The query of the request on the wire. The request is checked first,
    /// and nothing is written where a check fails.
    pub fn encoded_query(&self) -> (r: Result<String, AuthorizationFailure>)
        ensures
            match r {
                Ok(query) => self@.failure() is None && query@ == self@.query(),
                Err(e) => self@.failure() == Some(e@),
            },
    {
        let mut serializer = OAuthSerializer::new();
        match &self.app_config.redirect_uri {
            Some(redirect_uri) => {
                if is_blank(redirect_uri.as_str()) {
                    return Err(AuthorizationFailure::required("redirect_uri"));
                }
                serializer.redirect_uri(redirect_uri.as_str());
            },
            None => {
                return Err(AuthorizationFailure::required("redirect_uri"));
            },
        }
        if self.app_config.client_id == NIL {
            return Err(AuthorizationFailure::required("client_id"));
        }
        if self.scope.len() == 0 {
            return Err(AuthorizationFailure::required("scope"));
        }
        if contains_str(&self.scope, "openid") {
            return Err(
                AuthorizationFailure::invalid_value("openid", "use OpenIdCredential instead"),
            );
        }
        let client_id = uuid_text(self.app_config.client_id);
        serializer.client_id(client_id.as_str()).extend_scopes(&self.scope);
        let response_type = resolve_response_type(&self.response_type);
        serializer.response_type(response_type.as_str());
        match resolve_response_mode(&self.response_type, self.response_mode) {
            Some(mode) => {
                serializer.response_mode(mode.as_ref());
            },
            None => {},
        }
        put_opt(&mut serializer, OAuthParameter::State, &self.state);
        match self.prompt {
            Some(prompt) => {
                serializer.prompt(prompt.as_ref());
            },
            None => {},
        }
        put_opt(&mut serializer, OAuthParameter::DomainHint, &self.domain_hint);
        put_opt(&mut serializer, OAuthParameter::LoginHint, &self.login_hint);
        put_opt(&mut serializer, OAuthParameter::Nonce, &self.nonce);
        put_opt(&mut serializer, OAuthParameter::CodeChallenge, &self.code_challenge);
        put_opt(&mut serializer, OAuthParameter::CodeChallengeMethod, &self.code_challenge_method);
        proof {
            assert(serializer@ == self@.entries());
            lemma_store_gives_pairs(self@);
            lemma_appended_to_empty(self@.pairs());
        }
        let optional = vec![
            OAuthParameter::ResponseMode,
            OAuthParameter::State,
            OAuthParameter::Prompt,
            OAuthParameter::LoginHint,
            OAuthParameter::DomainHint,
            OAuthParameter::Nonce,
            OAuthParameter::CodeChallenge,
            OAuthParameter::CodeChallengeMethod,
        ];
        let required = vec![
            OAuthParameter::ClientId,
            OAuthParameter::ResponseType,
            OAuthParameter::RedirectUri,
            OAuthParameter::Scope,
        ];
        assert(optional@ =~= optional_keys());
        assert(required@ =~= required_keys());
        let mut encoder = String::new();
        match serializer.encode_query(optional, required, &mut encoder) {
            Ok(_) => Ok(encoder),
            Err(e) => Err(e),
        }
    }
    /// The parameters of a request by the application with the given
    /// identifier, with answers sent to the given URI. The response type is
    /// `code`. A client id that holds no UUID gives the nil identifier; a
    /// redirect URI that is no URL is refused.
    pub fn new(client_id: &str, redirect_uri: &str) -> (r: Result<
        AuthCodeAuthorizationUrlParameters,
        AuthorizationFailure,
    >)
        ensures
            match r {
                Ok(parameters) => {
                    &&& url_parsed(redirect_uri@) is Some
                    &&& parameters@ == AuthCodeUrlView::initial(
                        AppConfigView::initial(
                            match uuid_parsed(client_id@) {
                                Some(value) => value,
                                None => NIL,
                            },
                            None,
                            url_parsed(redirect_uri@),
                        ),
                    )
                },
                Err(e) => url_parsed(redirect_uri@) is None && e@ == malformed(redirect_uri@),
            },
    {
        let url = match Url::parse(redirect_uri) {
            Ok(url) => url,
            Err(e) => {
                return Err(e);
            },
        };
        let client_id = match parse_uuid(client_id) {
            Some(value) => value,
            None => NIL,
        };
        Ok(
            AuthCodeAuthorizationUrlParameters::with_app_config(
                AppConfig::new_init(client_id, None, Some(url)),
            ),
        )
    }

    fn with_app_config(app_config: AppConfig) -> (r: AuthCodeAuthorizationUrlParameters)
        ensures
            r@ == AuthCodeUrlView::initial(app_config@),
    {
        let mut response_type = ResponseTypes::new();
        response_type.insert(ResponseType::Code);
        let r = AuthCodeAuthorizationUrlParameters {
            app_config,
            response_type,
            response_mode: None,
            nonce: None,
            state: None,
            scope: Vec::new(),
            prompt: None,
            domain_hint: None,
            login_hint: None,
            code_challenge: None,
            code_challenge_method: None,
        };
        assert(views(r.scope@) =~= Seq::empty());
        r
    }

    /// A builder for the parameters of a request by the application with
    /// the given identifier.
    pub fn builder(client_id: &str) -> (r: AuthCodeAuthorizationUrlParameterBuilder)
        ensures
            r@ == AuthCodeUrlView::initial(
                AppConfigView::initial(
                    match uuid_parsed(client_id@) {
                        Some(value) => value,
                        None => NIL,
                    },
                    None,
                    None,
                ),
            ),
    {
        AuthCodeAuthorizationUrlParameterBuilder::new(client_id)
    }

    /// The URL of the request on the public cloud.
    pub fn url(&self) -> (r: Result<Url, AuthorizationFailure>)
        ensures
            self@.sent_as(AzureCloudInstance::AzurePublic, r),
    {
        self.url_with_host(&AzureCloudInstance::AzurePublic)
    }

    /// The URL of the request on the given cloud.
    pub fn url_with_host(&self, azure_cloud_instance: &AzureCloudInstance) -> (r: Result<
        Url,
        AuthorizationFailure,
    >)
        ensures
            self@.sent_as(*azure_cloud_instance, r),
    {
        self.authorization_url_with_host(azure_cloud_instance)
    }

    /// The nonce of the request, where it has one.
    pub fn nonce(&self) -> (r: Option<&String>)
        ensures
            r is Some <==> self@.nonce is Some,
            r matches Some(nonce) ==> nonce@ == self@.nonce->0,
    {
        self.nonce.as_ref()
    }

    /// Where the identity platform sends its answer, where that is set.
    pub fn redirect_uri(&self) -> (r: Option<&Url>)
        ensures
            r is Some <==> self@.app_config.redirect_uri is Some,
            r matches Some(url) ==> url@ == self@.app_config.redirect_uri->0,
    {
        self.app_config.redirect_uri.as_ref()
    }

    /// The URL of the request on the public cloud.
    pub fn authorization_url(&self) -> (r: Result<Url, AuthorizationFailure>)
        ensures
            self@.sent_as(AzureCloudInstance::AzurePublic, r),
    {
        self.authorization_url_with_host(&AzureCloudInstance::AzurePublic)
    }

    /// The URL of the request on the given cloud: the authorization
    /// endpoint of the authority on that cloud, `?` and the query. The
    /// request is checked first; the first check that fails is the failure.
    /// The text is then read as a URL, and a text that is none is refused.
    pub fn authorization_url_with_host(&self, azure_cloud_instance: &AzureCloudInstance) -> (r:
        Result<Url, AuthorizationFailure>)
        ensures
            self@.sent_as(*azure_cloud_instance, r),
    {
        let query = match self.encoded_query() {
            Ok(query) => query,
            Err(e) => {
                return Err(e);
            },
        };
        let mut text = authorization_url(azure_cloud_instance, &self.app_config.authority);
        text.append("?");
        text.append(query.as_str());
        Url::parse(text.as_str())
    }
}

/// Sets the parameters of a request for an authorization code one by one.
/// Nothing is checked before the request is sent.
#[derive(Debug)]
pub struct AuthCodeAuthorizationUrlParameterBuilder {
    pub parameters: AuthCodeAuthorizationUrlParameters,
}

impl View for AuthCodeAuthorizationUrlParameterBuilder {
    type V = AuthCodeUrlView;

    open spec fn view(&self) -> AuthCodeUrlView {
        self.parameters@
    }
}

impl Clone for AuthCodeAuthorizationUrlParameterBuilder {
    fn clone(&self) -> (r: AuthCodeAuthorizationUrlParameterBuilder)
        ensures
            r@ == self@,
    {
        AuthCodeAuthorizationUrlParameterBuilder { parameters: self.parameters.clone() }
    }
}

/// Each scope without the white space around it.
pub open spec fn trimmed_all(scope: Seq<&str>) -> Seq<Seq<char>> {
    scope.map_values(|s: &str| trimmed(s@))
}

impl AuthCodeAuthorizationUrlParameterBuilder {
    /// A builder for a request by the application with the given
    /// identifier. A text that holds no UUID gives the nil identifier.
    pub fn new(client_id: &str) -> (r: AuthCodeAuthorizationUrlParameterBuilder)
        ensures
            r@ == AuthCodeUrlView::initial(
                AppConfigView::initial(
                    match uuid_parsed(client_id@) {
                        Some(value) => value,
                        None => NIL,
                    },
                    None,
                    None,
                ),
            ),
    {
        AuthCodeAuthorizationUrlParameterBuilder::new_with_app_config(
            AppConfig::new_with_client_id(client_id),
        )
    }

    /// A builder for a request by the given application.
    pub fn new_with_app_config(app_config: AppConfig) -> (r:
        AuthCodeAuthorizationUrlParameterBuilder)
        ensures
            r@ == AuthCodeUrlView::initial(app_config@),
    {
        AuthCodeAuthorizationUrlParameterBuilder {
            parameters: AuthCodeAuthorizationUrlParameters::with_app_config(app_config),
        }
    }

    /// Sets where the identity platform sends its answer.
    pub fn with_redirect_uri(&mut self, redirect_uri: Url) -> (r:
        &mut AuthCodeAuthorizationUrlParameterBuilder)
        ensures
            r@ == (AuthCodeUrlView {
                app_config: AppConfigView {
                    redirect_uri: Some(redirect_uri@),
                    ..old(self)@.app_config
                },
                ..old(self)@
            }),
            *final(self) == *final(r),
    {
        self.parameters.app_config.redirect_uri = Some(redirect_uri);
        self
    }

    /// Sets the identifier of the application from a text that holds a UUID.
    pub fn with_client_id(&mut self, client_id: &str) -> (r:
        &mut AuthCodeAuthorizationUrlParameterBuilder)
        requires
            uuid_parsed(client_id@) is Some,
        ensures
            r@ == (AuthCodeUrlView {
                app_config: AppConfigView {
                    client_id: uuid_parsed(client_id@)->0,
                    ..old(self)@.app_config
                },
                ..old(self)@
            }),
            *final(self) == *final(r),
    {
        match parse_uuid(client_id) {
            Some(value) => {
                self.parameters.app_config.client_id = value;
            },
            None => {},
        }
        self
    }

    /// Sets the identifier of the application where the text holds a UUID,
    /// and says whether it does. A text that holds none changes nothing.
    pub fn try_with_client_id(&mut self, client_id: &str) -> (r: bool)
        ensures
            r == uuid_parsed(client_id@) is Some,
            final(self)@ == if r {
                AuthCodeUrlView {
                    app_config: AppConfigView {
                        client_id: uuid_parsed(client_id@)->0,
                        ..old(self)@.app_config
                    },
                    ..old(self)@
                }
            } else {
                old(self)@
            },
    {
        match parse_uuid(client_id) {
            Some(_) => {
                self.with_client_id(client_id);
                true
            },
            None => false,
        }
    }

    /// Makes the given directory the authority.
    pub fn with_tenant(&mut self, tenant: &str) -> (r: &mut AuthCodeAuthorizationUrlParameterBuilder)
        ensures
            r@ == (AuthCodeUrlView {
                app_config: AppConfigView {
                    authority: AuthorityView::TenantId(tenant@),
                    ..old(self)@.app_config
                },
                ..old(self)@
            }),
            *final(self) == *final(r),
    {
        self.parameters.app_config.authority = Authority::tenant(tenant);
        self
    }

    /// Sets the authority.
    pub fn with_authority(&mut self, authority: Authority) -> (r:
        &mut AuthCodeAuthorizationUrlParameterBuilder)
        ensures
            r@ == (AuthCodeUrlView {
                app_config: AppConfigView { authority: authority@, ..old(self)@.app_config },
                ..old(self)@
            }),
            *final(self) == *final(r),
    {
        self.parameters.app_config.authority = authority;
        self
    }

    /// Adds response types to those that are chosen; `code` is chosen from
    /// the start.
    pub fn with_response_type(&mut self, response_type: Vec<ResponseType>) -> (r:
        &mut AuthCodeAuthorizationUrlParameterBuilder)
        ensures
            r@ == (AuthCodeUrlView {
                response_type: old(self)@.response_type.with_all(response_type@),
                ..old(self)@
            }),
            *final(self) == *final(r),
    {
        self.parameters.response_type.extend(&response_type);
        self
    }

    /// Sets how the identity platform hands its answer to the redirect URI.
    pub fn with_response_mode(&mut self, response_mode: ResponseMode) -> (r:
        &mut AuthCodeAuthorizationUrlParameterBuilder)
        ensures
            r@ == (AuthCodeUrlView { response_mode: Some(response_mode), ..old(self)@ }),
            *final(self) == *final(r),
    {
        self.parameters.response_mode = Some(response_mode);
        self
    }

    /// Sets the nonce.
    pub fn with_nonce(&mut self, nonce: &str) -> (r: &mut AuthCodeAuthorizationUrlParameterBuilder)
        ensures
            r@ == (AuthCodeUrlView { nonce: Some(nonce@), ..old(self)@ }),
            *final(self) == *final(r),
    {
        self.parameters.nonce = Some(String::from_str(nonce));
        self
    }

    /// Sets a fresh random nonce, and says whether it did. Where the random
    /// generator fails, nothing changes.
    pub fn with_nonce_generated(&mut self) -> (r: bool)
        ensures
            r ==> final(self)@.nonce is Some && is_random_32(final(self)@.nonce->0),
            final(self)@ == if r {
                AuthCodeUrlView { nonce: final(self)@.nonce, ..old(self)@ }
            } else {
                old(self)@
            },
    {
        self.with_nonce_if_some(secure_random_32())
    }

    /// Sets the nonce where one is given, and says whether one was. Where
    /// none is given, nothing changes.
    pub fn with_nonce_if_some(&mut self, nonce: Option<String>) -> (r: bool)
        ensures
            r == nonce is Some,
            final(self)@ == if nonce is Some {
                AuthCodeUrlView { nonce: Some(nonce->0@), ..old(self)@ }
            } else {
                old(self)@
            },
    {
        match nonce {
            Some(nonce) => {
                self.parameters.nonce = Some(nonce);
                true
            },
            None => false,
        }
    }

    /// Sets the state.
    pub fn with_state(&mut self, state: &str) -> (r: &mut AuthCodeAuthorizationUrlParameterBuilder)
        ensures
            r@ == (AuthCodeUrlView { state: Some(state@), ..old(self)@ }),
            *final(self) == *final(r),
    {
        self.parameters.state = Some(String::from_str(state));
        self
    }

    /// Adds scopes, each without the white space around it, after those
    /// that are there.
    pub fn with_scope(&mut self, scope: Vec<&str>) -> (r:
        &mut AuthCodeAuthorizationUrlParameterBuilder)
        ensures
            r@ == (AuthCodeUrlView {
                scope: old(self)@.scope + trimmed_all(scope@),
                ..old(self)@
            }),
            *final(self) == *final(r),
    {
        let mut i: usize = 0;
        while i < scope.len()
            invariant
                i <= scope.len(),
                self@ == (AuthCodeUrlView {
                    scope: old(self)@.scope + trimmed_all(scope@).take(i as int),
                    ..old(self)@
                }),
            decreases scope.len() - i,
        {
            let ghost before = self.parameters.scope@;
            self.parameters.scope.push(String::from_str(scope[i].trim()));
            proof {
                let item = trimmed(scope@[i as int]@);
                assert(views(self.parameters.scope@) =~= views(before).push(item));
                assert(trimmed_all(scope@).take(i + 1) =~= trimmed_all(scope@).take(
                    i as int,
                ).push(item));
                assert(old(self)@.scope + trimmed_all(scope@).take(i as int).push(item) =~= (
                old(self)@.scope + trimmed_all(scope@).take(i as int)).push(item));
            }
            i += 1;
        }
        assert(trimmed_all(scope@).take(scope.len() as int) =~= trimmed_all(scope@));
        self
    }

    /// Adds the scope `offline_access`, which asks for a refresh token.
    pub fn with_offline_access(&mut self) -> (r: &mut AuthCodeAuthorizationUrlParameterBuilder)
        ensures
            r@ == (AuthCodeUrlView {
                scope: old(self)@.scope.push("offline_access"@),
                ..old(self)@
            }),
            *final(self) == *final(r),
    {
        let ghost before = self.parameters.scope@;
        self.parameters.scope.push(String::from_str("offline_access"));
        assert(views(self.parameters.scope@) =~= views(before).push("offline_access"@));
        self
    }

    /// Sets the interaction with the user that is asked for.
    pub fn with_prompt(&mut self, prompt: Prompt) -> (r: &mut AuthCodeAuthorizationUrlParameterBuilder)
        ensures
            r@ == (AuthCodeUrlView { prompt: Some(prompt), ..old(self)@ }),
            *final(self) == *final(r),
    {
        self.parameters.prompt = Some(prompt);
        self
    }

    /// Sets the realm of the user in a federated directory.
    pub fn with_domain_hint(&mut self, domain_hint: &str) -> (r:
        &mut AuthCodeAuthorizationUrlParameterBuilder)
        ensures
            r@ == (AuthCodeUrlView { domain_hint: Some(domain_hint@), ..old(self)@ }),
            *final(self) == *final(r),
    {
        self.parameters.domain_hint = Some(String::from_str(domain_hint));
        self
    }

    /// Sets the user name that the sign-in page starts with.
    pub fn with_login_hint(&mut self, login_hint: &str) -> (r:
        &mut AuthCodeAuthorizationUrlParameterBuilder)
        ensures
            r@ == (AuthCodeUrlView { login_hint: Some(login_hint@), ..old(self)@ }),
            *final(self) == *final(r),
    {
        self.parameters.login_hint = Some(String::from_str(login_hint));
        self
    }

    /// Sets the challenge of a proof key for code exchange.
    pub fn with_code_challenge(&mut self, code_challenge: &str) -> (r:
        &mut AuthCodeAuthorizationUrlParameterBuilder)
        ensures
            r@ == (AuthCodeUrlView { code_challenge: Some(code_challenge@), ..old(self)@ }),
            *final(self) == *final(r),
    {
        self.parameters.code_challenge = Some(String::from_str(code_challenge));
        self
    }

    /// Sets how the challenge was made from the verifier.
    pub fn with_code_challenge_method(&mut self, code_challenge_method: &str) -> (r:
        &mut AuthCodeAuthorizationUrlParameterBuilder)
        ensures
            r@ == (AuthCodeUrlView {
                code_challenge_method: Some(code_challenge_method@),
                ..old(self)@
            }),
            *final(self) == *final(r),
    {
        self.parameters.code_challenge_method = Some(String::from_str(code_challenge_method));
        self
    }

    /// Sets the challenge and its method from a proof key for code exchange.
    pub fn with_pkce(&mut self, proof_key_for_code_exchange: &ProofKeyCodeExchange) -> (r:
        &mut AuthCodeAuthorizationUrlParameterBuilder)
        ensures
            r@ == (AuthCodeUrlView {
                code_challenge: Some(proof_key_for_code_exchange@.code_challenge),
                code_challenge_method: Some(proof_key_for_code_exchange@.code_challenge_method),
                ..old(self)@
            }),
            *final(self) == *final(r),
    {
        self.with_code_challenge(proof_key_for_code_exchange.code_challenge.as_str());
        self.with_code_challenge_method(
            proof_key_for_code_exchange.code_challenge_method.as_str(),
        );
        self
    }

    /// The parameters as they are set.
    pub fn build(&self) -> (r: AuthCodeAuthorizationUrlParameters)
        ensures
            r@ == self@,
    {
        self.parameters.clone()
    }

    /// The URL of the request on the public cloud.
    pub fn url(&self) -> (r: Result<Url, AuthorizationFailure>)
        ensures
            self@.sent_as(AzureCloudInstance::AzurePublic, r),
    {
        self.parameters.url()
    }
}

/// A proof key for code exchange: the verifier that is kept, and the
/// challenge made from it that is sent with the authorization request.
#[derive(Debug)]
pub struct ProofKeyCodeExchange {
    pub code_verifier: String,
    pub code_challenge: String,
    pub code_challenge_method: String,
}

/// A `ProofKeyCodeExchange` over sequences of characters.
pub struct ProofKeyView {
    pub code_verifier: Seq<char>,
    pub code_challenge: Seq<char>,
    pub code_challenge_method: Seq<char>,
}

impl View for ProofKeyCodeExchange {
    type V = ProofKeyView;

    open spec fn view(&self) -> ProofKeyView {
        ProofKeyView {
            code_verifier: self.code_verifier@,
            code_challenge: self.code_challenge@,
            code_challenge_method: self.code_challenge_method@,
        }
    }
}

} // verus!
