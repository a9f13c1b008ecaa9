//! The parameters of a request: a store from parameter to value, with one
//! setter for each parameter, that writes itself out in an order that the
//! caller gives.

use vstd::prelude::*;
use vstd::string::StringExecFns;

use crate::authority::authorization_url;
use crate::authority::authorize_endpoint;
use crate::authority::token_endpoint;
use crate::authority::token_url;
use crate::authority::Authority;
use crate::authority::AzureCloudInstance;
use crate::error::missing;
use crate::error::AuthorizationFailure;
use crate::form_urlencoded::append_pair;
use crate::form_urlencoded::appended;
use crate::form_urlencoded::lemma_appended_push;
use crate::form_urlencoded::pair_views;
use crate::form_urlencoded::Pair;
use crate::text::blank;
use crate::text::is_blank;
use crate::text::join;
use crate::text::joined;
use crate::text::views;

verus! {

/// The parameters that a request can carry.
#[derive(Clone, Copy, Debug, PartialEq, Eq, Structural)]
pub enum OAuthParameter {
    ClientId,
    ClientSecret,
    AuthorizationUrl,
    AccessTokenUrl,
    RefreshTokenUrl,
    RedirectUri,
    AuthorizationCode,
    RefreshToken,
    ResponseMode,
    State,
    ResponseType,
    GrantType,
    Nonce,
    Prompt,
    DomainHint,
    Scope,
    LoginHint,
    CodeVerifier,
    CodeChallenge,
    CodeChallengeMethod,
}

/// How many parameters there are.
pub const PARAMETER_COUNT: usize = 20;

impl OAuthParameter {
    /// The place of the parameter among all parameters.
    pub open spec fn position(self) -> int {
        match self {
            OAuthParameter::ClientId => 0,
            OAuthParameter::ClientSecret => 1,
            OAuthParameter::AuthorizationUrl => 2,
            OAuthParameter::AccessTokenUrl => 3,
            OAuthParameter::RefreshTokenUrl => 4,
            OAuthParameter::RedirectUri => 5,
            OAuthParameter::AuthorizationCode => 6,
            OAuthParameter::RefreshToken => 7,
            OAuthParameter::ResponseMode => 8,
            OAuthParameter::State => 9,
            OAuthParameter::ResponseType => 10,
            OAuthParameter::GrantType => 11,
            OAuthParameter::Nonce => 12,
            OAuthParameter::Prompt => 13,
            OAuthParameter::DomainHint => 14,
            OAuthParameter::Scope => 15,
            OAuthParameter::LoginHint => 16,
            OAuthParameter::CodeVerifier => 17,
            OAuthParameter::CodeChallenge => 18,
            OAuthParameter::CodeChallengeMethod => 19,
        }
    }

    /// The name of the parameter on the wire.
    pub open spec fn name(self) -> Seq<char> {
        match self {
            OAuthParameter::ClientId => "client_id"@,
            OAuthParameter::ClientSecret => "client_secret"@,
            OAuthParameter::AuthorizationUrl => "authorization_url"@,
            OAuthParameter::AccessTokenUrl => "access_token_url"@,
            OAuthParameter::RefreshTokenUrl => "refresh_token_url"@,
            OAuthParameter::RedirectUri => "redirect_uri"@,
            OAuthParameter::AuthorizationCode => "code"@,
            OAuthParameter::RefreshToken => "refresh_token"@,
            OAuthParameter::ResponseMode => "response_mode"@,
            OAuthParameter::State => "state"@,
            OAuthParameter::ResponseType => "response_type"@,
            OAuthParameter::GrantType => "grant_type"@,
            OAuthParameter::Nonce => "nonce"@,
            OAuthParameter::Prompt => "prompt"@,
            OAuthParameter::DomainHint => "domain_hint"@,
            OAuthParameter::Scope => "scope"@,
            OAuthParameter::LoginHint => "login_hint"@,
            OAuthParameter::CodeVerifier => "code_verifier"@,
            OAuthParameter::CodeChallenge => "code_challenge"@,
            OAuthParameter::CodeChallengeMethod => "code_challenge_method"@,
        }
    }

    /// The place of the parameter among all parameters.
    pub fn index(&self) -> (r: usize)
        ensures
            r == self.position(),
            r < PARAMETER_COUNT,
    {
        match self {
            OAuthParameter::ClientId => 0,
            OAuthParameter::ClientSecret => 1,
            OAuthParameter::AuthorizationUrl => 2,
            OAuthParameter::AccessTokenUrl => 3,
            OAuthParameter::RefreshTokenUrl => 4,
            OAuthParameter::RedirectUri => 5,
            OAuthParameter::AuthorizationCode => 6,
            OAuthParameter::RefreshToken => 7,
            OAuthParameter::ResponseMode => 8,
            OAuthParameter::State => 9,
            OAuthParameter::ResponseType => 10,
            OAuthParameter::GrantType => 11,
            OAuthParameter::Nonce => 12,
            OAuthParameter::Prompt => 13,
            OAuthParameter::DomainHint => 14,
            OAuthParameter::Scope => 15,
            OAuthParameter::LoginHint => 16,
            OAuthParameter::CodeVerifier => 17,
            OAuthParameter::CodeChallenge => 18,
            OAuthParameter::CodeChallengeMethod => 19,
        }
    }

    /// The name of the parameter on the wire.
    pub fn alias(&self) -> (r: &'static str)
        ensures
            r@ == self.name(),
    {
        match self {
            OAuthParameter::ClientId => "client_id",
            OAuthParameter::ClientSecret => "client_secret",
            OAuthParameter::AuthorizationUrl => "authorization_url",
            OAuthParameter::AccessTokenUrl => "access_token_url",
            OAuthParameter::RefreshTokenUrl => "refresh_token_url",
            OAuthParameter::RedirectUri => "redirect_uri",
            OAuthParameter::AuthorizationCode => "code",
            OAuthParameter::RefreshToken => "refresh_token",
            OAuthParameter::ResponseMode => "response_mode",
            OAuthParameter::State => "state",
            OAuthParameter::ResponseType => "response_type",
            OAuthParameter::GrantType => "grant_type",
            OAuthParameter::Nonce => "nonce",
            OAuthParameter::Prompt => "prompt",
            OAuthParameter::DomainHint => "domain_hint",
            OAuthParameter::Scope => "scope",
            OAuthParameter::LoginHint => "login_hint",
            OAuthParameter::CodeVerifier => "code_verifier",
            OAuthParameter::CodeChallenge => "code_challenge",
            OAuthParameter::CodeChallengeMethod => "code_challenge_method",
        }
    }
}

/// What tells the names of the parameters apart: the length of a name,
/// its first character and its last two.
pub open spec fn mark(name: Seq<char>) -> (nat, char, char, char) {
    (name.len(), name[0], name[name.len() - 2], name[name.len() - 1])
}

proof fn lemma_marks()
    ensures
        mark(OAuthParameter::ClientId.name()) == (9nat, 'c', 'i', 'd'),
        mark(OAuthParameter::ClientSecret.name()) == (13nat, 'c', 'e', 't'),
        mark(OAuthParameter::AuthorizationUrl.name()) == (17nat, 'a', 'r', 'l'),
        mark(OAuthParameter::AccessTokenUrl.name()) == (16nat, 'a', 'r', 'l'),
        mark(OAuthParameter::RefreshTokenUrl.name()) == (17nat, 'r', 'r', 'l'),
        mark(OAuthParameter::RedirectUri.name()) == (12nat, 'r', 'r', 'i'),
        mark(OAuthParameter::AuthorizationCode.name()) == (4nat, 'c', 'd', 'e'),
        mark(OAuthParameter::RefreshToken.name()) == (13nat, 'r', 'e', 'n'),
        mark(OAuthParameter::ResponseMode.name()) == (13nat, 'r', 'd', 'e'),
        mark(OAuthParameter::State.name()) == (5nat, 's', 't', 'e'),
        mark(OAuthParameter::ResponseType.name()) == (13nat, 'r', 'p', 'e'),
        mark(OAuthParameter::GrantType.name()) == (10nat, 'g', 'p', 'e'),
        mark(OAuthParameter::Nonce.name()) == (5nat, 'n', 'c', 'e'),
        mark(OAuthParameter::Prompt.name()) == (6nat, 'p', 'p', 't'),
        mark(OAuthParameter::DomainHint.name()) == (11nat, 'd', 'n', 't'),
        mark(OAuthParameter::Scope.name()) == (5nat, 's', 'p', 'e'),
        mark(OAuthParameter::LoginHint.name()) == (10nat, 'l', 'n', 't'),
        mark(OAuthParameter::CodeVerifier.name()) == (13nat, 'c', 'e', 'r'),
        mark(OAuthParameter::CodeChallenge.name()) == (14nat, 'c', 'g', 'e'),
        mark(OAuthParameter::CodeChallengeMethod.name()) == (21nat, 'c', 'o', 'd'),
{
    reveal_strlit("client_id");
    reveal_strlit("client_secret");
    reveal_strlit("authorization_url");
    reveal_strlit("access_token_url");
    reveal_strlit("refresh_token_url");
    reveal_strlit("redirect_uri");
    reveal_strlit("code");
    reveal_strlit("refresh_token");
    reveal_strlit("response_mode");
    reveal_strlit("state");
    reveal_strlit("response_type");
    reveal_strlit("grant_type");
    reveal_strlit("nonce");
    reveal_strlit("prompt");
    reveal_strlit("domain_hint");
    reveal_strlit("scope");
    reveal_strlit("login_hint");
    reveal_strlit("code_verifier");
    reveal_strlit("code_challenge");
    reveal_strlit("code_challenge_method");
}

/// No two parameters have the same name on the wire.
pub proof fn lemma_names_differ(a: OAuthParameter, b: OAuthParameter)
    requires
        a != b,
    ensures
        a.name() != b.name(),
{
    lemma_marks();
    assert(mark(a.name()) != mark(b.name()));
}

/// One line of the table of fields that a grant sends.
#[derive(Clone, Copy, Debug, PartialEq, Eq, Structural)]
pub enum FormCredential {
    /// The grant cannot be sent without the parameter.
    Required(OAuthParameter),
    /// The parameter is sent where it has a value.
    NotRequired(OAuthParameter),
}

impl FormCredential {
    /// The parameter that the line is about.
    pub open spec fn parameter(self) -> OAuthParameter {
        match self {
            FormCredential::Required(p) => p,
            FormCredential::NotRequired(p) => p,
        }
    }
}

/// What a store holds: the value of each parameter that has one.
pub type Entries = Map<OAuthParameter, Seq<char>>;

/// The number of keys that come before the first key without a value; the
/// number of all keys where each has one.
pub open spec fn first_absent(entries: Entries, keys: Seq<OAuthParameter>) -> nat
    decreases keys.len(),
{
    if keys.len() == 0 || !entries.contains_key(keys.first()) {
        0
    } else {
        1 + first_absent(entries, keys.drop_first())
    }
}

/// The name and value of each key that has a value, in the order of the keys.
pub open spec fn pairs_of(entries: Entries, keys: Seq<OAuthParameter>) -> Seq<Pair>
    decreases keys.len(),
{
    if keys.len() == 0 {
        Seq::empty()
    } else if entries.contains_key(keys.last()) {
        pairs_of(entries, keys.drop_last()).push((keys.last().name(), entries[keys.last()]))
    } else {
        pairs_of(entries, keys.drop_last())
    }
}

/// Whether the parameter has a value that is not blank.
pub open spec fn usable(entries: Entries, parameter: OAuthParameter) -> bool {
    entries.contains_key(parameter) && !blank(entries[parameter])
}

/// The number of lines that come before the first required line whose
/// parameter has no usable value; the number of all lines where there is none.
pub open spec fn first_unmet(entries: Entries, table: Seq<FormCredential>) -> nat
    decreases table.len(),
{
    if table.len() == 0 || (table.first() is Required && !usable(
        entries,
        table.first().parameter(),
    )) {
        0
    } else {
        1 + first_unmet(entries, table.drop_first())
    }
}

/// The name and value of each line whose parameter has a usable value, in
/// the order of the table.
pub open spec fn form_pairs(entries: Entries, table: Seq<FormCredential>) -> Seq<Pair>
    decreases table.len(),
{
    if table.len() == 0 {
        Seq::empty()
    } else if usable(entries, table.last().parameter()) {
        form_pairs(entries, table.drop_last()).push(
            (table.last().parameter().name(), entries[table.last().parameter()]),
        )
    } else {
        form_pairs(entries, table.drop_last())
    }
}

/// The entries after scopes were added: the scopes, joined by one space,
/// follow what the `scope` parameter held, after one more space.
pub open spec fn with_scopes(entries: Entries, scopes: Seq<Seq<char>>) -> Entries {
    if scopes.len() == 0 {
        entries
    } else if entries.contains_key(OAuthParameter::Scope) {
        entries.insert(
            OAuthParameter::Scope,
            entries[OAuthParameter::Scope] + " "@ + joined(scopes, " "@),
        )
    } else {
        entries.insert(OAuthParameter::Scope, joined(scopes, " "@))
    }
}

/// The entries after the endpoints of an authority were set.
pub open spec fn with_authority(
    entries: Entries,
    host: AzureCloudInstance,
    authority: crate::authority::AuthorityView,
) -> Entries {
    entries.insert(OAuthParameter::AuthorizationUrl, authorize_endpoint(host, authority)).insert(
        OAuthParameter::AccessTokenUrl,
        token_endpoint(host, authority),
    ).insert(OAuthParameter::RefreshTokenUrl, token_endpoint(host, authority))
}

/// The pairs with one more, where there is a value for it.
pub open spec fn with_optional(pairs: Seq<Pair>, parameter: OAuthParameter, value: Option<Seq<char>>) -> Seq<
    Pair,
> {
    match value {
        Some(v) => pairs.push((parameter.name(), v)),
        None => pairs,
    }
}

/// The entries with one more, where there is a value for it.
pub open spec fn put(entries: Entries, parameter: OAuthParameter, value: Option<Seq<char>>) -> Entries {
    match value {
        Some(v) => entries.insert(parameter, v),
        None => entries,
    }
}

/// What the store gives for a key: its value, where it has one.
pub open spec fn lookup(entries: Entries, parameter: OAuthParameter) -> Option<Seq<char>> {
    if entries.contains_key(parameter) {
        Some(entries[parameter])
    } else {
        None
    }
}

/// Writing out one more key adds its pair where the key has a value.
pub proof fn lemma_pairs_of_push(entries: Entries, keys: Seq<OAuthParameter>, key: OAuthParameter)
    ensures
        pairs_of(entries, keys.push(key)) == with_optional(
            pairs_of(entries, keys),
            key,
            lookup(entries, key),
        ),
{
    assert(keys.push(key).drop_last() =~= keys);
}

/// Where every key has a value, none is the first without one.
pub proof fn lemma_all_present(entries: Entries, keys: Seq<OAuthParameter>)
    requires
        forall|i: int| 0 <= i < keys.len() ==> entries.contains_key(#[trigger] keys[i]),
    ensures
        first_absent(entries, keys) == keys.len(),
    decreases keys.len(),
{
    if keys.len() > 0 {
        assert(entries.contains_key(keys[0]));
        let rest = keys.drop_first();
        assert forall|i: int| 0 <= i < rest.len() implies entries.contains_key(
            #[trigger] rest[i],
        ) by {
            assert(rest[i] == keys[i + 1]);
        }
        lemma_all_present(entries, rest);
    }
}

/// A value that is sent only where it is not blank.
pub open spec fn unless_blank(value: Option<Seq<char>>) -> Option<Seq<char>> {
    match value {
        Some(v) => if blank(v) {
            None
        } else {
            value
        },
        None => None,
    }
}

/// The value of a line's parameter, where it is not blank.
pub open spec fn usable_value(entries: Entries, parameter: OAuthParameter) -> Option<Seq<char>> {
    if usable(entries, parameter) {
        Some(entries[parameter])
    } else {
        None
    }
}

/// One more line of a table adds its field where the parameter has a
/// usable value.
pub proof fn lemma_form_pairs_push(entries: Entries, table: Seq<FormCredential>, line: FormCredential)
    ensures
        form_pairs(entries, table.push(line)) == with_optional(
            form_pairs(entries, table),
            line.parameter(),
            usable_value(entries, line.parameter()),
        ),
{
    assert(table.push(line).drop_last() =~= table);
}

/// Where every required line has a usable value, none is the first
/// without one.
pub proof fn lemma_all_met(entries: Entries, table: Seq<FormCredential>)
    requires
        forall|i: int|
            0 <= i < table.len() && (#[trigger] table[i]) is Required ==> usable(
                entries,
                table[i].parameter(),
            ),
    ensures
        first_unmet(entries, table) == table.len(),
    decreases table.len(),
{
    if table.len() > 0 {
        assert(table[0] is Required ==> usable(entries, table[0].parameter()));
        let rest = table.drop_first();
        assert forall|i: int| 0 <= i < rest.len() && (#[trigger] rest[i]) is Required implies usable(
            entries,
            rest[i].parameter(),
        ) by {
            assert(rest[i] == table[i + 1]);
        }
        lemma_all_met(entries, rest);
    }
}

/// A store from parameter to value.
pub struct OAuthSerializer {
    values: [Option<String>; 20],
}

impl View for OAuthSerializer {
    type V = Entries;

    closed spec fn view(&self) -> Entries {
        Map::new(
            |p: OAuthParameter| self.values@[p.position()] is Some,
            |p: OAuthParameter| self.values@[p.position()]->0@,
        )
    }
}

impl OAuthSerializer {
    /// A store without values.
    pub fn new() -> (r: OAuthSerializer)
        ensures
            r@ == Entries::empty(),
    {
        let r = OAuthSerializer {
            values: [
                None,
                None,
                None,
                None,
                None,
                None,
                None,
                None,
                None,
                None,
                None,
                None,
                None,
                None,
                None,
                None,
                None,
                None,
                None,
                None,
            ],
        };
        assert(r@ =~= Entries::empty());
        r
    }

    /// Gives the parameter the value, in place of the one it had.
    pub fn insert(&mut self, parameter: OAuthParameter, value: &str)
        ensures
            final(self)@ == old(self)@.insert(parameter, value@),
    {
        let i = parameter.index();
        self.values[i] = Some(String::from_str(value));
        assert(self@ =~= old(self)@.insert(parameter, value@));
    }

    /// Whether the parameter has a value.
    pub fn contains(&self, parameter: OAuthParameter) -> (r: bool)
        ensures
            r == self@.contains_key(parameter),
    {
        self.values[parameter.index()].is_some()
    }

    /// The value of the parameter, where it has one.
    pub fn get(&self, parameter: OAuthParameter) -> (r: Option<String>)
        ensures
            r is Some <==> self@.contains_key(parameter),
            r matches Some(value) ==> value@ == self@[parameter],
    {
        match &self.values[parameter.index()] {
            Some(value) => Some(value.clone()),
            None => None,
        }
    }
    /// Sets `client_id`.
    pub fn client_id(&mut self, value: &str) -> (r: &mut OAuthSerializer)
        ensures
            r@ == old(self)@.insert(OAuthParameter::ClientId, value@),
            *final(self) == *final(r),
    {
        self.insert(OAuthParameter::ClientId, value);
        self
    }

    /// Sets `client_secret`.
    pub fn client_secret(&mut self, value: &str) -> (r: &mut OAuthSerializer)
        ensures
            r@ == old(self)@.insert(OAuthParameter::ClientSecret, value@),
            *final(self) == *final(r),
    {
        self.insert(OAuthParameter::ClientSecret, value);
        self
    }

    /// Sets `authorization_url`.
    pub fn authorization_url(&mut self, value: &str) -> (r: &mut OAuthSerializer)
        ensures
            r@ == old(self)@.insert(OAuthParameter::AuthorizationUrl, value@),
            *final(self) == *final(r),
    {
        self.insert(OAuthParameter::AuthorizationUrl, value);
        self
    }

    /// Sets `access_token_url`.
    pub fn access_token_url(&mut self, value: &str) -> (r: &mut OAuthSerializer)
        ensures
            r@ == old(self)@.insert(OAuthParameter::AccessTokenUrl, value@),
            *final(self) == *final(r),
    {
        self.insert(OAuthParameter::AccessTokenUrl, value);
        self
    }

    /// Sets `refresh_token_url`.
    pub fn refresh_token_url(&mut self, value: &str) -> (r: &mut OAuthSerializer)
        ensures
            r@ == old(self)@.insert(OAuthParameter::RefreshTokenUrl, value@),
            *final(self) == *final(r),
    {
        self.insert(OAuthParameter::RefreshTokenUrl, value);
        self
    }

    /// Sets `redirect_uri`.
    pub fn redirect_uri(&mut self, value: &str) -> (r: &mut OAuthSerializer)
        ensures
            r@ == old(self)@.insert(OAuthParameter::RedirectUri, value@),
            *final(self) == *final(r),
    {
        self.insert(OAuthParameter::RedirectUri, value);
        self
    }

    /// Sets `code`.
    pub fn authorization_code(&mut self, value: &str) -> (r: &mut OAuthSerializer)
        ensures
            r@ == old(self)@.insert(OAuthParameter::AuthorizationCode, value@),
            *final(self) == *final(r),
    {
        self.insert(OAuthParameter::AuthorizationCode, value);
        self
    }

    /// Sets `refresh_token`.
    pub fn refresh_token(&mut self, value: &str) -> (r: &mut OAuthSerializer)
        ensures
            r@ == old(self)@.insert(OAuthParameter::RefreshToken, value@),
            *final(self) == *final(r),
    {
        self.insert(OAuthParameter::RefreshToken, value);
        self
    }

    /// Sets `response_mode`.
    pub fn response_mode(&mut self, value: &str) -> (r: &mut OAuthSerializer)
        ensures
            r@ == old(self)@.insert(OAuthParameter::ResponseMode, value@),
            *final(self) == *final(r),
    {
        self.insert(OAuthParameter::ResponseMode, value);
        self
    }

    /// Sets `state`.
    pub fn state(&mut self, value: &str) -> (r: &mut OAuthSerializer)
        ensures
            r@ == old(self)@.insert(OAuthParameter::State, value@),
            *final(self) == *final(r),
    {
        self.insert(OAuthParameter::State, value);
        self
    }

    /// Sets `response_type`.
    pub fn response_type(&mut self, value: &str) -> (r: &mut OAuthSerializer)
        ensures
            r@ == old(self)@.insert(OAuthParameter::ResponseType, value@),
            *final(self) == *final(r),
    {
        self.insert(OAuthParameter::ResponseType, value);
        self
    }

    /// Sets `grant_type`.
    pub fn grant_type(&mut self, value: &str) -> (r: &mut OAuthSerializer)
        ensures
            r@ == old(self)@.insert(OAuthParameter::GrantType, value@),
            *final(self) == *final(r),
    {
        self.insert(OAuthParameter::GrantType, value);
        self
    }

    /// Sets `nonce`.
    pub fn nonce(&mut self, value: &str) -> (r: &mut OAuthSerializer)
        ensures
            r@ == old(self)@.insert(OAuthParameter::Nonce, value@),
            *final(self) == *final(r),
    {
        self.insert(OAuthParameter::Nonce, value);
        self
    }

    /// Sets `prompt`.
    pub fn prompt(&mut self, value: &str) -> (r: &mut OAuthSerializer)
        ensures
            r@ == old(self)@.insert(OAuthParameter::Prompt, value@),
            *final(self) == *final(r),
    {
        self.insert(OAuthParameter::Prompt, value);
        self
    }

    /// Sets `domain_hint`.
    pub fn domain_hint(&mut self, value: &str) -> (r: &mut OAuthSerializer)
        ensures
            r@ == old(self)@.insert(OAuthParameter::DomainHint, value@),
            *final(self) == *final(r),
    {
        self.insert(OAuthParameter::DomainHint, value);
        self
    }

    /// Sets `login_hint`.
    pub fn login_hint(&mut self, value: &str) -> (r: &mut OAuthSerializer)
        ensures
            r@ == old(self)@.insert(OAuthParameter::LoginHint, value@),
            *final(self) == *final(r),
    {
        self.insert(OAuthParameter::LoginHint, value);
        self
    }

    /// Sets `code_verifier`.
    pub fn code_verifier(&mut self, value: &str) -> (r: &mut OAuthSerializer)
        ensures
            r@ == old(self)@.insert(OAuthParameter::CodeVerifier, value@),
            *final(self) == *final(r),
    {
        self.insert(OAuthParameter::CodeVerifier, value);
        self
    }

    /// Sets `code_challenge`.
    pub fn code_challenge(&mut self, value: &str) -> (r: &mut OAuthSerializer)
        ensures
            r@ == old(self)@.insert(OAuthParameter::CodeChallenge, value@),
            *final(self) == *final(r),
    {
        self.insert(OAuthParameter::CodeChallenge, value);
        self
    }

    /// Sets `code_challenge_method`.
    pub fn code_challenge_method(&mut self, value: &str) -> (r: &mut OAuthSerializer)
        ensures
            r@ == old(self)@.insert(OAuthParameter::CodeChallengeMethod, value@),
            *final(self) == *final(r),
    {
        self.insert(OAuthParameter::CodeChallengeMethod, value);
        self
    }

    /// Sets `scope`.
    pub fn scope(&mut self, value: &str) -> (r: &mut OAuthSerializer)
        ensures
            r@ == old(self)@.insert(OAuthParameter::Scope, value@),
            *final(self) == *final(r),
    {
        self.insert(OAuthParameter::Scope, value);
        self
    }

    /// Adds scopes to the `scope` parameter. The scopes are joined by one
    /// space and follow, after one more space, what the parameter held;
    /// an empty list changes nothing.
    pub fn extend_scopes(&mut self, scopes: &Vec<String>) -> (r: &mut OAuthSerializer)
        ensures
            r@ == with_scopes(old(self)@, views(scopes@)),
            *final(self) == *final(r),
    {
        if scopes.len() > 0 {
            let added = join(scopes, " ");
            match self.get(OAuthParameter::Scope) {
                Some(held) => {
                    let mut value = held;
                    value.append(" ");
                    value.append(added.as_str());
                    self.insert(OAuthParameter::Scope, value.as_str());
                },
                None => {
                    self.insert(OAuthParameter::Scope, added.as_str());
                },
            }
        }
        self
    }

    /// Sets the authorization endpoint and the token endpoints that the
    /// authority has on the host. Nothing is looked up.
    pub fn authority(&mut self, host: &AzureCloudInstance, authority: &Authority) -> (r:
        &mut OAuthSerializer)
        ensures
            r@ == with_authority(old(self)@, *host, authority@),
            *final(self) == *final(r),
    {
        let authorize = authorization_url(host, authority);
        let token = token_url(host, authority);
        self.insert(OAuthParameter::AuthorizationUrl, authorize.as_str());
        self.insert(OAuthParameter::AccessTokenUrl, token.as_str());
        self.insert(OAuthParameter::RefreshTokenUrl, token.as_str());
        self
    }

    /// Writes the parameters to `encoder` as name and value pairs: first
    /// the required ones, in their order, then of the optional ones those
    /// that have a value, in their order. At the first required parameter
    /// without a value it stops and writes no more: what was written before
    /// stays in `encoder`.
    pub fn encode_query(
        &self,
        optional_fields: Vec<OAuthParameter>,
        required_fields: Vec<OAuthParameter>,
        encoder: &mut String,
    ) -> (r: Result<(), AuthorizationFailure>)
        ensures
            match r {
                Ok(_) => {
                    &&& first_absent(self@, required_fields@) == required_fields@.len()
                    &&& final(encoder)@ == appended(
                        old(encoder)@,
                        pairs_of(self@, required_fields@ + optional_fields@),
                    )
                },
                Err(e) => {
                    let at = first_absent(self@, required_fields@) as int;
                    &&& at < required_fields@.len()
                    &&& e@ == missing(required_fields@[at].name())
                    &&& final(encoder)@ == appended(
                        old(encoder)@,
                        pairs_of(self@, required_fields@.take(at)),
                    )
                },
            },
    {
        let mut i: usize = 0;
        assert(required_fields@.skip(0) =~= required_fields@);
        while i < required_fields.len()
            invariant
                i <= required_fields.len(),
                first_absent(self@, required_fields@) == i + first_absent(
                    self@,
                    required_fields@.skip(i as int),
                ),
                encoder@ == appended(old(encoder)@, pairs_of(self@, required_fields@.take(i as int))),
            decreases required_fields.len() - i,
        {
            let parameter = required_fields[i];
            proof {
                assert(required_fields@.skip(i as int).first() == parameter);
                assert(required_fields@.skip(i as int).drop_first() =~= required_fields@.skip(
                    i + 1,
                ));
                assert(required_fields@.take(i + 1).drop_last() =~= required_fields@.take(
                    i as int,
                ));
                if self@.contains_key(parameter) {
                    lemma_appended_push(
                        old(encoder)@,
                        pairs_of(self@, required_fields@.take(i as int)),
                        (parameter.name(), self@[parameter]),
                    );
                }
            }
            match self.get(parameter) {
                Some(value) => {
                    append_pair(encoder, parameter.alias(), value.as_str());
                },
                None => {
                    return Err(AuthorizationFailure::required(parameter.alias()));
                },
            }
            i += 1;
        }
        proof {
            assert(required_fields@.take(i as int) =~= required_fields@);
            assert(required_fields@ + optional_fields@.take(0) =~= required_fields@);
        }
        let mut j: usize = 0;
        while j < optional_fields.len()
            invariant
                j <= optional_fields.len(),
                encoder@ == appended(
                    old(encoder)@,
                    pairs_of(self@, required_fields@ + optional_fields@.take(j as int)),
                ),
            decreases optional_fields.len() - j,
        {
            let parameter = optional_fields[j];
            proof {
                let next = required_fields@ + optional_fields@.take(j + 1);
                assert(next.drop_last() =~= required_fields@ + optional_fields@.take(j as int));
                assert(next.last() == parameter);
                if self@.contains_key(parameter) {
                    lemma_appended_push(
                        old(encoder)@,
                        pairs_of(self@, required_fields@ + optional_fields@.take(j as int)),
                        (parameter.name(), self@[parameter]),
                    );
                }
            }
            match self.get(parameter) {
                Some(value) => {
                    append_pair(encoder, parameter.alias(), value.as_str());
                },
                None => {},
            }
            j += 1;
        }
        proof {
            assert(optional_fields@.take(j as int) =~= optional_fields@);
        }
        Ok(())
    }

    /// The fields of a form, by its table: the name and value of each line
    /// whose parameter has a value that is not blank, in the order of the
    /// table. It fails at the first required line without such a value.
    pub fn authorization_form(&self, table: Vec<FormCredential>) -> (r: Result<
        Vec<(String, String)>,
        AuthorizationFailure,
    >)
        ensures
            match r {
                Ok(fields) => {
                    &&& first_unmet(self@, table@) == table@.len()
                    &&& pair_views(fields@) == form_pairs(self@, table@)
                },
                Err(e) => {
                    let at = first_unmet(self@, table@) as int;
                    &&& at < table@.len()
                    &&& e@ == missing(table@[at].parameter().name())
                },
            },
    {
        let mut fields: Vec<(String, String)> = Vec::new();
        let mut i: usize = 0;
        assert(table@.skip(0) =~= table@);
        assert(pair_views(fields@) =~= form_pairs(self@, table@.take(0)));
        while i < table.len()
            invariant
                i <= table.len(),
                first_unmet(self@, table@) == i + first_unmet(self@, table@.skip(i as int)),
                pair_views(fields@) == form_pairs(self@, table@.take(i as int)),
            decreases table.len() - i,
        {
            let line = table[i];
            proof {
                assert(table@.skip(i as int).first() == line);
                assert(table@.skip(i as int).drop_first() =~= table@.skip(i + 1));
                assert(table@.take(i + 1).drop_last() =~= table@.take(i as int));
            }
            let (parameter, required) = match line {
                FormCredential::Required(p) => (p, true),
                FormCredential::NotRequired(p) => (p, false),
            };
            let mut sent = false;
            match self.get(parameter) {
                Some(value) => {
                    if !is_blank(value.as_str()) {
                        let ghost before = fields@;
                        fields.push((String::from_str(parameter.alias()), value));
                        sent = true;
                        assert(pair_views(fields@) =~= pair_views(before).push(
                            (parameter.name(), self@[parameter]),
                        ));
                    }
                },
                None => {},
            }
            if required && !sent {
                return Err(AuthorizationFailure::required(parameter.alias()));
            }
            i += 1;
        }
        proof {
            assert(table@.take(i as int) =~= table@);
        }
        Ok(fields)
    }
}

} // verus!
