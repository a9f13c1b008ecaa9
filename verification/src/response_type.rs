//! What the authorization endpoint is asked to return, how it returns it,
//! and how it prompts the user.

use vstd::prelude::*;
use vstd::string::StringExecFns;

use crate::text::joined;
use crate::text::lemma_split_joined;
use crate::text::split;
use crate::text::without;

verus! {

/// One artifact that the authorization endpoint can return.
#[derive(Clone, Copy, Debug, PartialEq, Eq, PartialOrd, Ord, Hash, Structural)]
pub enum ResponseType {
    Code,
    IdToken,
    Token,
}

impl ResponseType {
    /// The name of the response type on the wire.
    pub open spec fn name(self) -> Seq<char> {
        match self {
            ResponseType::Code => "code"@,
            ResponseType::IdToken => "id_token"@,
            ResponseType::Token => "token"@,
        }
    }

    /// The name of the response type on the wire.
    pub fn as_ref(&self) -> (r: &'static str)
        ensures
            r@ == self.name(),
    {
        match self {
            ResponseType::Code => "code",
            ResponseType::IdToken => "id_token",
            ResponseType::Token => "token",
        }
    }
}

/// A set of response types. The order in which they were added is not
/// kept: they are always read in the order code, id_token, token.
#[derive(Clone, Copy, Debug, PartialEq, Eq, Structural)]
pub struct ResponseTypes {
    pub code: bool,
    pub id_token: bool,
    pub token: bool,
}

impl ResponseTypes {
    /// Whether the set holds the response type.
    pub open spec fn has(self, response_type: ResponseType) -> bool {
        match response_type {
            ResponseType::Code => self.code,
            ResponseType::IdToken => self.id_token,
            ResponseType::Token => self.token,
        }
    }

    /// Whether the set holds nothing.
    pub open spec fn none(self) -> bool {
        !self.code && !self.id_token && !self.token
    }

    /// The members of the set in the order code, id_token, token.
    pub open spec fn ordered(self) -> Seq<ResponseType> {
        (if self.code {
            seq![ResponseType::Code]
        } else {
            Seq::empty()
        }) + (if self.id_token {
            seq![ResponseType::IdToken]
        } else {
            Seq::empty()
        }) + (if self.token {
            seq![ResponseType::Token]
        } else {
            Seq::empty()
        })
    }

    /// The set with one more member.
    pub open spec fn with(self, response_type: ResponseType) -> ResponseTypes {
        match response_type {
            ResponseType::Code => ResponseTypes { code: true, ..self },
            ResponseType::IdToken => ResponseTypes { id_token: true, ..self },
            ResponseType::Token => ResponseTypes { token: true, ..self },
        }
    }

    /// The set with every member of the list added, from the first to the last.
    pub open spec fn with_all(self, added: Seq<ResponseType>) -> ResponseTypes
        decreases added.len(),
    {
        if added.len() == 0 {
            self
        } else {
            self.with_all(added.drop_last()).with(added.last())
        }
    }

    /// The names of the members, in their order, with one space between
    /// each two.
    pub open spec fn text(self) -> Seq<char> {
        joined(self.ordered().map_values(|t: ResponseType| t.name()), " "@)
    }

    /// The empty set.
    pub fn new() -> (r: ResponseTypes)
        ensures
            r.none(),
    {
        ResponseTypes { code: false, id_token: false, token: false }
    }

    /// Adds a response type; one that is there already changes nothing.
    pub fn insert(&mut self, response_type: ResponseType)
        ensures
            *final(self) == old(self).with(response_type),
    {
        match response_type {
            ResponseType::Code => {
                self.code = true;
            },
            ResponseType::IdToken => {
                self.id_token = true;
            },
            ResponseType::Token => {
                self.token = true;
            },
        }
    }

    /// Adds every response type of the list.
    pub fn extend(&mut self, added: &Vec<ResponseType>)
        ensures
            *final(self) == old(self).with_all(added@),
    {
        let mut i: usize = 0;
        while i < added.len()
            invariant
                i <= added.len(),
                *self == old(self).with_all(added@.take(i as int)),
            decreases added.len() - i,
        {
            assert(added@.take(i + 1).drop_last() =~= added@.take(i as int));
            self.insert(added[i]);
            i += 1;
        }
        assert(added@.take(added.len() as int) =~= added@);
    }

    pub fn contains(&self, response_type: ResponseType) -> (r: bool)
        ensures
            r == self.has(response_type),
    {
        match response_type {
            ResponseType::Code => self.code,
            ResponseType::IdToken => self.id_token,
            ResponseType::Token => self.token,
        }
    }

    pub fn is_empty(&self) -> (r: bool)
        ensures
            r == self.none(),
    {
        !self.code && !self.id_token && !self.token
    }

    /// The members in the order code, id_token, token.
    pub fn to_vec(&self) -> (r: Vec<ResponseType>)
        ensures
            r@ == self.ordered(),
    {
        let mut out: Vec<ResponseType> = Vec::new();
        if self.code {
            out.push(ResponseType::Code);
        }
        if self.id_token {
            out.push(ResponseType::IdToken);
        }
        if self.token {
            out.push(ResponseType::Token);
        }
        assert(out@ =~= self.ordered());
        out
    }

    /// The value of the `response_type` parameter: the names of the members
    /// in the order code, id_token, token, with one space between them.
    pub fn join(&self) -> (r: String)
        ensures
            r@ == self.text(),
    {
        let members = self.to_vec();
        let ghost names = self.ordered().map_values(|t: ResponseType| t.name());
        let mut out = String::new();
        let mut i: usize = 0;
        while i < members.len()
            invariant
                i <= members.len(),
                members@ == self.ordered(),
                names == self.ordered().map_values(|t: ResponseType| t.name()),
                out@ == joined(names.take(i as int), " "@),
            decreases members.len() - i,
        {
            proof {
                let next = names.take(i + 1);
                assert(next.drop_last() =~= names.take(i as int));
                assert(next.last() == members@[i as int].name());
                if i == 0 {
                    assert(Seq::<char>::empty() + next[0] =~= next[0]);
                }
            }
            if i > 0 {
                out.append(" ");
            }
            out.append(members[i].as_ref());
            i += 1;
        }
        assert(names.take(members.len() as int) =~= names);
        out
    }
}

/// How the authorization endpoint hands its answer to the redirect URI.
#[derive(Clone, Copy, Debug, PartialEq, Eq, Structural)]
pub enum ResponseMode {
    /// In the query of the redirect URI.
    Query,
    /// In the fragment of the redirect URI.
    Fragment,
    /// In the body of a POST to the redirect URI.
    FormPost,
}

impl ResponseMode {
    /// The name of the response mode on the wire.
    pub open spec fn name(self) -> Seq<char> {
        match self {
            ResponseMode::Query => "query"@,
            ResponseMode::Fragment => "fragment"@,
            ResponseMode::FormPost => "form_post"@,
        }
    }

    /// The name of the response mode on the wire.
    pub fn as_ref(&self) -> (r: &'static str)
        ensures
            r@ == self.name(),
    {
        match self {
            ResponseMode::Query => "query",
            ResponseMode::Fragment => "fragment",
            ResponseMode::FormPost => "form_post",
        }
    }
}

/// The interaction with the user that the request asks for.
#[derive(Clone, Copy, Debug, PartialEq, Eq, Structural)]
pub enum Prompt {
    /// No interaction: the request fails where one would be needed.
    AttemptNone,
    /// The user enters credentials again.
    Login,
    /// The user is asked to grant the permissions.
    Consent,
    /// The user picks an account.
    SelectAccount,
}

impl Prompt {
    /// The name of the prompt on the wire.
    pub open spec fn name(self) -> Seq<char> {
        match self {
            Prompt::AttemptNone => "none"@,
            Prompt::Login => "login"@,
            Prompt::Consent => "consent"@,
            Prompt::SelectAccount => "select_account"@,
        }
    }

    /// The name of the prompt on the wire.
    pub fn as_ref(&self) -> (r: &'static str)
        ensures
            r@ == self.name(),
    {
        match self {
            Prompt::AttemptNone => "none",
            Prompt::Login => "login",
            Prompt::Consent => "consent",
            Prompt::SelectAccount => "select_account",
        }
    }
}

/// The response mode that a request is sent with. A request for an id_token
/// cannot be answered in the query: where it names no mode, or the query,
/// the fragment is used. Every other choice is kept as it is.
pub open spec fn resolved_mode(types: ResponseTypes, mode: Option<ResponseMode>) -> Option<
    ResponseMode,
> {
    if types.id_token && (mode is None || mode == Some(ResponseMode::Query)) {
        Some(ResponseMode::Fragment)
    } else {
        mode
    }
}

/// The value of the `response_type` parameter that a request is sent with:
/// `code` where no response type was chosen.
pub open spec fn resolved_types(types: ResponseTypes) -> Seq<char> {
    if types.none() {
        "code"@
    } else {
        types.text()
    }
}

/// The response type that has the given name on the wire, where one has.
pub open spec fn named(name: Seq<char>) -> Option<ResponseType> {
    if name == ResponseType::Code.name() {
        Some(ResponseType::Code)
    } else if name == ResponseType::IdToken.name() {
        Some(ResponseType::IdToken)
    } else if name == ResponseType::Token.name() {
        Some(ResponseType::Token)
    } else {
        None
    }
}

/// The set of the response types that the names stand for; a name of no
/// response type is passed over.
pub open spec fn types_named(names: Seq<Seq<char>>) -> ResponseTypes
    decreases names.len(),
{
    if names.len() == 0 {
        ResponseTypes { code: false, id_token: false, token: false }
    } else {
        match named(names.last()) {
            Some(response_type) => types_named(names.drop_last()).with(response_type),
            None => types_named(names.drop_last()),
        }
    }
}

/// The set of the response types that the value of a `response_type`
/// parameter names.
pub open spec fn types_in(text: Seq<char>) -> ResponseTypes {
    types_named(split(text, ' '))
}

/// The names of the response types differ, and none holds a space.
pub proof fn lemma_names(response_type: ResponseType)
    ensures
        without(response_type.name(), ' '),
        named(response_type.name()) == Some(response_type),
{
    reveal_strlit("code");
    reveal_strlit("id_token");
    reveal_strlit("token");
    assert("code"@ =~= seq!['c', 'o', 'd', 'e']);
    assert("id_token"@ =~= seq!['i', 'd', '_', 't', 'o', 'k', 'e', 'n']);
    assert("token"@ =~= seq!['t', 'o', 'k', 'e', 'n']);
}

/// The value of the `response_type` parameter names the set that it was
/// made of, whatever the order in which the set was filled.
pub proof fn lemma_types_read_back(types: ResponseTypes)
    requires
        !types.none(),
    ensures
        types_in(types.text()) == types,
{
    let names = types.ordered().map_values(|t: ResponseType| t.name());
    reveal_strlit(" ");
    assert(" "@ =~= seq![' ']);
    lemma_names(ResponseType::Code);
    lemma_names(ResponseType::IdToken);
    lemma_names(ResponseType::Token);
    assert forall|i: int| 0 <= i < names.len() implies without(#[trigger] names[i], ' ') by {
        assert(names[i] == types.ordered()[i].name());
    }
    lemma_split_joined(names, ' ');
    let s0 = Seq::<Seq<char>>::empty();
    let s1 = if types.code {
        s0.push(ResponseType::Code.name())
    } else {
        s0
    };
    let s2 = if types.id_token {
        s1.push(ResponseType::IdToken.name())
    } else {
        s1
    };
    let s3 = if types.token {
        s2.push(ResponseType::Token.name())
    } else {
        s2
    };
    lemma_named_push(s0, ResponseType::Code);
    lemma_named_push(s1, ResponseType::IdToken);
    lemma_named_push(s2, ResponseType::Token);
    assert(names =~= s3);
}

proof fn lemma_named_push(names: Seq<Seq<char>>, response_type: ResponseType)
    ensures
        types_named(names.push(response_type.name())) == types_named(names).with(response_type),
{
    lemma_names(response_type);
    assert(names.push(response_type.name()).drop_last() =~= names);
}

/// The response mode that a request is sent with.
pub fn resolve_response_mode(types: &ResponseTypes, mode: Option<ResponseMode>) -> (r: Option<
    ResponseMode,
>)
    ensures
        r == resolved_mode(*types, mode),
{
    if types.contains(ResponseType::IdToken) {
        match mode {
            None => Some(ResponseMode::Fragment),
            Some(ResponseMode::Query) => Some(ResponseMode::Fragment),
            Some(other) => Some(other),
        }
    } else {
        mode
    }
}

/// The value of the `response_type` parameter that a request is sent with.
pub fn resolve_response_type(types: &ResponseTypes) -> (r: String)
    ensures
        r@ == resolved_types(*types),
{
    if types.is_empty() {
        String::from_str("code")
    } else {
        types.join()
    }
}

} // verus!
