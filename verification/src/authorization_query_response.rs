//! The answer of the authorization endpoint, as it arrives with a redirect:
//! in the query of the redirect URL where it has one, else in its fragment.

use vstd::prelude::*;

use crate::error::malformed;
use crate::error::no_payload;
use crate::error::AuthorizationFailure;
use crate::form_urlencoded::pair_views;
use crate::form_urlencoded::pairs_read;
use crate::form_urlencoded::parse;
use crate::form_urlencoded::Pair;
use crate::text::opt_view;
use crate::text::str_eq;
use crate::url_text::url_parsed;
use crate::url_text::Url;
use crate::url_text::UrlView;

verus! {

/// What the authorization endpoint answers.
#[derive(Debug)]
pub struct AuthorizationQueryResponse {
    pub code: Option<String>,
    pub id_token: Option<String>,
    pub access_token: Option<String>,
    pub state: Option<String>,
    pub nonce: Option<String>,
    pub error: Option<String>,
    pub error_description: Option<String>,
}

/// An `AuthorizationQueryResponse` over sequences of characters.
pub struct ResponseView {
    pub code: Option<Seq<char>>,
    pub id_token: Option<Seq<char>>,
    pub access_token: Option<Seq<char>>,
    pub state: Option<Seq<char>>,
    pub nonce: Option<Seq<char>>,
    pub error: Option<Seq<char>>,
    pub error_description: Option<Seq<char>>,
}

impl View for AuthorizationQueryResponse {
    type V = ResponseView;

    open spec fn view(&self) -> ResponseView {
        ResponseView {
            code: opt_view(self.code),
            id_token: opt_view(self.id_token),
            access_token: opt_view(self.access_token),
            state: opt_view(self.state),
            nonce: opt_view(self.nonce),
            error: opt_view(self.error),
            error_description: opt_view(self.error_description),
        }
    }
}

/// The value of the first pair with the given name, where there is one.
pub open spec fn first_value(pairs: Seq<Pair>, name: Seq<char>) -> Option<Seq<char>>
    decreases pairs.len(),
{
    if pairs.len() == 0 {
        None
    } else if pairs.first().0 == name {
        Some(pairs.first().1)
    } else {
        first_value(pairs.drop_first(), name)
    }
}

/// The answer that a list of pairs holds: for each field the value of the
/// first pair that has its name. Pairs with other names are passed over.
pub open spec fn response_of(pairs: Seq<Pair>) -> ResponseView {
    ResponseView {
        code: first_value(pairs, "code"@),
        id_token: first_value(pairs, "id_token"@),
        access_token: first_value(pairs, "access_token"@),
        state: first_value(pairs, "state"@),
        nonce: first_value(pairs, "nonce"@),
        error: first_value(pairs, "error"@),
        error_description: first_value(pairs, "error_description"@),
    }
}

/// The part of a redirect URL that carries the answer: the query where the
/// URL has one, else the fragment.
pub open spec fn payload_of(url: UrlView) -> Option<Seq<char>> {
    if url.query is Some {
        url.query
    } else {
        url.fragment
    }
}

/// Whether `r` is the answer that the redirect URL `input` carries: the
/// failure to read the text as a URL, else the failure to find a query or a
/// fragment, which names the URL in its normal form, else the answer.
pub open spec fn redirected_as(
    input: Seq<char>,
    r: Result<AuthorizationQueryResponse, AuthorizationFailure>,
) -> bool {
    match url_parsed(input) {
        None => r is Err && r->Err_0@ == malformed(input),
        Some(url) => match payload_of(url) {
            None => r is Err && r->Err_0@ == no_payload(url.text),
            Some(payload) => r is Ok && r->Ok_0@ == response_of(pairs_read(payload)),
        },
    }
}

fn find_first(pairs: &Vec<(String, String)>, name: &str) -> (r: Option<String>)
    ensures
        opt_view(r) == first_value(pair_views(pairs@), name@),
{
    let mut i: usize = 0;
    assert(pair_views(pairs@).skip(0) =~= pair_views(pairs@));
    while i < pairs.len()
        invariant
            i <= pairs.len(),
            first_value(pair_views(pairs@), name@) == first_value(
                pair_views(pairs@).skip(i as int),
                name@,
            ),
        decreases pairs.len() - i,
    {
        proof {
            let rest = pair_views(pairs@).skip(i as int);
            assert(rest.first() == (pairs@[i as int].0@, pairs@[i as int].1@));
            assert(rest.drop_first() =~= pair_views(pairs@).skip(i + 1));
        }
        if str_eq(pairs[i].0.as_str(), name) {
            return Some(pairs[i].1.clone());
        }
        i += 1;
    }
    None
}

impl AuthorizationQueryResponse {
    /// The answer that a list of name and value pairs holds.
    pub fn from_pairs(pairs: &Vec<(String, String)>) -> (r: AuthorizationQueryResponse)
        ensures
            r@ == response_of(pair_views(pairs@)),
    {
        AuthorizationQueryResponse {
            code: find_first(pairs, "code"),
            id_token: find_first(pairs, "id_token"),
            access_token: find_first(pairs, "access_token"),
            state: find_first(pairs, "state"),
            nonce: find_first(pairs, "nonce"),
            error: find_first(pairs, "error"),
            error_description: find_first(pairs, "error_description"),
        }
    }

    /// The answer that a query or a fragment holds.
    pub fn from_query(query: &str) -> (r: AuthorizationQueryResponse)
        ensures
            r@ == response_of(pairs_read(query@)),
    {
        let pairs = parse(query);
        assert(pair_views(pairs@) =~= pairs_read(query@));
        AuthorizationQueryResponse::from_pairs(&pairs)
    }

    /// The part of a redirect URL that carries the answer.
    pub fn payload(url: &Url) -> (r: Result<&str, AuthorizationFailure>)
        ensures
            match r {
                Ok(payload) => payload_of(url@) == Some(payload@),
                Err(e) => payload_of(url@) is None && e@ == no_payload(url@.text),
            },
    {
        match url.query() {
            Some(query) => Ok(query),
            None => match url.fragment() {
                Some(fragment) => Ok(fragment),
                None => Err(AuthorizationFailure::missing_redirect_payload(url.as_str())),
            },
        }
    }

    /// The answer that a redirect URL carries.
    pub fn from_redirect(url: &str) -> (r: Result<AuthorizationQueryResponse, AuthorizationFailure>)
        ensures
            redirected_as(url@, r),
    {
        let url = match Url::parse(url) {
            Ok(url) => url,
            Err(e) => {
                return Err(e);
            },
        };
        match AuthorizationQueryResponse::payload(&url) {
            Ok(payload) => Ok(AuthorizationQueryResponse::from_query(payload)),
            Err(e) => Err(e),
        }
    }
}

} // verus!
