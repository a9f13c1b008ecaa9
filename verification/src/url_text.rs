//! URLs as this library holds them: the text of a URL that the `url` crate
//! has read, with its query and its fragment.

use vstd::prelude::*;

use crate::error::malformed;
use crate::error::AuthorizationFailure;
use crate::text::clone_opt;
use crate::text::opt_view;

verus! {

/// A URL that was read from a text.
#[derive(Debug)]
pub struct Url {
    /// The URL in its normal form.
    pub text: String,
    /// What stands between `?` and `#`, where there is a `?`.
    pub query: Option<String>,
    /// What stands after `#`, where there is one.
    pub fragment: Option<String>,
}

/// A `Url` over sequences of characters.
pub struct UrlView {
    pub text: Seq<char>,
    pub query: Option<Seq<char>>,
    pub fragment: Option<Seq<char>>,
}

impl View for Url {
    type V = UrlView;

    open spec fn view(&self) -> UrlView {
        UrlView {
            text: self.text@,
            query: opt_view(self.query),
            fragment: opt_view(self.fragment),
        }
    }
}

/// What `url::Url::parse` makes of a text: nothing where the text is no
/// absolute URL.
pub uninterp spec fn url_parsed(input: Seq<char>) -> Option<UrlView>;

impl Clone for Url {
    fn clone(&self) -> (r: Url)
        ensures
            r@ == self@,
    {
        Url {
            text: self.text.clone(),
            query: clone_opt(&self.query),
            fragment: clone_opt(&self.fragment),
        }
    }
}

/// `url::Url::parse`, with what `as_str`, `query` and `fragment` give of the
/// URL that it returns.
#[verifier::external_body]
pub(crate) fn parse_url(input: &str) -> (r: Option<Url>)
    ensures
        r is Some <==> url_parsed(input@) is Some,
        r matches Some(url) ==> url@ == url_parsed(input@)->0,
{
    match url::Url::parse(input) {
        Ok(url) => Some(
            Url {
                text: String::from(url.as_str()),
                query: url.query().map(String::from),
                fragment: url.fragment().map(String::from),
            },
        ),
        Err(_) => None,
    }
}

impl Url {
    /// Reads an absolute URL from a text.
    pub fn parse(input: &str) -> (r: Result<Url, AuthorizationFailure>)
        ensures
            match r {
                Ok(url) => url_parsed(input@) == Some(url@),
                Err(e) => url_parsed(input@) is None && e@ == malformed(input@),
            },
    {
        match parse_url(input) {
            Some(url) => Ok(url),
            None => Err(AuthorizationFailure::malformed_url(input)),
        }
    }

    /// The URL in its normal form.
    pub fn as_str(&self) -> (r: &str)
        ensures
            r@ == self@.text,
    {
        self.text.as_str()
    }

    /// What stands between `?` and `#`, where there is a `?`.
    pub fn query(&self) -> (r: Option<&str>)
        ensures
            r is Some <==> self@.query is Some,
            r matches Some(q) ==> q@ == self@.query->0,
    {
        match &self.query {
            Some(q) => Some(q.as_str()),
            None => None,
        }
    }

    /// What stands after `#`, where there is one.
    pub fn fragment(&self) -> (r: Option<&str>)
        ensures
            r is Some <==> self@.fragment is Some,
            r matches Some(f) ==> f@ == self@.fragment->0,
    {
        match &self.fragment {
            Some(f) => Some(f.as_str()),
            None => None,
        }
    }
}

} // verus!
