//! The failures that building or reading a request can end in. Each names
//! the field it is about, so that a caller can report it precisely.

use vstd::prelude::*;
use vstd::string::StringExecFns;

verus! {

/// Why a request could not be built or a redirect could not be read.
#[derive(Debug)]
pub enum AuthorizationFailure {
    /// A required field is absent or blank.
    MissingRequiredValue { name: String },
    /// Two fields that exclude each other are both set.
    ConflictingValues { first: String, second: String },
    /// A field holds a value that this request does not accept.
    InvalidValue { name: String, reason: String },
    /// A text that has to be a URL is none.
    MalformedUrl { input: String },
    /// A redirect URL carries neither a query nor a fragment.
    MissingRedirectPayload { url: String },
}

/// An `AuthorizationFailure` over sequences of characters.
pub enum FailureView {
    MissingRequiredValue { name: Seq<char> },
    ConflictingValues { first: Seq<char>, second: Seq<char> },
    InvalidValue { name: Seq<char>, reason: Seq<char> },
    MalformedUrl { input: Seq<char> },
    MissingRedirectPayload { url: Seq<char> },
}

impl View for AuthorizationFailure {
    type V = FailureView;

    open spec fn view(&self) -> FailureView {
        match self {
            AuthorizationFailure::MissingRequiredValue { name } => {
                FailureView::MissingRequiredValue { name: name@ }
            },
            AuthorizationFailure::ConflictingValues { first, second } => {
                FailureView::ConflictingValues { first: first@, second: second@ }
            },
            AuthorizationFailure::InvalidValue { name, reason } => {
                FailureView::InvalidValue { name: name@, reason: reason@ }
            },
            AuthorizationFailure::MalformedUrl { input } => {
                FailureView::MalformedUrl { input: input@ }
            },
            AuthorizationFailure::MissingRedirectPayload { url } => {
                FailureView::MissingRedirectPayload { url: url@ }
            },
        }
    }
}

impl Clone for AuthorizationFailure {
    fn clone(&self) -> (r: AuthorizationFailure)
        ensures
            r@ == self@,
    {
        match self {
            AuthorizationFailure::MissingRequiredValue { name } => {
                AuthorizationFailure::MissingRequiredValue { name: name.clone() }
            },
            AuthorizationFailure::ConflictingValues { first, second } => {
                AuthorizationFailure::ConflictingValues {
                    first: first.clone(),
                    second: second.clone(),
                }
            },
            AuthorizationFailure::InvalidValue { name, reason } => {
                AuthorizationFailure::InvalidValue { name: name.clone(), reason: reason.clone() }
            },
            AuthorizationFailure::MalformedUrl { input } => {
                AuthorizationFailure::MalformedUrl { input: input.clone() }
            },
            AuthorizationFailure::MissingRedirectPayload { url } => {
                AuthorizationFailure::MissingRedirectPayload { url: url.clone() }
            },
        }
    }
}

/// The failure for a required field that is absent or blank.
pub open spec fn missing(name: Seq<char>) -> FailureView {
    FailureView::MissingRequiredValue { name }
}

/// The failure for two fields that are set together and must not be.
pub open spec fn conflicting(first: Seq<char>, second: Seq<char>) -> FailureView {
    FailureView::ConflictingValues { first, second }
}

/// The failure for a field whose value is not accepted.
pub open spec fn invalid(name: Seq<char>, reason: Seq<char>) -> FailureView {
    FailureView::InvalidValue { name, reason }
}

/// The failure for a text that is no URL.
pub open spec fn malformed(input: Seq<char>) -> FailureView {
    FailureView::MalformedUrl { input }
}

/// The failure for a redirect URL without query and fragment.
pub open spec fn no_payload(url: Seq<char>) -> FailureView {
    FailureView::MissingRedirectPayload { url }
}

impl FailureView {
    /// The failure in words.
    pub open spec fn message(self) -> Seq<char> {
        match self {
            FailureView::MissingRequiredValue { name } => "missing required value: "@ + name,
            FailureView::ConflictingValues { first, second } => {
                "conflicting values: "@ + first + " and "@ + second
            },
            FailureView::InvalidValue { name, reason } => {
                "invalid value for "@ + name + ": "@ + reason
            },
            FailureView::MalformedUrl { input } => "malformed url: "@ + input,
            FailureView::MissingRedirectPayload { url } => {
                "no query or fragment in redirect url: "@ + url
            },
        }
    }
}

impl AuthorizationFailure {
    /// The failure in words.
    pub fn message(&self) -> (r: String)
        ensures
            r@ == self@.message(),
    {
        match self {
            AuthorizationFailure::MissingRequiredValue { name } => {
                let mut out = String::from_str("missing required value: ");
                out.append(name.as_str());
                out
            },
            AuthorizationFailure::ConflictingValues { first, second } => {
                let mut out = String::from_str("conflicting values: ");
                out.append(first.as_str());
                out.append(" and ");
                out.append(second.as_str());
                out
            },
            AuthorizationFailure::InvalidValue { name, reason } => {
                let mut out = String::from_str("invalid value for ");
                out.append(name.as_str());
                out.append(": ");
                out.append(reason.as_str());
                out
            },
            AuthorizationFailure::MalformedUrl { input } => {
                let mut out = String::from_str("malformed url: ");
                out.append(input.as_str());
                out
            },
            AuthorizationFailure::MissingRedirectPayload { url } => {
                let mut out = String::from_str("no query or fragment in redirect url: ");
                out.append(url.as_str());
                out
            },
        }
    }

    pub fn required(name: &str) -> (r: AuthorizationFailure)
        ensures
            r@ == missing(name@),
    {
        AuthorizationFailure::MissingRequiredValue { name: String::from_str(name) }
    }

    pub fn conflict(first: &str, second: &str) -> (r: AuthorizationFailure)
        ensures
            r@ == conflicting(first@, second@),
    {
        AuthorizationFailure::ConflictingValues {
            first: String::from_str(first),
            second: String::from_str(second),
        }
    }

    pub fn invalid_value(name: &str, reason: &str) -> (r: AuthorizationFailure)
        ensures
            r@ == invalid(name@, reason@),
    {
        AuthorizationFailure::InvalidValue {
            name: String::from_str(name),
            reason: String::from_str(reason),
        }
    }

    pub fn malformed_url(input: &str) -> (r: AuthorizationFailure)
        ensures
            r@ == malformed(input@),
    {
        AuthorizationFailure::MalformedUrl { input: String::from_str(input) }
    }

    pub fn missing_redirect_payload(url: &str) -> (r: AuthorizationFailure)
        ensures
            r@ == no_payload(url@),
    {
        AuthorizationFailure::MissingRedirectPayload { url: String::from_str(url) }
    }

    /// The field that the failure names first.
    pub fn field(&self) -> (r: &str)
        ensures
            r@ == match self@ {
                FailureView::MissingRequiredValue { name } => name,
                FailureView::ConflictingValues { first, second } => first,
                FailureView::InvalidValue { name, reason } => name,
                FailureView::MalformedUrl { input } => input,
                FailureView::MissingRedirectPayload { url } => url,
            },
    {
        match self {
            AuthorizationFailure::MissingRequiredValue { name } => name.as_str(),
            AuthorizationFailure::ConflictingValues { first, second } => first.as_str(),
            AuthorizationFailure::InvalidValue { name, reason } => name.as_str(),
            AuthorizationFailure::MalformedUrl { input } => input.as_str(),
            AuthorizationFailure::MissingRedirectPayload { url } => url.as_str(),
        }
    }
}

} // verus!
