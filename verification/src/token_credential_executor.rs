//! What every credential can do: say where its token request goes, which
//! fields the request carries, and which pair authenticates the client.

use vstd::prelude::*;

use crate::authority::Authority;
use crate::authority::AuthorityView;
use crate::authority::AzureCloudInstance;
use crate::error::malformed;
use crate::error::AuthorizationFailure;
use crate::error::FailureView;
use crate::form_urlencoded::pair_views;
use crate::form_urlencoded::Pair;
use crate::url_text::url_parsed;
use crate::url_text::Url;

verus! {

/// Where token requests are sent.
#[derive(Clone, Copy, Debug, PartialEq, Eq, Structural)]
pub struct TokenCredentialOptions {
    pub azure_authority_host: AzureCloudInstance,
}

impl Default for TokenCredentialOptions {
    fn default() -> (r: TokenCredentialOptions)
        ensures
            r.azure_authority_host == AzureCloudInstance::AzurePublic,
    {
        TokenCredentialOptions { azure_authority_host: AzureCloudInstance::AzurePublic }
    }
}

/// Whether `r` is what reading `text` as a URL gives.
pub open spec fn read_as(text: Seq<char>, r: Result<Url, AuthorizationFailure>) -> bool {
    match r {
        Ok(url) => url_parsed(text) == Some(url@),
        Err(e) => url_parsed(text) is None && e@ == malformed(text),
    }
}

/// Whether `r` is the outcome of building a form: the fields where nothing
/// fails, else the failure.
pub open spec fn built_as(
    failure: Option<FailureView>,
    fields: Seq<Pair>,
    r: Result<Vec<(String, String)>, AuthorizationFailure>,
) -> bool {
    match r {
        Ok(form) => failure is None && pair_views(form@) == fields,
        Err(e) => failure == Some(e@),
    }
}

/// Whether `r` holds the given identifier and secret.
pub open spec fn pair_as(pair: Option<Pair>, r: Option<(String, String)>) -> bool {
    match r {
        Some(held) => pair == Some((held.0@, held.1@)),
        None => pair is None,
    }
}

/// A credential that writes the token request of its grant.
pub trait AuthorizationSerializer: Sized {
    /// The text of the token endpoint on the host.
    spec fn endpoint(&self, host: AzureCloudInstance) -> Seq<char>;

    /// Why the form cannot be built; nothing where it can.
    spec fn form_failure(&self) -> Option<FailureView>;

    /// The fields of the form, in the order of the grant's table.
    spec fn form_fields(&self) -> Seq<Pair>;

    /// The identifier and the secret for HTTP Basic authentication, where
    /// the grant has them.
    spec fn basic_auth_pair(&self) -> Option<Pair>;

    /// The URL of the token endpoint on the host.
    fn uri(&mut self, azure_authority_host: &AzureCloudInstance) -> (r: Result<
        Url,
        AuthorizationFailure,
    >)
        ensures
            *final(self) == *old(self),
            read_as(old(self).endpoint(*azure_authority_host), r),
    ;

    /// The fields of the token request's body.
    fn form(&mut self) -> (r: Result<Vec<(String, String)>, AuthorizationFailure>)
        ensures
            *final(self) == *old(self),
            built_as(old(self).form_failure(), old(self).form_fields(), r),
    ;

    /// The identifier and the secret for HTTP Basic authentication.
    fn basic_auth(&self) -> (r: Option<(String, String)>)
        ensures
            pair_as(self.basic_auth_pair(), r),
    ;
}

/// A credential that knows where its token requests are sent.
pub trait TokenRequest: AuthorizationSerializer {
    /// The host that the credential sends its requests to.
    spec fn host(&self) -> AzureCloudInstance;

    fn token_credential_options(&self) -> (r: &TokenCredentialOptions)
        ensures
            r.azure_authority_host == self.host(),
    ;
}

/// A token request as it is handed to the transport.
#[derive(Debug)]
pub struct PreparedRequest {
    /// The URL of the token endpoint.
    pub uri: Url,
    /// The fields of the body, to be sent as
    /// `application/x-www-form-urlencoded`.
    pub form: Vec<(String, String)>,
    /// The identifier and the secret for HTTP Basic authentication. Where
    /// there is none, the body alone authenticates the client.
    pub basic_auth: Option<(String, String)>,
}

/// Whether `r` is the token request of the credential: the failure to read
/// the endpoint, else the failure to build the form, else the URL, the form
/// and the pair for Basic authentication.
pub open spec fn prepared_as<C: TokenRequest>(
    credential: C,
    r: Result<PreparedRequest, AuthorizationFailure>,
) -> bool {
    let text = credential.endpoint(credential.host());
    match r {
        Ok(request) => {
            &&& url_parsed(text) == Some(request.uri@)
            &&& credential.form_failure() is None
            &&& pair_views(request.form@) == credential.form_fields()
            &&& pair_as(credential.basic_auth_pair(), request.basic_auth)
        },
        Err(e) => if url_parsed(text) is None {
            e@ == malformed(text)
        } else {
            credential.form_failure() == Some(e@)
        },
    }
}

/// The token request of a credential, ready to be sent. Nothing is sent
/// here, and nothing is built where a check fails.
pub fn prepare_token_request<C: TokenRequest>(credential: &mut C) -> (r: Result<
    PreparedRequest,
    AuthorizationFailure,
>)
    ensures
        *final(credential) == *old(credential),
        prepared_as(*old(credential), r),
{
    let options = *credential.token_credential_options();
    let uri = match credential.uri(&options.azure_authority_host) {
        Ok(uri) => uri,
        Err(e) => {
            return Err(e);
        },
    };
    let form = match credential.form() {
        Ok(form) => form,
        Err(e) => {
            return Err(e);
        },
    };
    let basic_auth = credential.basic_auth();
    Ok(PreparedRequest { uri, form, basic_auth })
}

/// A credential behind one interface, whatever its grant.
pub trait TokenCredentialExecutor: Sized {
    /// The text of the token endpoint.
    spec fn target(&self) -> Seq<char>;

    /// Why the form cannot be built; nothing where it can.
    spec fn failure(&self) -> Option<FailureView>;

    /// The fields of the form, in the order of the grant's table.
    spec fn fields(&self) -> Seq<Pair>;

    /// The identifier and the secret for HTTP Basic authentication, where
    /// the grant has them.
    spec fn basic_pair(&self) -> Option<Pair>;

    /// The identifier of the client.
    spec fn client(&self) -> Seq<char>;

    /// The authority of the credential.
    spec fn realm(&self) -> AuthorityView;

    /// The cloud of the credential.
    spec fn cloud(&self) -> AzureCloudInstance;

    /// The URL of the token endpoint.
    fn uri(&mut self) -> (r: Result<Url, AuthorizationFailure>)
        ensures
            *final(self) == *old(self),
            read_as(old(self).target(), r),
    ;

    /// The fields of the token request's body.
    fn form_urlencode(&mut self) -> (r: Result<Vec<(String, String)>, AuthorizationFailure>)
        ensures
            *final(self) == *old(self),
            built_as(old(self).failure(), old(self).fields(), r),
    ;

    fn client_id(&self) -> (r: &String)
        ensures
            r@ == self.client(),
    ;

    fn authority(&self) -> (r: Authority)
        ensures
            r@ == self.realm(),
    ;

    fn azure_cloud_instance(&self) -> (r: AzureCloudInstance)
        ensures
            r == self.cloud(),
    ;

    /// The identifier and the secret for HTTP Basic authentication.
    fn basic_auth(&self) -> (r: Option<(String, String)>)
        ensures
            pair_as(self.basic_pair(), r),
    ;
}

} // verus!
