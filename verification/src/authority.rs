//! Which directory a request is for and which cloud serves it, and the
//! endpoints that the two select.

use vstd::prelude::*;
use vstd::std_specs::cmp::PartialEqSpecImpl;
use vstd::string::StringExecFns;

verus! {

/// The directory, or realm, that signs the user in.
#[derive(Debug)]
pub enum Authority {
    /// Work, school and personal accounts.
    Common,
    /// Work and school accounts.
    Organizations,
    /// Personal accounts.
    Consumers,
    /// One directory, by its id or domain.
    TenantId(String),
    /// An on-premises federation service.
    AzureDirectoryFederatedServices,
}

/// An `Authority` over sequences of characters.
pub enum AuthorityView {
    Common,
    Organizations,
    Consumers,
    TenantId(Seq<char>),
    AzureDirectoryFederatedServices,
}

impl AuthorityView {
    /// The path segment that stands for the authority in an endpoint.
    pub open spec fn segment(self) -> Seq<char> {
        match self {
            AuthorityView::Common => "common"@,
            AuthorityView::Organizations => "organizations"@,
            AuthorityView::Consumers => "consumers"@,
            AuthorityView::TenantId(tenant) => tenant,
            AuthorityView::AzureDirectoryFederatedServices => "adfs"@,
        }
    }
}

impl View for Authority {
    type V = AuthorityView;

    open spec fn view(&self) -> AuthorityView {
        match self {
            Authority::Common => AuthorityView::Common,
            Authority::Organizations => AuthorityView::Organizations,
            Authority::Consumers => AuthorityView::Consumers,
            Authority::TenantId(tenant) => AuthorityView::TenantId(tenant@),
            Authority::AzureDirectoryFederatedServices => {
                AuthorityView::AzureDirectoryFederatedServices
            },
        }
    }
}

impl PartialEq for Authority {
    fn eq(&self, other: &Authority) -> (r: bool) {
        match self {
            Authority::Common => match other {
                Authority::Common => true,
                _ => false,
            },
            Authority::Organizations => match other {
                Authority::Organizations => true,
                _ => false,
            },
            Authority::Consumers => match other {
                Authority::Consumers => true,
                _ => false,
            },
            Authority::TenantId(tenant) => match other {
                Authority::TenantId(other_tenant) => *tenant == *other_tenant,
                _ => false,
            },
            Authority::AzureDirectoryFederatedServices => match other {
                Authority::AzureDirectoryFederatedServices => true,
                _ => false,
            },
        }
    }
}

impl PartialEqSpecImpl for Authority {
    open spec fn obeys_eq_spec() -> bool {
        true
    }

    open spec fn eq_spec(&self, other: &Authority) -> bool {
        self@ == other@
    }
}

impl Default for Authority {
    fn default() -> (r: Authority)
        ensures
            r@ == AuthorityView::Common,
    {
        Authority::Common
    }
}

impl Authority {
    /// The path segment that stands for the authority in an endpoint.
    pub fn as_ref(&self) -> (r: &str)
        ensures
            r@ == self@.segment(),
    {
        match self {
            Authority::Common => "common",
            Authority::Organizations => "organizations",
            Authority::Consumers => "consumers",
            Authority::TenantId(tenant) => tenant.as_str(),
            Authority::AzureDirectoryFederatedServices => "adfs",
        }
    }

    /// The authority for one directory.
    pub fn tenant(tenant: &str) -> (r: Authority)
        ensures
            r@ == AuthorityView::TenantId(tenant@),
    {
        Authority::TenantId(String::from_str(tenant))
    }
}

impl Clone for Authority {
    fn clone(&self) -> (r: Authority)
        ensures
            r@ == self@,
    {
        match self {
            Authority::Common => Authority::Common,
            Authority::Organizations => Authority::Organizations,
            Authority::Consumers => Authority::Consumers,
            Authority::TenantId(tenant) => Authority::TenantId(tenant.clone()),
            Authority::AzureDirectoryFederatedServices => {
                Authority::AzureDirectoryFederatedServices
            },
        }
    }
}

/// The cloud whose sign-in host serves the request.
#[derive(Clone, Copy, Debug, PartialEq, Eq, Structural)]
pub enum AzureCloudInstance {
    /// The public cloud.
    AzurePublic,
    /// The cloud operated in China.
    AzureChina,
    /// The cloud operated in Germany.
    AzureGermany,
    /// The cloud for the US government.
    AzureUsGovernment,
}

impl AzureCloudInstance {
    /// The base URL of the cloud's sign-in host.
    pub open spec fn host(self) -> Seq<char> {
        match self {
            AzureCloudInstance::AzurePublic => "https://login.microsoftonline.com"@,
            AzureCloudInstance::AzureChina => "https://login.chinacloudapi.cn"@,
            AzureCloudInstance::AzureGermany => "https://login.microsoftonline.de"@,
            AzureCloudInstance::AzureUsGovernment => "https://login.microsoftonline.us"@,
        }
    }

    /// The base URL of the cloud's sign-in host.
    pub fn as_ref(&self) -> (r: &str)
        ensures
            r@ == self.host(),
    {
        match self {
            AzureCloudInstance::AzurePublic => "https://login.microsoftonline.com",
            AzureCloudInstance::AzureChina => "https://login.chinacloudapi.cn",
            AzureCloudInstance::AzureGermany => "https://login.microsoftonline.de",
            AzureCloudInstance::AzureUsGovernment => "https://login.microsoftonline.us",
        }
    }
}

impl Default for AzureCloudInstance {
    fn default() -> (r: AzureCloudInstance)
        ensures
            r == AzureCloudInstance::AzurePublic,
    {
        AzureCloudInstance::AzurePublic
    }
}

/// The endpoint `leaf` of an authority on a host: the host, the authority's
/// segment, `oauth2/v2.0` and the leaf, with `/` between them.
pub open spec fn endpoint(host: AzureCloudInstance, authority: AuthorityView, leaf: Seq<char>) -> Seq<
    char,
> {
    host.host() + "/"@ + authority.segment() + "/oauth2/v2.0/"@ + leaf
}

/// The endpoint that the user is sent to for authorization.
pub open spec fn authorize_endpoint(host: AzureCloudInstance, authority: AuthorityView) -> Seq<
    char,
> {
    endpoint(host, authority, "authorize"@)
}

/// The endpoint that exchanges a grant for tokens.
pub open spec fn token_endpoint(host: AzureCloudInstance, authority: AuthorityView) -> Seq<char> {
    endpoint(host, authority, "token"@)
}

fn endpoint_url(host: &AzureCloudInstance, authority: &Authority, leaf: &str) -> (r: String)
    ensures
        r@ == endpoint(*host, authority@, leaf@),
{
    let mut out = String::from_str(host.as_ref());
    out.append("/");
    out.append(authority.as_ref());
    out.append("/oauth2/v2.0/");
    out.append(leaf);
    out
}

/// The URL of the authorization endpoint; no look-up is made.
pub fn authorization_url(host: &AzureCloudInstance, authority: &Authority) -> (r: String)
    ensures
        r@ == authorize_endpoint(*host, authority@),
{
    endpoint_url(host, authority, "authorize")
}

/// The URL of the token endpoint; no look-up is made.
pub fn token_url(host: &AzureCloudInstance, authority: &Authority) -> (r: String)
    ensures
        r@ == token_endpoint(*host, authority@),
{
    endpoint_url(host, authority, "token")
}

} // verus!
