//! What identifies an application to the identity platform.

use vstd::prelude::*;
use vstd::string::StringExecFns;

use crate::authority::Authority;
use crate::authority::AuthorityView;
use crate::authority::AzureCloudInstance;
use crate::client_id::client_id_or_nil;
use crate::client_id::uuid_parsed;
use crate::client_id::NIL;
use crate::form_urlencoded::clone_pairs;
use crate::form_urlencoded::pair_views;
use crate::form_urlencoded::Pair;
use crate::text::clone_opt;
use crate::text::opt_view;
use crate::url_text::Url;
use crate::url_text::UrlView;

verus! {

/// The identity of an application: who it is, which directory signs its
/// users in, which cloud serves it and where answers are sent.
#[derive(Debug)]
pub struct AppConfig {
    /// The directory of the application, where one was named.
    pub tenant_id: Option<String>,
    /// The value of the application's UUID; that of the nil UUID where
    /// none is set.
    pub client_id: u128,
    pub authority: Authority,
    pub azure_cloud_instance: AzureCloudInstance,
    /// Parameters that are handed on with a request's query as they are.
    pub extra_query_parameters: Vec<(String, String)>,
    /// Parameters that are handed on with a request's headers as they are.
    pub extra_header_parameters: Vec<(String, String)>,
    /// Where the identity platform sends its answers.
    pub redirect_uri: Option<Url>,
}

/// An `AppConfig` over sequences of characters.
pub struct AppConfigView {
    pub tenant_id: Option<Seq<char>>,
    pub client_id: u128,
    pub authority: AuthorityView,
    pub azure_cloud_instance: AzureCloudInstance,
    pub extra_query_parameters: Seq<Pair>,
    pub extra_header_parameters: Seq<Pair>,
    pub redirect_uri: Option<UrlView>,
}

/// The view of a URL that may be absent.
pub open spec fn opt_url_view(url: Option<Url>) -> Option<UrlView> {
    match url {
        Some(u) => Some(u@),
        None => None,
    }
}

impl View for AppConfig {
    type V = AppConfigView;

    open spec fn view(&self) -> AppConfigView {
        AppConfigView {
            tenant_id: opt_view(self.tenant_id),
            client_id: self.client_id,
            authority: self.authority@,
            azure_cloud_instance: self.azure_cloud_instance,
            extra_query_parameters: pair_views(self.extra_query_parameters@),
            extra_header_parameters: pair_views(self.extra_header_parameters@),
            redirect_uri: opt_url_view(self.redirect_uri),
        }
    }
}

impl AppConfigView {
    /// The configuration of an application of which only its identifier,
    /// its directory and its redirect URI are known. A directory that is
    /// named is the authority; else the authority is the common one.
    pub open spec fn initial(
        client_id: u128,
        tenant: Option<Seq<char>>,
        redirect_uri: Option<UrlView>,
    ) -> AppConfigView {
        AppConfigView {
            tenant_id: tenant,
            client_id,
            authority: match tenant {
                Some(t) => AuthorityView::TenantId(t),
                None => AuthorityView::Common,
            },
            azure_cloud_instance: AzureCloudInstance::AzurePublic,
            extra_query_parameters: Seq::empty(),
            extra_header_parameters: Seq::empty(),
            redirect_uri,
        }
    }
}

impl Clone for AppConfig {
    fn clone(&self) -> (r: AppConfig)
        ensures
            r@ == self@,
    {
        AppConfig {
            tenant_id: clone_opt(&self.tenant_id),
            client_id: self.client_id,
            authority: self.authority.clone(),
            azure_cloud_instance: self.azure_cloud_instance,
            extra_query_parameters: clone_pairs(&self.extra_query_parameters),
            extra_header_parameters: clone_pairs(&self.extra_header_parameters),
            redirect_uri: match &self.redirect_uri {
                Some(url) => Some(url.clone()),
                None => None,
            },
        }
    }
}

impl AppConfig {
    /// The configuration of an application of which only its identifier,
    /// its directory and its redirect URI are known.
    pub fn new_init(client_id: u128, tenant: Option<&str>, redirect_uri: Option<Url>) -> (r:
        AppConfig)
        ensures
            r@ == AppConfigView::initial(
                client_id,
                match tenant {
                    Some(t) => Some(t@),
                    None => None,
                },
                opt_url_view(redirect_uri),
            ),
    {
        let r = AppConfig {
            tenant_id: match tenant {
                Some(t) => Some(String::from_str(t)),
                None => None,
            },
            client_id,
            authority: match tenant {
                Some(t) => Authority::tenant(t),
                None => Authority::Common,
            },
            azure_cloud_instance: AzureCloudInstance::AzurePublic,
            extra_query_parameters: Vec::new(),
            extra_header_parameters: Vec::new(),
            redirect_uri,
        };
        assert(pair_views(r.extra_query_parameters@) =~= Seq::empty());
        assert(pair_views(r.extra_header_parameters@) =~= Seq::empty());
        r
    }

    /// The configuration of the application with the given identifier. A
    /// text that holds no UUID gives the nil identifier.
    pub fn new_with_client_id(client_id: &str) -> (r: AppConfig)
        ensures
            r@ == AppConfigView::initial(
                match uuid_parsed(client_id@) {
                    Some(value) => value,
                    None => NIL,
                },
                None,
                None,
            ),
    {
        AppConfig::new_init(client_id_or_nil(client_id), None, None)
    }
}

} // verus!
