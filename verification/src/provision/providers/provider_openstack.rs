//! An OpenStack provider: it can be configured, but creates nothing yet.
use vstd::prelude::*;
use crate::provision::provision_common::{ProvisionActionResult, ProvisionActionType};
use crate::provision::provision_params::ProvisionParams;
use crate::provision::provision_provider::{failed, failed_result, HttpReply, ProvisionProvider, ProvisionStep, ResultV};
use crate::text::{chars_of, owned, string_of, trim, trim_chars};

verus! {

/// The settings of an OpenStack endpoint.
pub struct ProviderOpenStack {
    pub openstack_endpoint_uri: String,
    pub openstack_username: String,
    pub openstack_api_token: String,
    pub openstack_tenant_name: String,
}

impl ProviderOpenStack {
    pub fn new() -> (r: ProviderOpenStack)
        ensures
            r.openstack_endpoint_uri@.len() == 0,
            r.openstack_username@.len() == 0,
            r.openstack_api_token@.len() == 0,
            r.openstack_tenant_name@.len() == 0,
    {
        ProviderOpenStack {
            openstack_endpoint_uri: String::new(),
            openstack_username: String::new(),
            openstack_tenant_name: String::new(),
            openstack_api_token: String::new(),
        }
    }

    /// Takes, in turn, the endpoint (trimmed) from `PROD_OS_ENDPOINT_URI`,
    /// the user from `PROD_OS_USERNAME`, the token from `PROD_OS_API_TOKEN`
    /// and the tenant from `PROD_OS_TENANT_NAME`, stopping at the first that
    /// is not set; true when all four are.
    pub fn configure(
        &mut self,
        endpoint_uri: Option<&str>,
        username: Option<&str>,
        api_token: Option<&str>,
        tenant_name: Option<&str>,
    ) -> (r: bool)
        ensures
            r == (endpoint_uri is Some && username is Some && api_token is Some && tenant_name is Some),
            final(self).openstack_endpoint_uri@ == match endpoint_uri {
                Some(e) => trim(e@),
                None => old(self).openstack_endpoint_uri@,
            },
            final(self).openstack_username@ == match (endpoint_uri, username) {
                (Some(_), Some(u)) => u@,
                _ => old(self).openstack_username@,
            },
            final(self).openstack_api_token@ == match (endpoint_uri, username, api_token) {
                (Some(_), Some(_), Some(t)) => t@,
                _ => old(self).openstack_api_token@,
            },
            final(self).openstack_tenant_name@ == match (endpoint_uri, username, api_token, tenant_name) {
                (Some(_), Some(_), Some(_), Some(n)) => n@,
                _ => old(self).openstack_tenant_name@,
            },
    {
        let e = match endpoint_uri {
            Some(e) => e,
            None => {
                return false;
            },
        };
        let c = chars_of(e);
        self.openstack_endpoint_uri = string_of(trim_chars(c.as_slice()).as_slice());
        let u = match username {
            Some(u) => u,
            None => {
                return false;
            },
        };
        self.openstack_username = owned(u);
        let t = match api_token {
            Some(t) => t,
            None => {
                return false;
            },
        };
        self.openstack_api_token = owned(t);
        let n = match tenant_name {
            Some(n) => n,
            None => {
                return false;
            },
        };
        self.openstack_tenant_name = owned(n);
        true
    }
}

pub open spec fn openstack_required(action: ProvisionActionType) -> Seq<Seq<char>> {
    if action == ProvisionActionType::CreateInstance {
        seq!["availability_zone"@, "flavorRef"@, "imageRef"@, "name"@]
    } else {
        seq![]
    }
}

impl ProvisionProvider for ProviderOpenStack {
    fn name(&self) -> (r: String)
        ensures
            r@ == "openstack"@,
    {
        owned("openstack")
    }

    fn supports_interactive(&self) -> (r: bool)
        ensures
            !r,
    {
        false
    }

    fn prompt_interactive(&self) -> (r: Vec<(String, String)>)
        ensures
            r@.len() == 0,
    {
        Vec::new()
    }

    fn is_configured(&self) -> (r: bool)
        ensures
            r == (self.openstack_endpoint_uri@.len() > 0),
    {
        self.openstack_endpoint_uri.as_str().unicode_len() > 0
    }

    fn get_required_params_for_action(&self, action: ProvisionActionType) -> (r: Vec<String>)
        ensures
            crate::params::strings_view(r@) == openstack_required(action),
    {
        let mut v: Vec<String> = Vec::new();
        if action == ProvisionActionType::CreateInstance {
            v.push(owned("availability_zone"));
            v.push(owned("flavorRef"));
            v.push(owned("imageRef"));
            v.push(owned("name"));
        }
        assert(crate::params::strings_view(v@) =~= openstack_required(action));
        v
    }

    /// Creating an instance is not done yet: it fails at once.
    fn create_instance(&self, params: &ProvisionParams, dry_run: bool, replies: &Vec<HttpReply>) -> (r: ProvisionStep)
        ensures
            r@ == crate::provision::provision_provider::ProvisionStepV::Finished(failed()),
    {
        ProvisionStep::Finished(failed_result())
    }

    /// Deleting is not offered.
    fn delete_instance(&self, params: &ProvisionParams, dry_run: bool, replies: &Vec<HttpReply>) -> (r: ProvisionStep)
        ensures
            r@ == crate::provision::provision_provider::ProvisionStepV::Finished(ResultV::NotSupported),
    {
        ProvisionStep::Finished(ProvisionActionResult::NotSupported)
    }
}

} // verus!
