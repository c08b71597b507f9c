//! The provisioning providers on offer, and the dispatch of a request to the
//! one it names.
use vstd::prelude::*;
use crate::keyed::{entry_find, entry_lookup, lemma_entry_index};
use crate::params::strings_view;
use crate::provision::provision_common::{ProvisionActionResult, ProvisionActionType};
use crate::provision::provision_params::ProvisionParams;
use crate::provision::provision_provider::{
    delete_step, failed, failed_result, http_replies_view, HttpReply, HttpRequest, HttpRequestV, ProvisionProvider,
    ProvisionStep, ProvisionStepV, ResultV,
};
use crate::provision::providers::provider_binary_lane::{
    lemma_server_create_requests_bounded, server_create_step, server_required, servers_url, ProviderBinaryLane,
};
use crate::provision::providers::provider_digital_ocean::{
    droplet_create_step, lemma_droplet_create_requests_bounded, droplet_required, ProviderDigitalOcean};
use crate::provision::providers::provider_linode::{
    lemma_linode_create_requests_bounded, linode_create_step, linode_instances_url, linode_required, ProviderLinode,
};
use crate::provision::providers::provider_openstack::{openstack_required, ProviderOpenStack};
use crate::provision::providers::provider_vultr::{
    lemma_vultr_create_requests_bounded, value_or, vultr_create_step, vultr_instances_url, vultr_required, ProviderVultr,
};
use crate::provision::listing::{list_lines, list_lines_spec, ListKind};
use crate::text::{concat2, owned, str_eq, trim};

verus! {

/// What a provider can list.
#[derive(Clone, Copy, Debug, PartialEq, Eq, Structural)]
pub enum ListType {
    Plans,
    Regions,
    OSs,
    Other,
}

/// One of the providers, with its settings.
pub enum ProvisionProviderChoice {
    BinaryLane(ProviderBinaryLane),
    DigitalOcean(ProviderDigitalOcean),
    Linode(ProviderLinode),
    OpenStack(ProviderOpenStack),
    Vultr(ProviderVultr),
}

impl ProvisionProviderChoice {
    pub open spec fn name_spec(&self) -> Seq<char> {
        match self {
            ProvisionProviderChoice::BinaryLane(_) => "binary_lane"@,
            ProvisionProviderChoice::DigitalOcean(_) => "digital_ocean"@,
            ProvisionProviderChoice::Linode(_) => "linode"@,
            ProvisionProviderChoice::OpenStack(_) => "openstack"@,
            ProvisionProviderChoice::Vultr(_) => "vultr"@,
        }
    }

    /// A provider is configured once it has its token (OpenStack: its
    /// endpoint).
    pub open spec fn configured_spec(&self) -> bool {
        match self {
            ProvisionProviderChoice::BinaryLane(p) => p.binary_lane_api_token@.len() > 0,
            ProvisionProviderChoice::DigitalOcean(p) => p.digital_ocean_api_token@.len() > 0,
            ProvisionProviderChoice::Linode(p) => p.linode_api_key@.len() > 0,
            ProvisionProviderChoice::OpenStack(p) => p.openstack_endpoint_uri@.len() > 0,
            ProvisionProviderChoice::Vultr(p) => p.vultr_api_key@.len() > 0,
        }
    }

    pub open spec fn required_spec(&self, action: ProvisionActionType) -> Seq<Seq<char>> {
        match self {
            ProvisionProviderChoice::BinaryLane(_) => server_required(action),
            ProvisionProviderChoice::DigitalOcean(_) => droplet_required(action),
            ProvisionProviderChoice::Linode(_) => linode_required(action),
            ProvisionProviderChoice::OpenStack(_) => openstack_required(action),
            ProvisionProviderChoice::Vultr(_) => vultr_required(action),
        }
    }

    pub open spec fn create_spec(&self, params: ProvisionParams, rs: Seq<crate::provision::provision_provider::HttpReplyV>) -> ProvisionStepV {
        match self {
            ProvisionProviderChoice::BinaryLane(p) => server_create_step(p.binary_lane_api_token@, params, rs),
            ProvisionProviderChoice::DigitalOcean(p) => droplet_create_step(p.digital_ocean_api_token@, params, rs),
            ProvisionProviderChoice::Linode(p) => linode_create_step(p.linode_api_key@, params, rs),
            ProvisionProviderChoice::OpenStack(_) => ProvisionStepV::Finished(failed()),
            ProvisionProviderChoice::Vultr(p) => vultr_create_step(p.vultr_api_key@, params, rs),
        }
    }

    pub open spec fn delete_spec(&self, params: ProvisionParams, rs: Seq<crate::provision::provision_provider::HttpReplyV>) -> ProvisionStepV {
        let id = value_or(params, "instance_id"@, seq![]);
        match self {
            ProvisionProviderChoice::BinaryLane(p) => delete_step(servers_url() + "/"@ + id, p.binary_lane_api_token@, rs),
            ProvisionProviderChoice::DigitalOcean(_) => ProvisionStepV::Finished(ResultV::NotSupported),
            ProvisionProviderChoice::Linode(p) => delete_step(linode_instances_url() + "/"@ + id, p.linode_api_key@, rs),
            ProvisionProviderChoice::OpenStack(_) => ProvisionStepV::Finished(ResultV::NotSupported),
            ProvisionProviderChoice::Vultr(p) => delete_step(vultr_instances_url() + "/"@ + id, p.vultr_api_key@, rs),
        }
    }

    /// The request that lists what the provider offers, if it can.
    pub open spec fn list_spec(&self, list_type: ListType) -> Option<HttpRequestV> {
        let path = match list_type {
            ListType::Plans => "plans"@,
            ListType::Regions => "regions"@,
            ListType::OSs => "os"@,
            ListType::Other => seq![],
        };
        if list_type == ListType::Other {
            None
        } else {
            match self {
                ProvisionProviderChoice::BinaryLane(p) => {
                    let url = "https://api.binarylane.com.au/v2/"@ + match list_type {
                        ListType::Plans => "sizes"@,
                        ListType::Regions => "regions"@,
                        _ => "images"@,
                    };
                    if list_type == ListType::OSs {
                        if p.binary_lane_api_token@.len() == 0 {
                            None
                        } else {
                            Some(HttpRequestV::Get(url, Some(p.binary_lane_api_token@)))
                        }
                    } else {
                        Some(HttpRequestV::Get(url, None))
                    }
                },
                ProvisionProviderChoice::DigitalOcean(p) => if p.digital_ocean_api_token@.len() == 0 {
                    None
                } else {
                    Some(HttpRequestV::Get(
                        "https://api.digitalocean.com/v2/"@ + match list_type {
                            ListType::Plans => "sizes"@,
                            ListType::Regions => "regions"@,
                            _ => "images"@,
                        },
                        Some(p.digital_ocean_api_token@),
                    ))
                },
                ProvisionProviderChoice::Linode(_) => Some(HttpRequestV::Get(
                    match list_type {
                        ListType::Plans => "https://api.linode.com/v4/linode/types"@,
                        ListType::Regions => "https://api.linode.com/v4/regions"@,
                        _ => "https://api.linode.com/v4/images"@,
                    },
                    None,
                )),
                ProvisionProviderChoice::OpenStack(p) => Some(HttpRequestV::Get(
                    p.openstack_endpoint_uri@ + match list_type {
                        ListType::Plans => "/flavors"@,
                        ListType::Regions => "/os-availability-zone"@,
                        _ => "images"@,
                    },
                    None,
                )),
                ProvisionProviderChoice::Vultr(_) => Some(HttpRequestV::Get("https://api.vultr.com/v2/"@ + path, None)),
            }
        }
    }

    pub fn name(&self) -> (r: String)
        ensures
            r@ == self.name_spec(),
    {
        match self {
            ProvisionProviderChoice::BinaryLane(p) => p.name(),
            ProvisionProviderChoice::DigitalOcean(p) => p.name(),
            ProvisionProviderChoice::Linode(p) => p.name(),
            ProvisionProviderChoice::OpenStack(p) => p.name(),
            ProvisionProviderChoice::Vultr(p) => p.name(),
        }
    }

    pub fn is_configured(&self) -> (r: bool)
        ensures
            r == self.configured_spec(),
    {
        match self {
            ProvisionProviderChoice::BinaryLane(p) => p.is_configured(),
            ProvisionProviderChoice::DigitalOcean(p) => p.is_configured(),
            ProvisionProviderChoice::Linode(p) => p.is_configured(),
            ProvisionProviderChoice::OpenStack(p) => p.is_configured(),
            ProvisionProviderChoice::Vultr(p) => p.is_configured(),
        }
    }

    pub fn get_required_params_for_action(&self, action: ProvisionActionType) -> (r: Vec<String>)
        ensures
            strings_view(r@) == self.required_spec(action),
    {
        match self {
            ProvisionProviderChoice::BinaryLane(p) => p.get_required_params_for_action(action),
            ProvisionProviderChoice::DigitalOcean(p) => p.get_required_params_for_action(action),
            ProvisionProviderChoice::Linode(p) => p.get_required_params_for_action(action),
            ProvisionProviderChoice::OpenStack(p) => p.get_required_params_for_action(action),
            ProvisionProviderChoice::Vultr(p) => p.get_required_params_for_action(action),
        }
    }

    pub fn create_instance(&self, params: &ProvisionParams, dry_run: bool, replies: &Vec<HttpReply>) -> (r: ProvisionStep)
        ensures
            r@ == self.create_spec(*params, http_replies_view(replies@)),
    {
        match self {
            ProvisionProviderChoice::BinaryLane(p) => p.create_instance(params, dry_run, replies),
            ProvisionProviderChoice::DigitalOcean(p) => p.create_instance(params, dry_run, replies),
            ProvisionProviderChoice::Linode(p) => p.create_instance(params, dry_run, replies),
            ProvisionProviderChoice::OpenStack(p) => p.create_instance(params, dry_run, replies),
            ProvisionProviderChoice::Vultr(p) => p.create_instance(params, dry_run, replies),
        }
    }

    pub fn delete_instance(&self, params: &ProvisionParams, dry_run: bool, replies: &Vec<HttpReply>) -> (r: ProvisionStep)
        ensures
            r@ == self.delete_spec(*params, http_replies_view(replies@)),
    {
        match self {
            ProvisionProviderChoice::BinaryLane(p) => p.delete_instance(params, dry_run, replies),
            ProvisionProviderChoice::DigitalOcean(p) => p.delete_instance(params, dry_run, replies),
            ProvisionProviderChoice::Linode(p) => p.delete_instance(params, dry_run, replies),
            ProvisionProviderChoice::OpenStack(p) => p.delete_instance(params, dry_run, replies),
            ProvisionProviderChoice::Vultr(p) => p.delete_instance(params, dry_run, replies),
        }
    }

    /// The request that lists what the provider offers; none for `Other`,
    /// or where the list needs a token that is not set.
    pub fn list_request(&self, list_type: ListType) -> (r: Option<HttpRequest>)
        ensures
            match r {
                Some(q) => self.list_spec(list_type) == Some(q@),
                None => self.list_spec(list_type) is None,
            },
    {
        if list_type == ListType::Other {
            return None;
        }
        match self {
            ProvisionProviderChoice::BinaryLane(p) => {
                let path = match list_type {
                    ListType::Plans => "sizes",
                    ListType::Regions => "regions",
                    _ => "images",
                };
                let url = concat2("https://api.binarylane.com.au/v2/", path);
                if list_type == ListType::OSs {
                    if p.binary_lane_api_token.as_str().unicode_len() == 0 {
                        None
                    } else {
                        Some(HttpRequest::Get(url, Some(owned(p.binary_lane_api_token.as_str()))))
                    }
                } else {
                    Some(HttpRequest::Get(url, None))
                }
            },
            ProvisionProviderChoice::DigitalOcean(p) => {
                if p.digital_ocean_api_token.as_str().unicode_len() == 0 {
                    return None;
                }
                let path = match list_type {
                    ListType::Plans => "sizes",
                    ListType::Regions => "regions",
                    _ => "images",
                };
                Some(HttpRequest::Get(
                    concat2("https://api.digitalocean.com/v2/", path),
                    Some(owned(p.digital_ocean_api_token.as_str())),
                ))
            },
            ProvisionProviderChoice::Linode(_) => {
                let url = match list_type {
                    ListType::Plans => "https://api.linode.com/v4/linode/types",
                    ListType::Regions => "https://api.linode.com/v4/regions",
                    _ => "https://api.linode.com/v4/images",
                };
                Some(HttpRequest::Get(owned(url), None))
            },
            ProvisionProviderChoice::OpenStack(p) => {
                let path = match list_type {
                    ListType::Plans => "/flavors",
                    ListType::Regions => "/os-availability-zone",
                    _ => "images",
                };
                Some(HttpRequest::Get(concat2(p.openstack_endpoint_uri.as_str(), path), None))
            },
            ProvisionProviderChoice::Vultr(_) => {
                let path = match list_type {
                    ListType::Plans => "plans",
                    ListType::Regions => "regions",
                    _ => "os",
                };
                Some(HttpRequest::Get(concat2("https://api.vultr.com/v2/", path), None))
            },
        }
    }
}

/// How a list reply is printed: as lines, not at all because it cannot be
/// read, as it came, or as a table of prices left to the program.
pub enum ListOutput {
    Lines(Vec<String>),
    Unreadable,
    Raw,
    Prices,
}

pub enum ListOutputV {
    Lines(Seq<Seq<char>>),
    Unreadable,
    Raw,
    Prices,
}

impl View for ListOutput {
    type V = ListOutputV;

    open spec fn view(&self) -> ListOutputV {
        match self {
            ListOutput::Lines(v) => ListOutputV::Lines(strings_view(v@)),
            ListOutput::Unreadable => ListOutputV::Unreadable,
            ListOutput::Raw => ListOutputV::Raw,
            ListOutput::Prices => ListOutputV::Prices,
        }
    }
}

/// The list a provider prints from its items; Binary Lane and Digital
/// Ocean plans carry prices, and OpenStack prints its replies as they came.
pub open spec fn list_kind(p: ProvisionProviderChoice, t: ListType) -> Option<ListKind> {
    match (p, t) {
        (ProvisionProviderChoice::Vultr(_), ListType::Regions) => Some(ListKind::VultrRegions),
        (ProvisionProviderChoice::Vultr(_), ListType::Plans) => Some(ListKind::VultrPlans),
        (ProvisionProviderChoice::Vultr(_), ListType::OSs) => Some(ListKind::VultrOSs),
        (ProvisionProviderChoice::Linode(_), ListType::Regions) => Some(ListKind::LinodeRegions),
        (ProvisionProviderChoice::Linode(_), ListType::Plans) => Some(ListKind::LinodePlans),
        (ProvisionProviderChoice::Linode(_), ListType::OSs) => Some(ListKind::LinodeOSs),
        (ProvisionProviderChoice::BinaryLane(_), ListType::Regions) => Some(ListKind::BinaryLaneRegions),
        (ProvisionProviderChoice::BinaryLane(_), ListType::OSs) => Some(ListKind::BinaryLaneOSs),
        (ProvisionProviderChoice::DigitalOcean(_), ListType::Regions) => Some(ListKind::DigitalOceanRegions),
        (ProvisionProviderChoice::DigitalOcean(_), ListType::OSs) => Some(ListKind::DigitalOceanOSs),
        _ => None,
    }
}

pub open spec fn list_output_spec(p: ProvisionProviderChoice, t: ListType, body: Seq<char>) -> ListOutputV {
    match list_kind(p, t) {
        Some(k) => match list_lines_spec(k, body) {
            Some(ls) => ListOutputV::Lines(ls),
            None => ListOutputV::Unreadable,
        },
        None => if t == ListType::Plans && (p is BinaryLane || p is DigitalOcean) {
            ListOutputV::Prices
        } else {
            ListOutputV::Raw
        },
    }
}

impl ProvisionProviderChoice {
    fn list_kind_exec(&self, t: ListType) -> (r: Option<ListKind>)
        ensures
            r == list_kind(*self, t),
    {
        match (self, t) {
            (ProvisionProviderChoice::Vultr(_), ListType::Regions) => Some(ListKind::VultrRegions),
            (ProvisionProviderChoice::Vultr(_), ListType::Plans) => Some(ListKind::VultrPlans),
            (ProvisionProviderChoice::Vultr(_), ListType::OSs) => Some(ListKind::VultrOSs),
            (ProvisionProviderChoice::Linode(_), ListType::Regions) => Some(ListKind::LinodeRegions),
            (ProvisionProviderChoice::Linode(_), ListType::Plans) => Some(ListKind::LinodePlans),
            (ProvisionProviderChoice::Linode(_), ListType::OSs) => Some(ListKind::LinodeOSs),
            (ProvisionProviderChoice::BinaryLane(_), ListType::Regions) => Some(ListKind::BinaryLaneRegions),
            (ProvisionProviderChoice::BinaryLane(_), ListType::OSs) => Some(ListKind::BinaryLaneOSs),
            (ProvisionProviderChoice::DigitalOcean(_), ListType::Regions) => Some(ListKind::DigitalOceanRegions),
            (ProvisionProviderChoice::DigitalOcean(_), ListType::OSs) => Some(ListKind::DigitalOceanOSs),
            _ => None,
        }
    }

    /// How the provider prints a list reply.
    pub fn list_output(&self, t: ListType, body: &str) -> (r: ListOutput)
        ensures
            r@ == list_output_spec(*self, t, body@),
    {
        match self.list_kind_exec(t) {
            Some(k) => match list_lines(k, body) {
                Some(ls) => ListOutput::Lines(ls),
                None => ListOutput::Unreadable,
            },
            None => {
                let priced = match self {
                    ProvisionProviderChoice::BinaryLane(_) | ProvisionProviderChoice::DigitalOcean(_) => true,
                    _ => false,
                };
                if t == ListType::Plans && priced {
                    ListOutput::Prices
                } else {
                    ListOutput::Raw
                }
            },
        }
    }
}

/// A setting by name (an environment variable, say), where it is set.
pub open spec fn setting_of(settings: Seq<(String, String)>, name: Seq<char>) -> Option<Seq<char>> {
    match entry_lookup(settings, name) {
        Some(v) => Some(v@),
        None => None,
    }
}

/// A token taken from a setting: trimmed, or empty when it is not set.
pub open spec fn token_of(o: Option<Seq<char>>) -> Seq<char> {
    match o {
        Some(k) => trim(k),
        None => seq![],
    }
}

fn setting<'a>(settings: &'a Vec<(String, String)>, name: &str) -> (r: Option<&'a str>)
    ensures
        match r {
            Some(v) => setting_of(settings@, name@) == Some(v@),
            None => setting_of(settings@, name@) is None,
        },
{
    match entry_find(settings, name) {
        Some(k) => Some(settings[k].1.as_str()),
        None => None,
    }
}

/// The index of the first provider named `name` at or after `i`, or -1.
pub open spec fn provider_index(ps: Seq<ProvisionProviderChoice>, name: Seq<char>, i: int) -> int
    decreases ps.len() - i,
{
    if i < 0 || i >= ps.len() {
        -1
    } else if ps[i].name_spec() == name {
        i
    } else {
        provider_index(ps, name, i + 1)
    }
}

/// What a request comes to: a missing, unknown or unconfigured provider is
/// not configured; a request without the parameters the provider needs for
/// the action, or with no action, misses parameters; creating and deleting
/// go to the provider; any other action fails.
pub open spec fn manager_step(
    ps: Seq<ProvisionProviderChoice>,
    params: ProvisionParams,
    rs: Seq<crate::provision::provision_provider::HttpReplyV>,
) -> ProvisionStepV {
    let k = provider_index(ps, params.provider@, 0);
    if params.provider@.len() == 0 || k < 0 || !ps[k].configured_spec() {
        ProvisionStepV::Finished(ResultV::ErrorNotConfigured(seq![]))
    } else if missing_of(ps[k].required_spec(params.action), params).len() > 0 {
        ProvisionStepV::Finished(ResultV::ErrorMissingParams(seq![]))
    } else {
        match params.action {
            ProvisionActionType::NotSet => ProvisionStepV::Finished(ResultV::ErrorMissingParams(seq![])),
            ProvisionActionType::CreateInstance => ps[k].create_spec(params, rs),
            ProvisionActionType::DeleteInstance => ps[k].delete_spec(params, rs),
            ProvisionActionType::Unknown => ProvisionStepV::Finished(failed()),
        }
    }
}

/// A request that names no provider, an unknown one or one that is not
/// configured is answered as not configured, and nothing is sent.
pub proof fn lemma_unconfigured_request_sends_nothing(
    ps: Seq<ProvisionProviderChoice>,
    params: ProvisionParams,
    rs: Seq<crate::provision::provision_provider::HttpReplyV>,
)
    requires
        params.provider@.len() == 0 || provider_index(ps, params.provider@, 0) < 0 || !ps[provider_index(
            ps,
            params.provider@,
            0,
        )].configured_spec(),
    ensures
        manager_step(ps, params, rs) == ProvisionStepV::Finished(ResultV::ErrorNotConfigured(seq![])),
{
}

/// A request to a configured provider that misses a parameter the
/// provider needs for the action is answered as missing parameters, and
/// nothing is sent.
pub proof fn lemma_missing_params_send_nothing(
    ps: Seq<ProvisionProviderChoice>,
    params: ProvisionParams,
    rs: Seq<crate::provision::provision_provider::HttpReplyV>,
    name: Seq<char>,
)
    requires
        params.provider@.len() > 0,
        provider_index(ps, params.provider@, 0) >= 0,
        ps[provider_index(ps, params.provider@, 0)].configured_spec(),
        ps[provider_index(ps, params.provider@, 0)].required_spec(params.action).contains(name),
        !params@.values.dom().contains(name),
    ensures
        manager_step(ps, params, rs) == ProvisionStepV::Finished(ResultV::ErrorMissingParams(seq![])),
{
    let req = ps[provider_index(ps, params.provider@, 0)].required_spec(params.action);
    let i = choose|i: int| 0 <= i < req.len() && req[i] == name;
    lemma_missing_of_contains(req, params, i);
}

/// A required name that the parameters do not hold is among the missing.
proof fn lemma_missing_of_contains(required: Seq<Seq<char>>, params: ProvisionParams, i: int)
    requires
        0 <= i < required.len(),
        !params@.values.dom().contains(required[i]),
    ensures
        missing_of(required, params).len() > 0,
    decreases required.len(),
{
    if i < required.len() - 1 {
        assert(required.drop_last()[i] == required[i]);
        lemma_missing_of_contains(required.drop_last(), params, i);
        lemma_missing_of_grows(required, params);
    }
}

proof fn lemma_missing_of_grows(required: Seq<Seq<char>>, params: ProvisionParams)
    requires
        required.len() > 0,
    ensures
        missing_of(required, params).len() >= missing_of(required.drop_last(), params).len(),
{
}

/// Any provisioning request asks for at most 31 requests before it ends.
pub proof fn lemma_requests_bounded(
    ps: Seq<ProvisionProviderChoice>,
    params: ProvisionParams,
    rs: Seq<crate::provision::provision_provider::HttpReplyV>,
)
    requires
        rs.len() >= 31,
    ensures
        !(manager_step(ps, params, rs) is Send),
{
    let k = provider_index(ps, params.provider@, 0);
    if !(params.provider@.len() == 0 || k < 0 || !ps[k].configured_spec()) {
        match ps[k] {
            ProvisionProviderChoice::BinaryLane(p) => {
                lemma_server_create_requests_bounded(p.binary_lane_api_token@, params, rs);
            },
            ProvisionProviderChoice::DigitalOcean(p) => {
                lemma_droplet_create_requests_bounded(p.digital_ocean_api_token@, params, rs);
            },
            ProvisionProviderChoice::Linode(p) => {
                lemma_linode_create_requests_bounded(p.linode_api_key@, params, rs);
            },
            ProvisionProviderChoice::OpenStack(_) => {},
            ProvisionProviderChoice::Vultr(p) => {
                lemma_vultr_create_requests_bounded(p.vultr_api_key@, params, rs);
            },
        }
    }
}

/// A request that asks to return immediately ends after its first reply;
/// the one exception is creating a Digital Ocean droplet, which always
/// looks at the new droplet.
pub proof fn lemma_return_immediately_single_request(
    ps: Seq<ProvisionProviderChoice>,
    params: ProvisionParams,
    rs: Seq<crate::provision::provision_provider::HttpReplyV>,
)
    requires
        params.wait_type == crate::provision::provision_common::ProvisionResponseWaitType::ReturnImmediatelyAfterAPIRequest,
        rs.len() >= 1,
        !(params.action == ProvisionActionType::CreateInstance && params.provider@ == "digital_ocean"@),
    ensures
        !(manager_step(ps, params, rs) is Send),
{
    lemma_provider_index(ps, params.provider@, 0);
}

/// The index found names a provider of that name.
proof fn lemma_provider_index(ps: Seq<ProvisionProviderChoice>, name: Seq<char>, i: int)
    requires
        0 <= i,
    ensures
        provider_index(ps, name, i) >= 0 ==> (provider_index(ps, name, i) < ps.len()
            && ps[provider_index(ps, name, i)].name_spec() == name),
    decreases ps.len() - i,
{
    if i < ps.len() && ps[i].name_spec() != name {
        lemma_provider_index(ps, name, i + 1);
    }
}

/// The names in `required` that the parameters do not hold, in order.
pub open spec fn missing_of(required: Seq<Seq<char>>, params: ProvisionParams) -> Seq<Seq<char>>
    decreases required.len(),
{
    if required.len() == 0 {
        seq![]
    } else {
        let rest = missing_of(required.drop_last(), params);
        if params@.values.dom().contains(required.last()) {
            rest
        } else {
            rest.push(required.last())
        }
    }
}

/// The providers, configured from the settings.
pub struct ProvisionManager {
    pub registered_providers: Vec<ProvisionProviderChoice>,
}

impl ProvisionManager {
    /// Registers the providers in name order, each configured from its
    /// settings.
    pub fn new(settings: &Vec<(String, String)>) -> (m: ProvisionManager)
        ensures
            m.registered_providers@.len() == 5,
            m.registered_providers@[0] matches ProvisionProviderChoice::BinaryLane(p)
                && p.binary_lane_api_token@ == token_of(setting_of(settings@, "PROD_BINARY_LANE_API_TOKEN"@)),
            m.registered_providers@[1] matches ProvisionProviderChoice::DigitalOcean(p)
                && p.digital_ocean_api_token@ == token_of(setting_of(settings@, "PROD_DIGITAL_OCEAN_API_TOKEN"@)),
            m.registered_providers@[2] matches ProvisionProviderChoice::Linode(p)
                && p.linode_api_key@ == token_of(setting_of(settings@, "PROD_LINODE_API_KEY"@)),
            m.registered_providers@[3] matches ProvisionProviderChoice::OpenStack(p)
                && p.openstack_endpoint_uri@ == token_of(setting_of(settings@, "PROD_OS_ENDPOINT_URI"@)),
            m.registered_providers@[4] matches ProvisionProviderChoice::Vultr(p)
                && p.vultr_api_key@ == token_of(setting_of(settings@, "PROD_VULTR_API_KEY"@)),
    {
        let mut providers: Vec<ProvisionProviderChoice> = Vec::new();
        let mut b = ProviderBinaryLane::new();
        b.configure(setting(settings, "PROD_BINARY_LANE_API_TOKEN"));
        providers.push(ProvisionProviderChoice::BinaryLane(b));
        let mut d = ProviderDigitalOcean::new();
        d.configure(setting(settings, "PROD_DIGITAL_OCEAN_API_TOKEN"));
        providers.push(ProvisionProviderChoice::DigitalOcean(d));
        let mut l = ProviderLinode::new();
        l.configure(setting(settings, "PROD_LINODE_API_KEY"));
        providers.push(ProvisionProviderChoice::Linode(l));
        let mut o = ProviderOpenStack::new();
        o.configure(
            setting(settings, "PROD_OS_ENDPOINT_URI"),
            setting(settings, "PROD_OS_USERNAME"),
            setting(settings, "PROD_OS_API_TOKEN"),
            setting(settings, "PROD_OS_TENANT_NAME"),
        );
        providers.push(ProvisionProviderChoice::OpenStack(o));
        let mut v = ProviderVultr::new();
        v.configure(setting(settings, "PROD_VULTR_API_KEY"));
        providers.push(ProvisionProviderChoice::Vultr(v));
        ProvisionManager { registered_providers: providers }
    }

    /// The position of the first provider with the name.
    pub fn find_provider(&self, provider: &str) -> (r: Option<usize>)
        ensures
            match r {
                Some(k) => provider_index(self.registered_providers@, provider@, 0) == k
                    && k < self.registered_providers@.len(),
                None => provider_index(self.registered_providers@, provider@, 0) == -1,
            },
    {
        let mut i: usize = 0;
        while i < self.registered_providers.len()
            invariant
                i <= self.registered_providers@.len(),
                provider_index(self.registered_providers@, provider@, 0) == provider_index(
                    self.registered_providers@,
                    provider@,
                    i as int,
                ),
            decreases self.registered_providers@.len() - i,
        {
            let name = self.registered_providers[i].name();
            if str_eq(name.as_str(), provider) {
                return Some(i);
            }
            i = i + 1;
        }
        None
    }

    /// The request that lists what the named provider offers: nothing when
    /// there is no such provider, else what the provider can ask for.
    pub fn list_available(&self, provider: &str, list_type: ListType) -> (r: Option<Option<HttpRequest>>)
        ensures
            ({
                let k = provider_index(self.registered_providers@, provider@, 0);
                match r {
                    None => k < 0,
                    Some(None) => k >= 0 && self.registered_providers@[k].list_spec(list_type) is None,
                    Some(Some(q)) => k >= 0 && self.registered_providers@[k].list_spec(list_type) == Some(q@),
                }
            }),
    {
        match self.find_provider(provider) {
            None => None,
            Some(k) => Some(self.registered_providers[k].list_request(list_type)),
        }
    }

    /// How the named provider prints a list reply; as it came where there
    /// is no such provider.
    pub fn list_output(&self, provider: &str, list_type: ListType, body: &str) -> (r: ListOutput)
        ensures
            ({
                let k = provider_index(self.registered_providers@, provider@, 0);
                if k < 0 {
                    r@ == ListOutputV::Raw
                } else {
                    r@ == list_output_spec(self.registered_providers@[k], list_type, body@)
                }
            }),
    {
        match self.find_provider(provider) {
            None => ListOutput::Raw,
            Some(k) => self.registered_providers[k].list_output(list_type, body),
        }
    }

    /// The next step of a provisioning request, given the replies so far.
    pub fn perform_action(&self, params: &ProvisionParams, dry_run: bool, replies: &Vec<HttpReply>) -> (r: ProvisionStep)
        ensures
            r@ == manager_step(self.registered_providers@, *params, http_replies_view(replies@)),
    {
        if params.provider.as_str().unicode_len() == 0 {
            return ProvisionStep::Finished(ProvisionActionResult::ErrorNotConfigured(String::new()));
        }
        let k = match self.find_provider(params.provider.as_str()) {
            None => {
                return ProvisionStep::Finished(ProvisionActionResult::ErrorNotConfigured(String::new()));
            },
            Some(k) => k,
        };
        let provider = &self.registered_providers[k];
        if !provider.is_configured() {
            return ProvisionStep::Finished(ProvisionActionResult::ErrorNotConfigured(String::new()));
        }
        let required = provider.get_required_params_for_action(params.action);
        if !self.check_required_params_are_provided(params, &required) {
            return ProvisionStep::Finished(ProvisionActionResult::ErrorMissingParams(String::new()));
        }
        match params.action {
            ProvisionActionType::NotSet => ProvisionStep::Finished(ProvisionActionResult::ErrorMissingParams(String::new())),
            ProvisionActionType::CreateInstance => provider.create_instance(params, dry_run, replies),
            ProvisionActionType::DeleteInstance => provider.delete_instance(params, dry_run, replies),
            ProvisionActionType::Unknown => ProvisionStep::Finished(failed_result()),
        }
    }

    /// Why a request is not configured, as the line that reports it; none
    /// when it reaches a configured provider.
    pub fn not_configured_message(&self, params: &ProvisionParams) -> (r: Option<String>)
        ensures
            ({
                let k = provider_index(self.registered_providers@, params.provider@, 0);
                match r {
                    None => params.provider@.len() > 0 && k >= 0 && self.registered_providers@[k].configured_spec(),
                    Some(m) => m@ == if params.provider@.len() == 0 {
                        "Error: provider not specified."@
                    } else if k < 0 {
                        "Error: Can't find provider: '"@ + params.provider@ + "'."@
                    } else {
                        "Error: Provider for '"@ + self.registered_providers@[k].name_spec() + "' is not configured properly."@
                    },
                }
            }),
    {
        if params.provider.as_str().unicode_len() == 0 {
            return Some(owned("Error: provider not specified."));
        }
        match self.find_provider(params.provider.as_str()) {
            None => Some(crate::text::concat3("Error: Can't find provider: '", params.provider.as_str(), "'.")),
            Some(k) => {
                let provider = &self.registered_providers[k];
                if provider.is_configured() {
                    None
                } else {
                    let name = provider.name();
                    Some(crate::text::concat3("Error: Provider for '", name.as_str(), "' is not configured properly."))
                }
            },
        }
    }

    /// The parameters the named provider needs for the action, where the
    /// request reaches a configured provider.
    pub fn required_params(&self, params: &ProvisionParams) -> (r: Option<Vec<String>>)
        ensures
            ({
                let k = provider_index(self.registered_providers@, params.provider@, 0);
                match r {
                    Some(v) => k >= 0 && self.registered_providers@[k].configured_spec()
                        && strings_view(v@) == self.registered_providers@[k].required_spec(params.action),
                    None => k < 0 || !self.registered_providers@[k].configured_spec(),
                }
            }),
    {
        match self.find_provider(params.provider.as_str()) {
            None => None,
            Some(k) => {
                let provider = &self.registered_providers[k];
                if provider.is_configured() {
                    Some(provider.get_required_params_for_action(params.action))
                } else {
                    None
                }
            },
        }
    }

    /// Whether the parameters hold every required one; a request that
    /// misses one stops there.
    pub fn check_required_params_are_provided(&self, params: &ProvisionParams, required_params: &Vec<String>) -> (r: bool)
        ensures
            r == (missing_of(strings_view(required_params@), *params).len() == 0),
    {
        self.missing_required_params(params, required_params).len() == 0
    }

    /// The required parameters that are missing, in order, for the report
    /// of a request that misses them.
    pub fn missing_required_params(&self, params: &ProvisionParams, required_params: &Vec<String>) -> (r: Vec<String>)
        ensures
            strings_view(r@) == missing_of(strings_view(required_params@), *params),
    {
        let ghost req = strings_view(required_params@);
        let mut missing: Vec<String> = Vec::new();
        let mut i: usize = 0;
        while i < required_params.len()
            invariant
                i <= required_params@.len(),
                req == strings_view(required_params@),
                strings_view(missing@) == missing_of(req.take(i as int), *params),
            decreases required_params@.len() - i,
        {
            let name = &required_params[i];
            proof {
                assert(req.take(i + 1).drop_last() =~= req.take(i as int));
                assert(req.take(i + 1).last() == name@);
            }
            if !params.has_param(name.as_str()) {
                missing.push(owned(name.as_str()));
                proof {
                    assert(strings_view(missing@) =~= missing_of(req.take(i as int), *params).push(name@));
                }
            }
            i = i + 1;
        }
        proof {
            assert(req.take(i as int) =~= req);
        }
        missing
    }
}

} // verus!
