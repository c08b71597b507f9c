//! Provisioning with Binary Lane: creating a server (then waiting for its
//! public address and for it to be active), and deleting one.
use vstd::prelude::*;
use crate::provision::json::{
    bool_member, bool_member_exec, json_get, json_parsed, json_seq_view, json_text, lemma_json_seq_view, member,
    parse_json, text_member, text_member_exec, u32_member, u32_member_exec, u64_member, u64_member_exec, write_json,
    JsonNumber, JsonV, JsonValue,
};
use crate::provision::provision_common::{
    results_map, ActionResultValues, ProvisionActionResult, ProvisionActionType, ProvisionResponseWaitType,
};
use crate::provision::provision_params::{ProvisionParams, PV};
use crate::provision::provision_provider::{
    create_error, create_error_result, delete_step, failed, failed_result, http_replies_view, opt_view, run_delete,
    unexpected_http_reply_text, HttpReply, HttpReplyV, HttpRequest, HttpRequestV, ProvisionProvider, ProvisionStep,
    ProvisionStepV, ResultV,
};
use crate::provision::providers::provider_vultr::{flag_or, value_or};
use crate::text::{chars_of, nat_decimal, owned, parse_u32, parse_u32_chars, str_eq, string_of, trim, trim_chars, u64_decimal};

verus! {

/// Creates and deletes Binary Lane servers with an API token.
pub struct ProviderBinaryLane {
    pub binary_lane_api_token: String,
}

impl ProviderBinaryLane {
    pub fn new() -> (r: ProviderBinaryLane)
        ensures
            r.binary_lane_api_token@.len() == 0,
    {
        ProviderBinaryLane { binary_lane_api_token: String::new() }
    }

    /// Takes the API token (trimmed) from the `PROD_BINARY_LANE_API_TOKEN`
    /// setting; false when it is not set.
    pub fn configure(&mut self, api_token: Option<&str>) -> (r: bool)
        ensures
            match api_token {
                Some(k) => r && final(self).binary_lane_api_token@ == trim(k@),
                None => !r && final(self).binary_lane_api_token == old(self).binary_lane_api_token,
            },
    {
        match api_token {
            Some(k) => {
                let c = chars_of(k);
                self.binary_lane_api_token = string_of(trim_chars(c.as_slice()).as_slice());
                true
            },
            None => false,
        }
    }
}

pub open spec fn servers_url() -> Seq<char> {
    "https://api.binarylane.com.au/v2/servers"@
}

/// The `ssh_keys` parameter as a list (a single string gives a list of it).
pub open spec fn ssh_keys_of(p: ProvisionParams) -> Option<Seq<Seq<char>>> {
    match p@.values.get("ssh_keys"@) {
        Some(PV::StringArray(a)) => Some(a),
        Some(PV::StringVal(s)) => Some(seq![s]),
        None => None,
    }
}

pub open spec fn text_values(a: Seq<Seq<char>>) -> Seq<JsonV> {
    a.map_values(|s: Seq<char>| JsonV::Str(s))
}

/// The body of a create request, with the image as a number.
pub open spec fn server_create_body(p: ProvisionParams, image: u32) -> JsonV {
    JsonV::Object(
        seq![
            ("backups"@, JsonV::Bool(flag_or(p, "backups"@, false))),
            ("image"@, JsonV::Number(Some(image as u64), Some(image as i64), nat_decimal(image as nat))),
            ("ipv6"@, JsonV::Bool(flag_or(p, "ipv6"@, false))),
            ("name"@, JsonV::Str(value_or(p, "name"@, seq![]))),
            ("region"@, JsonV::Str(value_or(p, "region"@, seq![]))),
            ("size"@, JsonV::Str(value_or(p, "size"@, seq![]))),
        ] + match ssh_keys_of(p) {
            Some(a) => seq![("ssh_keys"@, JsonV::Array(text_values(a)))],
            None => seq![],
        },
    )
}

/// A member that is absent, null or a string.
pub open spec fn opt_text_member(v: JsonV, key: Seq<char>) -> bool {
    match member(v, key) {
        None => true,
        Some(JsonV::Null) => true,
        Some(JsonV::Str(_)) => true,
        _ => false,
    }
}

/// An IPv4 network entry of the expected shape.
pub open spec fn network_ok(n: JsonV) -> bool {
    &&& text_member(n, "ip_address"@) is Some
    &&& text_member(n, "netmask"@) is Some
    &&& opt_text_member(n, "gateway"@)
    &&& text_member(n, "type"@) is Some
    &&& opt_text_member(n, "reverse_name"@)
    &&& opt_text_member(n, "nat_target"@)
}

pub open spec fn networks_ok(a: Seq<JsonV>) -> bool {
    forall|i: int| 0 <= i < a.len() ==> #[trigger] network_ok(a[i])
}

/// The first non-empty address of a `public` network at or after `i`.
pub open spec fn public_ip(a: Seq<JsonV>, i: int) -> Option<Seq<char>>
    decreases a.len() - i,
{
    if i < 0 || i >= a.len() {
        None
    } else if text_member(a[i], "type"@) == Some("public"@) && (text_member(a[i], "ip_address"@) matches Some(ip)
        && ip.len() > 0) {
        text_member(a[i], "ip_address"@)
    } else {
        public_ip(a, i + 1)
    }
}

/// The IPv4 networks of a server, when its `networks` have the expected
/// shape.
pub open spec fn v4_networks(s: JsonV) -> Option<Seq<JsonV>> {
    match member(s, "networks"@) {
        Some(n) => if bool_member(n, "port_blocking"@) && bool_member(n, "recent_ddos"@) {
            match member(n, "v4"@) {
                Some(JsonV::Array(a)) => if networks_ok(a) {
                    Some(a)
                } else {
                    None
                },
                _ => None,
            }
        } else {
            None
        },
        None => None,
    }
}

/// What a server response reports: the id, the status and the public
/// address, when it has the expected shape.
pub open spec fn server_details(v: JsonV) -> Option<(u64, Seq<char>, Option<Seq<char>>)> {
    match member(v, "server"@) {
        Some(s) => if u64_member(s, "id"@) is Some && text_member(s, "name"@) is Some && u32_member(s, "memory"@)
            && u32_member(s, "disk"@) && bool_member(s, "locked"@) && text_member(s, "status"@) is Some
            && bool_member(s, "password_change_supported"@) && v4_networks(s) is Some {
            Some((u64_member(s, "id"@)->Some_0, text_member(s, "status"@)->Some_0, public_ip(v4_networks(s)->Some_0, 0)))
        } else {
            None
        },
        None => None,
    }
}

pub open spec fn server_reply(r: HttpReplyV) -> Option<(u64, Seq<char>, Option<Seq<char>>)> {
    match r {
        HttpReplyV::Body(text) => match json_parsed(text) {
            Ok(v) => server_details(v),
            Err(_) => None,
        },
        _ => None,
    }
}

/// Up to ten tries, each a pause of 15 seconds and a look at the server:
/// the first public address seen is kept as `ip` (a wait for the resource
/// ends there); with an address, an `active` status ends the wait as done.
/// Then the server is in progress.
pub open spec fn server_wait(
    token: Seq<char>,
    wait: ProvisionResponseWaitType,
    id: Seq<char>,
    results: Map<Seq<char>, Seq<char>>,
    found_ip: bool,
    tries: int,
    getting: bool,
    rs: Seq<HttpReplyV>,
    j: int,
) -> ProvisionStepV
    decreases rs.len() - j,
{
    if !getting && tries >= 10 {
        ProvisionStepV::Finished(ResultV::InProgress(results))
    } else if j < 0 || j >= rs.len() {
        ProvisionStepV::Send(if getting {
            HttpRequestV::Get(servers_url() + "/"@ + id, Some(token))
        } else {
            HttpRequestV::Sleep(15)
        })
    } else if !getting {
        match rs[j] {
            HttpReplyV::Slept => server_wait(token, wait, id, results, found_ip, tries, true, rs, j + 1),
            _ => ProvisionStepV::Abort(unexpected_http_reply_text()),
        }
    } else {
        match rs[j] {
            HttpReplyV::Slept => ProvisionStepV::Abort(unexpected_http_reply_text()),
            _ => match server_reply(rs[j]) {
                None => ProvisionStepV::Finished(failed()),
                Some(d) => {
                    let new_ip = !found_ip && d.2 is Some;
                    let results2 = if new_ip {
                        results.insert("ip"@, d.2->Some_0)
                    } else {
                        results
                    };
                    if new_ip && wait == ProvisionResponseWaitType::WaitForResourceCreationOrModification {
                        ProvisionStepV::Finished(ResultV::InProgress(results2))
                    } else if (found_ip || new_ip) && d.1 == "active"@ {
                        ProvisionStepV::Finished(ResultV::Done(results2))
                    } else {
                        server_wait(token, wait, id, results2, found_ip || new_ip, tries + 1, false, rs, j + 1)
                    }
                },
            },
        }
    }
}

pub open spec fn bad_image_text() -> Seq<char> {
    "the 'image' parameter is not a number"@
}

/// Creating a server: the `image` parameter must be a number; the create
/// request with the `name`, `region`, `size`, `image`, `ipv6`, `backups`
/// and `ssh_keys` parameters; the server's `id` is the result; then the wait
/// the parameters ask for.
pub open spec fn server_create_step(token: Seq<char>, p: ProvisionParams, rs: Seq<HttpReplyV>) -> ProvisionStepV {
    match parse_u32(value_or(p, "image"@, seq![])) {
        None => ProvisionStepV::Abort(bad_image_text()),
        Some(image) => if rs.len() == 0 {
            ProvisionStepV::Send(HttpRequestV::Post(servers_url(), Some(token), json_text(server_create_body(p, image))))
        } else {
            match rs[0] {
                HttpReplyV::Status(c, _) => ProvisionStepV::Finished(create_error(c)),
                HttpReplyV::Transport(_) => ProvisionStepV::Finished(failed()),
                HttpReplyV::Slept => ProvisionStepV::Abort(unexpected_http_reply_text()),
                HttpReplyV::Body(_) => match server_reply(rs[0]) {
                    None => ProvisionStepV::Finished(failed()),
                    Some(d) => {
                        let id = nat_decimal(d.0 as nat);
                        let results = Map::<Seq<char>, Seq<char>>::empty().insert("id"@, id);
                        if p.wait_type == ProvisionResponseWaitType::ReturnImmediatelyAfterAPIRequest {
                            ProvisionStepV::Finished(ResultV::InProgress(results))
                        } else {
                            server_wait(token, p.wait_type, id, results, false, 0, false, rs, 1)
                        }
                    },
                },
            }
        }
    }
}

/// The wait asks for at most two requests for each try that is left.
proof fn lemma_server_wait_bounded(
    token: Seq<char>,
    wait: ProvisionResponseWaitType,
    id: Seq<char>,
    results: Map<Seq<char>, Seq<char>>,
    found_ip: bool,
    tries: int,
    getting: bool,
    rs: Seq<HttpReplyV>,
    j: int,
)
    requires
        0 <= j,
        0 <= tries <= 10,
        getting ==> tries < 10,
        rs.len() >= j + 2 * (10 - tries) - (if getting { 1int } else { 0int }),
    ensures
        !(server_wait(token, wait, id, results, found_ip, tries, getting, rs, j) is Send),
    decreases rs.len() - j,
{
    if !getting && tries >= 10 {
    } else if !getting {
        if rs[j] is Slept {
            lemma_server_wait_bounded(token, wait, id, results, found_ip, tries, true, rs, j + 1);
        }
    } else if !(rs[j] is Slept) {
        if let Some(d) = server_reply(rs[j]) {
            let new_ip = !found_ip && d.2 is Some;
            let results2 = if new_ip {
                results.insert("ip"@, d.2->Some_0)
            } else {
                results
            };
            lemma_server_wait_bounded(token, wait, id, results2, found_ip || new_ip, tries + 1, false, rs, j + 1);
        }
    }
}

/// Creating a server asks for at most 21 requests: the create request,
/// then a pause and a look for each of ten tries.
pub proof fn lemma_server_create_requests_bounded(token: Seq<char>, p: ProvisionParams, rs: Seq<HttpReplyV>)
    requires
        rs.len() >= 21,
    ensures
        !(server_create_step(token, p, rs) is Send),
{
    if parse_u32(value_or(p, "image"@, seq![])) is Some {
        if let HttpReplyV::Body(_) = rs[0] {
            if let Some(d) = server_reply(rs[0]) {
                let id = nat_decimal(d.0 as nat);
                let results = Map::<Seq<char>, Seq<char>>::empty().insert("id"@, id);
                lemma_server_wait_bounded(token, p.wait_type, id, results, false, 0, false, rs, 1);
            }
        }
    }
}

pub open spec fn server_required(action: ProvisionActionType) -> Seq<Seq<char>> {
    if action == ProvisionActionType::CreateInstance {
        seq!["image"@, "region"@, "size"@]
    } else {
        seq![]
    }
}

fn value_or_exec(p: &ProvisionParams, key: &str) -> (r: String)
    ensures
        r@ == value_or(*p, key@, seq![]),
{
    proof {
        reveal_strlit("");
    }
    p.get_string_value(key, "")
}

fn server_body(p: &ProvisionParams, image: u32) -> (r: JsonValue)
    ensures
        r@ == server_create_body(*p, image),
{
    let mut o: Vec<(String, JsonValue)> = Vec::new();
    o.push((owned("backups"), JsonValue::Bool(p.get_string_value_as_bool("backups", false))));
    let digits = string_of(u64_decimal(image as u64).as_slice());
    o.push((owned("image"), JsonValue::Number(JsonNumber { as_u64: Some(image as u64), as_i64: Some(image as i64), text: digits })));
    o.push((owned("ipv6"), JsonValue::Bool(p.get_string_value_as_bool("ipv6", false))));
    o.push((owned("name"), JsonValue::Str(value_or_exec(p, "name"))));
    o.push((owned("region"), JsonValue::Str(value_or_exec(p, "region"))));
    o.push((owned("size"), JsonValue::Str(value_or_exec(p, "size"))));
    let ghost head = o@;
    match p.get_string_array("ssh_keys") {
        Some(keys) => {
            let mut items: Vec<JsonValue> = Vec::new();
            let mut i: usize = 0;
            while i < keys.len()
                invariant
                    i <= keys@.len(),
                    items@.len() == i,
                    forall|q: int| 0 <= q < i ==> #[trigger] items@[q]@ == JsonV::Str(keys@[q]@),
                decreases keys@.len() - i,
            {
                items.push(JsonValue::Str(owned(keys[i].as_str())));
                i = i + 1;
            }
            proof {
                lemma_json_seq_view(items@);
                assert(crate::params::strings_view(keys@).len() == keys@.len());
                assert(json_seq_view(items@) =~= text_values(crate::params::strings_view(keys@)));
            }
            o.push((owned("ssh_keys"), JsonValue::Array(items)));
        },
        None => {},
    }
    let r = JsonValue::Object(o);
    proof {
        crate::provision::json::lemma_member_seq_view(o@);
        assert(crate::provision::json::member_seq_view(o@) =~= server_create_body(*p, image)->Object_0);
    }
    r
}

fn opt_text_member_exec(v: &JsonValue, key: &str) -> (r: bool)
    ensures
        r == opt_text_member(v@, key@),
{
    match json_get(v, key) {
        None => true,
        Some(JsonValue::Null) => true,
        Some(JsonValue::Str(_)) => true,
        _ => false,
    }
}

fn network_ok_exec(n: &JsonValue) -> (r: bool)
    ensures
        r == network_ok(n@),
{
    text_member_exec(n, "ip_address").is_some() && text_member_exec(n, "netmask").is_some()
        && opt_text_member_exec(n, "gateway") && text_member_exec(n, "type").is_some()
        && opt_text_member_exec(n, "reverse_name") && opt_text_member_exec(n, "nat_target")
}

/// Checks the network entries and finds the public address among them.
fn networks_exec(a: &Vec<JsonValue>) -> (r: Option<Option<String>>)
    ensures
        match r {
            Some(ip) => networks_ok(json_seq_view(a@)) && opt_view(ip) == public_ip(json_seq_view(a@), 0),
            None => !networks_ok(json_seq_view(a@)),
        },
{
    let ghost av = json_seq_view(a@);
    proof {
        lemma_json_seq_view(a@);
    }
    let mut ip: Option<String> = None;
    let mut i: usize = 0;
    while i < a.len()
        invariant
            i <= a@.len(),
            av == json_seq_view(a@),
            av.len() == a@.len(),
            forall|q: int| 0 <= q < a@.len() ==> #[trigger] av[q] == a@[q]@,
            forall|q: int| 0 <= q < i ==> #[trigger] network_ok(av[q]),
            match ip {
                Some(x) => public_ip(av, 0) == Some(x@),
                None => public_ip(av, 0) == public_ip(av, i as int),
            },
        decreases a@.len() - i,
    {
        assert(av[i as int] == a@[i as int]@);
        if !network_ok_exec(&a[i]) {
            assert(!network_ok(av[i as int]));
            return None;
        }
        if ip.is_none() {
            let t = text_member_exec(&a[i], "type");
            let addr = text_member_exec(&a[i], "ip_address");
            match (t, addr) {
                (Some(t), Some(addr)) => {
                    proof {
                        reveal_strlit("public");
                    }
                    if str_eq(t.as_str(), "public") && addr.as_str().unicode_len() > 0 {
                        ip = Some(addr);
                    }
                },
                _ => {},
            }
        }
        i = i + 1;
    }
    Some(ip)
}

/// Reads a server reply: the id, the status and the public address, when
/// it has the expected shape.
pub fn server_details_exec(v: &JsonValue) -> (r: Option<(u64, String, Option<String>)>)
    ensures
        match r {
            Some(d) => server_details(v@) == Some((d.0, d.1@, opt_view(d.2))),
            None => server_details(v@) is None,
        },
{
    let s = match json_get(v, "server") {
        Some(s) => s,
        None => {
            return None;
        },
    };
    let id = match u64_member_exec(s, "id") {
        Some(id) => id,
        None => {
            return None;
        },
    };
    let status = match text_member_exec(s, "status") {
        Some(t) => t,
        None => {
            return None;
        },
    };
    if text_member_exec(s, "name").is_none() || !u32_member_exec(s, "memory") || !u32_member_exec(s, "disk")
        || !bool_member_exec(s, "locked") || !bool_member_exec(s, "password_change_supported") {
        return None;
    }
    let n = match json_get(s, "networks") {
        Some(n) => n,
        None => {
            return None;
        },
    };
    if !bool_member_exec(n, "port_blocking") || !bool_member_exec(n, "recent_ddos") {
        return None;
    }
    let ip = match json_get(n, "v4") {
        Some(JsonValue::Array(a)) => match networks_exec(a) {
            Some(ip) => ip,
            None => {
                return None;
            },
        },
        _ => {
            return None;
        },
    };
    Some((id, status, ip))
}

fn server_reply_exec(r: &HttpReply) -> (d: Option<(u64, String, Option<String>)>)
    ensures
        match d {
            Some(t) => server_reply(r@) == Some((t.0, t.1@, opt_view(t.2))),
            None => server_reply(r@) is None,
        },
{
    match r {
        HttpReply::Body(text) => match parse_json(text.as_str()) {
            Ok(v) => server_details_exec(&v),
            Err(_) => None,
        },
        _ => None,
    }
}

impl ProviderBinaryLane {
    #[verifier::loop_isolation(false)]
    fn wait_for_server(
        &self,
        wait: ProvisionResponseWaitType,
        id: &str,
        results: ActionResultValues,
        replies: &Vec<HttpReply>,
    ) -> (r: ProvisionStep)
        ensures
            r@ == server_wait(self.binary_lane_api_token@, wait, id@, results_map(results), false, 0, false, http_replies_view(replies@), 1),
    {
        let ghost rv = http_replies_view(replies@);
        let ghost token = self.binary_lane_api_token@;
        let ghost start_results = results_map(results);
        let mut results = results;
        let mut found = false;
        let mut tries: u32 = 0;
        let mut getting = false;
        let mut j: usize = 1;
        loop
            invariant
                rv == http_replies_view(replies@),
                1 <= j,
                tries <= 10,
                getting ==> tries < 10,
                server_wait(token, wait, id@, start_results, false, 0, false, rv, 1) == server_wait(
                    token,
                    wait,
                    id@,
                    results_map(results),
                    found,
                    tries as int,
                    getting,
                    rv,
                    j as int,
                ),
            decreases replies@.len() + 1 - j,
        {
            if !getting && tries >= 10 {
                return ProvisionStep::Finished(ProvisionActionResult::ActionCreatedInProgress(results));
            }
            if j >= replies.len() {
                if getting {
                    let url = crate::text::concat3("https://api.binarylane.com.au/v2/servers", "/", id);
                    return ProvisionStep::Send(HttpRequest::Get(url, Some(owned(self.binary_lane_api_token.as_str()))));
                } else {
                    return ProvisionStep::Send(HttpRequest::Sleep(15));
                }
            }
            assert(rv[j as int] == replies@[j as int]@);
            let reply = &replies[j];
            if !getting {
                match reply {
                    HttpReply::Slept => {
                        getting = true;
                    },
                    _ => {
                        return ProvisionStep::Abort(owned("a reply did not answer its request"));
                    },
                }
            } else {
                if let HttpReply::Slept = reply {
                    return ProvisionStep::Abort(owned("a reply did not answer its request"));
                }
                let d = match server_reply_exec(reply) {
                    None => {
                        return ProvisionStep::Finished(failed_result());
                    },
                    Some(d) => d,
                };
                let new_ip = !found && d.2.is_some();
                if new_ip {
                    match &d.2 {
                        Some(ip) => {
                            results.insert("ip", ip.as_str());
                        },
                        None => {},
                    }
                    found = true;
                }
                if new_ip && wait == ProvisionResponseWaitType::WaitForResourceCreationOrModification {
                    return ProvisionStep::Finished(ProvisionActionResult::ActionCreatedInProgress(results));
                } else if found && str_eq(d.1.as_str(), "active") {
                    return ProvisionStep::Finished(ProvisionActionResult::ActionCreatedDone(results));
                }
                tries = tries + 1;
                getting = false;
            }
            j = j + 1;
        }
    }

    fn create_step(&self, params: &ProvisionParams, replies: &Vec<HttpReply>) -> (r: ProvisionStep)
        ensures
            r@ == server_create_step(self.binary_lane_api_token@, *params, http_replies_view(replies@)),
    {
        let image_text = value_or_exec(params, "image");
        let image_chars = chars_of(image_text.as_str());
        let image = match parse_u32_chars(image_chars.as_slice()) {
            Some(n) => n,
            None => {
                return ProvisionStep::Abort(owned("the 'image' parameter is not a number"));
            },
        };
        if replies.len() == 0 {
            let body = write_json(&server_body(params, image));
            return ProvisionStep::Send(HttpRequest::Post(
                owned("https://api.binarylane.com.au/v2/servers"),
                Some(owned(self.binary_lane_api_token.as_str())),
                body,
            ));
        }
        assert(http_replies_view(replies@)[0] == replies@[0]@);
        match &replies[0] {
            HttpReply::Status(c, _) => {
                return ProvisionStep::Finished(create_error_result(*c));
            },
            HttpReply::Transport(_) => {
                return ProvisionStep::Finished(failed_result());
            },
            HttpReply::Slept => {
                return ProvisionStep::Abort(owned("a reply did not answer its request"));
            },
            HttpReply::Body(_) => {},
        }
        let d = match server_reply_exec(&replies[0]) {
            None => {
                return ProvisionStep::Finished(failed_result());
            },
            Some(d) => d,
        };
        let id = string_of(u64_decimal(d.0).as_slice());
        let mut results = ActionResultValues::new();
        results.insert("id", id.as_str());
        assert(results_map(results) =~= Map::<Seq<char>, Seq<char>>::empty().insert("id"@, id@));
        if params.wait_type == ProvisionResponseWaitType::ReturnImmediatelyAfterAPIRequest {
            return ProvisionStep::Finished(ProvisionActionResult::ActionCreatedInProgress(results));
        }
        self.wait_for_server(params.wait_type, id.as_str(), results, replies)
    }
}

impl ProvisionProvider for ProviderBinaryLane {
    fn name(&self) -> (r: String)
        ensures
            r@ == "binary_lane"@,
    {
        owned("binary_lane")
    }

    fn supports_interactive(&self) -> (r: bool)
        ensures
            r,
    {
        true
    }

    fn prompt_interactive(&self) -> (r: Vec<(String, String)>)
        ensures
            r@.len() == 1,
            r@[0].0@ == "API_TOKEN"@,
            r@[0].1@ == "API Token to use Binary Lane API"@,
    {
        let mut items: Vec<(String, String)> = Vec::new();
        items.push((owned("API_TOKEN"), owned("API Token to use Binary Lane API")));
        items
    }

    fn is_configured(&self) -> (r: bool)
        ensures
            r == (self.binary_lane_api_token@.len() > 0),
    {
        self.binary_lane_api_token.as_str().unicode_len() > 0
    }

    fn get_required_params_for_action(&self, action: ProvisionActionType) -> (r: Vec<String>)
        ensures
            crate::params::strings_view(r@) == server_required(action),
    {
        let mut v: Vec<String> = Vec::new();
        if action == ProvisionActionType::CreateInstance {
            v.push(owned("image"));
            v.push(owned("region"));
            v.push(owned("size"));
        }
        assert(crate::params::strings_view(v@) =~= server_required(action));
        v
    }

    /// Creates a server and waits as the parameters ask.
    fn create_instance(&self, params: &ProvisionParams, dry_run: bool, replies: &Vec<HttpReply>) -> (r: ProvisionStep)
        ensures
            r@ == server_create_step(self.binary_lane_api_token@, *params, http_replies_view(replies@)),
    {
        self.create_step(params, replies)
    }

    /// Deletes the server named by `instance_id`.
    fn delete_instance(&self, params: &ProvisionParams, dry_run: bool, replies: &Vec<HttpReply>) -> (r: ProvisionStep)
        ensures
            r@ == delete_step(
                servers_url() + "/"@ + value_or(*params, "instance_id"@, seq![]),
                self.binary_lane_api_token@,
                http_replies_view(replies@),
            ),
    {
        let id = value_or_exec(params, "instance_id");
        let url = crate::text::concat3("https://api.binarylane.com.au/v2/servers", "/", id.as_str());
        run_delete(url, self.binary_lane_api_token.as_str(), replies)
    }
}

} // verus!
