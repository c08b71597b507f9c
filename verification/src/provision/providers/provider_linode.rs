//! Provisioning with Linode: creating an instance (then waiting for it to
//! run), and deleting one.
use vstd::prelude::*;
use crate::provision::json::{
    json_get, json_parsed, json_text, parse_json, text_array_member, text_array_member_exec,
    text_member, text_member_exec, u64_member, u64_member_exec, write_json, JsonV, JsonValue,
};
use crate::provision::provision_common::{
    results_map, ActionResultValues, ProvisionActionResult, ProvisionActionType, ProvisionResponseWaitType,
};
use crate::provision::provision_params::ProvisionParams;
use crate::provision::provision_provider::{
    create_error, create_error_result, delete_step, failed, failed_result, http_replies_view,
    run_delete, unexpected_http_reply_text, HttpReply, HttpReplyV, HttpRequest, HttpRequestV,
    ProvisionProvider, ProvisionStep, ProvisionStepV, ResultV,
};
use crate::provision::providers::provider_vultr::value_or;
use crate::text::{chars_of, nat_decimal, owned, str_eq, string_of, trim, trim_chars, u64_decimal};

verus! {

/// Creates and deletes Linode instances with an API key.
pub struct ProviderLinode {
    pub linode_api_key: String,
}

impl ProviderLinode {
    pub fn new() -> (r: ProviderLinode)
        ensures
            r.linode_api_key@.len() == 0,
    {
        ProviderLinode { linode_api_key: String::new() }
    }

    /// Takes the API key (trimmed) from the `PROD_LINODE_API_KEY` setting;
    /// false when it is not set.
    pub fn configure(&mut self, api_key: Option<&str>) -> (r: bool)
        ensures
            match api_key {
                Some(k) => r && final(self).linode_api_key@ == trim(k@),
                None => !r && final(self).linode_api_key == old(self).linode_api_key,
            },
    {
        match api_key {
            Some(k) => {
                let c = chars_of(k);
                self.linode_api_key = string_of(trim_chars(c.as_slice()).as_slice());
                true
            },
            None => false,
        }
    }
}

pub open spec fn linode_instances_url() -> Seq<char> {
    "https://api.linode.com/v4/linode/instances"@
}

/// The body of a create request.
pub open spec fn linode_create_body(p: ProvisionParams) -> JsonV {
    JsonV::Object(seq![
        ("image"@, JsonV::Str(value_or(p, "image"@, seq![]))),
        ("label"@, JsonV::Str(value_or(p, "label"@, seq![]))),
        ("region"@, JsonV::Str(value_or(p, "region"@, seq![]))),
        ("root_pass"@, JsonV::Str(value_or(p, "root_pass"@, seq![]))),
        ("type"@, JsonV::Str(value_or(p, "type"@, seq![]))),
    ])
}

/// What an instance response reports: the id, the IPv4 addresses and the
/// status, when it has the expected shape.
pub open spec fn linode_instance(v: JsonV) -> Option<(u64, Seq<Seq<char>>, Seq<char>)> {
    if u64_member(v, "id"@) is Some && text_member(v, "image"@) is Some && text_array_member(v, "ipv4"@) is Some
        && text_member(v, "ipv6"@) is Some && text_member(v, "label"@) is Some && text_member(v, "status"@) is Some {
        Some((u64_member(v, "id"@)->Some_0, text_array_member(v, "ipv4"@)->Some_0, text_member(v, "status"@)->Some_0))
    } else {
        None
    }
}

pub open spec fn linode_reply(r: HttpReplyV) -> Option<(u64, Seq<Seq<char>>, Seq<char>)> {
    match r {
        HttpReplyV::Body(text) => match json_parsed(text) {
            Ok(v) => linode_instance(v),
            Err(_) => None,
        },
        _ => None,
    }
}

/// Up to ten tries, each a pause of 15 seconds and a look at the instance:
/// the first address seen is kept as `ip` (a wait for the resource ends
/// there); a `running` status ends the wait. Then the instance is done.
pub open spec fn linode_wait(
    token: Seq<char>,
    wait: ProvisionResponseWaitType,
    id: Seq<char>,
    results: Map<Seq<char>, Seq<char>>,
    found_ip: bool,
    tries: int,
    getting: bool,
    rs: Seq<HttpReplyV>,
    j: int,
) -> ProvisionStepV
    decreases rs.len() - j,
{
    if !getting && tries >= 10 {
        ProvisionStepV::Finished(ResultV::Done(results))
    } else if j < 0 || j >= rs.len() {
        ProvisionStepV::Send(if getting {
            HttpRequestV::Get(linode_instances_url() + "/"@ + id, Some(token))
        } else {
            HttpRequestV::Sleep(15)
        })
    } else if !getting {
        match rs[j] {
            HttpReplyV::Slept => linode_wait(token, wait, id, results, found_ip, tries, true, rs, j + 1),
            _ => ProvisionStepV::Abort(unexpected_http_reply_text()),
        }
    } else {
        match rs[j] {
            HttpReplyV::Slept => ProvisionStepV::Abort(unexpected_http_reply_text()),
            _ => match linode_reply(rs[j]) {
                None => ProvisionStepV::Finished(failed()),
                Some(d) => {
                    let new_ip = !found_ip && d.1.len() > 0;
                    let results2 = if new_ip {
                        results.insert("ip"@, d.1[0])
                    } else {
                        results
                    };
                    if new_ip && wait == ProvisionResponseWaitType::WaitForResourceCreationOrModification {
                        ProvisionStepV::Finished(ResultV::InProgress(results2))
                    } else if d.2 == "running"@ {
                        ProvisionStepV::Finished(ResultV::Done(results2))
                    } else {
                        linode_wait(token, wait, id, results2, found_ip || new_ip, tries + 1, false, rs, j + 1)
                    }
                },
            },
        }
    }
}

/// Creating an instance: the create request with the `region`, `type`,
/// `label`, `image` and `root_pass` parameters; the instance's `id`, the
/// `root_pass` (as `root_password`) and its first address (as `ip`) are the
/// results; then, while it is `provisioning`, the wait the parameters ask
/// for.
pub open spec fn linode_create_step(token: Seq<char>, p: ProvisionParams, rs: Seq<HttpReplyV>) -> ProvisionStepV {
    if rs.len() == 0 {
        ProvisionStepV::Send(HttpRequestV::Post(linode_instances_url(), Some(token), json_text(linode_create_body(p))))
    } else {
        match rs[0] {
            HttpReplyV::Status(c, _) => ProvisionStepV::Finished(create_error(c)),
            HttpReplyV::Transport(_) => ProvisionStepV::Finished(failed()),
            HttpReplyV::Slept => ProvisionStepV::Abort(unexpected_http_reply_text()),
            HttpReplyV::Body(_) => match linode_reply(rs[0]) {
                None => ProvisionStepV::Finished(failed()),
                Some(d) => {
                    let id = nat_decimal(d.0 as nat);
                    let base = Map::<Seq<char>, Seq<char>>::empty().insert("id"@, id).insert(
                        "root_password"@,
                        value_or(p, "root_pass"@, seq![]),
                    );
                    let found_ip = d.1.len() > 0;
                    let results = if found_ip {
                        base.insert("ip"@, d.1[0])
                    } else {
                        base
                    };
                    if p.wait_type == ProvisionResponseWaitType::ReturnImmediatelyAfterAPIRequest {
                        ProvisionStepV::Finished(ResultV::InProgress(results))
                    } else if found_ip && p.wait_type == ProvisionResponseWaitType::WaitForResourceCreationOrModification {
                        ProvisionStepV::Finished(ResultV::InProgress(results))
                    } else if d.2 == "provisioning"@ {
                        linode_wait(token, p.wait_type, id, results, found_ip, 0, false, rs, 1)
                    } else {
                        ProvisionStepV::Finished(ResultV::Done(results))
                    }
                },
            },
        }
    }
}

/// The wait asks for at most two requests for each try that is left.
proof fn lemma_linode_wait_bounded(
    token: Seq<char>,
    wait: ProvisionResponseWaitType,
    id: Seq<char>,
    results: Map<Seq<char>, Seq<char>>,
    found_ip: bool,
    tries: int,
    getting: bool,
    rs: Seq<HttpReplyV>,
    j: int,
)
    requires
        0 <= j,
        0 <= tries <= 10,
        getting ==> tries < 10,
        rs.len() >= j + 2 * (10 - tries) - (if getting { 1int } else { 0int }),
    ensures
        !(linode_wait(token, wait, id, results, found_ip, tries, getting, rs, j) is Send),
    decreases rs.len() - j,
{
    if !getting && tries >= 10 {
    } else if !getting {
        if rs[j] is Slept {
            lemma_linode_wait_bounded(token, wait, id, results, found_ip, tries, true, rs, j + 1);
        }
    } else if !(rs[j] is Slept) {
        if let Some(d) = linode_reply(rs[j]) {
            let new_ip = !found_ip && d.1.len() > 0;
            let results2 = if new_ip {
                results.insert("ip"@, d.1[0])
            } else {
                results
            };
            lemma_linode_wait_bounded(token, wait, id, results2, found_ip || new_ip, tries + 1, false, rs, j + 1);
        }
    }
}

/// Creating an instance asks for at most 21 requests: the create request,
/// then a pause and a look for each of ten tries.
pub proof fn lemma_linode_create_requests_bounded(token: Seq<char>, p: ProvisionParams, rs: Seq<HttpReplyV>)
    requires
        rs.len() >= 21,
    ensures
        !(linode_create_step(token, p, rs) is Send),
{
    if let HttpReplyV::Body(_) = rs[0] {
        if let Some(d) = linode_reply(rs[0]) {
            let id = nat_decimal(d.0 as nat);
            let base = Map::<Seq<char>, Seq<char>>::empty().insert("id"@, id).insert(
                "root_password"@,
                value_or(p, "root_pass"@, seq![]),
            );
            let found_ip = d.1.len() > 0;
            let results = if found_ip {
                base.insert("ip"@, d.1[0])
            } else {
                base
            };
            lemma_linode_wait_bounded(token, p.wait_type, id, results, found_ip, 0, false, rs, 1);
        }
    }
}

pub open spec fn linode_required(action: ProvisionActionType) -> Seq<Seq<char>> {
    if action == ProvisionActionType::CreateInstance {
        seq!["image"@, "label"@, "region"@, "root_pass"@, "type"@]
    } else {
        seq![]
    }
}

fn value_or_exec(p: &ProvisionParams, key: &str) -> (r: String)
    ensures
        r@ == value_or(*p, key@, seq![]),
{
    proof {
        reveal_strlit("");
    }
    p.get_string_value(key, "")
}

fn linode_body(p: &ProvisionParams) -> (r: JsonValue)
    ensures
        r@ == linode_create_body(*p),
{
    let mut o: Vec<(String, JsonValue)> = Vec::new();
    o.push((owned("image"), JsonValue::Str(value_or_exec(p, "image"))));
    o.push((owned("label"), JsonValue::Str(value_or_exec(p, "label"))));
    o.push((owned("region"), JsonValue::Str(value_or_exec(p, "region"))));
    o.push((owned("root_pass"), JsonValue::Str(value_or_exec(p, "root_pass"))));
    o.push((owned("type"), JsonValue::Str(value_or_exec(p, "type"))));
    let r = JsonValue::Object(o);
    proof {
        crate::provision::json::lemma_member_seq_view(o@);
        assert(crate::provision::json::member_seq_view(o@) =~= linode_create_body(*p)->Object_0);
    }
    r
}

/// Reads an instance reply: the id, the IPv4 addresses and the status,
/// when it has the expected shape.
pub fn linode_instance_exec(v: &JsonValue) -> (d: Option<(u64, Vec<String>, String)>)
    ensures
        match d {
            Some(t) => linode_instance(v@) == Some((t.0, crate::params::strings_view(t.1@), t.2@)),
            None => linode_instance(v@) is None,
        },
{
    let id = match u64_member_exec(v, "id") {
        Some(n) => n,
        None => {
            return None;
        },
    };
    if text_member_exec(v, "image").is_none() || text_member_exec(v, "ipv6").is_none() || text_member_exec(v, "label").is_none() {
        return None;
    }
    let ips = match text_array_member_exec(v, "ipv4") {
        Some(a) => a,
        None => {
            return None;
        },
    };
    let status = match text_member_exec(v, "status") {
        Some(s) => s,
        None => {
            return None;
        },
    };
    Some((id, ips, status))
}

fn linode_reply_exec(r: &HttpReply) -> (d: Option<(u64, Vec<String>, String)>)
    ensures
        match d {
            Some(t) => linode_reply(r@) == Some((t.0, crate::params::strings_view(t.1@), t.2@)),
            None => linode_reply(r@) is None,
        },
{
    match r {
        HttpReply::Body(text) => match parse_json(text.as_str()) {
            Ok(v) => linode_instance_exec(&v),
            Err(_) => None,
        },
        _ => None,
    }
}

impl ProviderLinode {
    #[verifier::loop_isolation(false)]
    fn wait_for_instance(
        &self,
        wait: ProvisionResponseWaitType,
        id: &str,
        results: ActionResultValues,
        found_ip: bool,
        replies: &Vec<HttpReply>,
    ) -> (r: ProvisionStep)
        ensures
            r@ == linode_wait(self.linode_api_key@, wait, id@, results_map(results), found_ip, 0, false, http_replies_view(replies@), 1),
    {
        let ghost rv = http_replies_view(replies@);
        let ghost token = self.linode_api_key@;
        let ghost start_results = results_map(results);
        let mut results = results;
        let mut found = found_ip;
        let mut tries: u32 = 0;
        let mut getting = false;
        let mut j: usize = 1;
        loop
            invariant
                rv == http_replies_view(replies@),
                1 <= j,
                tries <= 10,
                getting ==> tries < 10,
                linode_wait(token, wait, id@, start_results, found_ip, 0, false, rv, 1) == linode_wait(
                    token,
                    wait,
                    id@,
                    results_map(results),
                    found,
                    tries as int,
                    getting,
                    rv,
                    j as int,
                ),
            decreases replies@.len() + 1 - j,
        {
            if !getting && tries >= 10 {
                return ProvisionStep::Finished(ProvisionActionResult::ActionCreatedDone(results));
            }
            if j >= replies.len() {
                if getting {
                    let url = crate::text::concat3("https://api.linode.com/v4/linode/instances", "/", id);
                    return ProvisionStep::Send(HttpRequest::Get(url, Some(owned(self.linode_api_key.as_str()))));
                } else {
                    return ProvisionStep::Send(HttpRequest::Sleep(15));
                }
            }
            assert(rv[j as int] == replies@[j as int]@);
            let reply = &replies[j];
            if !getting {
                match reply {
                    HttpReply::Slept => {
                        getting = true;
                    },
                    _ => {
                        return ProvisionStep::Abort(owned("a reply did not answer its request"));
                    },
                }
            } else {
                if let HttpReply::Slept = reply {
                    return ProvisionStep::Abort(owned("a reply did not answer its request"));
                }
                let d = match linode_reply_exec(reply) {
                    None => {
                        return ProvisionStep::Finished(failed_result());
                    },
                    Some(d) => d,
                };
                let new_ip = !found && d.1.len() > 0;
                if new_ip {
                    results.insert("ip", d.1[0].as_str());
                    found = true;
                }
                if new_ip && wait == ProvisionResponseWaitType::WaitForResourceCreationOrModification {
                    return ProvisionStep::Finished(ProvisionActionResult::ActionCreatedInProgress(results));
                } else if str_eq(d.2.as_str(), "running") {
                    return ProvisionStep::Finished(ProvisionActionResult::ActionCreatedDone(results));
                }
                tries = tries + 1;
                getting = false;
            }
            j = j + 1;
        }
    }

    fn create_step(&self, params: &ProvisionParams, replies: &Vec<HttpReply>) -> (r: ProvisionStep)
        ensures
            r@ == linode_create_step(self.linode_api_key@, *params, http_replies_view(replies@)),
    {
        if replies.len() == 0 {
            let body = write_json(&linode_body(params));
            return ProvisionStep::Send(HttpRequest::Post(
                owned("https://api.linode.com/v4/linode/instances"),
                Some(owned(self.linode_api_key.as_str())),
                body,
            ));
        }
        assert(http_replies_view(replies@)[0] == replies@[0]@);
        match &replies[0] {
            HttpReply::Status(c, _) => {
                return ProvisionStep::Finished(create_error_result(*c));
            },
            HttpReply::Transport(_) => {
                return ProvisionStep::Finished(failed_result());
            },
            HttpReply::Slept => {
                return ProvisionStep::Abort(owned("a reply did not answer its request"));
            },
            HttpReply::Body(_) => {},
        }
        let d = match linode_reply_exec(&replies[0]) {
            None => {
                return ProvisionStep::Finished(failed_result());
            },
            Some(d) => d,
        };
        let id = string_of(u64_decimal(d.0).as_slice());
        let mut results = ActionResultValues::new();
        results.insert("id", id.as_str());
        let root_pass = value_or_exec(params, "root_pass");
        results.insert("root_password", root_pass.as_str());
        let found_ip = d.1.len() > 0;
        if found_ip {
            results.insert("ip", d.1[0].as_str());
        }
        if params.wait_type == ProvisionResponseWaitType::ReturnImmediatelyAfterAPIRequest {
            return ProvisionStep::Finished(ProvisionActionResult::ActionCreatedInProgress(results));
        }
        if found_ip && params.wait_type == ProvisionResponseWaitType::WaitForResourceCreationOrModification {
            return ProvisionStep::Finished(ProvisionActionResult::ActionCreatedInProgress(results));
        }
        if str_eq(d.2.as_str(), "provisioning") {
            self.wait_for_instance(params.wait_type, id.as_str(), results, found_ip, replies)
        } else {
            ProvisionStep::Finished(ProvisionActionResult::ActionCreatedDone(results))
        }
    }
}

impl ProvisionProvider for ProviderLinode {
    fn name(&self) -> (r: String)
        ensures
            r@ == "linode"@,
    {
        owned("linode")
    }

    fn supports_interactive(&self) -> (r: bool)
        ensures
            r,
    {
        true
    }

    fn prompt_interactive(&self) -> (r: Vec<(String, String)>)
        ensures
            r@.len() == 1,
            r@[0].0@ == "API_KEY"@,
            r@[0].1@ == "API Key to use Linode"@,
    {
        let mut items: Vec<(String, String)> = Vec::new();
        items.push((owned("API_KEY"), owned("API Key to use Linode")));
        items
    }

    fn is_configured(&self) -> (r: bool)
        ensures
            r == (self.linode_api_key@.len() > 0),
    {
        self.linode_api_key.as_str().unicode_len() > 0
    }

    fn get_required_params_for_action(&self, action: ProvisionActionType) -> (r: Vec<String>)
        ensures
            crate::params::strings_view(r@) == linode_required(action),
    {
        let mut v: Vec<String> = Vec::new();
        if action == ProvisionActionType::CreateInstance {
            v.push(owned("image"));
            v.push(owned("label"));
            v.push(owned("region"));
            v.push(owned("root_pass"));
            v.push(owned("type"));
        }
        assert(crate::params::strings_view(v@) =~= linode_required(action));
        v
    }

    /// Creates an instance and waits as the parameters ask.
    fn create_instance(&self, params: &ProvisionParams, dry_run: bool, replies: &Vec<HttpReply>) -> (r: ProvisionStep)
        ensures
            r@ == linode_create_step(self.linode_api_key@, *params, http_replies_view(replies@)),
    {
        self.create_step(params, replies)
    }

    /// Deletes the instance named by `instance_id`.
    fn delete_instance(&self, params: &ProvisionParams, dry_run: bool, replies: &Vec<HttpReply>) -> (r: ProvisionStep)
        ensures
            r@ == delete_step(
                linode_instances_url() + "/"@ + value_or(*params, "instance_id"@, seq![]),
                self.linode_api_key@,
                http_replies_view(replies@),
            ),
    {
        let id = value_or_exec(params, "instance_id");
        let url = crate::text::concat3("https://api.linode.com/v4/linode/instances", "/", id.as_str());
        run_delete(url, self.linode_api_key.as_str(), replies)
    }
}

} // verus!
