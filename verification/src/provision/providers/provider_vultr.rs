//! Provisioning with Vultr: creating an instance (then waiting for its
//! address and for it to be ready), and deleting one.
use vstd::prelude::*;
use crate::provision::json::{
    as_text, json_get, member, parse_json, json_parsed, text_member, text_member_exec, u32_member,
    u32_member_exec, write_json, json_text, JsonNumber, JsonV, JsonValue,
};
use crate::provision::provision_common::{
    results_map, text_flag, ActionResultValues, ProvisionActionResult, ProvisionActionType, ProvisionResponseWaitType,
};
use crate::provision::provision_params::{ProvisionParams, PV};
use crate::provision::provision_provider::{
    create_error, create_error_result, delete_step, failed, failed_result, http_replies_view,
    run_delete, unexpected_http_reply_text, HttpReply, HttpReplyV, HttpRequest,
    HttpRequestV, ProvisionProvider, ProvisionStep, ProvisionStepV, ResultV,
};
use crate::text::{chars_of, concat2, int_to_string, owned, parse_u32, parse_u32_chars, str_eq, trim, trim_chars, string_of};

verus! {

/// Creates and deletes Vultr instances with an API key.
pub struct ProviderVultr {
    pub vultr_api_key: String,
}

impl ProviderVultr {
    pub fn new() -> (r: ProviderVultr)
        ensures
            r.vultr_api_key@.len() == 0,
    {
        ProviderVultr { vultr_api_key: String::new() }
    }

    /// Takes the API key (trimmed) from the `PROD_VULTR_API_KEY` setting;
    /// false when it is not set.
    pub fn configure(&mut self, api_key: Option<&str>) -> (r: bool)
        ensures
            match api_key {
                Some(k) => r && final(self).vultr_api_key@ == trim(k@),
                None => !r && final(self).vultr_api_key == old(self).vultr_api_key,
            },
    {
        match api_key {
            Some(k) => {
                let c = chars_of(k);
                self.vultr_api_key = string_of(trim_chars(c.as_slice()).as_slice());
                true
            },
            None => false,
        }
    }
}

/// A string parameter, or the default.
pub open spec fn value_or(p: ProvisionParams, key: Seq<char>, d: Seq<char>) -> Seq<char> {
    match p@.values.get(key) {
        Some(PV::StringVal(s)) => s,
        _ => d,
    }
}

/// A flag parameter, or the default.
pub open spec fn flag_or(p: ProvisionParams, key: Seq<char>, d: bool) -> bool {
    match p@.values.get(key) {
        Some(PV::StringVal(s)) => text_flag(Some(s), d),
        _ => d,
    }
}

pub open spec fn vultr_instances_url() -> Seq<char> {
    "https://api.vultr.com/v2/instances"@
}

/// The body of a create request.
pub open spec fn vultr_create_body(p: ProvisionParams, os_id: u32) -> JsonV {
    JsonV::Object(seq![
        ("enable_ipv6"@, JsonV::Bool(flag_or(p, "enable_ipv6"@, false))),
        ("label"@, JsonV::Str(value_or(p, "label"@, seq![]))),
        ("os_id"@, JsonV::Number(Some(os_id as u64), Some(os_id as i64), crate::text::nat_decimal(os_id as nat))),
        ("plan"@, JsonV::Str(value_or(p, "plan"@, seq![]))),
        ("region"@, JsonV::Str(value_or(p, "region"@, seq![]))),
    ])
}

/// What a get-instance response reports: the main address, the status, the
/// power status and the server status, when it has the expected shape.
pub open spec fn vultr_instance(v: JsonV) -> Option<(Seq<char>, Seq<char>, Seq<char>, Seq<char>)> {
    match member(v, "instance"@) {
        Some(i) => if text_member(i, "id"@) is Some && text_member(i, "os"@) is Some && u32_member(i, "ram"@)
            && u32_member(i, "disk"@) && u32_member(i, "vcpu_count"@) && text_member(i, "main_ip"@) is Some
            && text_member(i, "v6_main_ip"@) is Some && text_member(i, "status"@) is Some
            && text_member(i, "power_status"@) is Some && text_member(i, "server_status"@) is Some {
            Some((
                text_member(i, "main_ip"@)->Some_0,
                text_member(i, "status"@)->Some_0,
                text_member(i, "power_status"@)->Some_0,
                text_member(i, "server_status"@)->Some_0,
            ))
        } else {
            None
        },
        None => None,
    }
}

/// The instance details a reply carries, when it is a response of the
/// expected shape.
pub open spec fn vultr_details_reply(r: HttpReplyV) -> Option<(Seq<char>, Seq<char>, Seq<char>, Seq<char>)> {
    match r {
        HttpReplyV::Body(text) => match json_parsed(text) {
            Ok(v) => vultr_instance(v),
            Err(_) => None,
        },
        _ => None,
    }
}

/// Where the wait for a new instance stands: the results so far, the tries
/// made, whether an address was seen, how often the instance was seen
/// booting, and the request that is due (0: a pause, 1: the details, 2: the
/// extra pause while it boots).
pub struct VultrWait {
    pub results: Map<Seq<char>, Seq<char>>,
    pub tries: int,
    pub have_ip: bool,
    pub booting: int,
    pub phase: int,
}

pub open spec fn vultr_wait_request(token: Seq<char>, id: Seq<char>, w: VultrWait) -> HttpRequestV {
    if w.phase == 1 {
        HttpRequestV::Get(vultr_instances_url() + "/"@ + id, Some(token))
    } else {
        HttpRequestV::Sleep(15)
    }
}

/// Up to ten tries, each a pause of 15 seconds and a look at the instance.
/// The first address other than `0.0.0.0` is kept as `ip`; a wait for the
/// resource ends there. A wait for the finished instance ends once it was
/// seen active, running and booting more than twice after an address was
/// seen (with an extra pause each time it is seen booting). After the last
/// try the results so far are in progress.
pub open spec fn vultr_wait(
    token: Seq<char>,
    wait: ProvisionResponseWaitType,
    id: Seq<char>,
    w: VultrWait,
    rs: Seq<HttpReplyV>,
    j: int,
) -> ProvisionStepV
    decreases rs.len() - j,
{
    if w.phase == 0 && w.tries >= 10 {
        ProvisionStepV::Finished(ResultV::InProgress(w.results))
    } else if j < 0 || j >= rs.len() {
        ProvisionStepV::Send(vultr_wait_request(token, id, w))
    } else if w.phase == 0 {
        match rs[j] {
            HttpReplyV::Slept => vultr_wait(token, wait, id, VultrWait { phase: 1, ..w }, rs, j + 1),
            _ => ProvisionStepV::Abort(unexpected_http_reply_text()),
        }
    } else if w.phase == 1 {
        match rs[j] {
            HttpReplyV::Slept => ProvisionStepV::Abort(unexpected_http_reply_text()),
            _ => match vultr_details_reply(rs[j]) {
                None => ProvisionStepV::Finished(failed()),
                Some(d) => {
                    let new_ip = !w.have_ip && d.0 != "0.0.0.0"@;
                    let results = if new_ip {
                        w.results.insert("ip"@, d.0)
                    } else {
                        w.results
                    };
                    let have_ip = w.have_ip || new_ip;
                    if new_ip && wait == ProvisionResponseWaitType::WaitForResourceCreationOrModification {
                        ProvisionStepV::Finished(ResultV::InProgress(results))
                    } else if wait == ProvisionResponseWaitType::WaitForResourceFinalised && d.1 == "active"@ && d.2
                        == "running"@ && d.3 == "installingbooting"@ {
                        vultr_wait(token, wait, id, VultrWait { results, have_ip, phase: 2, ..w }, rs, j + 1)
                    } else {
                        vultr_wait(token, wait, id, VultrWait { results, have_ip, phase: 0, tries: w.tries + 1, ..w }, rs, j + 1)
                    }
                },
            },
        }
    } else {
        match rs[j] {
            HttpReplyV::Slept => if w.have_ip && w.booting > 2 {
                ProvisionStepV::Finished(ResultV::Done(w.results))
            } else {
                vultr_wait(token, wait, id, VultrWait { booting: w.booting + 1, tries: w.tries + 1, phase: 0, ..w }, rs, j + 1)
            },
            _ => ProvisionStepV::Abort(unexpected_http_reply_text()),
        }
    }
}

pub open spec fn bad_os_id_text() -> Seq<char> {
    "the 'os_id' parameter is not a number"@
}

pub open spec fn bad_field_text() -> Seq<char> {
    "an instance value of the response is not a string"@
}

/// Creating an instance: the create request with the `region`, `plan`,
/// `label`, `os_id` and `enable_ipv6` parameters; its `id` (and
/// `default_password`, as `root_password`) are the first results; then the
/// wait that the parameters ask for.
pub open spec fn vultr_create_step(token: Seq<char>, p: ProvisionParams, rs: Seq<HttpReplyV>) -> ProvisionStepV {
    match parse_u32(value_or(p, "os_id"@, seq![])) {
        None => ProvisionStepV::Abort(bad_os_id_text()),
        Some(os_id) => if rs.len() == 0 {
            ProvisionStepV::Send(HttpRequestV::Post(vultr_instances_url(), Some(token), json_text(vultr_create_body(p, os_id))))
        } else {
            match rs[0] {
                HttpReplyV::Status(c, _) => ProvisionStepV::Finished(create_error(c)),
                HttpReplyV::Transport(_) => ProvisionStepV::Finished(failed()),
                HttpReplyV::Slept => ProvisionStepV::Abort(unexpected_http_reply_text()),
                HttpReplyV::Body(text) => match json_parsed(text) {
                    Err(_) => ProvisionStepV::Finished(failed()),
                    Ok(v) => match member(v, "instance"@) {
                        None => ProvisionStepV::Finished(failed()),
                        Some(inst) => match member(inst, "id"@) {
                            None => ProvisionStepV::Finished(failed()),
                            Some(idv) => match as_text(idv) {
                                None => ProvisionStepV::Abort(bad_field_text()),
                                Some(id) => {
                                    let pw = member(inst, "default_password"@);
                                    if pw matches Some(x) && as_text(x) is None {
                                        ProvisionStepV::Abort(bad_field_text())
                                    } else {
                                        let results = match pw {
                                            Some(x) => Map::empty().insert("id"@, id).insert("root_password"@, as_text(x)->Some_0),
                                            None => Map::empty().insert("id"@, id),
                                        };
                                        if p.wait_type == ProvisionResponseWaitType::ReturnImmediatelyAfterAPIRequest {
                                            ProvisionStepV::Finished(ResultV::InProgress(results))
                                        } else {
                                            vultr_wait(
                                                token,
                                                p.wait_type,
                                                id,
                                                VultrWait { results, tries: 0, have_ip: false, booting: 0, phase: 0 },
                                                rs,
                                                1,
                                            )
                                        }
                                    }
                                },
                            },
                        },
                    },
                },
            }
        }
    }
}

fn value_or_exec(p: &ProvisionParams, key: &str) -> (r: String)
    ensures
        r@ == value_or(*p, key@, seq![]),
{
    proof {
        reveal_strlit("");
    }
    p.get_string_value(key, "")
}

fn vultr_body(p: &ProvisionParams, os_id: u32) -> (r: JsonValue)
    ensures
        r@ == vultr_create_body(*p, os_id),
{
    let mut o: Vec<(String, JsonValue)> = Vec::new();
    o.push((owned("enable_ipv6"), JsonValue::Bool(p.get_string_value_as_bool("enable_ipv6", false))));
    o.push((owned("label"), JsonValue::Str(value_or_exec(p, "label"))));
    let digits = string_of(crate::text::u64_decimal(os_id as u64).as_slice());
    o.push((owned("os_id"), JsonValue::Number(JsonNumber { as_u64: Some(os_id as u64), as_i64: Some(os_id as i64), text: digits })));
    o.push((owned("plan"), JsonValue::Str(value_or_exec(p, "plan"))));
    o.push((owned("region"), JsonValue::Str(value_or_exec(p, "region"))));
    let r = JsonValue::Object(o);
    proof {
        crate::provision::json::lemma_member_seq_view(o@);
        assert(crate::provision::json::member_seq_view(o@) =~= vultr_create_body(*p, os_id)->Object_0);
    }
    r
}

/// Reads an instance reply: the main address, the status, the power status
/// and the server status, when it has the expected shape.
pub fn vultr_instance_exec(v: &JsonValue) -> (r: Option<(String, String, String, String)>)
    ensures
        match r {
            Some(t) => vultr_instance(v@) == Some((t.0@, t.1@, t.2@, t.3@)),
            None => vultr_instance(v@) is None,
        },
{
    let i = match json_get(v, "instance") {
        Some(i) => i,
        None => {
            return None;
        },
    };
    if text_member_exec(i, "id").is_none() || text_member_exec(i, "os").is_none() || !u32_member_exec(i, "ram")
        || !u32_member_exec(i, "disk") || !u32_member_exec(i, "vcpu_count") || text_member_exec(i, "v6_main_ip").is_none() {
        return None;
    }
    let main_ip = match text_member_exec(i, "main_ip") {
        Some(t) => t,
        None => {
            return None;
        },
    };
    let status = match text_member_exec(i, "status") {
        Some(t) => t,
        None => {
            return None;
        },
    };
    let power = match text_member_exec(i, "power_status") {
        Some(t) => t,
        None => {
            return None;
        },
    };
    let server = match text_member_exec(i, "server_status") {
        Some(t) => t,
        None => {
            return None;
        },
    };
    Some((main_ip, status, power, server))
}

/// What a create reply reports: nothing usable without an instance and its
/// `id` (the create failed); `Err` when the id or the `default_password` is
/// not a string; else the id and the password, if given.
pub open spec fn vultr_created(v: JsonV) -> Option<Result<(Seq<char>, Option<Seq<char>>), ()>> {
    match member(v, "instance"@) {
        None => None,
        Some(inst) => match member(inst, "id"@) {
            None => None,
            Some(idv) => match as_text(idv) {
                None => Some(Err(())),
                Some(id) => match member(inst, "default_password"@) {
                    None => Some(Ok((id, None))),
                    Some(x) => match as_text(x) {
                        None => Some(Err(())),
                        Some(pw) => Some(Ok((id, Some(pw)))),
                    },
                },
            },
        },
    }
}

/// Reads a create reply, as `vultr_created` says.
pub fn vultr_created_exec(v: &JsonValue) -> (r: Option<Result<(String, Option<String>), ()>>)
    ensures
        match r {
            None => vultr_created(v@) is None,
            Some(Err(())) => vultr_created(v@) == Some(Err::<(Seq<char>, Option<Seq<char>>), ()>(())),
            Some(Ok((id, pw))) => vultr_created(v@) == Some(Ok::<(Seq<char>, Option<Seq<char>>), ()>((
                id@,
                match pw {
                    Some(p) => Some(p@),
                    None => None,
                },
            ))),
        },
{
    let inst = match json_get(v, "instance") {
        None => {
            return None;
        },
        Some(i) => i,
    };
    let id = match json_get(inst, "id") {
        None => {
            return None;
        },
        Some(JsonValue::Str(id)) => owned(id.as_str()),
        Some(_) => {
            return Some(Err(()));
        },
    };
    match json_get(inst, "default_password") {
        None => Some(Ok((id, None))),
        Some(JsonValue::Str(pw)) => Some(Ok((id, Some(owned(pw.as_str()))))),
        Some(_) => Some(Err(())),
    }
}

fn vultr_details_exec(r: &HttpReply) -> (d: Option<(String, String, String, String)>)
    ensures
        match d {
            Some(t) => vultr_details_reply(r@) == Some((t.0@, t.1@, t.2@, t.3@)),
            None => vultr_details_reply(r@) is None,
        },
{
    match r {
        HttpReply::Body(text) => match parse_json(text.as_str()) {
            Ok(v) => vultr_instance_exec(&v),
            Err(_) => None,
        },
        _ => None,
    }
}

impl ProviderVultr {
    #[verifier::loop_isolation(false)]
    fn wait_for_instance(
        &self,
        wait: ProvisionResponseWaitType,
        id: &str,
        results: ActionResultValues,
        replies: &Vec<HttpReply>,
    ) -> (r: ProvisionStep)
        ensures
            r@ == vultr_wait(
                self.vultr_api_key@,
                wait,
                id@,
                VultrWait { results: results_map(results), tries: 0, have_ip: false, booting: 0, phase: 0 },
                http_replies_view(replies@),
                1,
            ),
    {
        let ghost rv = http_replies_view(replies@);
        let ghost token = self.vultr_api_key@;
        let mut results = results;
        let mut tries: u32 = 0;
        let mut have_ip = false;
        let mut booting: u32 = 0;
        let mut phase: u8 = 0;
        let mut j: usize = 1;
        let ghost start = VultrWait { results: results_map(results), tries: 0, have_ip: false, booting: 0, phase: 0 };
        loop
            invariant
                rv == http_replies_view(replies@),
                token == self.vultr_api_key@,
                1 <= j,
                tries <= 10,
                booting <= tries,
                phase <= 2,
                phase != 0 ==> tries < 10,
                vultr_wait(token, wait, id@, start, rv, 1) == vultr_wait(
                    token,
                    wait,
                    id@,
                    VultrWait { results: results_map(results), tries: tries as int, have_ip, booting: booting as int, phase: phase as int },
                    rv,
                    j as int,
                ),
            decreases replies@.len() + 1 - j,
        {
            if phase == 0 && tries >= 10 {
                return ProvisionStep::Finished(ProvisionActionResult::ActionCreatedInProgress(results));
            }
            if j >= replies.len() {
                if phase == 1 {
                    let url = crate::text::concat3("https://api.vultr.com/v2/instances", "/", id);
                    return ProvisionStep::Send(HttpRequest::Get(url, Some(owned(self.vultr_api_key.as_str()))));
                } else {
                    return ProvisionStep::Send(HttpRequest::Sleep(15));
                }
            }
            assert(rv[j as int] == replies@[j as int]@);
            let reply = &replies[j];
            if phase == 0 {
                match reply {
                    HttpReply::Slept => {
                        phase = 1;
                    },
                    _ => {
                        return ProvisionStep::Abort(owned("a reply did not answer its request"));
                    },
                }
            } else if phase == 1 {
                if let HttpReply::Slept = reply {
                    return ProvisionStep::Abort(owned("a reply did not answer its request"));
                }
                let d = match vultr_details_exec(reply) {
                    None => {
                        return ProvisionStep::Finished(failed_result());
                    },
                    Some(d) => d,
                };
                let new_ip = !have_ip && !str_eq(d.0.as_str(), "0.0.0.0");
                if new_ip {
                    results.insert("ip", d.0.as_str());
                    have_ip = true;
                }
                if new_ip && wait == ProvisionResponseWaitType::WaitForResourceCreationOrModification {
                    return ProvisionStep::Finished(ProvisionActionResult::ActionCreatedInProgress(results));
                } else if wait == ProvisionResponseWaitType::WaitForResourceFinalised && str_eq(d.1.as_str(), "active")
                    && str_eq(d.2.as_str(), "running") && str_eq(d.3.as_str(), "installingbooting") {
                    phase = 2;
                } else {
                    phase = 0;
                    tries = tries + 1;
                }
            } else {
                match reply {
                    HttpReply::Slept => {
                        if have_ip && booting > 2 {
                            return ProvisionStep::Finished(ProvisionActionResult::ActionCreatedDone(results));
                        }
                        booting = booting + 1;
                        tries = tries + 1;
                        phase = 0;
                    },
                    _ => {
                        return ProvisionStep::Abort(owned("a reply did not answer its request"));
                    },
                }
            }
            j = j + 1;
        }
    }
}

/// The names of the parameters an action needs, in name order.
/// The wait asks for at most three requests for each try that is left.
proof fn lemma_vultr_wait_bounded(
    token: Seq<char>,
    wait: ProvisionResponseWaitType,
    id: Seq<char>,
    w: VultrWait,
    rs: Seq<HttpReplyV>,
    j: int,
)
    requires
        0 <= j,
        0 <= w.tries <= 10,
        0 <= w.phase <= 2,
        w.phase != 0 ==> w.tries < 10,
        rs.len() >= j + 3 * (10 - w.tries) - w.phase,
    ensures
        !(vultr_wait(token, wait, id, w, rs, j) is Send),
    decreases rs.len() - j,
{
    if w.phase == 0 && w.tries >= 10 {
    } else if w.phase == 0 {
        if rs[j] is Slept {
            lemma_vultr_wait_bounded(token, wait, id, VultrWait { phase: 1, ..w }, rs, j + 1);
        }
    } else if w.phase == 1 {
        if !(rs[j] is Slept) {
            if let Some(d) = vultr_details_reply(rs[j]) {
                let new_ip = !w.have_ip && d.0 != "0.0.0.0"@;
                let results = if new_ip {
                    w.results.insert("ip"@, d.0)
                } else {
                    w.results
                };
                let have_ip = w.have_ip || new_ip;
                lemma_vultr_wait_bounded(token, wait, id, VultrWait { results, have_ip, phase: 2, ..w }, rs, j + 1);
                lemma_vultr_wait_bounded(
                    token,
                    wait,
                    id,
                    VultrWait { results, have_ip, phase: 0, tries: w.tries + 1, ..w },
                    rs,
                    j + 1,
                );
            }
        }
    } else {
        if rs[j] is Slept {
            lemma_vultr_wait_bounded(
                token,
                wait,
                id,
                VultrWait { booting: w.booting + 1, tries: w.tries + 1, phase: 0, ..w },
                rs,
                j + 1,
            );
        }
    }
}

/// Creating an instance asks for at most 31 requests: the create request,
/// then a pause, a look and perhaps a second pause for each of ten tries.
pub proof fn lemma_vultr_create_requests_bounded(token: Seq<char>, p: ProvisionParams, rs: Seq<HttpReplyV>)
    requires
        rs.len() >= 31,
    ensures
        !(vultr_create_step(token, p, rs) is Send),
{
    if parse_u32(value_or(p, "os_id"@, seq![])) is Some {
        if let HttpReplyV::Body(text) = rs[0] {
            if let Ok(v) = json_parsed(text) {
                if let Some(inst) = member(v, "instance"@) {
                    if let Some(idv) = member(inst, "id"@) {
                        if let Some(id) = as_text(idv) {
                            let pw = member(inst, "default_password"@);
                            let results = match pw {
                                Some(x) => Map::empty().insert("id"@, id).insert("root_password"@, as_text(x)->Some_0),
                                None => Map::empty().insert("id"@, id),
                            };
                            lemma_vultr_wait_bounded(
                                token,
                                p.wait_type,
                                id,
                                VultrWait { results, tries: 0, have_ip: false, booting: 0, phase: 0 },
                                rs,
                                1,
                            );
                        }
                    }
                }
            }
        }
    }
}

pub open spec fn vultr_required(action: ProvisionActionType) -> Seq<Seq<char>> {
    if action == ProvisionActionType::CreateInstance {
        seq!["os_id"@, "plan"@, "region"@]
    } else if action == ProvisionActionType::DeleteInstance {
        seq!["instance_id"@]
    } else {
        seq![]
    }
}

impl ProviderVultr {
    fn create_step(&self, params: &ProvisionParams, replies: &Vec<HttpReply>) -> (r: ProvisionStep)
        ensures
            r@ == vultr_create_step(self.vultr_api_key@, *params, http_replies_view(replies@)),
    {
        let os_text = value_or_exec(params, "os_id");
        let os_chars = chars_of(os_text.as_str());
        let os_id = match parse_u32_chars(os_chars.as_slice()) {
            Some(n) => n,
            None => {
                return ProvisionStep::Abort(owned("the 'os_id' parameter is not a number"));
            },
        };
        if replies.len() == 0 {
            let body = write_json(&vultr_body(params, os_id));
            return ProvisionStep::Send(HttpRequest::Post(
                owned("https://api.vultr.com/v2/instances"),
                Some(owned(self.vultr_api_key.as_str())),
                body,
            ));
        }
        assert(http_replies_view(replies@)[0] == replies@[0]@);
        let text = match &replies[0] {
            HttpReply::Status(c, _) => {
                return ProvisionStep::Finished(create_error_result(*c));
            },
            HttpReply::Transport(_) => {
                return ProvisionStep::Finished(failed_result());
            },
            HttpReply::Slept => {
                return ProvisionStep::Abort(owned("a reply did not answer its request"));
            },
            HttpReply::Body(t) => t,
        };
        let v = match parse_json(text.as_str()) {
            Err(_) => {
                return ProvisionStep::Finished(failed_result());
            },
            Ok(v) => v,
        };
        let (id, pw) = match vultr_created_exec(&v) {
            None => {
                return ProvisionStep::Finished(failed_result());
            },
            Some(Err(())) => {
                return ProvisionStep::Abort(owned("an instance value of the response is not a string"));
            },
            Some(Ok(c)) => c,
        };
        let mut results = ActionResultValues::new();
        results.insert("id", id.as_str());
        if let Some(pw) = &pw {
            results.insert("root_password", pw.as_str());
        }
        if params.wait_type == ProvisionResponseWaitType::ReturnImmediatelyAfterAPIRequest {
            return ProvisionStep::Finished(ProvisionActionResult::ActionCreatedInProgress(results));
        }
        self.wait_for_instance(params.wait_type, id.as_str(), results, replies)
    }
}

impl ProvisionProvider for ProviderVultr {
    fn name(&self) -> (r: String)
        ensures
            r@ == "vultr"@,
    {
        owned("vultr")
    }

    fn supports_interactive(&self) -> (r: bool)
        ensures
            r,
    {
        true
    }

    fn prompt_interactive(&self) -> (r: Vec<(String, String)>)
        ensures
            r@.len() == 1,
            r@[0].0@ == "API_KEY"@,
            r@[0].1@ == "API Key to use Vultr"@,
    {
        let mut items: Vec<(String, String)> = Vec::new();
        items.push((owned("API_KEY"), owned("API Key to use Vultr")));
        items
    }

    fn is_configured(&self) -> (r: bool)
        ensures
            r == (self.vultr_api_key@.len() > 0),
    {
        self.vultr_api_key.as_str().unicode_len() > 0
    }

    fn get_required_params_for_action(&self, action: ProvisionActionType) -> (r: Vec<String>)
        ensures
            crate::params::strings_view(r@) == vultr_required(action),
    {
        let mut v: Vec<String> = Vec::new();
        if action == ProvisionActionType::CreateInstance {
            v.push(owned("os_id"));
            v.push(owned("plan"));
            v.push(owned("region"));
        } else if action == ProvisionActionType::DeleteInstance {
            v.push(owned("instance_id"));
        }
        assert(crate::params::strings_view(v@) =~= vultr_required(action));
        v
    }

    /// Creates an instance and waits as the parameters ask.
    fn create_instance(&self, params: &ProvisionParams, dry_run: bool, replies: &Vec<HttpReply>) -> (r: ProvisionStep)
        ensures
            r@ == vultr_create_step(self.vultr_api_key@, *params, http_replies_view(replies@)),
    {
        self.create_step(params, replies)
    }

    /// Deletes the instance named by `instance_id`.
    fn delete_instance(&self, params: &ProvisionParams, dry_run: bool, replies: &Vec<HttpReply>) -> (r: ProvisionStep)
        ensures
            r@ == delete_step(
                vultr_instances_url() + "/"@ + value_or(*params, "instance_id"@, seq![]),
                self.vultr_api_key@,
                http_replies_view(replies@),
            ),
    {
        let id = value_or_exec(params, "instance_id");
        let url = crate::text::concat3("https://api.vultr.com/v2/instances", "/", id.as_str());
        run_delete(url, self.vultr_api_key.as_str(), replies)
    }
}


/// The results hold no placeholder address: an `ip` result, when there is
/// one, is not `0.0.0.0`.
pub open spec fn no_placeholder_ip(m: Map<Seq<char>, Seq<char>>) -> bool {
    m.contains_key("ip"@) ==> m["ip"@] != "0.0.0.0"@
}

/// The results an outcome of a step reports, when it reports any.
pub open spec fn reported_results(s: ProvisionStepV) -> Option<Map<Seq<char>, Seq<char>>> {
    match s {
        ProvisionStepV::Finished(ResultV::InProgress(m)) => Some(m),
        ProvisionStepV::Finished(ResultV::Done(m)) => Some(m),
        _ => None,
    }
}

/// The wait never reports `0.0.0.0` as the instance's address: from
/// results without it, whatever the replies, the results it finishes with
/// are without it too (a look that finds `0.0.0.0` records nothing and
/// does not end a wait for the resource).
pub proof fn lemma_vultr_wait_no_placeholder_ip(
    token: Seq<char>,
    wait: ProvisionResponseWaitType,
    id: Seq<char>,
    w: VultrWait,
    rs: Seq<HttpReplyV>,
    j: int,
)
    requires
        no_placeholder_ip(w.results),
    ensures
        reported_results(vultr_wait(token, wait, id, w, rs, j)) matches Some(m) ==> no_placeholder_ip(m),
    decreases rs.len() - j,
{
    if w.phase == 0 && w.tries >= 10 {
    } else if j < 0 || j >= rs.len() {
    } else if w.phase == 0 {
        if rs[j] is Slept {
            lemma_vultr_wait_no_placeholder_ip(token, wait, id, VultrWait { phase: 1, ..w }, rs, j + 1);
        }
    } else if w.phase == 1 {
        if !(rs[j] is Slept) {
            if let Some(d) = vultr_details_reply(rs[j]) {
                let new_ip = !w.have_ip && d.0 != "0.0.0.0"@;
                let results = if new_ip {
                    w.results.insert("ip"@, d.0)
                } else {
                    w.results
                };
                let have_ip = w.have_ip || new_ip;
                assert(no_placeholder_ip(results));
                lemma_vultr_wait_no_placeholder_ip(token, wait, id, VultrWait { results, have_ip, phase: 2, ..w }, rs, j + 1);
                lemma_vultr_wait_no_placeholder_ip(
                    token,
                    wait,
                    id,
                    VultrWait { results, have_ip, phase: 0, tries: w.tries + 1, ..w },
                    rs,
                    j + 1,
                );
            }
        }
    } else {
        if rs[j] is Slept {
            lemma_vultr_wait_no_placeholder_ip(
                token,
                wait,
                id,
                VultrWait { booting: w.booting + 1, tries: w.tries + 1, phase: 0, ..w },
                rs,
                j + 1,
            );
        }
    }
}

/// A look at the instance whose main address is `0.0.0.0` never ends a
/// wait for the resource while no address was seen: the wait goes on to
/// the next pause (or, after the last try, reports what it has).
pub proof fn lemma_vultr_placeholder_keeps_waiting(
    token: Seq<char>,
    id: Seq<char>,
    w: VultrWait,
    rs: Seq<HttpReplyV>,
    j: int,
)
    requires
        w.phase == 1,
        !w.have_ip,
        0 <= j < rs.len(),
        vultr_details_reply(rs[j]) matches Some(d) && d.0 == "0.0.0.0"@,
    ensures
        vultr_wait(token, ProvisionResponseWaitType::WaitForResourceCreationOrModification, id, w, rs, j) == vultr_wait(
            token,
            ProvisionResponseWaitType::WaitForResourceCreationOrModification,
            id,
            VultrWait { phase: 0, tries: w.tries + 1, ..w },
            rs,
            j + 1,
        ),
{
}

/// Creating an instance never reports `0.0.0.0` as its address.
pub proof fn lemma_vultr_create_no_placeholder_ip(token: Seq<char>, p: ProvisionParams, rs: Seq<HttpReplyV>)
    ensures
        reported_results(vultr_create_step(token, p, rs)) matches Some(m) ==> no_placeholder_ip(m),
{
    reveal_strlit("ip");
    reveal_strlit("id");
    reveal_strlit("root_password");
    if parse_u32(value_or(p, "os_id"@, seq![])) is Some && rs.len() > 0 {
        if let HttpReplyV::Body(text) = rs[0] {
            if let Ok(v) = json_parsed(text) {
                if let Some(inst) = member(v, "instance"@) {
                    if let Some(idv) = member(inst, "id"@) {
                        if let Some(id) = as_text(idv) {
                            let pw = member(inst, "default_password"@);
                            let results = match pw {
                                Some(x) => Map::empty().insert("id"@, id).insert("root_password"@, as_text(x)->Some_0),
                                None => Map::empty().insert("id"@, id),
                            };
                            assert("ip"@[1] != "id"@[1]);
                            assert("ip"@.len() != "root_password"@.len());
                            assert(!results.contains_key("ip"@));
                            lemma_vultr_wait_no_placeholder_ip(
                                token,
                                p.wait_type,
                                id,
                                VultrWait { results, tries: 0, have_ip: false, booting: 0, phase: 0 },
                                rs,
                                1,
                            );
                        }
                    }
                }
            }
        }
    }
}

} // verus!
