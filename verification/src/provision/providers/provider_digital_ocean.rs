//! Provisioning with Digital Ocean: creating a droplet, then looking at it
//! a few times while it starts.
use vstd::prelude::*;
use crate::provision::json::{as_u64, json_get, json_parsed, json_text, member, parse_json, write_json, JsonV, JsonValue};
use crate::provision::provision_common::{results_map, ActionResultValues, ProvisionActionResult, ProvisionActionType};
use crate::provision::provision_params::ProvisionParams;
use crate::provision::provision_provider::{
    create_error, create_error_result, failed, failed_result, http_replies_view, unexpected_http_reply_text,
    HttpReply, HttpReplyV, HttpRequest, HttpRequestV, ProvisionProvider, ProvisionStep, ProvisionStepV, ResultV,
};
use crate::provision::providers::provider_vultr::{flag_or, value_or};
use crate::text::{chars_of, nat_decimal, owned, string_of, trim, trim_chars, u64_decimal};

verus! {

/// Creates Digital Ocean droplets with an API token.
pub struct ProviderDigitalOcean {
    pub digital_ocean_api_token: String,
}

impl ProviderDigitalOcean {
    pub fn new() -> (r: ProviderDigitalOcean)
        ensures
            r.digital_ocean_api_token@.len() == 0,
    {
        ProviderDigitalOcean { digital_ocean_api_token: String::new() }
    }

    /// Takes the API token (trimmed) from the `PROD_DIGITAL_OCEAN_API_TOKEN`
    /// setting; false when it is not set.
    pub fn configure(&mut self, api_token: Option<&str>) -> (r: bool)
        ensures
            match api_token {
                Some(k) => r && final(self).digital_ocean_api_token@ == trim(k@),
                None => !r && final(self).digital_ocean_api_token == old(self).digital_ocean_api_token,
            },
    {
        match api_token {
            Some(k) => {
                let c = chars_of(k);
                self.digital_ocean_api_token = string_of(trim_chars(c.as_slice()).as_slice());
                true
            },
            None => false,
        }
    }
}

pub open spec fn droplets_url() -> Seq<char> {
    "https://api.digitalocean.com/v2/droplets"@
}

/// The body of a create request.
pub open spec fn droplet_create_body(p: ProvisionParams) -> JsonV {
    JsonV::Object(seq![
        ("image"@, JsonV::Str(value_or(p, "image"@, seq![]))),
        ("ipv6"@, JsonV::Bool(flag_or(p, "ipv6"@, false))),
        ("name"@, JsonV::Str(value_or(p, "name"@, seq![]))),
        ("region"@, JsonV::Str(value_or(p, "region"@, seq![]))),
        ("size"@, JsonV::Str(value_or(p, "size"@, seq![]))),
    ])
}

pub open spec fn bad_droplet_id_text() -> Seq<char> {
    "the droplet's id is not an unsigned integer"@
}

pub open spec fn droplet_unreadable_text() -> Seq<char> {
    "the droplet could not be read"@
}

/// Whether a body is a JSON object with a `droplet` member.
pub open spec fn has_droplet(text: Seq<char>) -> bool {
    match json_parsed(text) {
        Ok(v) => member(v, "droplet"@) is Some,
        Err(_) => false,
    }
}

/// Five tries, each a pause of 15 seconds and a look at the droplet; the
/// droplet must be readable each time. Then it is in progress.
pub open spec fn droplet_wait(
    token: Seq<char>,
    id: Seq<char>,
    results: Map<Seq<char>, Seq<char>>,
    tries: int,
    getting: bool,
    rs: Seq<HttpReplyV>,
    j: int,
) -> ProvisionStepV
    decreases rs.len() - j,
{
    if !getting && tries >= 5 {
        ProvisionStepV::Finished(ResultV::InProgress(results))
    } else if j < 0 || j >= rs.len() {
        ProvisionStepV::Send(if getting {
            HttpRequestV::Get(droplets_url() + "/"@ + id, Some(token))
        } else {
            HttpRequestV::Sleep(15)
        })
    } else if !getting {
        match rs[j] {
            HttpReplyV::Slept => droplet_wait(token, id, results, tries, true, rs, j + 1),
            _ => ProvisionStepV::Abort(unexpected_http_reply_text()),
        }
    } else {
        match rs[j] {
            HttpReplyV::Body(text) => if has_droplet(text) {
                droplet_wait(token, id, results, tries + 1, false, rs, j + 1)
            } else {
                ProvisionStepV::Finished(failed())
            },
            HttpReplyV::Slept => ProvisionStepV::Abort(unexpected_http_reply_text()),
            _ => ProvisionStepV::Abort(droplet_unreadable_text()),
        }
    }
}

/// Creating a droplet: the create request with the `name`, `region`,
/// `size`, `image` and `ipv6` parameters; the droplet's `id` is the result;
/// then the wait.
pub open spec fn droplet_create_step(token: Seq<char>, p: ProvisionParams, rs: Seq<HttpReplyV>) -> ProvisionStepV {
    if rs.len() == 0 {
        ProvisionStepV::Send(HttpRequestV::Post(droplets_url(), Some(token), json_text(droplet_create_body(p))))
    } else {
        match rs[0] {
            HttpReplyV::Status(c, _) => ProvisionStepV::Finished(create_error(c)),
            HttpReplyV::Transport(_) => ProvisionStepV::Finished(failed()),
            HttpReplyV::Slept => ProvisionStepV::Abort(unexpected_http_reply_text()),
            HttpReplyV::Body(text) => match json_parsed(text) {
                Err(_) => ProvisionStepV::Finished(failed()),
                Ok(v) => match member(v, "droplet"@) {
                    None => ProvisionStepV::Finished(failed()),
                    Some(d) => match member(d, "id"@) {
                        None => ProvisionStepV::Finished(failed()),
                        Some(x) => match as_u64(x) {
                            None => ProvisionStepV::Abort(bad_droplet_id_text()),
                            Some(n) => {
                                let id = nat_decimal(n as nat);
                                droplet_wait(
                                    token,
                                    id,
                                    Map::<Seq<char>, Seq<char>>::empty().insert("id"@, id),
                                    0,
                                    false,
                                    rs,
                                    1,
                                )
                            },
                        },
                    },
                },
            },
        }
    }
}

/// The wait asks for at most two requests for each try that is left.
proof fn lemma_droplet_wait_bounded(
    token: Seq<char>,
    id: Seq<char>,
    results: Map<Seq<char>, Seq<char>>,
    tries: int,
    getting: bool,
    rs: Seq<HttpReplyV>,
    j: int,
)
    requires
        0 <= j,
        0 <= tries <= 5,
        getting ==> tries < 5,
        rs.len() >= j + 2 * (5 - tries) - (if getting { 1int } else { 0int }),
    ensures
        !(droplet_wait(token, id, results, tries, getting, rs, j) is Send),
    decreases rs.len() - j,
{
    if !getting && tries >= 5 {
    } else if !getting {
        if rs[j] is Slept {
            lemma_droplet_wait_bounded(token, id, results, tries, true, rs, j + 1);
        }
    } else if let HttpReplyV::Body(text) = rs[j] {
        if has_droplet(text) {
            lemma_droplet_wait_bounded(token, id, results, tries + 1, false, rs, j + 1);
        }
    }
}

/// Creating a droplet asks for at most 11 requests: the create request,
/// then a pause and a look for each of five tries.
pub proof fn lemma_droplet_create_requests_bounded(token: Seq<char>, p: ProvisionParams, rs: Seq<HttpReplyV>)
    requires
        rs.len() >= 11,
    ensures
        !(droplet_create_step(token, p, rs) is Send),
{
    if let HttpReplyV::Body(text) = rs[0] {
        if let Ok(v) = json_parsed(text) {
            if let Some(d) = member(v, "droplet"@) {
                if let Some(x) = member(d, "id"@) {
                    if let Some(n) = as_u64(x) {
                        let id = nat_decimal(n as nat);
                        lemma_droplet_wait_bounded(token, id, Map::<Seq<char>, Seq<char>>::empty().insert("id"@, id), 0, false, rs, 1);
                    }
                }
            }
        }
    }
}

pub open spec fn droplet_required(action: ProvisionActionType) -> Seq<Seq<char>> {
    if action == ProvisionActionType::CreateInstance {
        seq!["image"@, "name"@, "region"@, "size"@]
    } else {
        seq![]
    }
}

fn value_or_exec(p: &ProvisionParams, key: &str) -> (r: String)
    ensures
        r@ == value_or(*p, key@, seq![]),
{
    proof {
        reveal_strlit("");
    }
    p.get_string_value(key, "")
}

fn droplet_body(p: &ProvisionParams) -> (r: JsonValue)
    ensures
        r@ == droplet_create_body(*p),
{
    let mut o: Vec<(String, JsonValue)> = Vec::new();
    o.push((owned("image"), JsonValue::Str(value_or_exec(p, "image"))));
    o.push((owned("ipv6"), JsonValue::Bool(p.get_string_value_as_bool("ipv6", false))));
    o.push((owned("name"), JsonValue::Str(value_or_exec(p, "name"))));
    o.push((owned("region"), JsonValue::Str(value_or_exec(p, "region"))));
    o.push((owned("size"), JsonValue::Str(value_or_exec(p, "size"))));
    let r = JsonValue::Object(o);
    proof {
        crate::provision::json::lemma_member_seq_view(o@);
        assert(crate::provision::json::member_seq_view(o@) =~= droplet_create_body(*p)->Object_0);
    }
    r
}

/// Whether a droplet reply holds a droplet.
pub fn droplet_present(v: &JsonValue) -> (r: bool)
    ensures
        r == (member(v@, "droplet"@) is Some),
{
    json_get(v, "droplet").is_some()
}

/// The id a create reply gives the droplet: nothing without a droplet and
/// its `id` (the create failed); `Err` when the id is not an unsigned
/// integer.
pub open spec fn droplet_id(v: JsonV) -> Option<Result<u64, ()>> {
    match member(v, "droplet"@) {
        None => None,
        Some(d) => match member(d, "id"@) {
            None => None,
            Some(x) => match as_u64(x) {
                None => Some(Err(())),
                Some(n) => Some(Ok(n)),
            },
        },
    }
}

/// Reads the droplet's id from a create reply, as `droplet_id` says.
pub fn droplet_id_exec(v: &JsonValue) -> (r: Option<Result<u64, ()>>)
    ensures
        r == droplet_id(v@),
{
    let d = match json_get(v, "droplet") {
        None => {
            return None;
        },
        Some(d) => d,
    };
    match json_get(d, "id") {
        None => None,
        Some(JsonValue::Number(num)) => match num.as_u64 {
            Some(n) => Some(Ok(n)),
            None => Some(Err(())),
        },
        Some(_) => Some(Err(())),
    }
}

fn has_droplet_exec(text: &str) -> (r: bool)
    ensures
        r == has_droplet(text@),
{
    match parse_json(text) {
        Ok(v) => droplet_present(&v),
        Err(_) => false,
    }
}

impl ProviderDigitalOcean {
    #[verifier::loop_isolation(false)]
    fn wait_for_droplet(&self, id: &str, results: ActionResultValues, replies: &Vec<HttpReply>) -> (r: ProvisionStep)
        ensures
            r@ == droplet_wait(self.digital_ocean_api_token@, id@, results_map(results), 0, false, http_replies_view(replies@), 1),
    {
        let ghost rv = http_replies_view(replies@);
        let ghost token = self.digital_ocean_api_token@;
        let ghost start = results_map(results);
        let mut tries: u32 = 0;
        let mut getting = false;
        let mut j: usize = 1;
        loop
            invariant
                rv == http_replies_view(replies@),
                1 <= j,
                tries <= 5,
                getting ==> tries < 5,
                start == results_map(results),
                droplet_wait(token, id@, start, 0, false, rv, 1) == droplet_wait(
                    token,
                    id@,
                    start,
                    tries as int,
                    getting,
                    rv,
                    j as int,
                ),
            decreases replies@.len() + 1 - j,
        {
            if !getting && tries >= 5 {
                return ProvisionStep::Finished(ProvisionActionResult::ActionCreatedInProgress(results));
            }
            if j >= replies.len() {
                if getting {
                    let url = crate::text::concat3("https://api.digitalocean.com/v2/droplets", "/", id);
                    return ProvisionStep::Send(HttpRequest::Get(url, Some(owned(self.digital_ocean_api_token.as_str()))));
                } else {
                    return ProvisionStep::Send(HttpRequest::Sleep(15));
                }
            }
            assert(rv[j as int] == replies@[j as int]@);
            let reply = &replies[j];
            if !getting {
                match reply {
                    HttpReply::Slept => {
                        getting = true;
                    },
                    _ => {
                        return ProvisionStep::Abort(owned("a reply did not answer its request"));
                    },
                }
            } else {
                match reply {
                    HttpReply::Body(text) => {
                        if !has_droplet_exec(text.as_str()) {
                            return ProvisionStep::Finished(failed_result());
                        }
                    },
                    HttpReply::Slept => {
                        return ProvisionStep::Abort(owned("a reply did not answer its request"));
                    },
                    _ => {
                        return ProvisionStep::Abort(owned("the droplet could not be read"));
                    },
                }
                tries = tries + 1;
                getting = false;
            }
            j = j + 1;
        }
    }

    fn create_step(&self, params: &ProvisionParams, replies: &Vec<HttpReply>) -> (r: ProvisionStep)
        ensures
            r@ == droplet_create_step(self.digital_ocean_api_token@, *params, http_replies_view(replies@)),
    {
        if replies.len() == 0 {
            let body = write_json(&droplet_body(params));
            return ProvisionStep::Send(HttpRequest::Post(
                owned("https://api.digitalocean.com/v2/droplets"),
                Some(owned(self.digital_ocean_api_token.as_str())),
                body,
            ));
        }
        assert(http_replies_view(replies@)[0] == replies@[0]@);
        let text = match &replies[0] {
            HttpReply::Status(c, _) => {
                return ProvisionStep::Finished(create_error_result(*c));
            },
            HttpReply::Transport(_) => {
                return ProvisionStep::Finished(failed_result());
            },
            HttpReply::Slept => {
                return ProvisionStep::Abort(owned("a reply did not answer its request"));
            },
            HttpReply::Body(t) => t,
        };
        let v = match parse_json(text.as_str()) {
            Err(_) => {
                return ProvisionStep::Finished(failed_result());
            },
            Ok(v) => v,
        };
        let n = match droplet_id_exec(&v) {
            None => {
                return ProvisionStep::Finished(failed_result());
            },
            Some(Err(())) => {
                return ProvisionStep::Abort(owned("the droplet's id is not an unsigned integer"));
            },
            Some(Ok(n)) => n,
        };
        let id = string_of(u64_decimal(n).as_slice());
        let mut results = ActionResultValues::new();
        results.insert("id", id.as_str());
        assert(results_map(results) =~= Map::<Seq<char>, Seq<char>>::empty().insert("id"@, id@));
        self.wait_for_droplet(id.as_str(), results, replies)
    }
}

impl ProvisionProvider for ProviderDigitalOcean {
    fn name(&self) -> (r: String)
        ensures
            r@ == "digital_ocean"@,
    {
        owned("digital_ocean")
    }

    fn supports_interactive(&self) -> (r: bool)
        ensures
            r,
    {
        true
    }

    fn prompt_interactive(&self) -> (r: Vec<(String, String)>)
        ensures
            r@.len() == 1,
            r@[0].0@ == "API_TOKEN"@,
            r@[0].1@ == "API Token to use Digital Ocean API"@,
    {
        let mut items: Vec<(String, String)> = Vec::new();
        items.push((owned("API_TOKEN"), owned("API Token to use Digital Ocean API")));
        items
    }

    fn is_configured(&self) -> (r: bool)
        ensures
            r == (self.digital_ocean_api_token@.len() > 0),
    {
        self.digital_ocean_api_token.as_str().unicode_len() > 0
    }

    fn get_required_params_for_action(&self, action: ProvisionActionType) -> (r: Vec<String>)
        ensures
            crate::params::strings_view(r@) == droplet_required(action),
    {
        let mut v: Vec<String> = Vec::new();
        if action == ProvisionActionType::CreateInstance {
            v.push(owned("image"));
            v.push(owned("name"));
            v.push(owned("region"));
            v.push(owned("size"));
        }
        assert(crate::params::strings_view(v@) =~= droplet_required(action));
        v
    }

    /// Creates a droplet and looks at it while it starts.
    fn create_instance(&self, params: &ProvisionParams, dry_run: bool, replies: &Vec<HttpReply>) -> (r: ProvisionStep)
        ensures
            r@ == droplet_create_step(self.digital_ocean_api_token@, *params, http_replies_view(replies@)),
    {
        self.create_step(params, replies)
    }

    /// Deleting is not offered.
    fn delete_instance(&self, params: &ProvisionParams, dry_run: bool, replies: &Vec<HttpReply>) -> (r: ProvisionStep)
        ensures
            r@ == crate::provision::provision_provider::ProvisionStepV::Finished(ResultV::NotSupported),
    {
        ProvisionStep::Finished(ProvisionActionResult::NotSupported)
    }
}

} // verus!
