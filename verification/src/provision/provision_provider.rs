//! What a provisioning provider asks of the HTTP client, what comes back,
//! and the provider interface.
use vstd::prelude::*;
use crate::keyed::entry_lookup;
use crate::provision::provision_common::{results_map, ActionResultValues, ProvisionActionResult, ProvisionActionType};
use crate::provision::provision_params::ProvisionParams;
use crate::text::owned;

verus! {

/// An HTTP request of a provider, with the bearer token to send, or a pause.
pub enum HttpRequest {
    Get(String, Option<String>),
    Post(String, Option<String>, String),
    Delete(String, Option<String>),
    Sleep(u64),
}

pub enum HttpRequestV {
    Get(Seq<char>, Option<Seq<char>>),
    Post(Seq<char>, Option<Seq<char>>, Seq<char>),
    Delete(Seq<char>, Option<Seq<char>>),
    Sleep(u64),
}

pub open spec fn opt_view(o: Option<String>) -> Option<Seq<char>> {
    match o {
        Some(s) => Some(s@),
        None => None,
    }
}

impl View for HttpRequest {
    type V = HttpRequestV;

    open spec fn view(&self) -> HttpRequestV {
        match self {
            HttpRequest::Get(u, t) => HttpRequestV::Get(u@, opt_view(*t)),
            HttpRequest::Post(u, t, b) => HttpRequestV::Post(u@, opt_view(*t), b@),
            HttpRequest::Delete(u, t) => HttpRequestV::Delete(u@, opt_view(*t)),
            HttpRequest::Sleep(s) => HttpRequestV::Sleep(*s),
        }
    }
}

/// What came back: a successful response's body, an error status with its
/// body, a transport failure, or the end of a pause.
pub enum HttpReply {
    Body(String),
    Status(u16, String),
    Transport(String),
    Slept,
}

pub enum HttpReplyV {
    Body(Seq<char>),
    Status(u16, Seq<char>),
    Transport(Seq<char>),
    Slept,
}

impl View for HttpReply {
    type V = HttpReplyV;

    open spec fn view(&self) -> HttpReplyV {
        match self {
            HttpReply::Body(b) => HttpReplyV::Body(b@),
            HttpReply::Status(c, b) => HttpReplyV::Status(*c, b@),
            HttpReply::Transport(e) => HttpReplyV::Transport(e@),
            HttpReply::Slept => HttpReplyV::Slept,
        }
    }
}

pub open spec fn http_replies_view(s: Seq<HttpReply>) -> Seq<HttpReplyV> {
    s.map_values(|r: HttpReply| r@)
}

/// A provisioning outcome with its texts as characters.
pub enum ResultV {
    NotSupported,
    ErrorNotConfigured(Seq<char>),
    ErrorMissingParams(Seq<char>),
    ErrorCantConnect(Seq<char>),
    ErrorAuthenticationIssue(Seq<char>),
    Failed(Seq<char>),
    InProgress(Map<Seq<char>, Seq<char>>),
    Done(Map<Seq<char>, Seq<char>>),
}

impl View for ProvisionActionResult {
    type V = ResultV;

    open spec fn view(&self) -> ResultV {
        match self {
            ProvisionActionResult::NotSupported => ResultV::NotSupported,
            ProvisionActionResult::ErrorNotConfigured(s) => ResultV::ErrorNotConfigured(s@),
            ProvisionActionResult::ErrorMissingParams(s) => ResultV::ErrorMissingParams(s@),
            ProvisionActionResult::ErrorCantConnect(s) => ResultV::ErrorCantConnect(s@),
            ProvisionActionResult::ErrorAuthenticationIssue(s) => ResultV::ErrorAuthenticationIssue(s@),
            ProvisionActionResult::Failed(s) => ResultV::Failed(s@),
            ProvisionActionResult::ActionCreatedInProgress(v) => ResultV::InProgress(results_map(*v)),
            ProvisionActionResult::ActionCreatedDone(v) => ResultV::Done(results_map(*v)),
        }
    }
}

/// What a provisioning action asks for next: a request, its outcome, or an
/// end to the run because a reply could not be used.
pub enum ProvisionStep {
    Send(HttpRequest),
    Finished(ProvisionActionResult),
    Abort(String),
}

pub enum ProvisionStepV {
    Send(HttpRequestV),
    Finished(ResultV),
    Abort(Seq<char>),
}

impl View for ProvisionStep {
    type V = ProvisionStepV;

    open spec fn view(&self) -> ProvisionStepV {
        match self {
            ProvisionStep::Send(q) => ProvisionStepV::Send(q@),
            ProvisionStep::Finished(r) => ProvisionStepV::Finished(r@),
            ProvisionStep::Abort(m) => ProvisionStepV::Abort(m@),
        }
    }
}

pub open spec fn failed() -> ResultV {
    ResultV::Failed(seq![])
}

/// The outcome of an error status for a create request: an authentication
/// issue for 401, a failure otherwise.
pub open spec fn create_error(code: u16) -> ResultV {
    if code == 401 {
        ResultV::ErrorAuthenticationIssue(seq![])
    } else {
        failed()
    }
}

/// The outcome of an error status for a delete request: an authentication
/// issue for 400 and 401, a failure otherwise.
pub open spec fn delete_error(code: u16) -> ResultV {
    if code == 400 || code == 401 {
        ResultV::ErrorAuthenticationIssue(seq![])
    } else {
        failed()
    }
}

pub fn create_error_result(code: u16) -> (r: ProvisionActionResult)
    ensures
        r@ == create_error(code),
{
    if code == 401 {
        ProvisionActionResult::ErrorAuthenticationIssue(String::new())
    } else {
        ProvisionActionResult::Failed(String::new())
    }
}

pub fn delete_error_result(code: u16) -> (r: ProvisionActionResult)
    ensures
        r@ == delete_error(code),
{
    if code == 400 || code == 401 {
        ProvisionActionResult::ErrorAuthenticationIssue(String::new())
    } else {
        ProvisionActionResult::Failed(String::new())
    }
}

pub fn failed_result() -> (r: ProvisionActionResult)
    ensures
        r@ == failed(),
{
    ProvisionActionResult::Failed(String::new())
}

/// The outcome of a delete request: its request first, then an empty
/// in-progress result for a success, or the error's outcome.
pub open spec fn delete_step(url: Seq<char>, token: Seq<char>, rs: Seq<HttpReplyV>) -> ProvisionStepV {
    if rs.len() == 0 {
        ProvisionStepV::Send(HttpRequestV::Delete(url, Some(token)))
    } else {
        match rs[0] {
            HttpReplyV::Body(_) => ProvisionStepV::Finished(ResultV::InProgress(Map::empty())),
            HttpReplyV::Status(c, _) => ProvisionStepV::Finished(delete_error(c)),
            HttpReplyV::Transport(_) => ProvisionStepV::Finished(failed()),
            HttpReplyV::Slept => ProvisionStepV::Abort(unexpected_http_reply_text()),
        }
    }
}

pub open spec fn unexpected_http_reply_text() -> Seq<char> {
    "a reply did not answer its request"@
}

pub fn run_delete(url: String, token: &str, replies: &Vec<HttpReply>) -> (r: ProvisionStep)
    ensures
        r@ == delete_step(url@, token@, http_replies_view(replies@)),
{
    if replies.len() == 0 {
        return ProvisionStep::Send(HttpRequest::Delete(url, Some(owned(token))));
    }
    assert(http_replies_view(replies@)[0] == replies@[0]@);
    match &replies[0] {
        HttpReply::Body(_) => {
            let r = ActionResultValues::new();
            assert(results_map(r) =~= Map::<Seq<char>, Seq<char>>::empty());
            ProvisionStep::Finished(ProvisionActionResult::ActionCreatedInProgress(r))
        },
        HttpReply::Status(c, _) => ProvisionStep::Finished(delete_error_result(*c)),
        HttpReply::Transport(_) => ProvisionStep::Finished(failed_result()),
        HttpReply::Slept => ProvisionStep::Abort(owned("a reply did not answer its request")),
    }
}

/// What a provisioning provider offers; the defaults offer nothing.
pub trait ProvisionProvider {
    fn name(&self) -> (r: String)
        default_ensures
            r@.len() == 0,
    {
        String::new()
    }

    fn supports_interactive(&self) -> (r: bool)
        default_ensures
            !r,
    {
        false
    }

    fn prompt_interactive(&self) -> (r: Vec<(String, String)>)
        default_ensures
            r@.len() == 0,
    {
        Vec::new()
    }

    fn configure_interactive(&mut self) -> (r: bool)
        default_ensures
            !r,
    {
        false
    }

    fn is_configured(&self) -> (r: bool)
        default_ensures
            !r,
    {
        false
    }

    /// The parameters an action needs, in name order.
    fn get_required_params_for_action(&self, action: ProvisionActionType) -> (r: Vec<String>)
        default_ensures
            r@.len() == 0,
    {
        Vec::new()
    }

    fn create_instance(&self, params: &ProvisionParams, dry_run: bool, replies: &Vec<HttpReply>) -> (r: ProvisionStep)
        default_ensures
            r@ == ProvisionStepV::Finished(ResultV::NotSupported),
    {
        ProvisionStep::Finished(ProvisionActionResult::NotSupported)
    }

    fn delete_instance(&self, params: &ProvisionParams, dry_run: bool, replies: &Vec<HttpReply>) -> (r: ProvisionStep)
        default_ensures
            r@ == ProvisionStepV::Finished(ResultV::NotSupported),
    {
        ProvisionStep::Finished(ProvisionActionResult::NotSupported)
    }
}

} // verus!
