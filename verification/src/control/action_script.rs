//! Actions as scripts of remote operations, each with the checks that
//! decide whether the action goes on or fails, and the interpreter that
//! walks a script against the replies received so far.
use vstd::prelude::*;
use crate::control::control_actions::{ActionErr, ActionError, ControlActionType};
use crate::control::control_common::{ControlSessionParams, UserType};
use crate::control::control_connection::{
    exit_failed, failed_command_message, failed_command_text, replies_view, ActionReply,
    ActionRequest, CommandOutput, OutputV, ReplyV, RequestV,
};
use crate::text::{
    chars_of, concat2, lines_of, owned, slice_chars, split_lines, starts_with, starts_with_chars,
    string_of, trim, trim_chars, trim_start, trim_start_chars,
};

verus! {

/// How many times a busy check is made before going on regardless.
pub const BUSY_TRIES: u32 = 20;

/// The seconds to wait between busy checks.
pub const BUSY_PAUSE_SECS: u64 = 20;

/// The text a command is sent as: behind `sudo ` when the session runs
/// commands through sudo, and behind a space when commands are kept out
/// of the shell history.
pub open spec fn processed_command(p: ControlSessionParams, command: Seq<char>) -> Seq<char> {
    (if p.hide_commands_from_history {
        " "@
    } else {
        ""@
    }) + (if p.user_type == UserType::Sudo {
        "sudo "@
    } else {
        ""@
    }) + command
}

/// Prefixes a command as the session asks.
pub fn post_process_command(p: &ControlSessionParams, command: &str) -> (r: String)
    ensures
        r@ == processed_command(*p, command@),
{
    let mut s = String::new();
    if p.hide_commands_from_history {
        s.append(" ");
    }
    if p.user_type == UserType::Sudo {
        s.append("sudo ");
    }
    s.append(command);
    proof {
        reveal_strlit(" ");
        reveal_strlit("");
        reveal_strlit("sudo ");
    }
    s
}

/// The error an action reports when a step fails: a fixed message, or a
/// message followed by the detail of what went wrong (error output, or the
/// reason a transfer failed).
pub enum Fail {
    Command(String),
    Other(String),
    CommandWith(String),
    OtherWith(String),
}

pub enum FailV {
    Command(Seq<char>),
    Other(Seq<char>),
    CommandWith(Seq<char>),
    OtherWith(Seq<char>),
}

impl View for Fail {
    type V = FailV;

    open spec fn view(&self) -> FailV {
        match self {
            Fail::Command(s) => FailV::Command(s@),
            Fail::Other(s) => FailV::Other(s@),
            Fail::CommandWith(s) => FailV::CommandWith(s@),
            Fail::OtherWith(s) => FailV::OtherWith(s@),
        }
    }
}

pub open spec fn fail_error(f: FailV, detail: Seq<char>) -> ActionErr {
    match f {
        FailV::Command(m) => ActionErr::FailedCommand(m),
        FailV::Other(m) => ActionErr::FailedOther(m),
        FailV::CommandWith(m) => ActionErr::FailedCommand(m + detail),
        FailV::OtherWith(m) => ActionErr::FailedOther(m + detail),
    }
}

fn make_error(f: &Fail, detail: &str) -> (r: ActionError)
    ensures
        r@ == fail_error(f@, detail@),
{
    match f {
        Fail::Command(m) => ActionError::FailedCommand(owned(m.as_str())),
        Fail::Other(m) => ActionError::FailedOther(owned(m.as_str())),
        Fail::CommandWith(m) => ActionError::FailedCommand(concat2(m.as_str(), detail)),
        Fail::OtherWith(m) => ActionError::FailedOther(concat2(m.as_str(), detail)),
    }
}

/// A test of a command's output.
pub enum Check {
    /// A non-zero exit code fails with the standard message naming the command.
    ExitCode,
    /// A non-zero exit code fails with the given error.
    ExitCodeFail(Fail),
    /// Error output fails, with the error output as detail.
    Stderr(Fail),
    /// Empty standard output fails.
    StdoutEmpty(Fail),
    /// Non-empty standard output fails.
    StdoutNotEmpty(Fail),
    /// `hostnamectl` output must report the given static hostname.
    StaticHostname(String),
}

pub enum CheckV {
    ExitCode,
    ExitCodeFail(FailV),
    Stderr(FailV),
    StdoutEmpty(FailV),
    StdoutNotEmpty(FailV),
    StaticHostname(Seq<char>),
}

impl View for Check {
    type V = CheckV;

    open spec fn view(&self) -> CheckV {
        match self {
            Check::ExitCode => CheckV::ExitCode,
            Check::ExitCodeFail(f) => CheckV::ExitCodeFail(f@),
            Check::Stderr(f) => CheckV::Stderr(f@),
            Check::StdoutEmpty(f) => CheckV::StdoutEmpty(f@),
            Check::StdoutNotEmpty(f) => CheckV::StdoutNotEmpty(f@),
            Check::StaticHostname(h) => CheckV::StaticHostname(h@),
        }
    }
}

pub open spec fn checks_view(s: Seq<Check>) -> Seq<CheckV> {
    s.map_values(|c: Check| c@)
}

/// A line of `hostnamectl` output that reports `name` as static hostname.
pub open spec fn reports_hostname_line(line: Seq<char>, name: Seq<char>) -> bool {
    let t = trim_start(line);
    starts_with(t, "Static hostname:"@) && trim(t.skip(16)) == name
}

pub open spec fn reports_hostname(stdout: Seq<char>, name: Seq<char>) -> bool {
    exists|i: int| 0 <= i < lines_of(stdout).len() && reports_hostname_line(#[trigger] lines_of(stdout)[i], name)
}

pub open spec fn check_error(c: CheckV, command: Seq<char>, t: ControlActionType, o: OutputV) -> Option<ActionErr> {
    match c {
        CheckV::ExitCode => if exit_failed(o) {
            Some(ActionErr::FailedCommand(failed_command_text(command, t, o.stderr)))
        } else {
            None
        },
        CheckV::ExitCodeFail(f) => if exit_failed(o) {
            Some(fail_error(f, seq![]))
        } else {
            None
        },
        CheckV::Stderr(f) => match o.stderr {
            Some(e) => Some(fail_error(f, e)),
            None => None,
        },
        CheckV::StdoutEmpty(f) => if o.stdout.len() == 0 {
            Some(fail_error(f, seq![]))
        } else {
            None
        },
        CheckV::StdoutNotEmpty(f) => if o.stdout.len() > 0 {
            Some(fail_error(f, seq![]))
        } else {
            None
        },
        CheckV::StaticHostname(h) => if reports_hostname(o.stdout, h) {
            None
        } else {
            Some(ActionErr::FailedCommand("setHostname action could not verify that hostname was set."@))
        },
    }
}

/// The first check that fails, in order.
pub open spec fn checks_error(cs: Seq<CheckV>, command: Seq<char>, t: ControlActionType, o: OutputV) -> Option<ActionErr>
    decreases cs.len(),
{
    if cs.len() == 0 {
        None
    } else {
        match check_error(cs[0], command, t, o) {
            Some(e) => Some(e),
            None => checks_error(cs.drop_first(), command, t, o),
        }
    }
}

fn reports_hostname_exec(stdout: &str, name: &str) -> (r: bool)
    ensures
        r == reports_hostname(stdout@, name@),
{
    let chars = chars_of(stdout);
    let want = chars_of(name);
    let lines = split_lines(chars.as_slice());
    let prefix = chars_of("Static hostname:");
    proof {
        reveal_strlit("Static hostname:");
    }
    let mut i: usize = 0;
    while i < lines.len()
        invariant
            i <= lines@.len(),
            lines@.len() == lines_of(stdout@).len(),
            forall|k: int| 0 <= k < lines@.len() ==> #[trigger] lines@[k]@ == lines_of(stdout@)[k],
            prefix@ == "Static hostname:"@,
            prefix@.len() == 16,
            want@ == name@,
            forall|k: int| 0 <= k < i ==> !reports_hostname_line(#[trigger] lines_of(stdout@)[k], name@),
        decreases lines@.len() - i,
    {
        let t = trim_start_chars(lines[i].as_slice());
        if starts_with_chars(t.as_slice(), prefix.as_slice()) {
            let rest = slice_chars(t.as_slice(), 16, t.len());
            let v = trim_chars(rest.as_slice());
            assert(rest@ =~= t@.skip(16));
            if crate::text::chars_eq(v.as_slice(), want.as_slice()) {
                assert(reports_hostname_line(lines_of(stdout@)[i as int], name@));
                return true;
            }
        }
        i = i + 1;
    }
    false
}

fn check_output(c: &Check, command: &str, t: ControlActionType, o: &CommandOutput) -> (r: Option<ActionError>)
    ensures
        match r {
            Some(e) => check_error(c@, command@, t, o@) == Some(e@),
            None => check_error(c@, command@, t, o@) is None,
        },
{
    let failed = match o.exit_code {
        Some(code) => code != 0,
        None => false,
    };
    match c {
        Check::ExitCode => if failed {
            let e = match &o.stderr {
                Some(s) => failed_command_message(command, t, Some(s.as_str())),
                None => failed_command_message(command, t, None),
            };
            Some(ActionError::FailedCommand(e))
        } else {
            None
        },
        Check::ExitCodeFail(f) => if failed {
            proof {
                reveal_strlit("");
            }
            Some(make_error(f, ""))
        } else {
            None
        },
        Check::Stderr(f) => match &o.stderr {
            Some(e) => Some(make_error(f, e.as_str())),
            None => None,
        },
        Check::StdoutEmpty(f) => if o.stdout.as_str().unicode_len() == 0 {
            proof {
                reveal_strlit("");
            }
            Some(make_error(f, ""))
        } else {
            None
        },
        Check::StdoutNotEmpty(f) => if o.stdout.as_str().unicode_len() > 0 {
            proof {
                reveal_strlit("");
            }
            Some(make_error(f, ""))
        } else {
            None
        },
        Check::StaticHostname(h) => if reports_hostname_exec(o.stdout.as_str(), h.as_str()) {
            None
        } else {
            Some(ActionError::FailedCommand(owned("setHostname action could not verify that hostname was set.")))
        },
    }
}

fn check_all(cs: &Vec<Check>, command: &str, t: ControlActionType, o: &CommandOutput) -> (r: Option<ActionError>)
    ensures
        match r {
            Some(e) => checks_error(checks_view(cs@), command@, t, o@) == Some(e@),
            None => checks_error(checks_view(cs@), command@, t, o@) is None,
        },
{
    let mut k: usize = 0;
    assert(checks_view(cs@).skip(0) =~= checks_view(cs@));
    while k < cs.len()
        invariant
            k <= cs@.len(),
            checks_error(checks_view(cs@), command@, t, o@) == checks_error(checks_view(cs@).skip(k as int), command@, t, o@),
        decreases cs@.len() - k,
    {
        let ghost s = checks_view(cs@).skip(k as int);
        assert(s[0] == cs@[k as int]@);
        assert(s.drop_first() =~= checks_view(cs@).skip(k + 1));
        match check_output(&cs[k], command, t, o) {
            Some(e) => {
                return Some(e);
            },
            None => {},
        }
        k = k + 1;
    }
    assert(checks_view(cs@).skip(k as int).len() == 0);
    None
}

/// One operation of a script.
pub enum Op {
    /// Run a command, then apply the checks in order.
    Run(String, Vec<Check>),
    /// Run a command until it prints nothing, pausing between tries, at
    /// most `BUSY_TRIES` times; then go on either way.
    WaitWhileBusy(String),
    /// Write a text file with the given permissions.
    SendText(String, i32, String, Fail),
    /// Copy a local file to the host with the given permissions.
    SendFile(String, String, i32, Fail),
    /// Copy a file from the host to a local path.
    Receive(String, String, Fail),
    /// Read a text file of the host; an unreadable file aborts.
    Fetch(String),
}

pub enum OpV {
    Run(Seq<char>, Seq<CheckV>),
    WaitWhileBusy(Seq<char>),
    SendText(Seq<char>, i32, Seq<char>, FailV),
    SendFile(Seq<char>, Seq<char>, i32, FailV),
    Receive(Seq<char>, Seq<char>, FailV),
    Fetch(Seq<char>),
}

impl View for Op {
    type V = OpV;

    open spec fn view(&self) -> OpV {
        match self {
            Op::Run(c, cs) => OpV::Run(c@, checks_view(cs@)),
            Op::WaitWhileBusy(c) => OpV::WaitWhileBusy(c@),
            Op::SendText(p, m, c, f) => OpV::SendText(p@, *m, c@, f@),
            Op::SendFile(l, r, m, f) => OpV::SendFile(l@, r@, *m, f@),
            Op::Receive(r, l, f) => OpV::Receive(r@, l@, f@),
            Op::Fetch(p) => OpV::Fetch(p@),
        }
    }
}

pub open spec fn ops_view(s: Seq<Op>) -> Seq<OpV> {
    s.map_values(|o: Op| o@)
}

/// The request an operation makes; `pausing` is set when a busy check
/// found the host busy and the pause is due.
pub open spec fn op_request(p: ControlSessionParams, op: OpV, pausing: bool) -> RequestV {
    match op {
        OpV::Run(c, _) => RequestV::Command(processed_command(p, c)),
        OpV::WaitWhileBusy(c) => if pausing {
            RequestV::Pause(BUSY_PAUSE_SECS)
        } else {
            RequestV::Command(processed_command(p, c))
        },
        OpV::SendText(path, m, c, _) => RequestV::SendTextFile(path, m, c),
        OpV::SendFile(l, r, m, _) => RequestV::SendFile(l, r, m),
        OpV::Receive(r, l, _) => RequestV::ReceiveFile(r, l),
        OpV::Fetch(path) => RequestV::GetTextFile(path),
    }
}

/// Where a script stands after the replies received so far.
pub enum ScriptOutcome {
    /// The next request to make.
    Request(ActionRequest),
    /// A check failed.
    Failed(ActionError),
    /// A reply could not be used (a file could not be read, or a reply did
    /// not answer the request).
    Aborted(String),
    /// Every operation is done, after the given number of replies.
    Completed(usize),
}

pub enum OutcomeV {
    Request(RequestV),
    Failed(ActionErr),
    Aborted(Seq<char>),
    Completed(int),
}

impl View for ScriptOutcome {
    type V = OutcomeV;

    open spec fn view(&self) -> OutcomeV {
        match self {
            ScriptOutcome::Request(q) => OutcomeV::Request(q@),
            ScriptOutcome::Failed(e) => OutcomeV::Failed(e@),
            ScriptOutcome::Aborted(m) => OutcomeV::Aborted(m@),
            ScriptOutcome::Completed(n) => OutcomeV::Completed(*n as int),
        }
    }
}

pub open spec fn unexpected_reply_text() -> Seq<char> {
    "a reply did not answer its request"@
}

pub open spec fn unreadable_file_text(e: Seq<char>) -> Seq<char> {
    "a remote file could not be read: "@ + e
}

/// The walk of operation `i` onward, with reply `j` next; `tries` counts
/// the busy checks made for a `WaitWhileBusy` operation.
pub open spec fn run_from(
    p: ControlSessionParams,
    t: ControlActionType,
    ops: Seq<OpV>,
    i: int,
    j: int,
    tries: int,
    pausing: bool,
    replies: Seq<ReplyV>,
) -> OutcomeV
    decreases replies.len() - j,
{
    if i < 0 || i >= ops.len() || j < 0 {
        OutcomeV::Completed(j)
    } else if j >= replies.len() {
        OutcomeV::Request(op_request(p, ops[i], pausing))
    } else {
        let r = replies[j];
        match ops[i] {
            OpV::Run(c, cs) => match r {
                ReplyV::Output(o) => match checks_error(cs, c, t, o) {
                    Some(e) => OutcomeV::Failed(e),
                    None => run_from(p, t, ops, i + 1, j + 1, 0, false, replies),
                },
                _ => OutcomeV::Aborted(unexpected_reply_text()),
            },
            OpV::WaitWhileBusy(_) => if !pausing {
                match r {
                    ReplyV::Output(o) => if o.stdout.len() == 0 {
                        run_from(p, t, ops, i + 1, j + 1, 0, false, replies)
                    } else {
                        run_from(p, t, ops, i, j + 1, tries, true, replies)
                    },
                    _ => OutcomeV::Aborted(unexpected_reply_text()),
                }
            } else {
                match r {
                    ReplyV::Paused => if tries + 1 < BUSY_TRIES {
                        run_from(p, t, ops, i, j + 1, tries + 1, false, replies)
                    } else {
                        run_from(p, t, ops, i + 1, j + 1, 0, false, replies)
                    },
                    _ => OutcomeV::Aborted(unexpected_reply_text()),
                }
            },
            OpV::SendText(_, _, _, f) => match r {
                ReplyV::Transfer(Ok(())) => run_from(p, t, ops, i + 1, j + 1, 0, false, replies),
                ReplyV::Transfer(Err(e)) => OutcomeV::Failed(fail_error(f, e)),
                _ => OutcomeV::Aborted(unexpected_reply_text()),
            },
            OpV::SendFile(_, _, _, f) => match r {
                ReplyV::Transfer(Ok(())) => run_from(p, t, ops, i + 1, j + 1, 0, false, replies),
                ReplyV::Transfer(Err(e)) => OutcomeV::Failed(fail_error(f, e)),
                _ => OutcomeV::Aborted(unexpected_reply_text()),
            },
            OpV::Receive(_, _, f) => match r {
                ReplyV::Transfer(Ok(())) => run_from(p, t, ops, i + 1, j + 1, 0, false, replies),
                ReplyV::Transfer(Err(e)) => OutcomeV::Failed(fail_error(f, e)),
                _ => OutcomeV::Aborted(unexpected_reply_text()),
            },
            OpV::Fetch(_) => match r {
                ReplyV::TextFile(Ok(_)) => run_from(p, t, ops, i + 1, j + 1, 0, false, replies),
                ReplyV::TextFile(Err(e)) => OutcomeV::Aborted(unreadable_file_text(e)),
                _ => OutcomeV::Aborted(unexpected_reply_text()),
            },
        }
    }
}

/// Where a script that starts at reply `start` stands.
pub open spec fn script_outcome(
    p: ControlSessionParams,
    t: ControlActionType,
    ops: Seq<OpV>,
    start: int,
    replies: Seq<ReplyV>,
) -> OutcomeV {
    run_from(p, t, ops, 0, start, 0, false, replies)
}

fn request_of(p: &ControlSessionParams, op: &Op, pausing: bool) -> (r: ActionRequest)
    ensures
        r@ == op_request(*p, op@, pausing),
{
    match op {
        Op::Run(c, _) => ActionRequest::Command(post_process_command(p, c.as_str())),
        Op::WaitWhileBusy(c) => if pausing {
            ActionRequest::Pause(BUSY_PAUSE_SECS)
        } else {
            ActionRequest::Command(post_process_command(p, c.as_str()))
        },
        Op::SendText(path, m, c, _) => ActionRequest::SendTextFile(owned(path.as_str()), *m, owned(c.as_str())),
        Op::SendFile(l, r, m, _) => ActionRequest::SendFile(owned(l.as_str()), owned(r.as_str()), *m),
        Op::Receive(r, l, _) => ActionRequest::ReceiveFile(owned(r.as_str()), owned(l.as_str())),
        Op::Fetch(path) => ActionRequest::GetTextFile(owned(path.as_str())),
    }
}

fn transfer_outcome(f: &Fail, reply: &ActionReply) -> (r: Option<ScriptOutcome>)
    ensures
        match r {
            None => reply@ == ReplyV::Transfer(Ok(())),
            Some(o) => match reply@ {
                ReplyV::Transfer(Err(e)) => o@ == OutcomeV::Failed(fail_error(f@, e)),
                ReplyV::Transfer(Ok(())) => false,
                _ => o@ == OutcomeV::Aborted(unexpected_reply_text()),
            },
        },
{
    match reply {
        ActionReply::Transfer(Ok(())) => None,
        ActionReply::Transfer(Err(e)) => Some(ScriptOutcome::Failed(make_error(f, e.as_str()))),
        _ => Some(ScriptOutcome::Aborted(owned("a reply did not answer its request"))),
    }
}

/// Walks a script from reply `start` over the replies received so far.
pub fn run_script(
    p: &ControlSessionParams,
    t: ControlActionType,
    ops: &Vec<Op>,
    replies: &Vec<ActionReply>,
    start: usize,
) -> (r: ScriptOutcome)
    requires
        start <= replies@.len(),
    ensures
        r@ == script_outcome(*p, t, ops_view(ops@), start as int, replies_view(replies@)),
        r matches ScriptOutcome::Completed(n) ==> start <= n <= replies@.len(),
{
    let ghost ov = ops_view(ops@);
    let ghost rv = replies_view(replies@);
    let mut i: usize = 0;
    let mut j: usize = start;
    let mut tries: u32 = 0;
    let mut pausing: bool = false;
    while i < ops.len() && j < replies.len()
        invariant
            i <= ops@.len(),
            start <= j <= replies@.len(),
            tries < BUSY_TRIES,
            ov == ops_view(ops@),
            rv == replies_view(replies@),
            script_outcome(*p, t, ov, start as int, rv) == run_from(*p, t, ov, i as int, j as int, tries as int, pausing, rv),
        decreases replies@.len() - j,
    {
        assert(ov[i as int] == ops@[i as int]@);
        assert(rv[j as int] == replies@[j as int]@);
        let reply = &replies[j];
        match &ops[i] {
            Op::Run(c, cs) => {
                match reply {
                    ActionReply::Output(o) => {
                        match check_all(cs, c.as_str(), t, o) {
                            Some(e) => {
                                return ScriptOutcome::Failed(e);
                            },
                            None => {
                                i = i + 1;
                                tries = 0;
                                pausing = false;
                            },
                        }
                    },
                    _ => {
                        return ScriptOutcome::Aborted(owned("a reply did not answer its request"));
                    },
                }
            },
            Op::WaitWhileBusy(_) => {
                if !pausing {
                    match reply {
                        ActionReply::Output(o) => {
                            if o.stdout.as_str().unicode_len() == 0 {
                                i = i + 1;
                                tries = 0;
                            } else {
                                pausing = true;
                            }
                        },
                        _ => {
                            return ScriptOutcome::Aborted(owned("a reply did not answer its request"));
                        },
                    }
                } else {
                    match reply {
                        ActionReply::Paused => {
                            pausing = false;
                            if tries + 1 < BUSY_TRIES {
                                tries = tries + 1;
                            } else {
                                i = i + 1;
                                tries = 0;
                            }
                        },
                        _ => {
                            return ScriptOutcome::Aborted(owned("a reply did not answer its request"));
                        },
                    }
                }
            },
            Op::SendText(_, _, _, f) => {
                match transfer_outcome(f, reply) {
                    Some(o) => {
                        return o;
                    },
                    None => {
                        i = i + 1;
                        tries = 0;
                        pausing = false;
                    },
                }
            },
            Op::SendFile(_, _, _, f) => {
                match transfer_outcome(f, reply) {
                    Some(o) => {
                        return o;
                    },
                    None => {
                        i = i + 1;
                        tries = 0;
                        pausing = false;
                    },
                }
            },
            Op::Receive(_, _, f) => {
                match transfer_outcome(f, reply) {
                    Some(o) => {
                        return o;
                    },
                    None => {
                        i = i + 1;
                        tries = 0;
                        pausing = false;
                    },
                }
            },
            Op::Fetch(_) => {
                match reply {
                    ActionReply::TextFile(Ok(_)) => {
                        i = i + 1;
                        tries = 0;
                        pausing = false;
                    },
                    ActionReply::TextFile(Err(e)) => {
                        return ScriptOutcome::Aborted(concat2("a remote file could not be read: ", e.as_str()));
                    },
                    _ => {
                        return ScriptOutcome::Aborted(owned("a reply did not answer its request"));
                    },
                }
            },
        }
        j = j + 1;
    }
    if i < ops.len() {
        assert(ov[i as int] == ops@[i as int]@);
        ScriptOutcome::Request(request_of(p, &ops[i], pausing))
    } else {
        ScriptOutcome::Completed(j)
    }
}

/// What an action asks for next: a request, its result, or an end to the
/// run because a reply could not be used.
pub enum ActionStep {
    Send(ActionRequest),
    Finished(Result<(), ActionError>),
    Abort(String),
}

pub enum StepV {
    Send(RequestV),
    Finished(Result<(), ActionErr>),
    Abort(Seq<char>),
}

impl View for ActionStep {
    type V = StepV;

    open spec fn view(&self) -> StepV {
        match self {
            ActionStep::Send(q) => StepV::Send(q@),
            ActionStep::Finished(Ok(())) => StepV::Finished(Ok(())),
            ActionStep::Finished(Err(e)) => StepV::Finished(Err(e@)),
            ActionStep::Abort(m) => StepV::Abort(m@),
        }
    }
}

/// The step of an action that consists of one script, run from reply
/// `start`.
pub open spec fn script_step(
    p: ControlSessionParams,
    t: ControlActionType,
    ops: Seq<OpV>,
    start: int,
    replies: Seq<ReplyV>,
) -> StepV {
    outcome_step(script_outcome(p, t, ops, start, replies))
}

/// Runs an action that consists of one script.
pub fn finish_script(
    p: &ControlSessionParams,
    t: ControlActionType,
    ops: &Vec<Op>,
    replies: &Vec<ActionReply>,
    start: usize,
) -> (r: ActionStep)
    requires
        start <= replies@.len(),
    ensures
        r@ == script_step(*p, t, ops_view(ops@), start as int, replies_view(replies@)),
{
    match run_script(p, t, ops, replies, start) {
        ScriptOutcome::Request(q) => ActionStep::Send(q),
        ScriptOutcome::Failed(e) => ActionStep::Finished(Err(e)),
        ScriptOutcome::Aborted(m) => ActionStep::Abort(m),
        ScriptOutcome::Completed(_) => ActionStep::Finished(Ok(())),
    }
}

/// The step of an action planned as a script, or refused before any
/// request when planning failed.
pub open spec fn plan_step(
    p: ControlSessionParams,
    t: ControlActionType,
    plan: Result<Seq<OpV>, ActionErr>,
    replies: Seq<ReplyV>,
) -> StepV {
    match plan {
        Err(e) => StepV::Finished(Err(e)),
        Ok(ops) => script_step(p, t, ops, 0, replies),
    }
}

pub open spec fn plan_view(plan: Result<Vec<Op>, ActionError>) -> Result<Seq<OpV>, ActionErr> {
    match plan {
        Ok(v) => Ok(ops_view(v@)),
        Err(e) => Err(e@),
    }
}

/// Runs a planned script, or reports why it could not be planned.
pub fn run_plan(
    p: &ControlSessionParams,
    t: ControlActionType,
    plan: Result<Vec<Op>, ActionError>,
    replies: &Vec<ActionReply>,
) -> (r: ActionStep)
    ensures
        r@ == plan_step(*p, t, plan_view(plan), replies_view(replies@)),
{
    match plan {
        Err(e) => ActionStep::Finished(Err(e)),
        Ok(ops) => finish_script(p, t, &ops, replies, 0),
    }
}

/// Appends an operation to a script.
pub fn push_op(ops: &mut Vec<Op>, op: Op)
    ensures
        ops_view(final(ops)@) == ops_view(old(ops)@).push(op@),
{
    let ghost before = ops@;
    ops.push(op);
    assert(ops_view(ops@) =~= ops_view(before).push(op@));
}

/// A command whose failure exit code fails the action with the standard
/// message.
pub fn run_checked(command: String) -> (r: Op)
    ensures
        r@ == OpV::Run(command@, seq![CheckV::ExitCode]),
{
    let mut cs: Vec<Check> = Vec::new();
    cs.push(Check::ExitCode);
    assert(checks_view(cs@) =~= seq![CheckV::ExitCode]);
    Op::Run(command, cs)
}

/// A command whose outcome is not looked at.
pub fn run_unchecked(command: String) -> (r: Op)
    ensures
        r@ == OpV::Run(command@, seq![]),
{
    let cs: Vec<Check> = Vec::new();
    assert(checks_view(cs@) =~= seq![]);
    Op::Run(command, cs)
}

/// A command with one check.
pub fn run_with(command: String, c: Check) -> (r: Op)
    ensures
        r@ == OpV::Run(command@, seq![c@]),
{
    let mut cs: Vec<Check> = Vec::new();
    cs.push(c);
    assert(checks_view(cs@) =~= seq![c@]);
    Op::Run(command, cs)
}

/// A command with two checks, applied in order.
pub fn run_with2(command: String, c1: Check, c2: Check) -> (r: Op)
    ensures
        r@ == OpV::Run(command@, seq![c1@, c2@]),
{
    let mut cs: Vec<Check> = Vec::new();
    cs.push(c1);
    cs.push(c2);
    assert(checks_view(cs@) =~= seq![c1@, c2@]);
    Op::Run(command, cs)
}

/// The step a script's outcome gives on its own: its request, its
/// failure, or success once it is complete.
pub open spec fn outcome_step(o: OutcomeV) -> StepV {
    match o {
        OutcomeV::Request(q) => StepV::Send(q),
        OutcomeV::Failed(e) => StepV::Finished(Err(e)),
        OutcomeV::Aborted(m) => StepV::Abort(m),
        OutcomeV::Completed(_) => StepV::Finished(Ok(())),
    }
}

pub fn to_step(o: ScriptOutcome) -> (r: ActionStep)
    ensures
        r@ == outcome_step(o@),
{
    match o {
        ScriptOutcome::Request(q) => ActionStep::Send(q),
        ScriptOutcome::Failed(e) => ActionStep::Finished(Err(e)),
        ScriptOutcome::Aborted(m) => ActionStep::Abort(m),
        ScriptOutcome::Completed(_) => ActionStep::Finished(Ok(())),
    }
}

/// The standard output carried by reply `i`, or nothing.
pub open spec fn stdout_at(rs: Seq<ReplyV>, i: int) -> Seq<char> {
    if 0 <= i < rs.len() {
        match rs[i] {
            ReplyV::Output(o) => o.stdout,
            _ => seq![],
        }
    } else {
        seq![]
    }
}

/// The file text carried by reply `i`, or nothing.
pub open spec fn text_at(rs: Seq<ReplyV>, i: int) -> Seq<char> {
    if 0 <= i < rs.len() {
        match rs[i] {
            ReplyV::TextFile(Ok(t)) => t,
            _ => seq![],
        }
    } else {
        seq![]
    }
}

pub fn stdout_at_exec(rs: &Vec<ActionReply>, i: usize) -> (r: String)
    ensures
        r@ == stdout_at(replies_view(rs@), i as int),
{
    if i < rs.len() {
        match &rs[i] {
            ActionReply::Output(o) => owned(o.stdout.as_str()),
            _ => String::new(),
        }
    } else {
        String::new()
    }
}

pub fn text_at_exec(rs: &Vec<ActionReply>, i: usize) -> (r: String)
    ensures
        r@ == text_at(replies_view(rs@), i as int),
{
    if i < rs.len() {
        match &rs[i] {
            ActionReply::TextFile(Ok(t)) => owned(t.as_str()),
            _ => String::new(),
        }
    } else {
        String::new()
    }
}

} // verus!
