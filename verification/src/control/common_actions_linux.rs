//! Actions for Linux hosts (systemd, ufw, the shadow tools), planned as
//! scripts like the Unix ones.
use vstd::prelude::*;
use crate::control::action_script::{
    checks_view, ops_view, plan_step, plan_view, push_op, run_checked, run_plan, run_unchecked,
    run_with, script_step, ActionStep, Check, CheckV, Fail, FailV, Op, OpV, StepV,
};
use crate::control::common_actions_unix::required;
use crate::control::control_actions::{ActionErr, ActionError, ControlAction, GenericError, SystemDetailsResult};
use crate::control::action_script::processed_command;
use crate::control::action_script::{run_script, stdout_at_exec, text_at_exec, to_step, ScriptOutcome};
use crate::control::action_script::post_process_command;
use crate::control::control_common::ControlSessionParams;
use crate::control::control_connection::{replies_view, ActionReply, ActionRequest, ReplyV, RequestV};
use crate::params::{bool_or, list_strings_of, param_text, str_of, strings_view, Params};
use crate::text::{
    chars_of, concat2, concat3, concat4, concat5, join, join_strings, lines_of, owned, slice_chars,
    split_lines, starts_with, starts_with_chars, string_of, str_eq, trim, trim_chars,
};

verus! {

/// A string parameter, or a default when it is absent or not a string.
pub open spec fn str_or(params: Params, key: Seq<char>, d: Seq<char>) -> Seq<char> {
    match str_of(params.get(key)) {
        Some(t) => t,
        None => d,
    }
}

/// One checked command per item: the prefix followed by the item.
pub open spec fn prefixed_runs(prefix: Seq<char>, items: Seq<Seq<char>>) -> Seq<OpV> {
    Seq::new(items.len(), |i: int| OpV::Run(prefix + items[i], seq![CheckV::ExitCode]))
}

fn push_prefixed_runs(ops: &mut Vec<Op>, prefix: &str, items: &Vec<String>)
    ensures
        ops_view(final(ops)@) == ops_view(old(ops)@) + prefixed_runs(prefix@, strings_view(items@)),
{
    let ghost start = ops_view(ops@);
    let ghost sv = strings_view(items@);
    let mut i: usize = 0;
    while i < items.len()
        invariant
            i <= items@.len(),
            sv == strings_view(items@),
            ops_view(ops@) == start + prefixed_runs(prefix@, sv.take(i as int)),
        decreases items@.len() - i,
    {
        push_op(ops, run_checked(concat2(prefix, items[i].as_str())));
        proof {
            assert(prefixed_runs(prefix@, sv.take(i + 1)) =~= prefixed_runs(prefix@, sv.take(i as int)).push(
                OpV::Run(prefix@ + items@[i as int]@, seq![CheckV::ExitCode]),
            ));
            assert(ops_view(ops@) =~= start + prefixed_runs(prefix@, sv.take(i + 1)));
        }
        i = i + 1;
    }
    proof {
        assert(sv.take(items@.len() as int) =~= sv);
    }
}

// ---------------------------------------------------------------------
// systemCtl, setTimeZone
// ---------------------------------------------------------------------

pub open spec fn systemctrl_plan(params: Params) -> Result<Seq<OpV>, ActionErr> {
    match required(params, "service"@) {
        Err(e) => Err(e),
        Ok(service) => match required(params, "action"@) {
            Err(e) => Err(e),
            Ok(act) => Ok(seq![OpV::Run("systemctl "@ + act + " "@ + service, seq![CheckV::ExitCode])]),
        },
    }
}

/// Runs `systemctl <action> <service>`; a failure exit code fails the
/// action.
pub fn systemctrl(p: &ControlSessionParams, action: &ControlAction, replies: &Vec<ActionReply>) -> (r: ActionStep)
    ensures
        r@ == plan_step(*p, action.action, systemctrl_plan(action.params), replies_view(replies@)),
{
    let plan: Result<Vec<Op>, ActionError> = match action.get_required_string_param("service") {
        Err(e) => Err(e),
        Ok(service) => match action.get_required_string_param("action") {
            Err(e) => Err(e),
            Ok(act) => {
                let mut ops: Vec<Op> = Vec::new();
                push_op(&mut ops, run_checked(concat4("systemctl ", act.as_str(), " ", service.as_str())));
                Ok(ops)
            },
        },
    };
    proof {
        match plan_view(plan) {
            Ok(ops) => {
                assert(ops =~= systemctrl_plan(action.params)->Ok_0);
            },
            Err(_) => {},
        }
    }
    run_plan(p, action.action, plan, replies)
}

pub open spec fn set_time_zone_plan(params: Params) -> Result<Seq<OpV>, ActionErr> {
    match required(params, "timeZone"@) {
        Err(e) => Err(e),
        Ok(tz) => Ok(seq![OpV::Run("timedatectl "@ + tz, seq![CheckV::ExitCode])]),
    }
}

/// Runs `timedatectl` with the `timeZone` parameter; a failure exit code
/// fails the action.
pub fn set_time_zone(p: &ControlSessionParams, action: &ControlAction, replies: &Vec<ActionReply>) -> (r: ActionStep)
    ensures
        r@ == plan_step(*p, action.action, set_time_zone_plan(action.params), replies_view(replies@)),
{
    let plan: Result<Vec<Op>, ActionError> = match action.get_required_string_param("timeZone") {
        Err(e) => Err(e),
        Ok(tz) => {
            let mut ops: Vec<Op> = Vec::new();
            push_op(&mut ops, run_checked(concat2("timedatectl ", tz.as_str())));
            Ok(ops)
        },
    };
    proof {
        match plan_view(plan) {
            Ok(ops) => {
                assert(ops =~= set_time_zone_plan(action.params)->Ok_0);
            },
            Err(_) => {},
        }
    }
    run_plan(p, action.action, plan, replies)
}

// ---------------------------------------------------------------------
// firewall
// ---------------------------------------------------------------------

pub open spec fn ufw_enable_ops(params: Params) -> Seq<OpV> {
    if params.get("enabled"@) is Some {
        seq![OpV::Run("ufw --force "@ + (if bool_or(params.get("enabled"@), true) {
            "enable"@
        } else {
            "disable"@
        }), seq![CheckV::ExitCode])]
    } else {
        seq![]
    }
}

pub open spec fn firewall_plan(params: Params, start_first: bool) -> Result<Seq<OpV>, ActionErr> {
    if str_or(params, "type"@, "ufw"@) != "ufw"@ {
        Err(ActionErr::InvalidParams("Invalid firewall type param"@))
    } else {
        let rules = prefixed_runs("ufw "@, list_strings_of(params.get("rules"@)));
        if start_first {
            Ok(ufw_enable_ops(params) + rules)
        } else {
            Ok(rules + ufw_enable_ops(params))
        }
    }
}

fn push_ufw_enable(ops: &mut Vec<Op>, params: &Params)
    ensures
        ops_view(final(ops)@) == ops_view(old(ops)@) + ufw_enable_ops(*params),
{
    let ghost start = ops_view(ops@);
    if params.has_value("enabled") {
        let command = if params.get_bool_or("enabled", true) {
            concat2("ufw --force ", "enable")
        } else {
            concat2("ufw --force ", "disable")
        };
        push_op(ops, run_checked(command));
    }
    assert(ops_view(ops@) =~= start + ufw_enable_ops(*params));
}

/// Adds the `rules` to ufw, one `ufw <rule>` command each, and enables or
/// disables ufw when `enabled` is given: before the rules when
/// `start_first` is set, after them otherwise. Only the `ufw` type is
/// supported; any failing command fails the action.
pub fn firewall(p: &ControlSessionParams, action: &ControlAction, replies: &Vec<ActionReply>, start_first: bool) -> (r: ActionStep)
    ensures
        r@ == plan_step(*p, action.action, firewall_plan(action.params, start_first), replies_view(replies@)),
{
    let kind = action.params.get_string_value_with_default("type", "ufw");
    proof {
        reveal_strlit("ufw");
    }
    let plan: Result<Vec<Op>, ActionError> = if !str_eq(kind.as_str(), "ufw") {
        Err(ActionError::InvalidParams(owned("Invalid firewall type param")))
    } else {
        let rules = action.params.get_values_as_vec_of_strings("rules");
        let mut ops: Vec<Op> = Vec::new();
        if start_first {
            push_ufw_enable(&mut ops, &action.params);
            push_prefixed_runs(&mut ops, "ufw ", &rules);
        } else {
            push_prefixed_runs(&mut ops, "ufw ", &rules);
            push_ufw_enable(&mut ops, &action.params);
        }
        Ok(ops)
    };
    proof {
        match plan_view(plan) {
            Ok(ops) => {
                assert(ops =~= firewall_plan(action.params, start_first)->Ok_0);
            },
            Err(_) => {},
        }
    }
    run_plan(p, action.action, plan, replies)
}

// ---------------------------------------------------------------------
// addGroup, setHostname
// ---------------------------------------------------------------------

pub open spec fn add_group_plan(params: Params) -> Result<Seq<OpV>, ActionErr> {
    match required(params, "name"@) {
        Err(e) => Err(e),
        Ok(name) => Ok(seq![OpV::Run("groupadd "@ + name, seq![CheckV::ExitCode])] + (if params.get("user"@) is Some {
            seq![OpV::Run("usermod -aG "@ + name + " "@ + str_or(params, "user"@, ""@), seq![CheckV::ExitCode])]
        } else if params.get("users"@) is Some {
            prefixed_runs("usermod -aG "@ + name + " "@, list_strings_of(params.get("users"@)))
        } else {
            seq![]
        })),
    }
}

/// Adds a group, then adds the `user` (or each of the `users`) to it; any
/// failing command fails the action.
pub fn add_group(p: &ControlSessionParams, action: &ControlAction, replies: &Vec<ActionReply>) -> (r: ActionStep)
    ensures
        r@ == plan_step(*p, action.action, add_group_plan(action.params), replies_view(replies@)),
{
    let plan: Result<Vec<Op>, ActionError> = match action.get_required_string_param("name") {
        Err(e) => Err(e),
        Ok(name) => {
            let mut ops: Vec<Op> = Vec::new();
            push_op(&mut ops, run_checked(concat2("groupadd ", name.as_str())));
            if action.params.has_value("user") {
                let user = action.params.get_string_value_with_default("user", "");
                proof {
                    reveal_strlit("");
                }
                push_op(&mut ops, run_checked(concat4("usermod -aG ", name.as_str(), " ", user.as_str())));
            } else if action.params.has_value("users") {
                let users = action.params.get_values_as_vec_of_strings("users");
                let prefix = concat3("usermod -aG ", name.as_str(), " ");
                push_prefixed_runs(&mut ops, prefix.as_str(), &users);
            }
            Ok(ops)
        },
    };
    proof {
        match plan_view(plan) {
            Ok(ops) => {
                assert(ops =~= add_group_plan(action.params)->Ok_0);
            },
            Err(_) => {},
        }
    }
    run_plan(p, action.action, plan, replies)
}

pub open spec fn set_hostname_plan(params: Params) -> Result<Seq<OpV>, ActionErr> {
    match required(params, "hostname"@) {
        Err(e) => Err(e),
        Ok(h) => Ok(seq![
            OpV::Run("hostnamectl set-hostname "@ + h, seq![CheckV::ExitCode]),
            OpV::Run("hostnamectl"@, seq![
                CheckV::ExitCode,
                CheckV::StdoutEmpty(FailV::Command("setHostname error with unexpected response to 'hostnamectl' command."@)),
                CheckV::StaticHostname(h),
            ]),
        ]),
    }
}

/// Sets the hostname with `hostnamectl`, then runs `hostnamectl` again and
/// requires its output to report the new static hostname.
pub fn set_hostname(p: &ControlSessionParams, action: &ControlAction, replies: &Vec<ActionReply>) -> (r: ActionStep)
    ensures
        r@ == plan_step(*p, action.action, set_hostname_plan(action.params), replies_view(replies@)),
{
    let plan: Result<Vec<Op>, ActionError> = match action.get_required_string_param("hostname") {
        Err(e) => Err(e),
        Ok(h) => {
            let mut ops: Vec<Op> = Vec::new();
            push_op(&mut ops, run_checked(concat2("hostnamectl set-hostname ", h.as_str())));
            let mut cs: Vec<Check> = Vec::new();
            cs.push(Check::ExitCode);
            cs.push(Check::StdoutEmpty(Fail::Command(owned("setHostname error with unexpected response to 'hostnamectl' command."))));
            cs.push(Check::StaticHostname(h));
            let ghost want = set_hostname_plan(action.params)->Ok_0[1]->Run_1;
            assert(checks_view(cs@) =~= want);
            push_op(&mut ops, Op::Run(owned("hostnamectl"), cs));
            Ok(ops)
        },
    };
    proof {
        match plan_view(plan) {
            Ok(ops) => {
                assert(ops =~= set_hostname_plan(action.params)->Ok_0);
            },
            Err(_) => {},
        }
    }
    run_plan(p, action.action, plan, replies)
}

// ---------------------------------------------------------------------
// createSystemdService
// ---------------------------------------------------------------------

/// The unit file of a service.
pub open spec fn service_unit_text(params: Params, description: Seq<char>, user: Seq<char>, exec_start: Seq<char>) -> Seq<char> {
    "[Unit]\nDescription="@ + description + "\n"@ + (match str_of(params.get("after"@)) {
        Some(a) => "After="@ + a + "\n"@,
        None => ""@,
    }) + (match str_of(params.get("before"@)) {
        Some(b) => "Before="@ + b + "\n"@,
        None => ""@,
    }) + "\n"@ + "[Service]\nType=simple\nUser="@ + user + "\nExecStart="@ + exec_start + "\n"@ + (match str_of(
        params.get("execRestart"@),
    ) {
        Some(x) => "ExecRestart="@ + x + "\n"@,
        None => ""@,
    }) + (match params.get("execStop"@) {
        Some(v) => "ExecStop="@ + param_text(v) + "\n"@,
        None => ""@,
    }) + "Restart=always\nRestartSec=2\n"@ + "\n"@ + "[Install]\nWantedBy=multi-user.target\n"@
}

pub open spec fn create_systemd_service_plan(params: Params) -> Result<Seq<OpV>, ActionErr> {
    match required(params, "name"@) {
        Err(e) => Err(e),
        Ok(name) => match required(params, "description"@) {
            Err(e) => Err(e),
            Ok(description) => match required(params, "user"@) {
                Err(e) => Err(e),
                Ok(user) => match required(params, "execStart"@) {
                    Err(e) => Err(e),
                    Ok(exec_start) => {
                        let path = "/etc/systemd/system/"@ + name + ".service"@;
                        Ok(seq![
                            OpV::SendText(
                                path,
                                0o644,
                                service_unit_text(params, description, user, exec_start),
                                FailV::CommandWith("Error creating remote file for new service: '"@ + path + "', error: "@),
                            ),
                            OpV::Run("sudo systemctl daemon-reload"@, seq![CheckV::ExitCode]),
                        ] + (if bool_or(params.get("startNow"@), true) {
                            seq![OpV::Run("systemctl start "@ + name, seq![CheckV::ExitCode])]
                        } else {
                            seq![]
                        }) + seq![OpV::Run("systemctl enable "@ + name, seq![CheckV::ExitCode])])
                    },
                },
            },
        },
    }
}

fn service_unit(params: &Params, description: &str, user: &str, exec_start: &str) -> (r: String)
    ensures
        r@ == service_unit_text(*params, description@, user@, exec_start@),
{
    let mut s = concat3("[Unit]\nDescription=", description, "\n");
    if let Some(a) = params.get_string_value("after") {
        s.append(concat3("After=", a.as_str(), "\n").as_str());
    }
    if let Some(b) = params.get_string_value("before") {
        s.append(concat3("Before=", b.as_str(), "\n").as_str());
    }
    s.append("\n");
    s.append(concat5("[Service]\nType=simple\nUser=", user, "\nExecStart=", exec_start, "\n").as_str());
    if let Some(x) = params.get_string_value("execRestart") {
        s.append(concat3("ExecRestart=", x.as_str(), "\n").as_str());
    }
    if let Some(v) = params.get_raw_value("execStop") {
        let t = v.to_text();
        s.append(concat3("ExecStop=", t.as_str(), "\n").as_str());
    }
    s.append("Restart=always\nRestartSec=2\n");
    s.append("\n");
    s.append("[Install]\nWantedBy=multi-user.target\n");
    proof {
        reveal_strlit("");
        let want = service_unit_text(*params, description@, user@, exec_start@);
        assert(s@ =~= want);
    }
    s
}

/// Writes a systemd unit file for a service, reloads systemd, starts the
/// service (unless `startNow` is false) and enables it; a failed write or
/// a failing command fails the action.
pub fn create_systemd_service(p: &ControlSessionParams, action: &ControlAction, replies: &Vec<ActionReply>) -> (r: ActionStep)
    ensures
        r@ == plan_step(*p, action.action, create_systemd_service_plan(action.params), replies_view(replies@)),
{
    let plan: Result<Vec<Op>, ActionError> = match action.get_required_string_param("name") {
        Err(e) => Err(e),
        Ok(name) => match action.get_required_string_param("description") {
            Err(e) => Err(e),
            Ok(description) => match action.get_required_string_param("user") {
                Err(e) => Err(e),
                Ok(user) => match action.get_required_string_param("execStart") {
                    Err(e) => Err(e),
                    Ok(exec_start) => {
                        let path = concat3("/etc/systemd/system/", name.as_str(), ".service");
                        let content = service_unit(&action.params, description.as_str(), user.as_str(), exec_start.as_str());
                        let mut ops: Vec<Op> = Vec::new();
                        let fail = Fail::CommandWith(concat3("Error creating remote file for new service: '", path.as_str(), "', error: "));
                        push_op(&mut ops, Op::SendText(path, 0o644, content, fail));
                        push_op(&mut ops, run_checked(owned("sudo systemctl daemon-reload")));
                        if action.params.get_bool_or("startNow", true) {
                            push_op(&mut ops, run_checked(concat2("systemctl start ", name.as_str())));
                        }
                        push_op(&mut ops, run_checked(concat2("systemctl enable ", name.as_str())));
                        Ok(ops)
                    },
                },
            },
        },
    };
    proof {
        match plan_view(plan) {
            Ok(ops) => {
                assert(ops =~= create_systemd_service_plan(action.params)->Ok_0);
            },
            Err(_) => {},
        }
    }
    run_plan(p, action.action, plan, replies)
}

// ---------------------------------------------------------------------
// addUser
// ---------------------------------------------------------------------

/// The supplementary groups of a new user: the `extraGroups`, or else the
/// `groups`.
pub open spec fn supplementary_groups_key(params: Params) -> Option<Seq<char>> {
    if params.get("extraGroups"@) is Some {
        Some("extraGroups"@)
    } else if params.get("groups"@) is Some {
        Some("groups"@)
    } else {
        None
    }
}

/// The options of `useradd`: a home directory unless `createHome` is
/// false, the `defaultGroup`, the supplementary groups (`extraGroups`, or
/// else `groups`, joined by commas), and the `shell` (`/bin/bash` unless
/// given; an empty shell leaves the option out).
pub open spec fn useradd_options(params: Params) -> Seq<char> {
    let shell = str_or(params, "shell"@, "/bin/bash"@);
    (if bool_or(params.get("createHome"@), true) {
        "-m "@
    } else {
        "-M "@
    }) + (match str_of(params.get("defaultGroup"@)) {
        Some(g) => "-g "@ + g + " "@,
        None => ""@,
    }) + (match supplementary_groups_key(params) {
        Some(k) => "-G "@ + join(list_strings_of(params.get(k)), ","@) + " "@,
        None => ""@,
    }) + (if shell.len() > 0 {
        "-s "@ + shell
    } else {
        ""@
    })
}

/// Adds the user (any output of `useradd` fails the action), then sets the
/// password with `chpasswd`, kept out of the shell history.
pub open spec fn add_user_ops(params: Params, user: Seq<char>, password: Seq<char>) -> Seq<OpV> {
    seq![
        OpV::Run(
            "useradd "@ + useradd_options(params) + " "@ + user,
            seq![CheckV::StdoutNotEmpty(FailV::Command("Unexpected response from useradd command."@))],
        ),
        OpV::Run(" echo -e '"@ + user + ":"@ + password + "' | chpasswd"@, seq![]),
    ]
}

pub open spec fn password_prompt_text(user: Seq<char>) -> Seq<char> {
    "Please enter password to set for new user '"@ + user + "':"@
}

/// A password of `$PROMPT` is asked for first, and the typed one is used.
pub open spec fn add_user_step(p: ControlSessionParams, action: ControlAction, rs: Seq<ReplyV>) -> StepV {
    match required(action.params, "username"@) {
        Err(e) => StepV::Finished(Err(e)),
        Ok(user) => match required(action.params, "password"@) {
            Err(e) => StepV::Finished(Err(e)),
            Ok(password) => if password == "$PROMPT"@ {
                if rs.len() == 0 {
                    StepV::Send(RequestV::PromptSecret(password_prompt_text(user)))
                } else {
                    match rs[0] {
                        ReplyV::Entered(typed) => script_step(p, action.action, add_user_ops(action.params, user, typed), 1, rs),
                        _ => StepV::Abort(crate::control::action_script::unexpected_reply_text()),
                    }
                }
            } else {
                script_step(p, action.action, add_user_ops(action.params, user, password), 0, rs)
            },
        },
    }
}

fn useradd_options_exec(params: &Params) -> (r: String)
    ensures
        r@ == useradd_options(*params),
{
    let mut s = if params.get_bool_or("createHome", true) {
        owned("-m ")
    } else {
        owned("-M ")
    };
    if let Some(g) = params.get_string_value("defaultGroup") {
        s.append(concat3("-g ", g.as_str(), " ").as_str());
    }
    let groups_key = if params.has_value("extraGroups") {
        Some("extraGroups")
    } else if params.has_value("groups") {
        Some("groups")
    } else {
        None
    };
    if let Some(k) = groups_key {
        let groups = params.get_values_as_vec_of_strings(k);
        let joined = join_strings(&groups, ",");
        s.append(concat3("-G ", joined.as_str(), " ").as_str());
    }
    let shell = params.get_string_value_with_default("shell", "/bin/bash");
    if shell.as_str().unicode_len() > 0 {
        s.append(concat2("-s ", shell.as_str()).as_str());
    }
    proof {
        reveal_strlit("");
        assert(s@ =~= useradd_options(*params));
    }
    s
}

fn add_user_script(params: &Params, user: &str, password: &str) -> (r: Vec<Op>)
    ensures
        ops_view(r@) == add_user_ops(*params, user@, password@),
{
    let options = useradd_options_exec(params);
    let mut ops: Vec<Op> = Vec::new();
    push_op(
        &mut ops,
        run_with(
            concat4("useradd ", options.as_str(), " ", user),
            Check::StdoutNotEmpty(Fail::Command(owned("Unexpected response from useradd command."))),
        ),
    );
    push_op(&mut ops, run_unchecked(concat5(" echo -e '", user, ":", password, "' | chpasswd")));
    assert(ops_view(ops@) =~= add_user_ops(*params, user@, password@));
    ops
}

/// Adds a user with `useradd` and sets its password; a password of
/// `$PROMPT` is asked for.
pub fn add_user(p: &ControlSessionParams, action: &ControlAction, replies: &Vec<ActionReply>) -> (r: ActionStep)
    ensures
        r@ == add_user_step(*p, *action, replies_view(replies@)),
{
    let user = match action.get_required_string_param("username") {
        Err(e) => {
            return ActionStep::Finished(Err(e));
        },
        Ok(u) => u,
    };
    let password = match action.get_required_string_param("password") {
        Err(e) => {
            return ActionStep::Finished(Err(e));
        },
        Ok(pw) => pw,
    };
    if str_eq(password.as_str(), "$PROMPT") {
        if replies.len() == 0 {
            return ActionStep::Send(ActionRequest::PromptSecret(
                concat3("Please enter password to set for new user '", user.as_str(), "':"),
            ));
        }
        assert(replies_view(replies@)[0] == replies@[0]@);
        match &replies[0] {
            ActionReply::Entered(typed) => {
                let ops = add_user_script(&action.params, user.as_str(), typed.as_str());
                crate::control::action_script::finish_script(p, action.action, &ops, replies, 1)
            },
            _ => ActionStep::Abort(owned("a reply did not answer its request")),
        }
    } else {
        let ops = add_user_script(&action.params, user.as_str(), password.as_str());
        crate::control::action_script::finish_script(p, action.action, &ops, replies, 0)
    }
}

// ---------------------------------------------------------------------
// System details
// ---------------------------------------------------------------------

/// The distributor id and release that `lsb_release --id --release`
/// reports: the last `Distributor ID:` and `Release:` lines, trimmed.
pub open spec fn lsb_values(ls: Seq<Seq<char>>) -> (Seq<char>, Seq<char>)
    decreases ls.len(),
{
    if ls.len() == 0 {
        (seq![], seq![])
    } else {
        let prev = lsb_values(ls.drop_last());
        let l = ls.last();
        if starts_with(l, "Distributor ID:"@) {
            (trim(l.skip(15)), prev.1)
        } else if starts_with(l, "Release:"@) {
            (prev.0, trim(l.skip(8)))
        } else {
            prev
        }
    }
}

/// A step of reading a host's system details.
pub enum SystemDetailsStep {
    Send(ActionRequest),
    Finished(Result<SystemDetailsResult, GenericError>),
    Abort(String),
}

pub enum DetailsV {
    Send(RequestV),
    Found(Seq<char>, Seq<char>),
    NotImplemented,
    CommandFailed(Seq<char>),
    Other(Seq<char>),
    Abort(Seq<char>),
}

impl View for SystemDetailsStep {
    type V = DetailsV;

    open spec fn view(&self) -> DetailsV {
        match self {
            SystemDetailsStep::Send(q) => DetailsV::Send(q@),
            SystemDetailsStep::Finished(Ok(d)) => DetailsV::Found(d.distr_id@, d.release@),
            SystemDetailsStep::Finished(Err(GenericError::NotImplemented)) => DetailsV::NotImplemented,
            SystemDetailsStep::Finished(Err(GenericError::CommandFailed(m))) => DetailsV::CommandFailed(m@),
            SystemDetailsStep::Finished(Err(GenericError::Other(m))) => DetailsV::Other(m@),
            SystemDetailsStep::Abort(m) => DetailsV::Abort(m@),
        }
    }
}

/// Runs `lsb_release --id --release`; empty output, or output without both
/// values, fails.
pub open spec fn system_details_step(p: ControlSessionParams, rs: Seq<ReplyV>) -> DetailsV {
    if rs.len() == 0 {
        DetailsV::Send(RequestV::Command(processed_command(p, "lsb_release --id --release"@)))
    } else {
        match rs[0] {
            ReplyV::Output(o) => if o.stdout.len() == 0 {
                DetailsV::CommandFailed(seq![])
            } else {
                let v = lsb_values(lines_of(o.stdout));
                if v.0.len() == 0 || v.1.len() == 0 {
                    DetailsV::CommandFailed(seq![])
                } else {
                    DetailsV::Found(v.0, v.1)
                }
            },
            _ => DetailsV::Abort(crate::control::action_script::unexpected_reply_text()),
        }
    }
}

/// The distributor id and release of the host.
pub fn get_system_details(p: &ControlSessionParams, replies: &Vec<ActionReply>) -> (r: SystemDetailsStep)
    ensures
        r@ == system_details_step(*p, replies_view(replies@)),
{
    if replies.len() == 0 {
        return SystemDetailsStep::Send(ActionRequest::Command(post_process_command(p, "lsb_release --id --release")));
    }
    assert(replies_view(replies@)[0] == replies@[0]@);
    let o = match &replies[0] {
        ActionReply::Output(o) => o,
        _ => {
            return SystemDetailsStep::Abort(owned("a reply did not answer its request"));
        },
    };
    if o.stdout.as_str().unicode_len() == 0 {
        return SystemDetailsStep::Finished(Err(GenericError::CommandFailed(String::new())));
    }
    let chars = chars_of(o.stdout.as_str());
    let ls = split_lines(chars.as_slice());
    let dist_prefix = chars_of("Distributor ID:");
    let rel_prefix = chars_of("Release:");
    proof {
        reveal_strlit("Distributor ID:");
        reveal_strlit("Release:");
    }
    let mut dist: Vec<char> = Vec::new();
    let mut release: Vec<char> = Vec::new();
    let ghost lv = lines_of(o.stdout@);
    let mut i: usize = 0;
    while i < ls.len()
        invariant
            i <= ls@.len(),
            ls@.len() == lv.len(),
            forall|k: int| 0 <= k < ls@.len() ==> #[trigger] ls@[k]@ == lv[k],
            dist_prefix@ == "Distributor ID:"@,
            dist_prefix@.len() == 15,
            rel_prefix@ == "Release:"@,
            rel_prefix@.len() == 8,
            (dist@, release@) == lsb_values(lv.take(i as int)),
        decreases ls@.len() - i,
    {
        proof {
            assert(lv.take(i + 1).drop_last() =~= lv.take(i as int));
            assert(lv.take(i + 1).last() == ls@[i as int]@);
        }
        let l = &ls[i];
        if starts_with_chars(l.as_slice(), dist_prefix.as_slice()) {
            let rest = slice_chars(l.as_slice(), 15, l.len());
            assert(rest@ =~= l@.skip(15));
            dist = trim_chars(rest.as_slice());
        } else if starts_with_chars(l.as_slice(), rel_prefix.as_slice()) {
            let rest = slice_chars(l.as_slice(), 8, l.len());
            assert(rest@ =~= l@.skip(8));
            release = trim_chars(rest.as_slice());
        }
        i = i + 1;
    }
    proof {
        assert(lv.take(ls@.len() as int) =~= lv);
    }
    if dist.len() == 0 || release.len() == 0 {
        return SystemDetailsStep::Finished(Err(GenericError::CommandFailed(String::new())));
    }
    SystemDetailsStep::Finished(Ok(SystemDetailsResult {
        distr_id: string_of(dist.as_slice()),
        release: string_of(release.as_slice()),
    }))
}

// ---------------------------------------------------------------------
// disableSwap
// ---------------------------------------------------------------------

/// The whitespace `str::split_ascii_whitespace` splits at.
pub open spec fn is_ascii_ws(c: char) -> bool {
    c == ' ' || c == '\t' || c == '\n' || c == '\u{0C}' || c == '\r'
}

/// The first position at or after `i` that is not whitespace, or the end.
pub open spec fn skip_ws(l: Seq<char>, i: int) -> int
    decreases l.len() - i,
{
    if i < 0 || i >= l.len() {
        l.len() as int
    } else if is_ascii_ws(l[i]) {
        skip_ws(l, i + 1)
    } else {
        i
    }
}

/// The first whitespace position at or after `i`, or the end.
pub open spec fn next_ws(l: Seq<char>, i: int) -> int
    decreases l.len() - i,
{
    if i < 0 || i >= l.len() {
        l.len() as int
    } else if is_ascii_ws(l[i]) {
        i
    } else {
        next_ws(l, i + 1)
    }
}

/// The first whitespace-separated word of a line, if it has one.
pub open spec fn first_word(l: Seq<char>) -> Option<Seq<char>> {
    let a = skip_ws(l, 0);
    if a >= l.len() {
        None
    } else {
        Some(l.subrange(a, next_ws(l, a)))
    }
}

/// The swap files named in the data lines of `/proc/swaps` that are to be
/// disabled: the one named `filename`, or all for `*`. `None` when a line
/// has no word at all.
pub open spec fn swap_names(ls: Seq<Seq<char>>, filename: Seq<char>) -> Option<Seq<Seq<char>>>
    decreases ls.len(),
{
    if ls.len() == 0 {
        Some(seq![])
    } else {
        match swap_names(ls.drop_last(), filename) {
            None => None,
            Some(ns) => match first_word(ls.last()) {
                None => None,
                Some(n) => if n == filename || filename == "*"@ {
                    Some(ns.push(n))
                } else {
                    Some(ns)
                },
            },
        }
    }
}

/// A line of `/etc/fstab` commented out when it mentions one of the names.
pub open spec fn comment_if_named(l: Seq<char>, names: Seq<Seq<char>>) -> Seq<char> {
    if exists|j: int| 0 <= j < names.len() && crate::text::contains(l, #[trigger] names[j]) {
        "#"@ + l
    } else {
        l
    }
}

pub open spec fn commented_fstab(contents: Seq<char>, names: Seq<Seq<char>>) -> Seq<char> {
    let ls = lines_of(contents);
    join(Seq::new(ls.len(), |i: int| comment_if_named(ls[i], names)), "\n"@) + "\n"@
}

pub open spec fn swap_list_ops() -> Seq<OpV> {
    seq![OpV::Run("cat /proc/swaps"@, seq![
        CheckV::ExitCode,
        CheckV::StdoutEmpty(FailV::Command("disableSwap error with unexpected response to 'cat /proc/swaps' command."@)),
    ])]
}

pub open spec fn swapoff_ops(filename: Seq<char>, names: Seq<Seq<char>>) -> Seq<OpV> {
    seq![
        OpV::Run(if filename == "*"@ {
            "swapoff -a"@
        } else {
            "swapoff "@ + names[0]
        }, seq![CheckV::ExitCode]),
        OpV::Fetch("/etc/fstab"@),
    ]
}

pub open spec fn fstab_stat_ops() -> Seq<OpV> {
    seq![OpV::Run("stat /etc/fstab"@, seq![CheckV::Stderr(FailV::OtherWith("Error accessing remote fstab path: "@))])]
}

pub open spec fn swap_finish_ops(mode: i32, contents: Seq<char>, names: Seq<Seq<char>>) -> Seq<OpV> {
    seq![OpV::SendText("/etc/fstab"@, mode, contents, FailV::Other("Error: failed to write modified /etc/fstab file."@))]
        + Seq::new(names.len(), |i: int| OpV::Run("rm "@ + names[i], seq![CheckV::Stderr(FailV::CommandWith("Error deleting swapfile file: "@))]))
}

pub open spec fn no_word_text() -> Seq<char> {
    "a line of /proc/swaps has no swap file name"@
}

/// Lists the active swap files; with only the header line there is
/// nothing to do. The swap files named by `filename` (all for `*`) are
/// turned off, their `/etc/fstab` lines commented out (the file keeps its
/// permissions), and the files removed.
pub open spec fn disable_swap_step(p: ControlSessionParams, action: ControlAction, rs: Seq<ReplyV>) -> StepV {
    let t = action.action;
    match required(action.params, "filename"@) {
        Err(e) => StepV::Finished(Err(e)),
        Ok(f) => match crate::control::action_script::script_outcome(p, t, swap_list_ops(), 0, rs) {
            crate::control::action_script::OutcomeV::Completed(k1) => {
                let ls = lines_of(crate::control::action_script::stdout_at(rs, 0));
                if ls.len() == 1 {
                    StepV::Finished(Ok(()))
                } else if ls.len() == 0 {
                    StepV::Finished(Err(ActionErr::FailedCommand("disableSwap error with unexpected response2"@)))
                } else {
                    match swap_names(ls.skip(1), f) {
                        None => StepV::Abort(no_word_text()),
                        Some(names) => if names.len() == 0 {
                            StepV::Finished(Err(ActionErr::FailedOther("disableSwap error: couldn't find specified swapfile to disable / delete."@)))
                        } else {
                            match crate::control::action_script::script_outcome(p, t, swapoff_ops(f, names), k1, rs) {
                                crate::control::action_script::OutcomeV::Completed(k2) => {
                                    let contents = crate::control::action_script::text_at(rs, k2 - 1);
                                    if contents.len() == 0 {
                                        StepV::Finished(Err(ActionErr::FailedCommand(seq![])))
                                    } else {
                                        match crate::control::action_script::script_outcome(p, t, fstab_stat_ops(), k2, rs) {
                                            crate::control::action_script::OutcomeV::Completed(k3) => match crate::control::terminal_helpers_linux::stat_file_mode(
                                                crate::control::action_script::stdout_at(rs, k3 - 1),
                                            ) {
                                                Err(m) => StepV::Abort(m),
                                                Ok(mode) => script_step(
                                                    p,
                                                    t,
                                                    swap_finish_ops(mode, commented_fstab(contents, names), names),
                                                    k3,
                                                    rs,
                                                ),
                                            },
                                            o => crate::control::action_script::outcome_step(o),
                                        }
                                    }
                                },
                                o => crate::control::action_script::outcome_step(o),
                            }
                        },
                    }
                }
            },
            o => crate::control::action_script::outcome_step(o),
        },
    }
}

fn is_ascii_ws_exec(c: char) -> (r: bool)
    ensures
        r == is_ascii_ws(c),
{
    c == ' ' || c == '\t' || c == '\n' || c == '\u{0C}' || c == '\r'
}

pub fn first_word_exec(l: &[char]) -> (r: Option<Vec<char>>)
    ensures
        match r {
            Some(w) => first_word(l@) == Some(w@),
            None => first_word(l@) is None,
        },
{
    let mut a: usize = 0;
    while a < l.len() && is_ascii_ws_exec(l[a])
        invariant
            a <= l@.len(),
            skip_ws(l@, 0) == skip_ws(l@, a as int),
        decreases l@.len() - a,
    {
        a = a + 1;
    }
    if a >= l.len() {
        return None;
    }
    let mut b: usize = a;
    while b < l.len() && !is_ascii_ws_exec(l[b])
        invariant
            a <= b <= l@.len(),
            next_ws(l@, a as int) == next_ws(l@, b as int),
        decreases l@.len() - b,
    {
        b = b + 1;
    }
    Some(slice_chars(l, a, b))
}

fn swap_names_exec(ls: &Vec<Vec<char>>, filename: &[char]) -> (r: Option<Vec<Vec<char>>>)
    requires
        ls@.len() >= 1,
    ensures
        match r {
            Some(ns) => swap_names(crate::text::vecs_view(ls@).skip(1), filename@) == Some(crate::text::vecs_view(ns@)),
            None => swap_names(crate::text::vecs_view(ls@).skip(1), filename@) is None,
        },
{
    let ghost data = crate::text::vecs_view(ls@).skip(1);
    let star = chars_of("*");
    let mut names: Vec<Vec<char>> = Vec::new();
    let mut i: usize = 1;
    while i < ls.len()
        invariant
            1 <= i <= ls@.len(),
            data == crate::text::vecs_view(ls@).skip(1),
            star@ == "*"@,
            swap_names(data.take(i - 1), filename@) == Some(crate::text::vecs_view(names@)),
        decreases ls@.len() - i,
    {
        proof {
            assert(data.take(i as int).drop_last() =~= data.take(i - 1));
            assert(data.take(i as int).last() == ls@[i as int]@);
        }
        match first_word_exec(ls[i].as_slice()) {
            None => {
                proof {
                    lemma_swap_names_none(data, i as int, filename@);
                }
                return None;
            },
            Some(w) => {
                if crate::text::chars_eq(w.as_slice(), filename) || crate::text::chars_eq(filename, star.as_slice()) {
                    let ghost before = names@;
                    names.push(w);
                    assert(crate::text::vecs_view(names@) =~= crate::text::vecs_view(before).push(w@));
                }
            },
        }
        i = i + 1;
    }
    proof {
        assert(data.take(ls@.len() - 1) =~= data);
    }
    Some(names)
}

proof fn lemma_swap_names_none(data: Seq<Seq<char>>, i: int, f: Seq<char>)
    requires
        1 <= i <= data.len(),
        swap_names(data.take(i), f) is None,
    ensures
        swap_names(data, f) is None,
    decreases data.len() - i,
{
    if i < data.len() {
        assert(data.take(i + 1).drop_last() =~= data.take(i));
        lemma_swap_names_none(data, i + 1, f);
    } else {
        assert(data.take(i) =~= data);
    }
}

fn commented_fstab_exec(contents: &str, names: &Vec<Vec<char>>) -> (r: String)
    ensures
        r@ == commented_fstab(contents@, crate::text::vecs_view(names@)),
{
    let ghost nv = crate::text::vecs_view(names@);
    let chars = chars_of(contents);
    let ls = split_lines(chars.as_slice());
    let ghost lv = lines_of(contents@);
    let mut out: Vec<String> = Vec::new();
    let mut i: usize = 0;
    while i < ls.len()
        invariant
            i <= ls@.len(),
            ls@.len() == lv.len(),
            forall|k: int| 0 <= k < ls@.len() ==> #[trigger] ls@[k]@ == lv[k],
            nv == crate::text::vecs_view(names@),
            out@.len() == i,
            forall|k: int| 0 <= k < i ==> #[trigger] out@[k]@ == comment_if_named(lv[k], nv),
        decreases ls@.len() - i,
    {
        let mut hit = false;
        let mut j: usize = 0;
        while j < names.len()
            invariant
                j <= names@.len(),
                nv == crate::text::vecs_view(names@),
                ls@[i as int]@ == lv[i as int],
                i < ls@.len(),
                ls@.len() == lv.len(),
                hit == (exists|q: int| 0 <= q < j && crate::text::contains(lv[i as int], #[trigger] nv[q])),
            decreases names@.len() - j,
        {
            assert(nv[j as int] == names@[j as int]@);
            if crate::text::contains_chars(ls[i].as_slice(), names[j].as_slice()) {
                hit = true;
            }
            proof {
                if hit {
                    if crate::text::contains(lv[i as int], nv[j as int]) {
                        assert(0 <= j < j + 1 && crate::text::contains(lv[i as int], nv[j as int]));
                    }
                }
            }
            j = j + 1;
        }
        let line = string_of(ls[i].as_slice());
        if hit {
            out.push(concat2("#", line.as_str()));
        } else {
            out.push(line);
        }
        i = i + 1;
    }
    let joined = join_strings(&out, "\n");
    proof {
        assert(out@.map_values(|s: String| s@) =~= Seq::new(lv.len(), |k: int| comment_if_named(lv[k], nv)));
    }
    concat2(joined.as_str(), "\n")
}

fn swap_finish_script(mode: i32, contents: String, names: &Vec<Vec<char>>) -> (r: Vec<Op>)
    ensures
        ops_view(r@) == swap_finish_ops(mode, contents@, crate::text::vecs_view(names@)),
{
    let ghost nv = crate::text::vecs_view(names@);
    let mut ops: Vec<Op> = Vec::new();
    push_op(&mut ops, Op::SendText(owned("/etc/fstab"), mode, contents, Fail::Other(owned("Error: failed to write modified /etc/fstab file."))));
    let mut i: usize = 0;
    while i < names.len()
        invariant
            i <= names@.len(),
            nv == crate::text::vecs_view(names@),
            ops_view(ops@) == swap_finish_ops(mode, contents@, nv.take(i as int)),
        decreases names@.len() - i,
    {
        let n = string_of(names[i].as_slice());
        push_op(&mut ops, run_with(concat2("rm ", n.as_str()), Check::Stderr(Fail::CommandWith(owned("Error deleting swapfile file: ")))));
        proof {
            assert(swap_finish_ops(mode, contents@, nv.take(i + 1)) =~= swap_finish_ops(mode, contents@, nv.take(i as int)).push(
                OpV::Run("rm "@ + nv[i as int], seq![CheckV::Stderr(FailV::CommandWith("Error deleting swapfile file: "@))]),
            ));
        }
        i = i + 1;
    }
    proof {
        assert(nv.take(names@.len() as int) =~= nv);
    }
    ops
}

/// Turns off swap files and removes them, commenting out their
/// `/etc/fstab` lines.
pub fn disable_swap(p: &ControlSessionParams, action: &ControlAction, replies: &Vec<ActionReply>) -> (r: ActionStep)
    ensures
        r@ == disable_swap_step(*p, *action, replies_view(replies@)),
{
    let t = action.action;
    let f = match action.get_required_string_param("filename") {
        Err(e) => {
            return ActionStep::Finished(Err(e));
        },
        Ok(f) => f,
    };
    let mut list: Vec<Op> = Vec::new();
    let mut cs: Vec<Check> = Vec::new();
    cs.push(Check::ExitCode);
    cs.push(Check::StdoutEmpty(Fail::Command(owned("disableSwap error with unexpected response to 'cat /proc/swaps' command."))));
    assert(checks_view(cs@) =~= swap_list_ops()[0]->Run_1);
    push_op(&mut list, Op::Run(owned("cat /proc/swaps"), cs));
    assert(ops_view(list@) =~= swap_list_ops());
    let k1 = match run_script(p, t, &list, replies, 0) {
        ScriptOutcome::Completed(k) => k,
        o => {
            return to_step(o);
        },
    };
    let out = stdout_at_exec(replies, 0);
    let out_chars = chars_of(out.as_str());
    let ls = split_lines(out_chars.as_slice());
    proof {
        assert(crate::text::vecs_view(ls@) =~= lines_of(out@));
    }
    if ls.len() == 1 {
        return ActionStep::Finished(Ok(()));
    } else if ls.len() == 0 {
        return ActionStep::Finished(Err(ActionError::FailedCommand(owned("disableSwap error with unexpected response2"))));
    }
    let fc = chars_of(f.as_str());
    let names = match swap_names_exec(&ls, fc.as_slice()) {
        None => {
            return ActionStep::Abort(owned("a line of /proc/swaps has no swap file name"));
        },
        Some(ns) => ns,
    };
    if names.len() == 0 {
        return ActionStep::Finished(Err(ActionError::FailedOther(owned("disableSwap error: couldn't find specified swapfile to disable / delete."))));
    }
    let ghost nv = crate::text::vecs_view(names@);
    let mut off: Vec<Op> = Vec::new();
    let off_command = if str_eq(f.as_str(), "*") {
        owned("swapoff -a")
    } else {
        concat2("swapoff ", string_of(names[0].as_slice()).as_str())
    };
    push_op(&mut off, run_checked(off_command));
    push_op(&mut off, Op::Fetch(owned("/etc/fstab")));
    assert(ops_view(off@) =~= swapoff_ops(f@, nv));
    let k2 = match run_script(p, t, &off, replies, k1) {
        ScriptOutcome::Completed(k) => k,
        o => {
            return to_step(o);
        },
    };
    let contents = if k2 >= 1 {
        text_at_exec(replies, k2 - 1)
    } else {
        String::new()
    };
    if contents.as_str().unicode_len() == 0 {
        proof {
            reveal_strlit("");
        }
        return ActionStep::Finished(Err(ActionError::FailedCommand(String::new())));
    }
    let mut stat: Vec<Op> = Vec::new();
    push_op(&mut stat, run_with(owned("stat /etc/fstab"), Check::Stderr(Fail::OtherWith(owned("Error accessing remote fstab path: ")))));
    assert(ops_view(stat@) =~= fstab_stat_ops());
    let k3 = match run_script(p, t, &stat, replies, k2) {
        ScriptOutcome::Completed(k) => k,
        o => {
            return to_step(o);
        },
    };
    let stat_out = if k3 >= 1 {
        stdout_at_exec(replies, k3 - 1)
    } else {
        String::new()
    };
    let mode = match crate::control::terminal_helpers_linux::file_mode_from_stat(stat_out.as_str()) {
        Err(m) => {
            return ActionStep::Abort(m);
        },
        Ok(m) => m,
    };
    let new_contents = commented_fstab_exec(contents.as_str(), &names);
    let finish = swap_finish_script(mode, new_contents, &names);
    crate::control::action_script::finish_script(p, t, &finish, replies, k3)
}

} // verus!
