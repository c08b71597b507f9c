//! Actions that work the same on any Unix host: each is planned as a
//! script of commands and transfers, stated here operation by operation.
use vstd::prelude::*;
use crate::control::action_script::{
    finish_script, ops_view, outcome_step, run_script, script_outcome, stdout_at, stdout_at_exec,
    text_at, text_at_exec, to_step, OutcomeV, ScriptOutcome, script_step,
    plan_step, plan_view, push_op, run_checked, run_plan, run_unchecked, run_with, run_with2,
    ActionStep, Check, CheckV, Fail, FailV, Op, OpV, StepV,
};
use crate::control::control_actions::{missing_param_text, ActionErr, ActionError, ControlAction};
use crate::control::control_common::ControlSessionParams;
use crate::control::control_connection::{replies_view, ActionReply, ReplyV};
use crate::params::{bool_or, param_text, str_of, str_or_int_of, ParamValue, Params};
use crate::control::file_modifier_helpers::{
    modify_sshd_config_file_contents, sshd_config_lines, ModifySshDConfigParams, SshDPermitRootLoginType,
};
use crate::control::terminal_helpers_linux::{file_mode_from_stat, stat_file_mode};
use crate::text::{
    chars_of, concat2, concat3, concat4, ends_with, ends_with_chars, join, lines_of, owned,
    parse_octal, parse_octal_chars, str_eq,
};

verus! {

/// Either the text of a required string parameter or the error for its
/// absence.
pub open spec fn required(params: Params, key: Seq<char>) -> Result<Seq<char>, ActionErr> {
    match str_of(params.get(key)) {
        Some(s) => Ok(s),
        None => Err(ActionErr::InvalidParams(missing_param_text(key))),
    }
}

fn required_exec(action: &ControlAction, key: &str) -> (r: Result<String, ActionError>)
    ensures
        match r {
            Ok(s) => required(action.params, key@) == Ok::<Seq<char>, ActionErr>(s@),
            Err(e) => required(action.params, key@) == Err::<Seq<char>, ActionErr>(e@),
        },
{
    action.get_required_string_param(key)
}

/// `chmod`, `chown` and `chgrp` commands for the `permissions`, `owner`
/// and `group` parameters that are given, each checked or not.
pub open spec fn ownership_ops(params: Params, path: Seq<char>, checked: bool) -> Seq<OpV> {
    let cs: Seq<CheckV> = if checked {
        seq![CheckV::ExitCode]
    } else {
        seq![]
    };
    (match str_or_int_of(params.get("permissions"@)) {
        Some(m) => seq![OpV::Run("chmod "@ + m + " "@ + path, cs)],
        None => seq![],
    }) + (match str_of(params.get("owner"@)) {
        Some(o) => seq![OpV::Run("chown "@ + o + " "@ + path, cs)],
        None => seq![],
    }) + (match str_of(params.get("group"@)) {
        Some(g) => seq![OpV::Run("chgrp "@ + g + " "@ + path, cs)],
        None => seq![],
    })
}

fn checked_or_not(command: String, checked: bool) -> (r: Op)
    ensures
        r@ == OpV::Run(command@, if checked {
            seq![CheckV::ExitCode]
        } else {
            seq![]
        }),
{
    if checked {
        run_checked(command)
    } else {
        run_unchecked(command)
    }
}

fn push_ownership_ops(ops: &mut Vec<Op>, params: &Params, path: &str, checked: bool)
    ensures
        crate::control::action_script::ops_view(final(ops)@) == crate::control::action_script::ops_view(old(ops)@)
            + ownership_ops(*params, path@, checked),
{
    let ghost start = crate::control::action_script::ops_view(ops@);
    let ghost mut expect: Seq<OpV> = seq![];
    if let Some(m) = params.get_string_or_int_value_as_string("permissions") {
        push_op(ops, checked_or_not(concat4("chmod ", m.as_str(), " ", path), checked));
    }
    if let Some(o) = params.get_string_value("owner") {
        push_op(ops, checked_or_not(concat4("chown ", o.as_str(), " ", path), checked));
    }
    if let Some(g) = params.get_string_value("group") {
        push_op(ops, checked_or_not(concat4("chgrp ", g.as_str(), " ", path), checked));
    }
    assert(crate::control::action_script::ops_view(ops@) =~= start + ownership_ops(*params, path@, checked));
}

// ---------------------------------------------------------------------
// genericCommand
// ---------------------------------------------------------------------

pub open spec fn generic_command_plan(params: Params) -> Result<Seq<OpV>, ActionErr> {
    match required(params, "command"@) {
        Err(e) => Err(e),
        Ok(c) => if c.len() == 0 {
            Ok(seq![])
        } else {
            Ok(seq![OpV::Run(c, (if bool_or(params.get("errorIfStdErrOutputExists"@), false) {
                seq![CheckV::Stderr(FailV::CommandWith("genericCommand action failed due to unexpected stderr output: "@))]
            } else {
                seq![]
            }) + (if bool_or(params.get("errorIfNone0ExitCode"@), false) {
                seq![CheckV::ExitCodeFail(FailV::Command("genericCommand action failed due to non-0 exit code."@))]
            } else {
                seq![]
            }))])
        },
    }
}

/// Runs the `command` parameter; optionally error output or a failure
/// exit code fails the action.
pub fn generic_command(p: &ControlSessionParams, action: &ControlAction, replies: &Vec<ActionReply>) -> (r: ActionStep)
    ensures
        r@ == plan_step(*p, action.action, generic_command_plan(action.params), replies_view(replies@)),
{
    let plan: Result<Vec<Op>, ActionError> = match required_exec(action, "command") {
        Err(e) => Err(e),
        Ok(c) => {
            let mut ops: Vec<Op> = Vec::new();
            if c.as_str().unicode_len() > 0 {
                let mut cs: Vec<Check> = Vec::new();
                if action.params.get_bool_or("errorIfStdErrOutputExists", false) {
                    cs.push(Check::Stderr(Fail::CommandWith(owned("genericCommand action failed due to unexpected stderr output: "))));
                }
                let ghost first = cs@;
                if action.params.get_bool_or("errorIfNone0ExitCode", false) {
                    cs.push(Check::ExitCodeFail(Fail::Command(owned("genericCommand action failed due to non-0 exit code."))));
                }
                let ghost want = generic_command_plan(action.params)->Ok_0[0]->Run_1;
                assert(crate::control::action_script::checks_view(cs@) =~= want);
                let op = Op::Run(c, cs);
                push_op(&mut ops, op);
            }
            Ok(ops)
        },
    };
    proof {
        match plan_view(plan) {
            Ok(ops) => {
                assert(ops =~= generic_command_plan(action.params)->Ok_0);
            },
            Err(_) => {},
        }
    }
    run_plan(p, action.action, plan, replies)
}

// ---------------------------------------------------------------------
// createDirectory
// ---------------------------------------------------------------------

pub open spec fn create_directory_plan(params: Params) -> Result<Seq<OpV>, ActionErr> {
    match required(params, "path"@) {
        Err(e) => Err(e),
        Ok(path) => {
            let mkdir = if bool_or(params.get("multiLevel"@), false) {
                "mkdir -p "@ + path
            } else {
                "mkdir "@ + path
            };
            Ok(seq![OpV::Run(mkdir, seq![CheckV::ExitCode])] + ownership_ops(params, path, true))
        },
    }
}

/// Makes a directory (with its parents when `multiLevel` is set), then
/// sets its permissions, owner and group when they are given; any failing
/// command fails the action.
pub fn create_directory(p: &ControlSessionParams, action: &ControlAction, replies: &Vec<ActionReply>) -> (r: ActionStep)
    ensures
        r@ == plan_step(*p, action.action, create_directory_plan(action.params), replies_view(replies@)),
{
    let plan: Result<Vec<Op>, ActionError> = match required_exec(action, "path") {
        Err(e) => Err(e),
        Ok(path) => {
            let mut ops: Vec<Op> = Vec::new();
            let mkdir = if action.params.get_bool_or("multiLevel", false) {
                concat2("mkdir -p ", path.as_str())
            } else {
                concat2("mkdir ", path.as_str())
            };
            push_op(&mut ops, run_checked(mkdir));
            push_ownership_ops(&mut ops, &action.params, path.as_str(), true);
            Ok(ops)
        },
    };
    proof {
        match plan_view(plan) {
            Ok(ops) => {
                assert(ops =~= create_directory_plan(action.params)->Ok_0);
            },
            Err(_) => {},
        }
    }
    run_plan(p, action.action, plan, replies)
}

// ---------------------------------------------------------------------
// removeDirectory, removeFile
// ---------------------------------------------------------------------

pub open spec fn remove_directory_plan(params: Params) -> Result<Seq<OpV>, ActionErr> {
    match required(params, "path"@) {
        Err(e) => Err(e),
        Ok(path) => {
            let command = if bool_or(params.get("recursive"@), true) {
                "rm -rf "@ + path
            } else {
                "rmdir "@ + path
            };
            Ok(seq![OpV::Run(command, if bool_or(params.get("ignoreFailure"@), false) {
                seq![]
            } else {
                seq![CheckV::ExitCode]
            })])
        },
    }
}

/// Removes a directory (with its contents unless `recursive` is false);
/// a failure exit code fails the action unless `ignoreFailure` is set.
pub fn remove_directory(p: &ControlSessionParams, action: &ControlAction, replies: &Vec<ActionReply>) -> (r: ActionStep)
    ensures
        r@ == plan_step(*p, action.action, remove_directory_plan(action.params), replies_view(replies@)),
{
    let plan: Result<Vec<Op>, ActionError> = match required_exec(action, "path") {
        Err(e) => Err(e),
        Ok(path) => {
            let mut ops: Vec<Op> = Vec::new();
            let command = if action.params.get_bool_or("recursive", true) {
                concat2("rm -rf ", path.as_str())
            } else {
                concat2("rmdir ", path.as_str())
            };
            let ignore = action.params.get_bool_or("ignoreFailure", false);
            push_op(&mut ops, checked_or_not(command, !ignore));
            Ok(ops)
        },
    };
    proof {
        match plan_view(plan) {
            Ok(ops) => {
                assert(ops =~= remove_directory_plan(action.params)->Ok_0);
            },
            Err(_) => {},
        }
    }
    run_plan(p, action.action, plan, replies)
}

pub open spec fn remove_file_plan(params: Params) -> Result<Seq<OpV>, ActionErr> {
    match required(params, "path"@) {
        Err(e) => Err(e),
        Ok(path) => Ok(seq![OpV::Run("rm "@ + path, if bool_or(params.get("ignoreFailure"@), false) {
            seq![]
        } else {
            seq![CheckV::ExitCode]
        })]),
    }
}

/// Removes a file; a failure exit code fails the action unless
/// `ignoreFailure` is set.
pub fn remove_file(p: &ControlSessionParams, action: &ControlAction, replies: &Vec<ActionReply>) -> (r: ActionStep)
    ensures
        r@ == plan_step(*p, action.action, remove_file_plan(action.params), replies_view(replies@)),
{
    let plan: Result<Vec<Op>, ActionError> = match required_exec(action, "path") {
        Err(e) => Err(e),
        Ok(path) => {
            let mut ops: Vec<Op> = Vec::new();
            let ignore = action.params.get_bool_or("ignoreFailure", false);
            push_op(&mut ops, checked_or_not(concat2("rm ", path.as_str()), !ignore));
            Ok(ops)
        },
    };
    proof {
        match plan_view(plan) {
            Ok(ops) => {
                assert(ops =~= remove_file_plan(action.params)->Ok_0);
            },
            Err(_) => {},
        }
    }
    run_plan(p, action.action, plan, replies)
}

// ---------------------------------------------------------------------
// copyPath, createSymlink
// ---------------------------------------------------------------------

/// The option flags of `cp`: `-R` for a recursive copy, `-u` to copy only
/// newer files.
pub open spec fn cp_flags(recursive: bool, update: bool) -> Seq<char> {
    if recursive && update {
        "-R -u"@
    } else if recursive {
        "-R"@
    } else if update {
        "-u"@
    } else {
        ""@
    }
}

pub open spec fn copy_path_plan(params: Params) -> Result<Seq<OpV>, ActionErr> {
    match required(params, "sourcePath"@) {
        Err(e) => Err(e),
        Ok(src) => match required(params, "destPath"@) {
            Err(e) => Err(e),
            Ok(dst) => Ok(seq![OpV::Run(
                "cp "@ + cp_flags(bool_or(params.get("recursive"@), false), bool_or(params.get("update"@), false))
                    + " "@ + src + " "@ + dst,
                seq![CheckV::ExitCode],
            )]),
        },
    }
}

/// Copies a path on the host; a failure exit code fails the action.
pub fn copy_path(p: &ControlSessionParams, action: &ControlAction, replies: &Vec<ActionReply>) -> (r: ActionStep)
    ensures
        r@ == plan_step(*p, action.action, copy_path_plan(action.params), replies_view(replies@)),
{
    let plan: Result<Vec<Op>, ActionError> = match required_exec(action, "sourcePath") {
        Err(e) => Err(e),
        Ok(src) => match required_exec(action, "destPath") {
            Err(e) => Err(e),
            Ok(dst) => {
                let recursive = action.params.get_bool_or("recursive", false);
                let update = action.params.get_bool_or("update", false);
                let flags = if recursive && update {
                    owned("-R -u")
                } else if recursive {
                    owned("-R")
                } else if update {
                    owned("-u")
                } else {
                    owned("")
                };
                let head = concat4("cp ", flags.as_str(), " ", src.as_str());
                let mut ops: Vec<Op> = Vec::new();
                push_op(&mut ops, run_checked(concat3(head.as_str(), " ", dst.as_str())));
                Ok(ops)
            },
        },
    };
    proof {
        match plan_view(plan) {
            Ok(ops) => {
                assert(ops =~= copy_path_plan(action.params)->Ok_0);
            },
            Err(_) => {},
        }
    }
    run_plan(p, action.action, plan, replies)
}

pub open spec fn create_symlink_plan(params: Params) -> Result<Seq<OpV>, ActionErr> {
    match required(params, "targetPath"@) {
        Err(e) => Err(e),
        Ok(target) => match required(params, "linkPath"@) {
            Err(e) => Err(e),
            Ok(link) => Ok(seq![OpV::Run("ln -s "@ + target + " "@ + link, seq![CheckV::ExitCode])]),
        },
    }
}

/// Makes a symbolic link; a failure exit code fails the action.
pub fn create_symlink(p: &ControlSessionParams, action: &ControlAction, replies: &Vec<ActionReply>) -> (r: ActionStep)
    ensures
        r@ == plan_step(*p, action.action, create_symlink_plan(action.params), replies_view(replies@)),
{
    let plan: Result<Vec<Op>, ActionError> = match required_exec(action, "targetPath") {
        Err(e) => Err(e),
        Ok(target) => match required_exec(action, "linkPath") {
            Err(e) => Err(e),
            Ok(link) => {
                let mut ops: Vec<Op> = Vec::new();
                push_op(&mut ops, run_checked(concat4("ln -s ", target.as_str(), " ", link.as_str())));
                Ok(ops)
            },
        },
    };
    proof {
        match plan_view(plan) {
            Ok(ops) => {
                assert(ops =~= create_symlink_plan(action.params)->Ok_0);
            },
            Err(_) => {},
        }
    }
    run_plan(p, action.action, plan, replies)
}

// ---------------------------------------------------------------------
// downloadFile, transmitFile, receiveFile
// ---------------------------------------------------------------------

/// The command that unpacks an archive into a directory: `unzip` for a
/// `.zip` file, `tar` otherwise.
pub open spec fn extract_command(archive: Seq<char>, dir: Seq<char>) -> Seq<char> {
    if ends_with(archive, ".zip"@) {
        "unzip "@ + archive + " -d "@ + dir
    } else {
        "tar -xf "@ + archive + " -C "@ + dir
    }
}

/// When a non-empty `extractDir` is given: a test that the directory
/// exists (it fails the action when it does not), then the unpacking, with
/// the given checks.
pub open spec fn extract_ops(params: Params, archive: Seq<char>, checks: Seq<CheckV>) -> Seq<OpV> {
    match str_of(params.get("extractDir"@)) {
        Some(d) => if d.len() > 0 {
            seq![
                OpV::Run(
                    "test -d "@ + d + " && echo \"yep\""@,
                    seq![CheckV::StdoutEmpty(FailV::Other("The 'extractDir' parameter directory: '"@ + d + "' does not exist."@))],
                ),
                OpV::Run(extract_command(archive, d), checks),
            ]
        } else {
            seq![]
        },
        None => seq![],
    }
}

fn push_extract_ops(ops: &mut Vec<Op>, params: &Params, archive: &str, checked: bool)
    ensures
        crate::control::action_script::ops_view(final(ops)@) == crate::control::action_script::ops_view(old(ops)@)
            + extract_ops(*params, archive@, if checked {
                transmit_extract_checks()
            } else {
                seq![]
            }),
{
    let ghost start = crate::control::action_script::ops_view(ops@);
    if let Some(d) = params.get_string_value("extractDir") {
        if d.as_str().unicode_len() > 0 {
            let test = concat3("test -d ", d.as_str(), " && echo \"yep\"");
            let msg = concat3("The 'extractDir' parameter directory: '", d.as_str(), "' does not exist.");
            push_op(ops, run_with(test, Check::StdoutEmpty(Fail::Other(msg))));
            let a = chars_of(archive);
            let zip = chars_of(".zip");
            let command = if ends_with_chars(a.as_slice(), zip.as_slice()) {
                concat4("unzip ", archive, " -d ", d.as_str())
            } else {
                concat4("tar -xf ", archive, " -C ", d.as_str())
            };
            let op = if checked {
                run_with2(
                    command,
                    Check::Stderr(Fail::CommandWith(owned("Failed to extract file: Err: "))),
                    Check::ExitCodeFail(Fail::Command(owned("Failed to extract file, extraction command returned a non-0 exit code."))),
                )
            } else {
                run_unchecked(command)
            };
            push_op(ops, op);
        }
    }
    assert(crate::control::action_script::ops_view(ops@) =~= start + extract_ops(*params, archive@, if checked {
        transmit_extract_checks()
    } else {
        seq![]
    }));
}

pub open spec fn download_file_plan(params: Params) -> Result<Seq<OpV>, ActionErr> {
    match required(params, "sourceURL"@) {
        Err(e) => Err(e),
        Ok(src) => match required(params, "destPath"@) {
            Err(e) => Err(e),
            Ok(dst) => Ok(
                seq![OpV::Run("wget "@ + src + " -O "@ + dst, seq![])] + ownership_ops(params, dst, false)
                    + extract_ops(params, dst, seq![]),
            ),
        },
    }
}

/// Downloads a URL to a path with `wget`, sets permissions, owner and
/// group when given, and unpacks the file into `extractDir` when given.
/// Only a missing `extractDir` directory fails the action.
pub fn download_file(p: &ControlSessionParams, action: &ControlAction, replies: &Vec<ActionReply>) -> (r: ActionStep)
    ensures
        r@ == plan_step(*p, action.action, download_file_plan(action.params), replies_view(replies@)),
{
    let plan: Result<Vec<Op>, ActionError> = match required_exec(action, "sourceURL") {
        Err(e) => Err(e),
        Ok(src) => match required_exec(action, "destPath") {
            Err(e) => Err(e),
            Ok(dst) => {
                let mut ops: Vec<Op> = Vec::new();
                push_op(&mut ops, run_unchecked(concat4("wget ", src.as_str(), " -O ", dst.as_str())));
                push_ownership_ops(&mut ops, &action.params, dst.as_str(), false);
                push_extract_ops(&mut ops, &action.params, dst.as_str(), false);
                Ok(ops)
            },
        },
    };
    proof {
        match plan_view(plan) {
            Ok(ops) => {
                assert(ops =~= download_file_plan(action.params)->Ok_0);
            },
            Err(_) => {},
        }
    }
    run_plan(p, action.action, plan, replies)
}

/// The checks on unpacking a transmitted archive: error output fails, then
/// a failure exit code fails.
pub open spec fn transmit_extract_checks() -> Seq<CheckV> {
    seq![
        CheckV::Stderr(FailV::CommandWith("Failed to extract file: Err: "@)),
        CheckV::ExitCodeFail(FailV::Command("Failed to extract file, extraction command returned a non-0 exit code."@)),
    ]
}

/// The permissions a file is sent with: octal `644` by default, else the
/// octal value of the given text, or none when it is not an octal number.
pub open spec fn file_mode(m: Option<Seq<char>>) -> Option<i32> {
    match m {
        None => Some(0o644),
        Some(t) => parse_octal(t),
    }
}

pub open spec fn bad_mode_text(m: Seq<char>) -> Seq<char> {
    "the 'permissions' parameter is not an octal number: "@ + m
}

pub open spec fn transmit_ops(params: Params, src: Seq<char>, dst: Seq<char>, mode: i32) -> Seq<OpV> {
    seq![OpV::SendFile(src, dst, mode, FailV::Other("Failed to send file to host"@))] + (match str_of(
        params.get("owner"@),
    ) {
        Some(o) => seq![OpV::Run("chown "@ + o + " "@ + dst, seq![])],
        None => seq![],
    }) + (match str_of(params.get("group"@)) {
        Some(g) => seq![OpV::Run("chgrp "@ + g + " "@ + dst, seq![])],
        None => seq![],
    }) + extract_ops(params, dst, transmit_extract_checks())
}

pub open spec fn transmit_file_step(p: ControlSessionParams, action: ControlAction, replies: Seq<crate::control::control_connection::ReplyV>) -> StepV {
    match required(action.params, "localSourcePath"@) {
        Err(e) => StepV::Finished(Err(e)),
        Ok(src) => match required(action.params, "remoteDestPath"@) {
            Err(e) => StepV::Finished(Err(e)),
            Ok(dst) => match file_mode(str_or_int_of(action.params.get("permissions"@))) {
                None => StepV::Abort(bad_mode_text(str_or_int_of(action.params.get("permissions"@))->Some_0)),
                Some(mode) => crate::control::action_script::script_step(
                    p,
                    action.action,
                    transmit_ops(action.params, src, dst, mode),
                    0,
                    replies,
                ),
            },
        },
    }
}

/// Sends a local file to the host with the given permissions (octal, `644`
/// by default), sets owner and group when given, and unpacks it into
/// `extractDir` when given; a failed transfer or a failed unpacking fails
/// the action. Permissions that are not an octal number end the run.
pub fn transmit_file(p: &ControlSessionParams, action: &ControlAction, replies: &Vec<ActionReply>) -> (r: ActionStep)
    ensures
        r@ == transmit_file_step(*p, *action, replies_view(replies@)),
{
    let src = match required_exec(action, "localSourcePath") {
        Err(e) => {
            return ActionStep::Finished(Err(e));
        },
        Ok(s) => s,
    };
    let dst = match required_exec(action, "remoteDestPath") {
        Err(e) => {
            return ActionStep::Finished(Err(e));
        },
        Ok(d) => d,
    };
    let mode: i32 = match action.params.get_string_or_int_value_as_string("permissions") {
        None => 0o644,
        Some(m) => {
            let mc = chars_of(m.as_str());
            match parse_octal_chars(mc.as_slice()) {
                Some(v) => v,
                None => {
                    return ActionStep::Abort(concat2("the 'permissions' parameter is not an octal number: ", m.as_str()));
                },
            }
        },
    };
    let mut ops: Vec<Op> = Vec::new();
    push_op(&mut ops, Op::SendFile(src, owned(dst.as_str()), mode, Fail::Other(owned("Failed to send file to host"))));
    if let Some(o) = action.params.get_string_value("owner") {
        push_op(&mut ops, run_unchecked(concat4("chown ", o.as_str(), " ", dst.as_str())));
    }
    if let Some(g) = action.params.get_string_value("group") {
        push_op(&mut ops, run_unchecked(concat4("chgrp ", g.as_str(), " ", dst.as_str())));
    }
    push_extract_ops(&mut ops, &action.params, dst.as_str(), true);
    proof {
        let want = transmit_ops(action.params, required(action.params, "localSourcePath"@)->Ok_0, dst@, mode);
        assert(crate::control::action_script::ops_view(ops@) =~= want);
    }
    crate::control::action_script::finish_script(p, action.action, &ops, replies, 0)
}

pub open spec fn receive_file_plan(params: Params) -> Result<Seq<OpV>, ActionErr> {
    match required(params, "remoteSourcePath"@) {
        Err(e) => Err(e),
        Ok(src) => match required(params, "localDestPath"@) {
            Err(e) => Err(e),
            Ok(dst) => Ok(seq![OpV::Receive(src, dst, FailV::Other("Failed to receive file from host"@))]),
        },
    }
}

/// Copies a file of the host to a local path; a failed transfer fails the
/// action.
pub fn receive_file(p: &ControlSessionParams, action: &ControlAction, replies: &Vec<ActionReply>) -> (r: ActionStep)
    ensures
        r@ == plan_step(*p, action.action, receive_file_plan(action.params), replies_view(replies@)),
{
    let plan: Result<Vec<Op>, ActionError> = match required_exec(action, "remoteSourcePath") {
        Err(e) => Err(e),
        Ok(src) => match required_exec(action, "localDestPath") {
            Err(e) => Err(e),
            Ok(dst) => {
                let mut ops: Vec<Op> = Vec::new();
                push_op(&mut ops, Op::Receive(src, dst, Fail::Other(owned("Failed to receive file from host"))));
                Ok(ops)
            },
        },
    };
    proof {
        match plan_view(plan) {
            Ok(ops) => {
                assert(ops =~= receive_file_plan(action.params)->Ok_0);
            },
            Err(_) => {},
        }
    }
    run_plan(p, action.action, plan, replies)
}

// ---------------------------------------------------------------------
// createFile
// ---------------------------------------------------------------------

pub open spec fn create_file_plan(params: Params) -> Result<Seq<OpV>, ActionErr> {
    match required(params, "path"@) {
        Err(e) => Err(e),
        Ok(path) => Ok(
            (match str_of(params.get("content"@)) {
                Some(c) => seq![OpV::SendText(path, 0o644, c, FailV::Other("Failed to send text file contents to create file."@))],
                None => seq![OpV::Run("touch "@ + path, seq![CheckV::Stderr(FailV::OtherWith("Failed to create file: Err: "@))])],
            }) + ownership_ops(params, path, false),
        ),
    }
}

/// Writes a file with the `content` parameter (permissions `644`), or an
/// empty file with `touch` when there is none, then sets permissions,
/// owner and group when given. A failed write, or error output from
/// `touch`, fails the action.
pub fn create_file(p: &ControlSessionParams, action: &ControlAction, replies: &Vec<ActionReply>) -> (r: ActionStep)
    ensures
        r@ == plan_step(*p, action.action, create_file_plan(action.params), replies_view(replies@)),
{
    let plan: Result<Vec<Op>, ActionError> = match required_exec(action, "path") {
        Err(e) => Err(e),
        Ok(path) => {
            let mut ops: Vec<Op> = Vec::new();
            match action.params.get_string_value("content") {
                Some(c) => {
                    push_op(
                        &mut ops,
                        Op::SendText(owned(path.as_str()), 0o644, c, Fail::Other(owned("Failed to send text file contents to create file."))),
                    );
                },
                None => {
                    push_op(
                        &mut ops,
                        run_with(concat2("touch ", path.as_str()), Check::Stderr(Fail::OtherWith(owned("Failed to create file: Err: ")))),
                    );
                },
            }
            push_ownership_ops(&mut ops, &action.params, path.as_str(), false);
            Ok(ops)
        },
    };
    proof {
        match plan_view(plan) {
            Ok(ops) => {
                assert(ops =~= create_file_plan(action.params)->Ok_0);
            },
            Err(_) => {},
        }
    }
    run_plan(p, action.action, plan, replies)
}

// ---------------------------------------------------------------------
// configureSSH
// ---------------------------------------------------------------------

/// The `permitRootLogin` setting a parameter value asks for: a flag for
/// yes or no, or the text `prohibit-password`.
pub open spec fn root_login_of(v: ParamValue) -> Option<SshDPermitRootLoginType> {
    match v {
        ParamValue::Bool(true) => Some(SshDPermitRootLoginType::Yes),
        ParamValue::Bool(false) => Some(SshDPermitRootLoginType::No),
        ParamValue::Str(s) => if s@ == "prohibit-password"@ {
            Some(SshDPermitRootLoginType::ProhibitPassword)
        } else {
            None
        },
        _ => None,
    }
}

pub open spec fn flag_of(v: Option<ParamValue>) -> Option<bool> {
    match v {
        Some(ParamValue::Bool(b)) => Some(b),
        _ => None,
    }
}

/// The sshd settings the parameters ask for, checked in the order the
/// parameters are read.
pub open spec fn sshd_settings(params: Params) -> Result<ModifySshDConfigParams, ActionErr> {
    let root: Result<Option<SshDPermitRootLoginType>, ActionErr> = match params.get("permitRootLogin"@) {
        None => Ok(None),
        Some(v) => match root_login_of(v) {
            Some(t) => Ok(Some(t)),
            None => Err(ActionErr::InvalidParams(
                "Unrecognised value '"@ + param_text(v) + "' for 'permitRootLogin' param of configureSSH action."@,
            )),
        },
    };
    let port: Result<Option<u16>, ActionErr> = match params.get("port"@) {
        Some(ParamValue::Int(n)) => if 0 < n <= 65535 {
            Ok(Some(n as u16))
        } else {
            Err(ActionErr::InvalidParams("Couldn't parse 'port' param correctly for configureSSH action."@))
        },
        _ => Ok(None),
    };
    match root {
        Err(e) => Err(e),
        Ok(r) => match port {
            Err(e) => Err(e),
            Ok(pn) => {
                let m = ModifySshDConfigParams {
                    password_authentication: flag_of(params.get("passwordAuthentication"@)),
                    permit_empty_passwords: flag_of(params.get("permitEmptyPasswords"@)),
                    permit_root_login: r,
                    port: pn,
                    pub_key_authentication: flag_of(params.get("pubKeyAuthentication"@)),
                };
                if m.spec_any_set() {
                    Ok(m)
                } else {
                    Err(ActionErr::InvalidParams(
                        "No valid parameters were set for this configureSSH control action, so it will not do anything."@,
                    ))
                }
            },
        },
    }
}

/// The sshd configuration text after the settings.
pub open spec fn sshd_text(contents: Seq<char>, m: ModifySshDConfigParams) -> Seq<char> {
    join(sshd_config_lines(lines_of(contents), m), seq!['\n']) + seq!['\n']
}

pub open spec fn sshd_read_ops(params: Params) -> Seq<OpV> {
    seq![OpV::Run("stat /etc/ssh/sshd_config"@, seq![CheckV::Stderr(FailV::OtherWith("Error accessing remote file path: "@))])]
        + (if bool_or(params.get("backup"@), false) {
        seq![OpV::Run(
            "cp /etc/ssh/sshd_config /etc/ssh/sshd_config.bak"@,
            seq![CheckV::Stderr(FailV::OtherWith("Error making backup copy of remote file path: "@))],
        )]
    } else {
        seq![]
    }) + seq![OpV::Fetch("/etc/ssh/sshd_config"@)]
}

pub open spec fn sshd_write_ops(params: Params, mode: i32, contents: Seq<char>) -> Seq<OpV> {
    seq![OpV::SendText(
        "/etc/ssh/sshd_config"@,
        mode,
        contents,
        FailV::OtherWith("Failed to send new sshd_conf file contents back to host: "@),
    )] + (if bool_or(params.get("restartService"@), true) {
        seq![OpV::Run("systemctl restart sshd"@, seq![CheckV::ExitCode])]
    } else {
        seq![]
    })
}

/// Reads `/etc/ssh/sshd_config` (after `stat`, and a backup copy when
/// `backup` is set), writes it back with the settings changed, keeping the
/// permissions that the output of the command before the read reports,
/// and restarts sshd unless `restartService` is false.
pub open spec fn configure_ssh_step(p: ControlSessionParams, action: ControlAction, rs: Seq<ReplyV>) -> StepV {
    match sshd_settings(action.params) {
        Err(e) => StepV::Finished(Err(e)),
        Ok(m) => match script_outcome(p, action.action, sshd_read_ops(action.params), 0, rs) {
            OutcomeV::Completed(k) => {
                let contents = text_at(rs, k - 1);
                if contents.len() == 0 {
                    StepV::Finished(Err(ActionErr::FailedOther(seq![])))
                } else {
                    match stat_file_mode(stdout_at(rs, k - 2)) {
                        Err(msg) => StepV::Abort(msg),
                        Ok(mode) => script_step(p, action.action, sshd_write_ops(action.params, mode, sshd_text(contents, m)), k, rs),
                    }
                }
            },
            o => outcome_step(o),
        },
    }
}

fn sshd_settings_exec(params: &Params) -> (r: Result<ModifySshDConfigParams, ActionError>)
    ensures
        match r {
            Ok(m) => sshd_settings(*params) == Ok::<ModifySshDConfigParams, ActionErr>(m),
            Err(e) => sshd_settings(*params) == Err::<ModifySshDConfigParams, ActionErr>(e@),
        },
{
    let mut m = ModifySshDConfigParams::new();
    m.password_authentication = params.get_value_as_bool("passwordAuthentication");
    m.permit_empty_passwords = params.get_value_as_bool("permitEmptyPasswords");
    if let Some(v) = params.get_raw_value("permitRootLogin") {
        let choice = match v {
            ParamValue::Bool(true) => Some(SshDPermitRootLoginType::Yes),
            ParamValue::Bool(false) => Some(SshDPermitRootLoginType::No),
            ParamValue::Str(s) => if str_eq(s.as_str(), "prohibit-password") {
                Some(SshDPermitRootLoginType::ProhibitPassword)
            } else {
                None
            },
            _ => None,
        };
        match choice {
            None => {
                let t = v.to_text();
                return Err(ActionError::InvalidParams(concat3(
                    "Unrecognised value '",
                    t.as_str(),
                    "' for 'permitRootLogin' param of configureSSH action.",
                )));
            },
            Some(c) => {
                m.permit_root_login = Some(c);
            },
        }
    }
    if let Some(n) = params.get_value_as_int("port") {
        if n > 0 && n <= 65535 {
            m.port = Some(n as u16);
        } else {
            return Err(ActionError::InvalidParams(owned("Couldn't parse 'port' param correctly for configureSSH action.")));
        }
    }
    m.pub_key_authentication = params.get_value_as_bool("pubKeyAuthentication");
    if !m.any_set() {
        return Err(ActionError::InvalidParams(owned(
            "No valid parameters were set for this configureSSH control action, so it will not do anything.",
        )));
    }
    Ok(m)
}

/// Changes sshd settings on the host.
pub fn configure_ssh(p: &ControlSessionParams, action: &ControlAction, replies: &Vec<ActionReply>) -> (r: ActionStep)
    ensures
        r@ == configure_ssh_step(*p, *action, replies_view(replies@)),
{
    let m = match sshd_settings_exec(&action.params) {
        Err(e) => {
            return ActionStep::Finished(Err(e));
        },
        Ok(m) => m,
    };
    let mut read: Vec<Op> = Vec::new();
    push_op(&mut read, run_with(owned("stat /etc/ssh/sshd_config"), Check::Stderr(Fail::OtherWith(owned("Error accessing remote file path: ")))));
    if action.params.get_bool_or("backup", false) {
        push_op(
            &mut read,
            run_with(
                owned("cp /etc/ssh/sshd_config /etc/ssh/sshd_config.bak"),
                Check::Stderr(Fail::OtherWith(owned("Error making backup copy of remote file path: "))),
            ),
        );
    }
    push_op(&mut read, Op::Fetch(owned("/etc/ssh/sshd_config")));
    assert(ops_view(read@) =~= sshd_read_ops(action.params));
    let k = match run_script(p, action.action, &read, replies, 0) {
        ScriptOutcome::Completed(k) => k,
        o => {
            return to_step(o);
        },
    };
    let contents = if k >= 1 {
        text_at_exec(replies, k - 1)
    } else {
        String::new()
    };
    if contents.as_str().unicode_len() == 0 {
        proof {
            reveal_strlit("");
        }
        return ActionStep::Finished(Err(ActionError::FailedOther(String::new())));
    }
    let stat_out = if k >= 2 {
        stdout_at_exec(replies, k - 2)
    } else {
        String::new()
    };
    let mode = match file_mode_from_stat(stat_out.as_str()) {
        Err(msg) => {
            return ActionStep::Abort(msg);
        },
        Ok(mode) => mode,
    };
    let new_contents = match modify_sshd_config_file_contents(contents.as_str(), &m) {
        Some(t) => t,
        None => {
            return ActionStep::Abort(owned("the sshd configuration could not be changed"));
        },
    };
    let mut write: Vec<Op> = Vec::new();
    push_op(
        &mut write,
        Op::SendText(
            owned("/etc/ssh/sshd_config"),
            mode,
            new_contents,
            Fail::OtherWith(owned("Failed to send new sshd_conf file contents back to host: ")),
        ),
    );
    if action.params.get_bool_or("restartService", true) {
        push_op(&mut write, run_checked(owned("systemctl restart sshd")));
    }
    assert(ops_view(write@) =~= sshd_write_ops(action.params, mode, sshd_text(contents@, m)));
    finish_script(p, action.action, &write, replies, k)
}

} // verus!
