//! The action provider for Debian hosts: packages through `apt-get`, the
//! rest through the common Linux and Unix actions.
use vstd::prelude::*;
use crate::control::action_script::{
    finish_script, ops_view, outcome_step, push_op, run_checked, run_script, run_unchecked,
    run_with, script_outcome, script_step, stdout_at, stdout_at_exec, to_step, ActionStep, Check,
    CheckV, Fail, FailV, Op, OpV, OutcomeV, ScriptOutcome, StepV,
};
use crate::control::common_actions_linux::{self, first_word, SystemDetailsStep};
use crate::control::common_actions_unix::{self, required};
use crate::control::common_actions_unix_edit_file;
use crate::control::control_actions::{ActionErr, ActionError, ActionProvider, ControlAction};
use crate::control::control_common::ControlSessionParams;
use crate::control::control_connection::{replies_view, ActionReply, ReplyV};
use crate::control::terminal_helpers_linux::{
    extract_details_from_stat_output, stat_details, stat_output_is_readable, stat_output_ok,
};
use crate::params::{bool_or, list_strings_of, str_of, strings_view, Params};
use crate::text::{
    chars_of, chars_eq, concat2, concat3, concat4, concat5, join, join_strings, lines_of, owned,
    slice_chars, split_lines, starts_with, starts_with_chars, str_eq, trim_start,
    trim_start_chars,
};

verus! {

/// Controls Debian hosts.
pub struct AProviderLinuxDebian {
    pub session_params: ControlSessionParams,
}

impl AProviderLinuxDebian {
    pub fn new(session_params: ControlSessionParams) -> (r: AProviderLinuxDebian)
        ensures
            r.session_params == session_params,
    {
        AProviderLinuxDebian { session_params }
    }

    /// The provider's name in control scripts.
    pub fn name() -> (r: String)
        ensures
            r@ == "linux_debian"@,
    {
        owned("linux_debian")
    }
}

/// How packages are installed with `apt-get`.
pub struct AptGetInstallParams {
    pub wait_for_pm_to_finish: bool,
    pub update_packages_list: bool,
    pub packages_to_install: Vec<String>,
}

impl AptGetInstallParams {
    pub fn new(wait_for_pm_to_finish: bool, update_packages_list: bool) -> (r: AptGetInstallParams)
        ensures
            r.wait_for_pm_to_finish == wait_for_pm_to_finish,
            r.update_packages_list == update_packages_list,
            r.packages_to_install@.len() == 0,
    {
        AptGetInstallParams { wait_for_pm_to_finish, update_packages_list, packages_to_install: Vec::new() }
    }

    /// The same settings with more packages to install, after those
    /// already listed.
    pub fn add_packages(self, packages: Vec<String>) -> (r: Self)
        ensures
            r.wait_for_pm_to_finish == self.wait_for_pm_to_finish,
            r.update_packages_list == self.update_packages_list,
            strings_view(r.packages_to_install@) == strings_view(self.packages_to_install@) + strings_view(packages@),
    {
        let mut s = self;
        let mut more = packages;
        let ghost a = strings_view(s.packages_to_install@);
        let ghost b = strings_view(more@);
        s.packages_to_install.append(&mut more);
        assert(strings_view(s.packages_to_install@) =~= a + b);
        s
    }
}

/// The `apt-get` install script: wait while another `apt-get` runs (when
/// asked), update the package lists (when asked), then install; a failure
/// exit code of the install fails the action.
pub open spec fn apt_install_ops(wait: bool, update: bool, packages: Seq<Seq<char>>) -> Seq<OpV> {
    let command = "export DEBIAN_FRONTEND=noninteractive; apt-get -y install "@ + join(packages, " "@);
    (if wait {
        seq![OpV::WaitWhileBusy("pidof apt-get"@)]
    } else {
        seq![]
    }) + (if update {
        seq![OpV::Run("apt-get -y update"@, seq![])]
    } else {
        seq![]
    }) + seq![OpV::Run(command, seq![CheckV::ExitCodeFail(FailV::Command(
        "Unexpected error exit code after running command: '"@ + command + "' trying to install Debian packages."@,
    ))])]
}

fn apt_install_script(params: &AptGetInstallParams) -> (r: Vec<Op>)
    ensures
        ops_view(r@) == apt_install_ops(params.wait_for_pm_to_finish, params.update_packages_list, strings_view(params.packages_to_install@)),
{
    let mut ops: Vec<Op> = Vec::new();
    if params.wait_for_pm_to_finish {
        push_op(&mut ops, Op::WaitWhileBusy(owned("pidof apt-get")));
    }
    if params.update_packages_list {
        push_op(&mut ops, run_unchecked(owned("apt-get -y update")));
    }
    let joined = join_strings(&params.packages_to_install, " ");
    let command = concat2("export DEBIAN_FRONTEND=noninteractive; apt-get -y install ", joined.as_str());
    let msg = concat3("Unexpected error exit code after running command: '", command.as_str(), "' trying to install Debian packages.");
    push_op(&mut ops, run_with(command, Check::ExitCodeFail(Fail::Command(msg))));
    assert(ops_view(ops@) =~= apt_install_ops(
        params.wait_for_pm_to_finish,
        params.update_packages_list,
        strings_view(params.packages_to_install@),
    ));
    ops
}

/// The packages an action names: its `package`, or its `packages` list.
pub open spec fn named_packages(params: Params) -> Result<Seq<Seq<char>>, ActionErr> {
    match str_of(params.get("package"@)) {
        Some(p) => Ok(seq![p]),
        None => if params.get("packages"@) is Some {
            Ok(list_strings_of(params.get("packages"@)))
        } else {
            Err(ActionErr::InvalidParams("No 'package' string parameter or 'packages' string array parameter were specified."@))
        },
    }
}

fn named_packages_exec(params: &Params) -> (r: Result<Vec<String>, ActionError>)
    ensures
        match r {
            Ok(v) => named_packages(*params) == Ok::<Seq<Seq<char>>, ActionErr>(strings_view(v@)),
            Err(e) => named_packages(*params) == Err::<Seq<Seq<char>>, ActionErr>(e@),
        },
{
    match params.get_string_value("package") {
        Some(p) => {
            let mut v: Vec<String> = Vec::new();
            v.push(p);
            assert(strings_view(v@) =~= seq![v@[0]@]);
            Ok(v)
        },
        None => if params.has_value("packages") {
            Ok(params.get_values_as_vec_of_strings("packages"))
        } else {
            Err(ActionError::InvalidParams(owned("No 'package' string parameter or 'packages' string array parameter were specified.")))
        },
    }
}

pub open spec fn install_packages_plan(params: Params) -> Result<Seq<OpV>, ActionErr> {
    match named_packages(params) {
        Err(e) => Err(e),
        Ok(ps) => if ps.len() == 0 {
            Err(ActionErr::InvalidParams("The resulting 'packages' list was empty."@))
        } else {
            Ok(apt_install_ops(bool_or(params.get("waitForPMToFinish"@), true), bool_or(params.get("update"@), true), ps))
        },
    }
}

pub open spec fn remove_packages_plan(params: Params) -> Result<Seq<OpV>, ActionErr> {
    match named_packages(params) {
        Err(e) => Err(e),
        Ok(ps) => {
            let list = join(ps, " "@);
            if list.len() == 0 {
                Err(ActionErr::InvalidParams("The resulting 'packages' string list was empty."@))
            } else {
                Ok((if bool_or(params.get("waitForPMToFinish"@), true) {
                    seq![OpV::WaitWhileBusy("pidof apt-get"@)]
                } else {
                    seq![]
                }) + seq![OpV::Run(
                    "export DEBIAN_FRONTEND=noninteractive; apt-get -y remove "@ + list,
                    if bool_or(params.get("ignoreFailure"@), false) {
                        seq![]
                    } else {
                        seq![CheckV::ExitCode]
                    },
                )])
            }
        },
    }
}

/// The packages installed before a repository is added by URL.
pub open spec fn repo_prerequisites() -> Seq<Seq<char>> {
    seq!["gpg"@, "debian-keyring"@, "debian-archive-keyring"@, "apt-transport-https"@, "curl"@]
}

/// A line of `stat` output that reports a size of zero bytes.
pub open spec fn zero_size_line(line: Seq<char>) -> bool {
    let t = trim_start(line);
    starts_with(t, "Size:"@) && first_word(t.skip(5)) == Some(seq!['0'])
}

pub open spec fn stat_reports_empty(output: Seq<char>) -> bool {
    exists|i: int| 0 <= i < lines_of(output).len() && zero_size_line(#[trigger] lines_of(output)[i])
}

pub open spec fn repo_key_command(params: Params, key_url: Seq<char>, prefix: Seq<char>) -> Seq<char> {
    "curl -1sLf '"@ + key_url + "' | gpg "@ + (if bool_or(params.get("failOnExistingKeyFile"@), false) {
        ""@
    } else {
        "--yes "@
    }) + "--dearmor -o /usr/share/keyrings/"@ + prefix + "-archive-keyring.gpg"@
}

pub open spec fn repo_list_path(prefix: Seq<char>) -> Seq<char> {
    "/etc/apt/sources.list.d/"@ + prefix + ".list"@
}

pub open spec fn repo_list_command(source_url: Seq<char>, prefix: Seq<char>) -> Seq<char> {
    "curl -1sLf '"@ + source_url + "' | tee "@ + repo_list_path(prefix)
}

/// Installs the prerequisites, the repository key and the source list,
/// then checks with `stat` that the source list was written.
pub open spec fn repo_install_ops(params: Params, key_url: Seq<char>, source_url: Seq<char>, prefix: Seq<char>) -> Seq<OpV> {
    let key = repo_key_command(params, key_url, prefix);
    apt_install_ops(true, true, repo_prerequisites()) + seq![
        OpV::Run(key, seq![CheckV::ExitCodeFail(FailV::Command("key install command failed with error exit code. command: "@ + key))]),
        OpV::Run(repo_list_command(source_url, prefix), seq![]),
        OpV::Run("stat "@ + repo_list_path(prefix), seq![CheckV::Stderr(FailV::OtherWith("Error accessing remote file path: "@))]),
    ]
}

pub open spec fn stat_unreadable_text() -> Seq<char> {
    "the stat output could not be read"@
}

/// Adds an apt repository given by the URLs of its key and its source
/// list (type `manualURL`, the only one supported), then updates the
/// package lists unless `updatePackages` is false.
pub open spec fn add_package_repo_step(p: ControlSessionParams, action: ControlAction, rs: Seq<ReplyV>) -> StepV {
    let params = action.params;
    match required(params, "type"@) {
        Err(e) => StepV::Finished(Err(e)),
        Ok(kind) => if kind != "manualURL"@ {
            StepV::Finished(Err(ActionErr::InvalidParams(
                "The 'type' parameter did not contain a currently-supported value type. Only 'manualURL' is currently supported."@,
            )))
        } else {
            match required(params, "keyURL"@) {
                Err(e) => StepV::Finished(Err(e)),
                Ok(key_url) => match required(params, "sourceListDefURL"@) {
                    Err(e) => StepV::Finished(Err(e)),
                    Ok(source_url) => match required(params, "localFilePrefix"@) {
                        Err(e) => StepV::Finished(Err(e)),
                        Ok(prefix) => match script_outcome(p, action.action, repo_install_ops(params, key_url, source_url, prefix), 0, rs) {
                            OutcomeV::Completed(k) => {
                                let out = stdout_at(rs, k - 1);
                                if !stat_output_ok(out) {
                                    StepV::Abort(stat_unreadable_text())
                                } else if stat_details(out) is None {
                                    StepV::Finished(Err(ActionErr::FailedCommand(
                                        "repo package source list install command failed: "@ + repo_list_command(source_url, prefix),
                                    )))
                                } else if stat_reports_empty(out) {
                                    StepV::Finished(Err(ActionErr::FailedCommand(
                                        "could not download the package source list to: "@ + repo_list_path(prefix),
                                    )))
                                } else {
                                    script_step(p, action.action, if bool_or(params.get("updatePackages"@), true) {
                                        seq![OpV::Run("apt-get -y update"@, seq![])]
                                    } else {
                                        seq![]
                                    }, k, rs)
                                }
                            },
                            o => outcome_step(o),
                        },
                    },
                },
            }
        },
    }
}

fn stat_reports_empty_exec(output: &str) -> (r: bool)
    ensures
        r == stat_reports_empty(output@),
{
    let chars = chars_of(output);
    let lines = split_lines(chars.as_slice());
    let prefix = chars_of("Size:");
    let zero = chars_of("0");
    proof {
        reveal_strlit("Size:");
        reveal_strlit("0");
        assert(zero@ =~= seq!['0']);
    }
    let mut i: usize = 0;
    while i < lines.len()
        invariant
            i <= lines@.len(),
            lines@.len() == lines_of(output@).len(),
            forall|k: int| 0 <= k < lines@.len() ==> #[trigger] lines@[k]@ == lines_of(output@)[k],
            prefix@ == "Size:"@,
            prefix@.len() == 5,
            zero@ == seq!['0'],
            forall|k: int| 0 <= k < i ==> !zero_size_line(#[trigger] lines_of(output@)[k]),
        decreases lines@.len() - i,
    {
        let t = trim_start_chars(lines[i].as_slice());
        if starts_with_chars(t.as_slice(), prefix.as_slice()) {
            let rest = slice_chars(t.as_slice(), 5, t.len());
            assert(rest@ =~= t@.skip(5));
            if let Some(w) = common_actions_linux::first_word_exec(rest.as_slice()) {
                if chars_eq(w.as_slice(), zero.as_slice()) {
                    assert(zero_size_line(lines_of(output@)[i as int]));
                    return true;
                }
            }
        }
        i = i + 1;
    }
    false
}

impl AProviderLinuxDebian {
    fn perform_apt_package_install(&self, params: &AptGetInstallParams, action: &ControlAction, replies: &Vec<ActionReply>) -> (r: ActionStep)
        ensures
            r@ == script_step(
                self.session_params,
                action.action,
                apt_install_ops(params.wait_for_pm_to_finish, params.update_packages_list, strings_view(params.packages_to_install@)),
                0,
                replies_view(replies@),
            ),
    {
        let ops = apt_install_script(params);
        finish_script(&self.session_params, action.action, &ops, replies, 0)
    }
}

impl ActionProvider for AProviderLinuxDebian {
    fn name(&self) -> (r: String)
        ensures
            r@ == "linux_debian"@,
    {
        AProviderLinuxDebian::name()
    }

    open spec fn session_spec(&self) -> Option<ControlSessionParams> {
        Some(self.session_params)
    }

    fn get_session_params(&self) -> (r: Option<&ControlSessionParams>)
        ensures
            r == Some(&self.session_params),
    {
        Some(&self.session_params)
    }

    fn generic_command(&self, action: &ControlAction, replies: &Vec<ActionReply>) -> (r: ActionStep)
        ensures
            r@ == crate::control::action_script::plan_step(
                self.session_params,
                action.action,
                common_actions_unix::generic_command_plan(action.params),
                replies_view(replies@),
            ),
    {
        common_actions_unix::generic_command(&self.session_params, action, replies)
    }

    fn get_system_details(&self, replies: &Vec<ActionReply>) -> (r: SystemDetailsStep)
        ensures
            r@ == common_actions_linux::system_details_step(self.session_params, replies_view(replies@)),
    {
        common_actions_linux::get_system_details(&self.session_params, replies)
    }

    fn add_user(&self, action: &ControlAction, replies: &Vec<ActionReply>) -> (r: ActionStep)
        ensures
            r@ == common_actions_linux::add_user_step(self.session_params, *action, replies_view(replies@)),
    {
        common_actions_linux::add_user(&self.session_params, action, replies)
    }

    fn create_directory(&self, action: &ControlAction, replies: &Vec<ActionReply>) -> (r: ActionStep)
        ensures
            r@ == crate::control::action_script::plan_step(
                self.session_params,
                action.action,
                common_actions_unix::create_directory_plan(action.params),
                replies_view(replies@),
            ),
    {
        common_actions_unix::create_directory(&self.session_params, action, replies)
    }

    fn remove_directory(&self, action: &ControlAction, replies: &Vec<ActionReply>) -> (r: ActionStep)
        ensures
            r@ == crate::control::action_script::plan_step(
                self.session_params,
                action.action,
                common_actions_unix::remove_directory_plan(action.params),
                replies_view(replies@),
            ),
    {
        common_actions_unix::remove_directory(&self.session_params, action, replies)
    }

    /// Installs the `package` or `packages` with `apt-get`, by default
    /// waiting for a running `apt-get` to finish and updating the package
    /// lists first.
    fn install_packages(&self, action: &ControlAction, replies: &Vec<ActionReply>) -> (r: ActionStep)
        ensures
            r@ == crate::control::action_script::plan_step(
                self.session_params,
                action.action,
                install_packages_plan(action.params),
                replies_view(replies@),
            ),
    {
        let packages = match named_packages_exec(&action.params) {
            Err(e) => {
                return ActionStep::Finished(Err(e));
            },
            Ok(v) => v,
        };
        if packages.len() == 0 {
            return ActionStep::Finished(Err(ActionError::InvalidParams(owned("The resulting 'packages' list was empty."))));
        }
        let wait = action.params.get_bool_or("waitForPMToFinish", true);
        let update = action.params.get_bool_or("update", true);
        let install = AptGetInstallParams::new(wait, update).add_packages(packages);
        assert(strings_view(install.packages_to_install@) =~= named_packages(action.params)->Ok_0);
        self.perform_apt_package_install(&install, action, replies)
    }

    /// Removes the `package` or `packages` with `apt-get`, by default
    /// waiting for a running `apt-get` to finish; a failure exit code fails
    /// the action unless `ignoreFailure` is set.
    fn remove_packages(&self, action: &ControlAction, replies: &Vec<ActionReply>) -> (r: ActionStep)
        ensures
            r@ == crate::control::action_script::plan_step(
                self.session_params,
                action.action,
                remove_packages_plan(action.params),
                replies_view(replies@),
            ),
    {
        let packages = match named_packages_exec(&action.params) {
            Err(e) => {
                return ActionStep::Finished(Err(e));
            },
            Ok(v) => v,
        };
        let list = join_strings(&packages, " ");
        if list.as_str().unicode_len() == 0 {
            return ActionStep::Finished(Err(ActionError::InvalidParams(owned("The resulting 'packages' string list was empty."))));
        }
        let mut ops: Vec<Op> = Vec::new();
        if action.params.get_bool_or("waitForPMToFinish", true) {
            push_op(&mut ops, Op::WaitWhileBusy(owned("pidof apt-get")));
        }
        let command = concat2("export DEBIAN_FRONTEND=noninteractive; apt-get -y remove ", list.as_str());
        if action.params.get_bool_or("ignoreFailure", false) {
            push_op(&mut ops, run_unchecked(command));
        } else {
            push_op(&mut ops, run_checked(command));
        }
        assert(ops_view(ops@) =~= remove_packages_plan(action.params)->Ok_0);
        finish_script(&self.session_params, action.action, &ops, replies, 0)
    }

    fn systemctrl(&self, action: &ControlAction, replies: &Vec<ActionReply>) -> (r: ActionStep)
        ensures
            r@ == crate::control::action_script::plan_step(
                self.session_params,
                action.action,
                common_actions_linux::systemctrl_plan(action.params),
                replies_view(replies@),
            ),
    {
        common_actions_linux::systemctrl(&self.session_params, action, replies)
    }

    /// ufw rules are added before ufw is enabled.
    fn firewall(&self, action: &ControlAction, replies: &Vec<ActionReply>) -> (r: ActionStep)
        ensures
            r@ == crate::control::action_script::plan_step(
                self.session_params,
                action.action,
                common_actions_linux::firewall_plan(action.params, false),
                replies_view(replies@),
            ),
    {
        common_actions_linux::firewall(&self.session_params, action, replies, false)
    }

    fn edit_file(&self, action: &ControlAction, replies: &Vec<ActionReply>) -> (r: ActionStep)
        ensures
            r@ == common_actions_unix_edit_file::edit_file_step(self.session_params, *action, replies_view(replies@)),
    {
        common_actions_unix_edit_file::edit_file(&self.session_params, action, replies)
    }

    fn copy_path(&self, action: &ControlAction, replies: &Vec<ActionReply>) -> (r: ActionStep)
        ensures
            r@ == crate::control::action_script::plan_step(
                self.session_params,
                action.action,
                common_actions_unix::copy_path_plan(action.params),
                replies_view(replies@),
            ),
    {
        common_actions_unix::copy_path(&self.session_params, action, replies)
    }

    fn remove_file(&self, action: &ControlAction, replies: &Vec<ActionReply>) -> (r: ActionStep)
        ensures
            r@ == crate::control::action_script::plan_step(
                self.session_params,
                action.action,
                common_actions_unix::remove_file_plan(action.params),
                replies_view(replies@),
            ),
    {
        common_actions_unix::remove_file(&self.session_params, action, replies)
    }

    fn download_file(&self, action: &ControlAction, replies: &Vec<ActionReply>) -> (r: ActionStep)
        ensures
            r@ == crate::control::action_script::plan_step(
                self.session_params,
                action.action,
                common_actions_unix::download_file_plan(action.params),
                replies_view(replies@),
            ),
    {
        common_actions_unix::download_file(&self.session_params, action, replies)
    }

    fn transmit_file(&self, action: &ControlAction, replies: &Vec<ActionReply>) -> (r: ActionStep)
        ensures
            r@ == common_actions_unix::transmit_file_step(self.session_params, *action, replies_view(replies@)),
    {
        common_actions_unix::transmit_file(&self.session_params, action, replies)
    }

    fn receive_file(&self, action: &ControlAction, replies: &Vec<ActionReply>) -> (r: ActionStep)
        ensures
            r@ == crate::control::action_script::plan_step(
                self.session_params,
                action.action,
                common_actions_unix::receive_file_plan(action.params),
                replies_view(replies@),
            ),
    {
        common_actions_unix::receive_file(&self.session_params, action, replies)
    }

    fn create_symlink(&self, action: &ControlAction, replies: &Vec<ActionReply>) -> (r: ActionStep)
        ensures
            r@ == crate::control::action_script::plan_step(
                self.session_params,
                action.action,
                common_actions_unix::create_symlink_plan(action.params),
                replies_view(replies@),
            ),
    {
        common_actions_unix::create_symlink(&self.session_params, action, replies)
    }

    fn set_time_zone(&self, action: &ControlAction, replies: &Vec<ActionReply>) -> (r: ActionStep)
        ensures
            r@ == crate::control::action_script::plan_step(
                self.session_params,
                action.action,
                common_actions_linux::set_time_zone_plan(action.params),
                replies_view(replies@),
            ),
    {
        common_actions_linux::set_time_zone(&self.session_params, action, replies)
    }

    fn disable_swap(&self, action: &ControlAction, replies: &Vec<ActionReply>) -> (r: ActionStep)
        ensures
            r@ == common_actions_linux::disable_swap_step(self.session_params, *action, replies_view(replies@)),
    {
        common_actions_linux::disable_swap(&self.session_params, action, replies)
    }

    fn create_file(&self, action: &ControlAction, replies: &Vec<ActionReply>) -> (r: ActionStep)
        ensures
            r@ == crate::control::action_script::plan_step(
                self.session_params,
                action.action,
                common_actions_unix::create_file_plan(action.params),
                replies_view(replies@),
            ),
    {
        common_actions_unix::create_file(&self.session_params, action, replies)
    }

    fn add_group(&self, action: &ControlAction, replies: &Vec<ActionReply>) -> (r: ActionStep)
        ensures
            r@ == crate::control::action_script::plan_step(
                self.session_params,
                action.action,
                common_actions_linux::add_group_plan(action.params),
                replies_view(replies@),
            ),
    {
        common_actions_linux::add_group(&self.session_params, action, replies)
    }

    fn set_hostname(&self, action: &ControlAction, replies: &Vec<ActionReply>) -> (r: ActionStep)
        ensures
            r@ == crate::control::action_script::plan_step(
                self.session_params,
                action.action,
                common_actions_linux::set_hostname_plan(action.params),
                replies_view(replies@),
            ),
    {
        common_actions_linux::set_hostname(&self.session_params, action, replies)
    }

    fn create_systemd_service(&self, action: &ControlAction, replies: &Vec<ActionReply>) -> (r: ActionStep)
        ensures
            r@ == crate::control::action_script::plan_step(
                self.session_params,
                action.action,
                common_actions_linux::create_systemd_service_plan(action.params),
                replies_view(replies@),
            ),
    {
        common_actions_linux::create_systemd_service(&self.session_params, action, replies)
    }

    fn configure_ssh(&self, action: &ControlAction, replies: &Vec<ActionReply>) -> (r: ActionStep)
        ensures
            r@ == common_actions_unix::configure_ssh_step(self.session_params, *action, replies_view(replies@)),
    {
        common_actions_unix::configure_ssh(&self.session_params, action, replies)
    }

    fn add_package_repo(&self, action: &ControlAction, replies: &Vec<ActionReply>) -> (r: ActionStep)
        ensures
            r@ == add_package_repo_step(self.session_params, *action, replies_view(replies@)),
    {
        let kind = match action.get_required_string_param("type") {
            Err(e) => {
                return ActionStep::Finished(Err(e));
            },
            Ok(k) => k,
        };
        if !str_eq(kind.as_str(), "manualURL") {
            return ActionStep::Finished(Err(ActionError::InvalidParams(owned(
                "The 'type' parameter did not contain a currently-supported value type. Only 'manualURL' is currently supported.",
            ))));
        }
        let key_url = match action.get_required_string_param("keyURL") {
            Err(e) => {
                return ActionStep::Finished(Err(e));
            },
            Ok(k) => k,
        };
        let source_url = match action.get_required_string_param("sourceListDefURL") {
            Err(e) => {
                return ActionStep::Finished(Err(e));
            },
            Ok(k) => k,
        };
        let prefix = match action.get_required_string_param("localFilePrefix") {
            Err(e) => {
                return ActionStep::Finished(Err(e));
            },
            Ok(k) => k,
        };
        let mut required_packages: Vec<String> = Vec::new();
        required_packages.push(owned("gpg"));
        required_packages.push(owned("debian-keyring"));
        required_packages.push(owned("debian-archive-keyring"));
        required_packages.push(owned("apt-transport-https"));
        required_packages.push(owned("curl"));
        assert(strings_view(required_packages@) =~= repo_prerequisites());
        let install = AptGetInstallParams::new(true, true).add_packages(required_packages);
        let mut ops = apt_install_script(&install);
        assert(strings_view(install.packages_to_install@) =~= repo_prerequisites());
        let overwrite = if action.params.get_bool_or("failOnExistingKeyFile", false) {
            owned("")
        } else {
            owned("--yes ")
        };
        let key_head = concat5("curl -1sLf '", key_url.as_str(), "' | gpg ", overwrite.as_str(), "--dearmor -o /usr/share/keyrings/");
        let key_command = concat3(key_head.as_str(), prefix.as_str(), "-archive-keyring.gpg");
        let key_msg = concat2("key install command failed with error exit code. command: ", key_command.as_str());
        push_op(&mut ops, run_with(key_command, Check::ExitCodeFail(Fail::Command(key_msg))));
        let list_path = concat3("/etc/apt/sources.list.d/", prefix.as_str(), ".list");
        let list_command = concat4("curl -1sLf '", source_url.as_str(), "' | tee ", list_path.as_str());
        push_op(&mut ops, run_unchecked(owned(list_command.as_str())));
        push_op(&mut ops, run_with(concat2("stat ", list_path.as_str()), Check::Stderr(Fail::OtherWith(owned("Error accessing remote file path: ")))));
        proof {
            reveal_strlit("");
            let want = repo_install_ops(action.params, key_url@, source_url@, prefix@);
            assert(ops_view(ops@) =~= want);
        }
        let k = match run_script(&self.session_params, action.action, &ops, replies, 0) {
            ScriptOutcome::Completed(k) => k,
            o => {
                return to_step(o);
            },
        };
        let out = if k >= 1 {
            stdout_at_exec(replies, k - 1)
        } else {
            String::new()
        };
        if !stat_output_is_readable(out.as_str()) {
            return ActionStep::Abort(owned("the stat output could not be read"));
        }
        if extract_details_from_stat_output(out.as_str()).is_none() {
            return ActionStep::Finished(Err(ActionError::FailedCommand(concat2(
                "repo package source list install command failed: ",
                list_command.as_str(),
            ))));
        }
        if stat_reports_empty_exec(out.as_str()) {
            return ActionStep::Finished(Err(ActionError::FailedCommand(concat2(
                "could not download the package source list to: ",
                list_path.as_str(),
            ))));
        }
        let mut update: Vec<Op> = Vec::new();
        if action.params.get_bool_or("updatePackages", true) {
            push_op(&mut update, run_unchecked(owned("apt-get -y update")));
        }
        assert(ops_view(update@) =~= (if bool_or(action.params.get("updatePackages"@), true) {
            seq![OpV::Run("apt-get -y update"@, seq![])]
        } else {
            seq![]
        }));
        finish_script(&self.session_params, action.action, &update, replies, k)
    }
}


/// Two texts joined with a separator are the first, the separator and the
/// second.
pub proof fn lemma_join_two(a: Seq<char>, b: Seq<char>, sep: Seq<char>)
    ensures
        join(seq![a, b], sep) == a + sep + b,
{
    let two = seq![a, b];
    assert(two.drop_last() =~= seq![a]);
    assert(join(seq![a], sep) == a);
    assert(two.last() == b);
    assert(join(two, sep) == join(two.drop_last(), sep) + sep + two.last());
}

/// The install script waits for another `apt-get` first when asked to,
/// updates the package lists next when asked to, and ends with the install
/// command: the fixed `apt-get -y install` prefix and then each package as
/// its own word, the words separated by single spaces.
pub proof fn lemma_apt_install_names_each_package(wait: bool, update: bool, packages: Seq<Seq<char>>)
    ensures
        ({
            let ops = apt_install_ops(wait, update, packages);
            let prefix = "export DEBIAN_FRONTEND=noninteractive; apt-get -y install "@;
            &&& ops.len() == (if wait { 1int } else { 0int }) + (if update { 1int } else { 0int }) + 1
            &&& wait ==> ops[0] == OpV::WaitWhileBusy("pidof apt-get"@)
            &&& ops.last() matches OpV::Run(c, _) && c == prefix + join(packages, " "@)
            &&& packages.len() == 1 ==> (ops.last() matches OpV::Run(c, _) && c == prefix + packages[0])
            &&& packages.len() == 2 ==> (ops.last() matches OpV::Run(c, _) && c == prefix + packages[0] + " "@
                + packages[1])
        }),
{
    if packages.len() == 2 {
        lemma_join_two(packages[0], packages[1], " "@);
        assert(packages =~= seq![packages[0], packages[1]]);
    }
}

/// Removing packages names each package as its own word after the fixed
/// `apt-get -y remove` prefix, the words separated by single spaces.
pub proof fn lemma_apt_remove_names_each_package(params: Params)
    requires
        remove_packages_plan(params) is Ok,
    ensures
        named_packages(params) is Ok,
        remove_packages_plan(params)->Ok_0.last() matches OpV::Run(c, _) && c
            == "export DEBIAN_FRONTEND=noninteractive; apt-get -y remove "@ + join(named_packages(params)->Ok_0, " "@),
{
}

/// Installing packages runs the install script for the packages the action
/// names, waiting and updating unless the action says otherwise.
pub proof fn lemma_install_packages_plan(params: Params)
    requires
        install_packages_plan(params) is Ok,
    ensures
        named_packages(params) is Ok,
        named_packages(params)->Ok_0.len() > 0,
        install_packages_plan(params)->Ok_0.last() matches OpV::Run(c, _) && c
            == "export DEBIAN_FRONTEND=noninteractive; apt-get -y install "@ + join(named_packages(params)->Ok_0, " "@),
{
    lemma_apt_install_names_each_package(
        bool_or(params.get("waitForPMToFinish"@), true),
        bool_or(params.get("update"@), true),
        named_packages(params)->Ok_0,
    );
}

} // verus!
