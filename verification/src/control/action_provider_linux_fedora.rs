//! The action provider for Fedora hosts: packages through `dnf`, the rest
//! through the common Linux and Unix actions.
use vstd::prelude::*;
use crate::control::action_script::{
    finish_script, ops_view, push_op, run_checked, run_unchecked, ActionStep, CheckV, Op, OpV,
};
use crate::control::action_provider_linux_debian::named_packages;
use crate::control::common_actions_linux::{self, SystemDetailsStep};
use crate::control::common_actions_unix;
use crate::control::common_actions_unix_edit_file;
use crate::control::control_actions::{ActionErr, ActionError, ActionProvider, ControlAction};
use crate::control::control_common::ControlSessionParams;
use crate::control::control_connection::{replies_view, ActionReply};
use crate::params::{bool_or, str_of, strings_view, Params};
use crate::text::{concat2, join, join_strings, owned};

verus! {

/// Controls Fedora hosts.
pub struct AProviderLinuxFedora {
    pub session_params: ControlSessionParams,
}

impl AProviderLinuxFedora {
    pub fn new(session_params: ControlSessionParams) -> (r: AProviderLinuxFedora)
        ensures
            r.session_params == session_params,
    {
        AProviderLinuxFedora { session_params }
    }

    /// The provider's name in control scripts.
    pub fn name() -> (r: String)
        ensures
            r@ == "linux_fedora"@,
    {
        owned("linux_fedora")
    }
}

/// The packages an action names, as one space-separated list.
pub open spec fn package_list(params: Params) -> Result<Seq<char>, ActionErr> {
    match named_packages(params) {
        Err(e) => Err(e),
        Ok(ps) => {
            let list = join(ps, " "@);
            if list.len() == 0 {
                Err(ActionErr::InvalidParams("The resulting 'packages' string list was empty."@))
            } else {
                Ok(list)
            }
        },
    }
}

fn package_list_exec(params: &Params) -> (r: Result<String, ActionError>)
    ensures
        match r {
            Ok(s) => package_list(*params) == Ok::<Seq<char>, ActionErr>(s@),
            Err(e) => package_list(*params) == Err::<Seq<char>, ActionErr>(e@),
        },
{
    let packages = match params.get_string_value("package") {
        Some(p) => {
            return if p.as_str().unicode_len() == 0 {
                Err(ActionError::InvalidParams(owned("The resulting 'packages' string list was empty.")))
            } else {
                assert(join(seq![p@], " "@) == p@);
                Ok(p)
            };
        },
        None => if params.has_value("packages") {
            params.get_values_as_vec_of_strings("packages")
        } else {
            return Err(ActionError::InvalidParams(owned("No 'package' string parameter or 'packages' string array parameter were specified.")));
        },
    };
    let list = join_strings(&packages, " ");
    if list.as_str().unicode_len() == 0 {
        return Err(ActionError::InvalidParams(owned("The resulting 'packages' string list was empty.")));
    }
    Ok(list)
}

pub open spec fn dnf_install_plan(params: Params) -> Result<Seq<OpV>, ActionErr> {
    match package_list(params) {
        Err(e) => Err(e),
        Ok(list) => Ok((if bool_or(params.get("update"@), true) {
            seq![OpV::Run("dnf -y update"@, seq![])]
        } else {
            seq![]
        }) + seq![OpV::Run("dnf -y install "@ + list, seq![CheckV::ExitCode])]),
    }
}

pub open spec fn dnf_remove_plan(params: Params) -> Result<Seq<OpV>, ActionErr> {
    match package_list(params) {
        Err(e) => Err(e),
        Ok(list) => Ok(seq![OpV::Run("dnf -y remove "@ + list, if bool_or(params.get("ignoreFailure"@), false) {
            seq![]
        } else {
            seq![CheckV::ExitCode]
        })]),
    }
}

impl ActionProvider for AProviderLinuxFedora {
    fn name(&self) -> (r: String)
        ensures
            r@ == "linux_fedora"@,
    {
        AProviderLinuxFedora::name()
    }

    open spec fn session_spec(&self) -> Option<ControlSessionParams> {
        Some(self.session_params)
    }

    fn get_session_params(&self) -> (r: Option<&ControlSessionParams>)
        ensures
            r == Some(&self.session_params),
    {
        Some(&self.session_params)
    }

    fn generic_command(&self, action: &ControlAction, replies: &Vec<ActionReply>) -> (r: ActionStep)
        ensures
            r@ == crate::control::action_script::plan_step(
                self.session_params,
                action.action,
                common_actions_unix::generic_command_plan(action.params),
                replies_view(replies@),
            ),
    {
        common_actions_unix::generic_command(&self.session_params, action, replies)
    }

    fn get_system_details(&self, replies: &Vec<ActionReply>) -> (r: SystemDetailsStep)
        ensures
            r@ == common_actions_linux::system_details_step(self.session_params, replies_view(replies@)),
    {
        common_actions_linux::get_system_details(&self.session_params, replies)
    }

    fn add_user(&self, action: &ControlAction, replies: &Vec<ActionReply>) -> (r: ActionStep)
        ensures
            r@ == common_actions_linux::add_user_step(self.session_params, *action, replies_view(replies@)),
    {
        common_actions_linux::add_user(&self.session_params, action, replies)
    }

    fn create_directory(&self, action: &ControlAction, replies: &Vec<ActionReply>) -> (r: ActionStep)
        ensures
            r@ == crate::control::action_script::plan_step(
                self.session_params,
                action.action,
                common_actions_unix::create_directory_plan(action.params),
                replies_view(replies@),
            ),
    {
        common_actions_unix::create_directory(&self.session_params, action, replies)
    }

    fn remove_directory(&self, action: &ControlAction, replies: &Vec<ActionReply>) -> (r: ActionStep)
        ensures
            r@ == crate::control::action_script::plan_step(
                self.session_params,
                action.action,
                common_actions_unix::remove_directory_plan(action.params),
                replies_view(replies@),
            ),
    {
        common_actions_unix::remove_directory(&self.session_params, action, replies)
    }

    /// Installs the `package` or `packages` with `dnf`, updating first
    /// unless `update` is false; a failure exit code fails the action.
    fn install_packages(&self, action: &ControlAction, replies: &Vec<ActionReply>) -> (r: ActionStep)
        ensures
            r@ == crate::control::action_script::plan_step(
                self.session_params,
                action.action,
                dnf_install_plan(action.params),
                replies_view(replies@),
            ),
    {
        let list = match package_list_exec(&action.params) {
            Err(e) => {
                return ActionStep::Finished(Err(e));
            },
            Ok(l) => l,
        };
        let mut ops: Vec<Op> = Vec::new();
        if action.params.get_bool_or("update", true) {
            push_op(&mut ops, run_unchecked(owned("dnf -y update")));
        }
        push_op(&mut ops, run_checked(concat2("dnf -y install ", list.as_str())));
        assert(ops_view(ops@) =~= dnf_install_plan(action.params)->Ok_0);
        finish_script(&self.session_params, action.action, &ops, replies, 0)
    }

    /// Removes the `package` or `packages` with `dnf`; a failure exit code
    /// fails the action unless `ignoreFailure` is set.
    fn remove_packages(&self, action: &ControlAction, replies: &Vec<ActionReply>) -> (r: ActionStep)
        ensures
            r@ == crate::control::action_script::plan_step(
                self.session_params,
                action.action,
                dnf_remove_plan(action.params),
                replies_view(replies@),
            ),
    {
        let list = match package_list_exec(&action.params) {
            Err(e) => {
                return ActionStep::Finished(Err(e));
            },
            Ok(l) => l,
        };
        let mut ops: Vec<Op> = Vec::new();
        let command = concat2("dnf -y remove ", list.as_str());
        if action.params.get_bool_or("ignoreFailure", false) {
            push_op(&mut ops, run_unchecked(command));
        } else {
            push_op(&mut ops, run_checked(command));
        }
        assert(ops_view(ops@) =~= dnf_remove_plan(action.params)->Ok_0);
        finish_script(&self.session_params, action.action, &ops, replies, 0)
    }

    fn systemctrl(&self, action: &ControlAction, replies: &Vec<ActionReply>) -> (r: ActionStep)
        ensures
            r@ == crate::control::action_script::plan_step(
                self.session_params,
                action.action,
                common_actions_linux::systemctrl_plan(action.params),
                replies_view(replies@),
            ),
    {
        common_actions_linux::systemctrl(&self.session_params, action, replies)
    }

    /// ufw is enabled before the rules are added.
    fn firewall(&self, action: &ControlAction, replies: &Vec<ActionReply>) -> (r: ActionStep)
        ensures
            r@ == crate::control::action_script::plan_step(
                self.session_params,
                action.action,
                common_actions_linux::firewall_plan(action.params, true),
                replies_view(replies@),
            ),
    {
        common_actions_linux::firewall(&self.session_params, action, replies, true)
    }

    fn edit_file(&self, action: &ControlAction, replies: &Vec<ActionReply>) -> (r: ActionStep)
        ensures
            r@ == common_actions_unix_edit_file::edit_file_step(self.session_params, *action, replies_view(replies@)),
    {
        common_actions_unix_edit_file::edit_file(&self.session_params, action, replies)
    }

    fn copy_path(&self, action: &ControlAction, replies: &Vec<ActionReply>) -> (r: ActionStep)
        ensures
            r@ == crate::control::action_script::plan_step(
                self.session_params,
                action.action,
                common_actions_unix::copy_path_plan(action.params),
                replies_view(replies@),
            ),
    {
        common_actions_unix::copy_path(&self.session_params, action, replies)
    }

    fn remove_file(&self, action: &ControlAction, replies: &Vec<ActionReply>) -> (r: ActionStep)
        ensures
            r@ == crate::control::action_script::plan_step(
                self.session_params,
                action.action,
                common_actions_unix::remove_file_plan(action.params),
                replies_view(replies@),
            ),
    {
        common_actions_unix::remove_file(&self.session_params, action, replies)
    }

    fn download_file(&self, action: &ControlAction, replies: &Vec<ActionReply>) -> (r: ActionStep)
        ensures
            r@ == crate::control::action_script::plan_step(
                self.session_params,
                action.action,
                common_actions_unix::download_file_plan(action.params),
                replies_view(replies@),
            ),
    {
        common_actions_unix::download_file(&self.session_params, action, replies)
    }

    fn transmit_file(&self, action: &ControlAction, replies: &Vec<ActionReply>) -> (r: ActionStep)
        ensures
            r@ == common_actions_unix::transmit_file_step(self.session_params, *action, replies_view(replies@)),
    {
        common_actions_unix::transmit_file(&self.session_params, action, replies)
    }

    fn receive_file(&self, action: &ControlAction, replies: &Vec<ActionReply>) -> (r: ActionStep)
        ensures
            r@ == crate::control::action_script::plan_step(
                self.session_params,
                action.action,
                common_actions_unix::receive_file_plan(action.params),
                replies_view(replies@),
            ),
    {
        common_actions_unix::receive_file(&self.session_params, action, replies)
    }

    fn create_symlink(&self, action: &ControlAction, replies: &Vec<ActionReply>) -> (r: ActionStep)
        ensures
            r@ == crate::control::action_script::plan_step(
                self.session_params,
                action.action,
                common_actions_unix::create_symlink_plan(action.params),
                replies_view(replies@),
            ),
    {
        common_actions_unix::create_symlink(&self.session_params, action, replies)
    }

    fn set_time_zone(&self, action: &ControlAction, replies: &Vec<ActionReply>) -> (r: ActionStep)
        ensures
            r@ == crate::control::action_script::plan_step(
                self.session_params,
                action.action,
                common_actions_linux::set_time_zone_plan(action.params),
                replies_view(replies@),
            ),
    {
        common_actions_linux::set_time_zone(&self.session_params, action, replies)
    }

    fn disable_swap(&self, action: &ControlAction, replies: &Vec<ActionReply>) -> (r: ActionStep)
        ensures
            r@ == common_actions_linux::disable_swap_step(self.session_params, *action, replies_view(replies@)),
    {
        common_actions_linux::disable_swap(&self.session_params, action, replies)
    }

    fn create_file(&self, action: &ControlAction, replies: &Vec<ActionReply>) -> (r: ActionStep)
        ensures
            r@ == crate::control::action_script::plan_step(
                self.session_params,
                action.action,
                common_actions_unix::create_file_plan(action.params),
                replies_view(replies@),
            ),
    {
        common_actions_unix::create_file(&self.session_params, action, replies)
    }

    fn add_group(&self, action: &ControlAction, replies: &Vec<ActionReply>) -> (r: ActionStep)
        ensures
            r@ == crate::control::action_script::plan_step(
                self.session_params,
                action.action,
                common_actions_linux::add_group_plan(action.params),
                replies_view(replies@),
            ),
    {
        common_actions_linux::add_group(&self.session_params, action, replies)
    }

    fn set_hostname(&self, action: &ControlAction, replies: &Vec<ActionReply>) -> (r: ActionStep)
        ensures
            r@ == crate::control::action_script::plan_step(
                self.session_params,
                action.action,
                common_actions_linux::set_hostname_plan(action.params),
                replies_view(replies@),
            ),
    {
        common_actions_linux::set_hostname(&self.session_params, action, replies)
    }

    fn create_systemd_service(&self, action: &ControlAction, replies: &Vec<ActionReply>) -> (r: ActionStep)
        ensures
            r@ == crate::control::action_script::plan_step(
                self.session_params,
                action.action,
                common_actions_linux::create_systemd_service_plan(action.params),
                replies_view(replies@),
            ),
    {
        common_actions_linux::create_systemd_service(&self.session_params, action, replies)
    }

}


/// Installing and removing with `dnf` name each package as its own word
/// after the fixed command, the words separated by single spaces; an
/// install updates first unless the action says otherwise.
pub proof fn lemma_dnf_names_each_package(params: Params)
    ensures
        dnf_install_plan(params) is Ok ==> (named_packages(params) is Ok && (dnf_install_plan(params)->Ok_0.last() matches OpV::Run(
            c,
            _,
        ) && c == "dnf -y install "@ + join(named_packages(params)->Ok_0, " "@))),
        dnf_remove_plan(params) is Ok ==> (named_packages(params) is Ok && (dnf_remove_plan(params)->Ok_0.last() matches OpV::Run(
            c,
            _,
        ) && c == "dnf -y remove "@ + join(named_packages(params)->Ok_0, " "@))),
{
}

} // verus!
