//! Running a control script on a host: the decisions around the
//! connection (what to ask the user, when to retry, whether the host
//! passes validation) and the order in which actions run and stop.
use vstd::prelude::*;
use crate::control::action_provider_linux_debian::{add_package_repo_step, install_packages_plan, remove_packages_plan, AProviderLinuxDebian};
use crate::control::action_provider_linux_fedora::{dnf_install_plan, dnf_remove_plan, AProviderLinuxFedora};
use crate::control::action_script::{plan_step, ActionStep, StepV};
use crate::control::common_actions_linux::{
    add_group_plan, add_user_step, create_systemd_service_plan, disable_swap_step, firewall_plan,
    set_hostname_plan, set_time_zone_plan, system_details_step, systemctrl_plan, DetailsV,
    SystemDetailsStep,
};
use crate::control::common_actions_unix::{
    configure_ssh_step, copy_path_plan, create_directory_plan, create_file_plan,
    create_symlink_plan, download_file_plan, generic_command_plan, receive_file_plan,
    remove_directory_plan, remove_file_plan, transmit_file_step,
};
use crate::control::common_actions_unix_edit_file::edit_file_step;
use crate::control::control_actions::{
    action_type_text, ActionErr, ActionError, ActionProvider, ControlAction, ControlActionType,
    ControlActions,
};
use crate::control::control_common::{
    AuthV, ControlSessionCreationError, ControlSessionParams, ControlSessionUserAuth,
    UserAuthPublicKey, UserAuthUserPass,
};
use crate::control::control_connection::{replies_view, ActionReply, ReplyV};
use crate::control::control_system_validation::SystemValidation;
use crate::text::{
    chars_of, concat2, concat3, concat4, concat5, int_decimal, nat_decimal, owned, parse_u32,
    parse_u32_chars, split_once, split_once_chars, str_eq, string_of, trim, trim_chars,
    u64_decimal,
};

verus! {

/// Runs control scripts.
pub struct ControlManager {}

/// Settings for a run: whether a failed connection is retried.
pub struct ControlGeneralParams {
    pub retry: bool,
}

impl ControlGeneralParams {
    pub fn new() -> (r: ControlGeneralParams)
        ensures
            !r.retry,
    {
        ControlGeneralParams { retry: false }
    }
}

/// The result of running one command on a host.
#[derive(Clone, Debug)]
pub enum CommandResult {
    ErrorCantConnect(String),
    ErrorAuthenticationIssue(String),
    Failed(String),
    CommandRunOkay(String),
}

impl ControlManager {
    pub fn new() -> (r: ControlManager) {
        ControlManager {}
    }
}

// ---------------------------------------------------------------------
// Providers
// ---------------------------------------------------------------------

/// The providers of actions.
pub enum ActionProviderChoice {
    LinuxDebian(AProviderLinuxDebian),
    LinuxFedora(AProviderLinuxFedora),
}

impl ActionProviderChoice {
    pub open spec fn session(self) -> ControlSessionParams {
        match self {
            ActionProviderChoice::LinuxDebian(d) => d.session_params,
            ActionProviderChoice::LinuxFedora(f) => f.session_params,
        }
    }

    pub open spec fn is_debian(self) -> bool {
        self is LinuxDebian
    }
}

impl ControlManager {
    /// The provider named in a control script: `linux_debian` or
    /// `linux_fedora`.
    pub fn create_provider(&self, provider: &str, session_params: ControlSessionParams) -> (r: Option<ActionProviderChoice>)
        ensures
            provider@ == "linux_debian"@ ==> (r matches Some(ActionProviderChoice::LinuxDebian(d)) && d.session_params == session_params),
            provider@ == "linux_fedora"@ ==> (r matches Some(ActionProviderChoice::LinuxFedora(f)) && f.session_params == session_params),
            provider@ != "linux_debian"@ && provider@ != "linux_fedora"@ ==> r is None,
    {
        let debian = AProviderLinuxDebian::name();
        let fedora = AProviderLinuxFedora::name();
        proof {
            reveal_strlit("linux_debian");
            reveal_strlit("linux_fedora");
            assert("linux_fedora"@[6] != "linux_debian"@[6]);
        }
        if str_eq(provider, debian.as_str()) {
            Some(ActionProviderChoice::LinuxDebian(AProviderLinuxDebian::new(session_params)))
        } else if str_eq(provider, fedora.as_str()) {
            Some(ActionProviderChoice::LinuxFedora(AProviderLinuxFedora::new(session_params)))
        } else {
            None
        }
    }
}

/// The step of an action as the chosen provider runs it.
pub open spec fn provider_action_step(debian: bool, p: ControlSessionParams, action: ControlAction, rs: Seq<ReplyV>) -> StepV {
    let t = action.action;
    let params = action.params;
    match t {
        ControlActionType::GenericCommand => plan_step(p, t, generic_command_plan(params), rs),
        ControlActionType::AddUser => add_user_step(p, action, rs),
        ControlActionType::CreateDirectory => plan_step(p, t, create_directory_plan(params), rs),
        ControlActionType::RemoveDirectory => plan_step(p, t, remove_directory_plan(params), rs),
        ControlActionType::InstallPackages => if debian {
            plan_step(p, t, install_packages_plan(params), rs)
        } else {
            plan_step(p, t, dnf_install_plan(params), rs)
        },
        ControlActionType::RemovePackages => if debian {
            plan_step(p, t, remove_packages_plan(params), rs)
        } else {
            plan_step(p, t, dnf_remove_plan(params), rs)
        },
        ControlActionType::SystemCtl => plan_step(p, t, systemctrl_plan(params), rs),
        ControlActionType::Firewall => plan_step(p, t, firewall_plan(params, !debian), rs),
        ControlActionType::EditFile => edit_file_step(p, action, rs),
        ControlActionType::CopyPath => plan_step(p, t, copy_path_plan(params), rs),
        ControlActionType::RemoveFile => plan_step(p, t, remove_file_plan(params), rs),
        ControlActionType::DownloadFile => plan_step(p, t, download_file_plan(params), rs),
        ControlActionType::TransmitFile => transmit_file_step(p, action, rs),
        ControlActionType::ReceiveFile => plan_step(p, t, receive_file_plan(params), rs),
        ControlActionType::CreateSymlink => plan_step(p, t, create_symlink_plan(params), rs),
        ControlActionType::SetTimeZone => plan_step(p, t, set_time_zone_plan(params), rs),
        ControlActionType::DisableSwap => disable_swap_step(p, action, rs),
        ControlActionType::CreateFile => plan_step(p, t, create_file_plan(params), rs),
        ControlActionType::AddGroup => plan_step(p, t, add_group_plan(params), rs),
        ControlActionType::SetHostname => plan_step(p, t, set_hostname_plan(params), rs),
        ControlActionType::CreateSystemdService => plan_step(p, t, create_systemd_service_plan(params), rs),
        ControlActionType::ConfigureSSH => if debian {
            configure_ssh_step(p, action, rs)
        } else {
            StepV::Finished(Err(ActionErr::NotImplemented))
        },
        ControlActionType::AddPackageRepo => if debian {
            add_package_repo_step(p, action, rs)
        } else {
            StepV::Finished(Err(ActionErr::NotImplemented))
        },
        ControlActionType::NotSet | ControlActionType::Unrecognised => StepV::Finished(
            Err(ActionErr::FailedOther("Invalid Action Type"@)),
        ),
    }
}

impl ActionProviderChoice {
    /// The next step of an action, given the replies to its requests so far.
    pub fn run_action(&self, action: &ControlAction, replies: &Vec<ActionReply>) -> (r: ActionStep)
        ensures
            r@ == provider_action_step(self.is_debian(), self.session(), *action, replies_view(replies@)),
    {
        match self {
            ActionProviderChoice::LinuxDebian(d) => match action.action {
                ControlActionType::GenericCommand => d.generic_command(action, replies),
                ControlActionType::AddUser => d.add_user(action, replies),
                ControlActionType::CreateDirectory => d.create_directory(action, replies),
                ControlActionType::RemoveDirectory => d.remove_directory(action, replies),
                ControlActionType::InstallPackages => d.install_packages(action, replies),
                ControlActionType::RemovePackages => d.remove_packages(action, replies),
                ControlActionType::SystemCtl => d.systemctrl(action, replies),
                ControlActionType::Firewall => d.firewall(action, replies),
                ControlActionType::EditFile => d.edit_file(action, replies),
                ControlActionType::CopyPath => d.copy_path(action, replies),
                ControlActionType::RemoveFile => d.remove_file(action, replies),
                ControlActionType::DownloadFile => d.download_file(action, replies),
                ControlActionType::TransmitFile => d.transmit_file(action, replies),
                ControlActionType::ReceiveFile => d.receive_file(action, replies),
                ControlActionType::CreateSymlink => d.create_symlink(action, replies),
                ControlActionType::SetTimeZone => d.set_time_zone(action, replies),
                ControlActionType::DisableSwap => d.disable_swap(action, replies),
                ControlActionType::CreateFile => d.create_file(action, replies),
                ControlActionType::AddGroup => d.add_group(action, replies),
                ControlActionType::SetHostname => d.set_hostname(action, replies),
                ControlActionType::CreateSystemdService => d.create_systemd_service(action, replies),
                ControlActionType::ConfigureSSH => d.configure_ssh(action, replies),
                ControlActionType::AddPackageRepo => d.add_package_repo(action, replies),
                ControlActionType::NotSet | ControlActionType::Unrecognised => ActionStep::Finished(
                    Err(ActionError::FailedOther(owned("Invalid Action Type"))),
                ),
            },
            ActionProviderChoice::LinuxFedora(f) => match action.action {
                ControlActionType::GenericCommand => f.generic_command(action, replies),
                ControlActionType::AddUser => f.add_user(action, replies),
                ControlActionType::CreateDirectory => f.create_directory(action, replies),
                ControlActionType::RemoveDirectory => f.remove_directory(action, replies),
                ControlActionType::InstallPackages => f.install_packages(action, replies),
                ControlActionType::RemovePackages => f.remove_packages(action, replies),
                ControlActionType::SystemCtl => f.systemctrl(action, replies),
                ControlActionType::Firewall => f.firewall(action, replies),
                ControlActionType::EditFile => f.edit_file(action, replies),
                ControlActionType::CopyPath => f.copy_path(action, replies),
                ControlActionType::RemoveFile => f.remove_file(action, replies),
                ControlActionType::DownloadFile => f.download_file(action, replies),
                ControlActionType::TransmitFile => f.transmit_file(action, replies),
                ControlActionType::ReceiveFile => f.receive_file(action, replies),
                ControlActionType::CreateSymlink => f.create_symlink(action, replies),
                ControlActionType::SetTimeZone => f.set_time_zone(action, replies),
                ControlActionType::DisableSwap => f.disable_swap(action, replies),
                ControlActionType::CreateFile => f.create_file(action, replies),
                ControlActionType::AddGroup => f.add_group(action, replies),
                ControlActionType::SetHostname => f.set_hostname(action, replies),
                ControlActionType::CreateSystemdService => f.create_systemd_service(action, replies),
                ControlActionType::ConfigureSSH => ActionStep::Finished(Err(ActionError::NotImplemented)),
                ControlActionType::AddPackageRepo => ActionStep::Finished(Err(ActionError::NotImplemented)),
                ControlActionType::NotSet | ControlActionType::Unrecognised => ActionStep::Finished(
                    Err(ActionError::FailedOther(owned("Invalid Action Type"))),
                ),
            },
        }
    }

    /// The next step of reading the host's system details.
    pub fn get_system_details(&self, replies: &Vec<ActionReply>) -> (r: SystemDetailsStep)
        ensures
            r@ == system_details_step(self.session(), replies_view(replies@)),
    {
        match self {
            ActionProviderChoice::LinuxDebian(d) => d.get_system_details(replies),
            ActionProviderChoice::LinuxFedora(f) => f.get_system_details(replies),
        }
    }
}

// ---------------------------------------------------------------------
// Before connecting: what to ask the user
// ---------------------------------------------------------------------

/// A setting that is to be asked for: empty, or `$PROMPT`.
pub open spec fn needs_prompt(s: Seq<char>) -> bool {
    s.len() == 0 || s == "$PROMPT"@
}

/// A host typed in as `host` or `host:port` (trimmed); a port that is not
/// a number is left out.
pub open spec fn host_entry(line: Seq<char>) -> (Seq<char>, Option<u32>) {
    let t = trim(line);
    match split_once(t, ':') {
        Some(pr) => (pr.0, parse_u32(pr.1)),
        None => (t, None),
    }
}

/// The warning for a port after the host that is not a number.
pub open spec fn host_entry_warning(line: Seq<char>) -> Option<Seq<char>> {
    match split_once(trim(line), ':') {
        Some(pr) => if parse_u32(pr.1) is None {
            Some("Error parsing suffix port number after hostname: "@ + pr.1)
        } else {
            None
        },
        None => None,
    }
}

/// Where to connect and how to log in, once nothing is left to ask.
pub struct SessionPlan {
    pub host: String,
    pub port: Option<u32>,
    pub auth: ControlSessionUserAuth,
    pub asked_for_hostname: bool,
    pub port_warning: Option<String>,
}

/// What to do before connecting: ask for a line, ask for a secret, or
/// connect as planned.
pub enum PrepareStep {
    AskLine(String),
    AskSecret(String),
    Ready(SessionPlan),
}

pub enum PrepareV {
    AskLine(Seq<char>),
    AskSecret(Seq<char>),
    Ready(Seq<char>, Option<u32>, AuthV, bool, Option<Seq<char>>),
}

impl View for PrepareStep {
    type V = PrepareV;

    open spec fn view(&self) -> PrepareV {
        match self {
            PrepareStep::AskLine(m) => PrepareV::AskLine(m@),
            PrepareStep::AskSecret(m) => PrepareV::AskSecret(m@),
            PrepareStep::Ready(s) => PrepareV::Ready(s.host@, s.port, s.auth@, s.asked_for_hostname, match s.port_warning {
                Some(w) => Some(w@),
                None => None,
            }),
        }
    }
}

/// The host is asked for when the script gives none (or `$PROMPT`), the
/// user name likewise, then the password when it is empty or `$PROMPT`, or
/// the key passphrase when it is `$PROMPT`; `answers` holds what was typed
/// so far, in that order.
pub open spec fn prepare_step(actions: ControlActions, answers: Seq<Seq<char>>) -> PrepareV {
    let ask_host = needs_prompt(actions.hostname@);
    if ask_host && answers.len() == 0 {
        PrepareV::AskLine("Please enter hostname to connect to:"@)
    } else {
        let host = if ask_host {
            host_entry(answers[0]).0
        } else {
            actions.hostname@
        };
        let port = if ask_host {
            match host_entry(answers[0]).1 {
                Some(n) => Some(n),
                None => actions.port,
            }
        } else {
            actions.port
        };
        let warning = if ask_host {
            host_entry_warning(answers[0])
        } else {
            None
        };
        let k: int = if ask_host {
            1
        } else {
            0
        };
        let configured = actions.auth@.username();
        let ask_user = needs_prompt(configured);
        if ask_user && answers.len() <= k {
            PrepareV::AskLine("Please enter username to authenticate with:"@)
        } else {
            let user = if ask_user {
                trim(answers[k])
            } else {
                configured
            };
            let k2: int = if ask_user {
                k + 1
            } else {
                k
            };
            match actions.auth@ {
                AuthV::UserPass(_, password) => if needs_prompt(password) {
                    if answers.len() <= k2 {
                        PrepareV::AskSecret(if !ask_host {
                            "Enter password for user '"@ + user + "' on host '"@ + host + "':"@
                        } else {
                            "Enter password for user '"@ + user + "':"@
                        })
                    } else {
                        PrepareV::Ready(host, port, AuthV::UserPass(user, answers[k2]), ask_host, warning)
                    }
                } else {
                    PrepareV::Ready(host, port, AuthV::UserPass(user, password), ask_host, warning)
                },
                AuthV::PublicKey(_, public_key, private_key, passphrase) => if passphrase == "$PROMPT"@ {
                    if answers.len() <= k2 {
                        PrepareV::AskSecret(if !ask_host {
                            "Enter key passphrase for user '"@ + user + "' on host '"@ + host + "':"@
                        } else {
                            "Enter key passphrase:"@
                        })
                    } else {
                        PrepareV::Ready(host, port, AuthV::PublicKey(user, public_key, private_key, answers[k2]), ask_host, warning)
                    }
                } else {
                    PrepareV::Ready(host, port, AuthV::PublicKey(user, public_key, private_key, passphrase), ask_host, warning)
                },
            }
        }
    }
}

fn needs_prompt_exec(s: &str) -> (r: bool)
    ensures
        r == needs_prompt(s@),
{
    s.unicode_len() == 0 || str_eq(s, "$PROMPT")
}

fn host_entry_exec(line: &str) -> (r: (String, Option<u32>, Option<String>))
    ensures
        r.0@ == host_entry(line@).0,
        r.1 == host_entry(line@).1,
        match r.2 {
            Some(w) => host_entry_warning(line@) == Some(w@),
            None => host_entry_warning(line@) is None,
        },
{
    let c = chars_of(line);
    let t = trim_chars(c.as_slice());
    match split_once_chars(t.as_slice(), ':') {
        Some(pr) => {
            let port = parse_u32_chars(pr.1.as_slice());
            let warning = if port.is_none() {
                Some(concat2("Error parsing suffix port number after hostname: ", string_of(pr.1.as_slice()).as_str()))
            } else {
                None
            };
            (string_of(pr.0.as_slice()), port, warning)
        },
        None => (string_of(t.as_slice()), None, None),
    }
}

impl ControlManager {
    /// What to ask before connecting, or where to connect and how to log
    /// in, given the answers typed so far.
    pub fn prepare_session(&self, actions: &ControlActions, answers: &Vec<String>) -> (r: PrepareStep)
        ensures
            r@ == prepare_step(*actions, answers@.map_values(|s: String| s@)),
    {
        let ghost av = answers@.map_values(|s: String| s@);
        let ask_host = needs_prompt_exec(actions.hostname.as_str());
        if ask_host && answers.len() == 0 {
            return PrepareStep::AskLine(owned("Please enter hostname to connect to:"));
        }
        let (host, port, warning) = if ask_host {
            assert(av[0] == answers@[0]@);
            let (h, p, w) = host_entry_exec(answers[0].as_str());
            let port = match p {
                Some(n) => Some(n),
                None => actions.port,
            };
            (h, port, w)
        } else {
            (owned(actions.hostname.as_str()), actions.port, None)
        };
        let k: usize = if ask_host {
            1
        } else {
            0
        };
        let configured = match &actions.auth {
            ControlSessionUserAuth::UserPass(up) => owned(up.username.as_str()),
            ControlSessionUserAuth::PublicKey(pk) => owned(pk.username.as_str()),
        };
        let ask_user = needs_prompt_exec(configured.as_str());
        if ask_user && answers.len() <= k {
            return PrepareStep::AskLine(owned("Please enter username to authenticate with:"));
        }
        let user = if ask_user {
            assert(av[k as int] == answers@[k as int]@);
            let uc = chars_of(answers[k].as_str());
            string_of(trim_chars(uc.as_slice()).as_slice())
        } else {
            configured
        };
        let k2: usize = if ask_user {
            k + 1
        } else {
            k
        };
        match &actions.auth {
            ControlSessionUserAuth::UserPass(up) => {
                if needs_prompt_exec(up.password.as_str()) {
                    if answers.len() <= k2 {
                        let prompt = if !ask_host {
                            concat5("Enter password for user '", user.as_str(), "' on host '", host.as_str(), "':")
                        } else {
                            concat3("Enter password for user '", user.as_str(), "':")
                        };
                        return PrepareStep::AskSecret(prompt);
                    }
                    assert(av[k2 as int] == answers@[k2 as int]@);
                    let auth = ControlSessionUserAuth::UserPass(UserAuthUserPass::new(user.as_str(), answers[k2].as_str()));
                    PrepareStep::Ready(SessionPlan { host, port, auth, asked_for_hostname: ask_host, port_warning: warning })
                } else {
                    let auth = ControlSessionUserAuth::UserPass(UserAuthUserPass::new(user.as_str(), up.password.as_str()));
                    PrepareStep::Ready(SessionPlan { host, port, auth, asked_for_hostname: ask_host, port_warning: warning })
                }
            },
            ControlSessionUserAuth::PublicKey(pk) => {
                if str_eq(pk.passphrase.as_str(), "$PROMPT") {
                    if answers.len() <= k2 {
                        let prompt = if !ask_host {
                            concat5("Enter key passphrase for user '", user.as_str(), "' on host '", host.as_str(), "':")
                        } else {
                            owned("Enter key passphrase:")
                        };
                        return PrepareStep::AskSecret(prompt);
                    }
                    assert(av[k2 as int] == answers@[k2 as int]@);
                    let auth = ControlSessionUserAuth::PublicKey(UserAuthPublicKey::new(
                        user.as_str(),
                        pk.publickey_path.as_str(),
                        pk.privatekey_path.as_str(),
                        answers[k2].as_str(),
                    ));
                    PrepareStep::Ready(SessionPlan { host, port, auth, asked_for_hostname: ask_host, port_warning: warning })
                } else {
                    let auth = ControlSessionUserAuth::PublicKey(UserAuthPublicKey::new(
                        user.as_str(),
                        pk.publickey_path.as_str(),
                        pk.privatekey_path.as_str(),
                        pk.passphrase.as_str(),
                    ));
                    PrepareStep::Ready(SessionPlan { host, port, auth, asked_for_hostname: ask_host, port_warning: warning })
                }
            },
        }
    }
}

// ---------------------------------------------------------------------
// Connecting
// ---------------------------------------------------------------------

/// How many retries a failing connection gets.
pub const RETRY_LIMIT: usize = 15;

/// The seconds between connection attempts.
pub const RETRY_PAUSE_SECS: u64 = 30;

/// The port to connect to: the one given, or 22.
pub open spec fn port_or_default(port: Option<u32>) -> u32 {
    match port {
        Some(n) => n,
        None => 22,
    }
}

/// What to do after a failed connection attempt.
pub enum ConnectDecision {
    /// Wait and try again; the retry count becomes the given number.
    Retry(usize),
    /// Stop, with the given message.
    GiveUp(String),
}

pub enum ConnectV {
    Retry(int),
    GiveUp(Seq<char>),
}

impl View for ConnectDecision {
    type V = ConnectV;

    open spec fn view(&self) -> ConnectV {
        match self {
            ConnectDecision::Retry(n) => ConnectV::Retry(*n as int),
            ConnectDecision::GiveUp(m) => ConnectV::GiveUp(m@),
        }
    }
}

/// A failed attempt is retried when retries are on and the error is one
/// that may pass, until `RETRY_LIMIT` retries have been made.
pub open spec fn connect_decision_spec(
    retry: bool,
    err: ControlSessionCreationError,
    retry_count: int,
    host: Seq<char>,
    port: Option<u32>,
) -> ConnectV {
    if retry && (err is ConnectionError || err is Other) {
        if retry_count <= RETRY_LIMIT {
            ConnectV::Retry(retry_count + 1)
        } else {
            ConnectV::GiveUp(
                "Connection failed after: "@ + nat_decimal(retry_count as nat) + " retry attempts, will abort. Latest error was: "@
                    + err.message_spec(),
            )
        }
    } else {
        ConnectV::GiveUp(
            "Error connecting to: "@ + host + ":"@ + nat_decimal(port_or_default(port) as nat) + ", error: "@ + err.message_spec()
                + "..."@,
        )
    }
}

impl ControlManager {
    /// What to do after a failed connection attempt.
    pub fn connect_decision(
        &self,
        general_params: &ControlGeneralParams,
        err: &ControlSessionCreationError,
        retry_count: usize,
        host: &str,
        port: Option<u32>,
    ) -> (r: ConnectDecision)
        ensures
            r@ == connect_decision_spec(general_params.retry, *err, retry_count as int, host@, port),
    {
        let msg = err.message();
        if general_params.retry && err.should_attempt_connection_retry() {
            if retry_count <= RETRY_LIMIT {
                ConnectDecision::Retry(retry_count + 1)
            } else {
                let count = string_of(u64_decimal(retry_count as u64).as_slice());
                ConnectDecision::GiveUp(concat4(
                    "Connection failed after: ",
                    count.as_str(),
                    " retry attempts, will abort. Latest error was: ",
                    msg.as_str(),
                ))
            }
        } else {
            let port_number: u32 = match port {
                Some(n) => n,
                None => 22,
            };
            let port_text = string_of(u64_decimal(port_number as u64).as_slice());
            let head = concat4("Error connecting to: ", host, ":", port_text.as_str());
            ConnectDecision::GiveUp(concat4(head.as_str(), ", error: ", msg.as_str(), "..."))
        }
    }
}

/// The number of connection attempts made when every attempt fails with
/// an error that may pass, retries on: the attempt at retry count `c` and
/// those after it.
pub open spec fn attempts_from(c: int) -> int
    decreases RETRY_LIMIT + 1 - c,
{
    if c > RETRY_LIMIT {
        1
    } else {
        1 + attempts_from(c + 1)
    }
}

/// A connection that keeps failing with errors that may pass is attempted
/// exactly `RETRY_LIMIT + 2` times: each retry raises the count by one, and
/// once the count passes `RETRY_LIMIT` the run gives up.
pub proof fn lemma_connection_attempts_bounded(err: ControlSessionCreationError, host: Seq<char>, port: Option<u32>)
    requires
        err is ConnectionError || err is Other,
    ensures
        forall|c: int| 0 <= c <= RETRY_LIMIT ==> #[trigger] connect_decision_spec(true, err, c, host, port) == ConnectV::Retry(c + 1),
        connect_decision_spec(true, err, RETRY_LIMIT + 1, host, port) is GiveUp,
        attempts_from(0) == RETRY_LIMIT + 2,
{
    lemma_attempts_from(0);
}

proof fn lemma_attempts_from(c: int)
    requires
        0 <= c <= RETRY_LIMIT + 1,
    ensures
        attempts_from(c) == RETRY_LIMIT + 2 - c,
    decreases RETRY_LIMIT + 1 - c,
{
    if c <= RETRY_LIMIT {
        lemma_attempts_from(c + 1);
    }
}

// ---------------------------------------------------------------------
// Validation and the run of the actions
// ---------------------------------------------------------------------

/// Whether the host passes the script's validation, given what it
/// reported of itself; the message says why not.
pub open spec fn validation_outcome(validation: SystemValidation, details: DetailsV) -> Result<(), Seq<char>> {
    match details {
        DetailsV::Found(d, rel) => if crate::control::control_system_validation::accepts_host(validation@, d, rel) {
            Ok(())
        } else {
            Err("Error: System validation failed expected constraints. System release: '"@ + rel + "'. Aborting."@)
        },
        _ => Err("Error: Couldn't validate system host details: error response was received from host request. Aborting."@),
    }
}

impl ControlManager {
    pub fn check_validation(&self, validation: &SystemValidation, details: &SystemDetailsStep) -> (r: Result<(), String>)
        ensures
            match r {
                Ok(()) => validation_outcome(*validation, details@) == Ok::<(), Seq<char>>(()),
                Err(m) => validation_outcome(*validation, details@) == Err::<(), Seq<char>>(m@),
            },
    {
        match details {
            SystemDetailsStep::Finished(Ok(d)) => {
                if validation.check_actual_distro_values(d.distr_id.as_str(), d.release.as_str()) {
                    Ok(())
                } else {
                    Err(concat3("Error: System validation failed expected constraints. System release: '", d.release.as_str(), "'. Aborting."))
                }
            },
            _ => Err(owned("Error: Couldn't validate system host details: error response was received from host request. Aborting.")),
        }
    }
}

pub open spec fn action_word(n: nat) -> Seq<char> {
    if n == 1 {
        "action"@
    } else {
        "actions"@
    }
}

/// The line announcing how many actions run.
pub open spec fn running_text(n: nat) -> Seq<char> {
    "Running "@ + nat_decimal(n) + " "@ + action_word(n) + "..."@
}

/// The line announcing one action, counted from one.
pub open spec fn action_banner_text(index: nat, t: ControlActionType) -> Seq<char> {
    " Running Action "@ + nat_decimal(index + 1) + ": "@ + action_type_text(t) + "..."@
}

/// The line reporting a failed action, counted from zero.
pub open spec fn action_failure_text(index: nat, t: ControlActionType, e: ActionErr) -> Seq<char> {
    let head = "Error running action index "@ + nat_decimal(index) + " : "@ + action_type_text(t);
    match e {
        ActionErr::NotImplemented => head + " - the action provider does not implement this action..."@,
        ActionErr::InvalidParams(s) => head + " - invalid parameters were provided for this action: "@ + s,
        ActionErr::FailedCommand(s) => head + " - "@ + s,
        ActionErr::FailedOther(s) => head + " - "@ + s,
        _ => head + " - ..."@,
    }
}

pub open spec fn success_text(n: nat) -> Seq<char> {
    "Successfully ran "@ + action_word(n) + "."@
}

fn action_word_exec(n: usize) -> (r: String)
    ensures
        r@ == action_word(n as nat),
{
    if n == 1 {
        owned("action")
    } else {
        owned("actions")
    }
}

impl ControlManager {
    pub fn running_message(&self, n: usize) -> (r: String)
        ensures
            r@ == running_text(n as nat),
    {
        let count = string_of(u64_decimal(n as u64).as_slice());
        let word = action_word_exec(n);
        concat5("Running ", count.as_str(), " ", word.as_str(), "...")
    }

    pub fn action_banner(&self, index: usize, t: ControlActionType) -> (r: String)
        requires
            index < usize::MAX,
        ensures
            r@ == action_banner_text(index as nat, t),
    {
        let count = string_of(u64_decimal((index + 1) as u64).as_slice());
        let name = t.to_text();
        concat5(" Running Action ", count.as_str(), ": ", name.as_str(), "...")
    }

    pub fn action_failure_message(&self, index: usize, t: ControlActionType, e: &ActionError) -> (r: String)
        ensures
            r@ == action_failure_text(index as nat, t, e@),
    {
        let count = string_of(u64_decimal(index as u64).as_slice());
        let name = t.to_text();
        let head = concat4("Error running action index ", count.as_str(), " : ", name.as_str());
        match e {
            ActionError::NotImplemented => concat2(head.as_str(), " - the action provider does not implement this action..."),
            ActionError::InvalidParams(s) => concat3(head.as_str(), " - invalid parameters were provided for this action: ", s.as_str()),
            ActionError::FailedCommand(s) => concat3(head.as_str(), " - ", s.as_str()),
            ActionError::FailedOther(s) => concat3(head.as_str(), " - ", s.as_str()),
            _ => concat2(head.as_str(), " - ..."),
        }
    }

    pub fn success_message(&self, n: usize) -> (r: String)
        ensures
            r@ == success_text(n as nat),
    {
        let word = action_word_exec(n);
        concat3("Successfully ran ", word.as_str(), ".")
    }
}


// ---------------------------------------------------------------------
// The order of a session
// ---------------------------------------------------------------------

/// Where a session of a control script stands.
#[derive(Clone, Copy, Debug, PartialEq, Eq, Structural)]
pub enum SessionState {
    /// Nothing has been done yet.
    Start,
    /// The script is accepted; what it leaves open is being asked for.
    Preparing,
    /// The host and login are known; the connection is being made.
    Connecting,
    /// Connected; the host is being checked against the script's validation.
    Validating,
    /// The action at this position is running.
    Running(usize),
    /// The session is over.
    Finished,
}

/// What happened in the work the last step asked for.
#[derive(Clone, Copy, Debug, PartialEq, Eq, Structural)]
pub enum SessionEvent {
    /// The session begins.
    Started,
    /// The answers were gathered and the session planned.
    Prepared,
    /// A connection was made (`true`), or the attempts were given up.
    Connected(bool),
    /// The host passed the validation (`true`), or not.
    Validated(bool),
    /// The running action succeeded (`true`), or failed.
    ActionFinished(bool),
}

/// The work a session asks for next.
pub enum SessionAction {
    /// The script cannot be run: report the message; nothing is asked or sent.
    Refuse(String),
    /// Ask for what the script leaves open (see `prepare_session`).
    Prepare,
    /// Connect to the host (see `connect_decision`).
    Connect,
    /// Check the host against the validation (see `check_validation`).
    Validate,
    /// Run the action at this position.
    Run(usize),
    /// The session is over: every action succeeded (`true`), or it stopped.
    Finish(bool),
}

/// A session step by its texts.
pub enum SessionActionV {
    Refuse(Seq<char>),
    Prepare,
    Connect,
    Validate,
    Run(nat),
    Finish(bool),
}

impl View for SessionAction {
    type V = SessionActionV;

    open spec fn view(&self) -> SessionActionV {
        match self {
            SessionAction::Refuse(m) => SessionActionV::Refuse(m@),
            SessionAction::Prepare => SessionActionV::Prepare,
            SessionAction::Connect => SessionActionV::Connect,
            SessionAction::Validate => SessionActionV::Validate,
            SessionAction::Run(i) => SessionActionV::Run(*i as nat),
            SessionAction::Finish(b) => SessionActionV::Finish(*b),
        }
    }
}

/// The provider name is one the library has.
pub open spec fn known_provider(provider: Seq<char>) -> bool {
    provider == "linux_debian"@ || provider == "linux_fedora"@
}

/// The validation asks for something to be checked.
pub open spec fn validation_needed(v: SystemValidation) -> bool {
    v@.id_name is Some || !(v@.release is NotSet)
}

/// The action at position `i` runs next, or, past the last action, the
/// session is over with every action done.
pub open spec fn run_from(i: int, n: int) -> (SessionState, SessionActionV) {
    if i < n {
        (SessionState::Running(i as usize), SessionActionV::Run(i as nat))
    } else {
        (SessionState::Finished, SessionActionV::Finish(true))
    }
}

/// The order of a session: a script without actions is refused, then a
/// script whose provider is unknown, both before anything is asked; then
/// the answers are gathered, the connection made, the host checked when the
/// script asks for it, and the actions run in order, the session stopping
/// at the first that fails. An event that does not fit the state ends the
/// session.
pub open spec fn session_next(
    n_actions: nat,
    provider: Seq<char>,
    validation: SystemValidation,
    state: SessionState,
    event: SessionEvent,
) -> (SessionState, SessionActionV) {
    match (state, event) {
        (SessionState::Start, SessionEvent::Started) => if n_actions == 0 {
            (SessionState::Finished, SessionActionV::Refuse("Error: no valid actions specified."@))
        } else if !known_provider(provider) {
            (
                SessionState::Finished,
                SessionActionV::Refuse("Error: Can't find control provider: '"@ + provider + "'."@),
            )
        } else {
            (SessionState::Preparing, SessionActionV::Prepare)
        },
        (SessionState::Preparing, SessionEvent::Prepared) => (SessionState::Connecting, SessionActionV::Connect),
        (SessionState::Connecting, SessionEvent::Connected(ok)) => if !ok {
            (SessionState::Finished, SessionActionV::Finish(false))
        } else if validation_needed(validation) {
            (SessionState::Validating, SessionActionV::Validate)
        } else {
            run_from(0, n_actions as int)
        },
        (SessionState::Validating, SessionEvent::Validated(ok)) => if ok {
            run_from(0, n_actions as int)
        } else {
            (SessionState::Finished, SessionActionV::Finish(false))
        },
        (SessionState::Running(i), SessionEvent::ActionFinished(ok)) => if ok {
            run_from(i + 1, n_actions as int)
        } else {
            (SessionState::Finished, SessionActionV::Finish(false))
        },
        _ => (SessionState::Finished, SessionActionV::Finish(false)),
    }
}

impl ControlManager {
    /// The next step of running a control script, from where the session
    /// stands and what the last step's work came to.
    pub fn session_step(&self, actions: &ControlActions, state: SessionState, event: SessionEvent) -> (r: (
        SessionState,
        SessionAction,
    ))
        ensures
            (r.0, r.1@) == session_next(
                actions.actions@.len(),
                actions.provider@,
                actions.system_validation,
                state,
                event,
            ),
    {
        let n = actions.actions.len();
        match (state, event) {
            (SessionState::Start, SessionEvent::Started) => {
                if n == 0 {
                    (SessionState::Finished, SessionAction::Refuse(owned("Error: no valid actions specified.")))
                } else {
                    let debian = AProviderLinuxDebian::name();
                    let fedora = AProviderLinuxFedora::name();
                    if str_eq(actions.provider.as_str(), debian.as_str()) || str_eq(
                        actions.provider.as_str(),
                        fedora.as_str(),
                    ) {
                        (SessionState::Preparing, SessionAction::Prepare)
                    } else {
                        (
                            SessionState::Finished,
                            SessionAction::Refuse(
                                concat3("Error: Can't find control provider: '", actions.provider.as_str(), "'."),
                            ),
                        )
                    }
                }
            },
            (SessionState::Preparing, SessionEvent::Prepared) => (SessionState::Connecting, SessionAction::Connect),
            (SessionState::Connecting, SessionEvent::Connected(ok)) => {
                if !ok {
                    (SessionState::Finished, SessionAction::Finish(false))
                } else if actions.system_validation.needs_checking() {
                    (SessionState::Validating, SessionAction::Validate)
                } else if 0 < n {
                    (SessionState::Running(0), SessionAction::Run(0))
                } else {
                    (SessionState::Finished, SessionAction::Finish(true))
                }
            },
            (SessionState::Validating, SessionEvent::Validated(ok)) => {
                if !ok {
                    (SessionState::Finished, SessionAction::Finish(false))
                } else if 0 < n {
                    (SessionState::Running(0), SessionAction::Run(0))
                } else {
                    (SessionState::Finished, SessionAction::Finish(true))
                }
            },
            (SessionState::Running(i), SessionEvent::ActionFinished(ok)) => {
                if !ok {
                    (SessionState::Finished, SessionAction::Finish(false))
                } else if i < n && i + 1 < n {
                    (SessionState::Running(i + 1), SessionAction::Run(i + 1))
                } else {
                    (SessionState::Finished, SessionAction::Finish(true))
                }
            },
            _ => (SessionState::Finished, SessionAction::Finish(false)),
        }
    }
}

/// A script without actions, or with a provider the library does not
/// have, is refused at the first step, before anything is asked or sent;
/// any other script goes on to gathering its answers.
pub proof fn lemma_session_refuses_before_prompting(n_actions: nat, provider: Seq<char>, validation: SystemValidation)
    ensures
        n_actions == 0 ==> session_next(n_actions, provider, validation, SessionState::Start, SessionEvent::Started)
            == (SessionState::Finished, SessionActionV::Refuse("Error: no valid actions specified."@)),
        n_actions > 0 && !known_provider(provider) ==> session_next(
            n_actions,
            provider,
            validation,
            SessionState::Start,
            SessionEvent::Started,
        ) == (SessionState::Finished, SessionActionV::Refuse("Error: Can't find control provider: '"@ + provider + "'."@)),
        n_actions > 0 && known_provider(provider) ==> session_next(
            n_actions,
            provider,
            validation,
            SessionState::Start,
            SessionEvent::Started,
        ) == (SessionState::Preparing, SessionActionV::Prepare),
{
}

/// Nothing is asked before the first step has accepted the script: from
/// the start, whatever comes, the session refuses, prepares or ends.
pub proof fn lemma_session_start_asks_nothing(
    n_actions: nat,
    provider: Seq<char>,
    validation: SystemValidation,
    event: SessionEvent,
)
    ensures
        ({
            let (next, act) = session_next(n_actions, provider, validation, SessionState::Start, event);
            act is Refuse || act is Finish || (act is Prepare && n_actions > 0 && known_provider(provider))
        }),
{
}

/// The actions run in order, each once, and the session stops at the first
/// that fails: after the action at `i` succeeds, the one at `i + 1` runs,
/// or, after the last, the session ends with every action done; after a
/// failure the session ends without running another.
pub proof fn lemma_session_runs_actions_in_order(
    n_actions: nat,
    provider: Seq<char>,
    validation: SystemValidation,
    i: usize,
)
    requires
        i < n_actions,
    ensures
        i + 1 < n_actions ==> session_next(
            n_actions,
            provider,
            validation,
            SessionState::Running(i),
            SessionEvent::ActionFinished(true),
        ) == (SessionState::Running((i + 1) as usize), SessionActionV::Run((i + 1) as nat)),
        i + 1 == n_actions ==> session_next(
            n_actions,
            provider,
            validation,
            SessionState::Running(i),
            SessionEvent::ActionFinished(true),
        ) == (SessionState::Finished, SessionActionV::Finish(true)),
        session_next(n_actions, provider, validation, SessionState::Running(i), SessionEvent::ActionFinished(false))
            == (SessionState::Finished, SessionActionV::Finish(false)),
{
}

/// Once connected (and, when the script asks for it, validated), the
/// first action to run is the first of the script.
pub proof fn lemma_session_starts_at_first_action(
    n_actions: nat,
    provider: Seq<char>,
    validation: SystemValidation,
)
    requires
        n_actions > 0,
    ensures
        !validation_needed(validation) ==> session_next(
            n_actions,
            provider,
            validation,
            SessionState::Connecting,
            SessionEvent::Connected(true),
        ) == (SessionState::Running(0), SessionActionV::Run(0)),
        validation_needed(validation) ==> session_next(
            n_actions,
            provider,
            validation,
            SessionState::Connecting,
            SessionEvent::Connected(true),
        ) == (SessionState::Validating, SessionActionV::Validate),
        session_next(n_actions, provider, validation, SessionState::Validating, SessionEvent::Validated(true)) == (
            SessionState::Running(0),
            SessionActionV::Run(0),
        ),
        session_next(n_actions, provider, validation, SessionState::Validating, SessionEvent::Validated(false)) == (
            SessionState::Finished,
            SessionActionV::Finish(false),
        ),
{
}

} // verus!
