//! Control actions: what a control script asks to be done on a host, and
//! how an action can fail.
use vstd::prelude::*;
use crate::control::action_script::{post_process_command, ActionStep};
use crate::control::common_actions_linux::SystemDetailsStep;
use crate::control::control_common::{ControlSessionParams, ControlSessionUserAuth, UserAuthUserPass};
use crate::control::control_connection::ActionReply;
use crate::control::control_common::{AuthV, UserAuthPublicKey};
use crate::control::control_system_validation::{
    empty_validation, parse_validation, validation_text_is_readable, validation_text_ok, SystemValidation,
    ValidationSpec,
};
use crate::params::{str_of, yaml_entries, yaml_param, ParamVal, ParamValue, Params};
use crate::text::{
    chars_eq, chars_of, concat3, eq_ignore_ascii_case, eq_ignore_ascii_case_chars, int_decimal, int_to_string,
    lower_ascii, nat_decimal, owned, slice_chars, str_eq, string_of, to_ascii_lower, u64_decimal,
};
use crate::text::concat5;
use crate::yaml::{hash_get, hash_lookup, load_yaml_documents, yaml_documents, YamlNode};

verus! {

/// The kinds of control action.
#[derive(Clone, Copy, Debug, PartialEq, Eq, Structural)]
pub enum ControlActionType {
    NotSet,
    Unrecognised,
    GenericCommand,
    AddUser,
    CreateDirectory,
    RemoveDirectory,
    InstallPackages,
    RemovePackages,
    SystemCtl,
    Firewall,
    EditFile,
    CopyPath,
    RemoveFile,
    DownloadFile,
    TransmitFile,
    ReceiveFile,
    CreateSymlink,
    SetTimeZone,
    DisableSwap,
    CreateFile,
    AddGroup,
    SetHostname,
    CreateSystemdService,
    ConfigureSSH,
    AddPackageRepo,
}

/// The name an action type is written with in a control script.
pub open spec fn action_type_text(t: ControlActionType) -> Seq<char> {
    match t {
        ControlActionType::NotSet => "None"@,
        ControlActionType::Unrecognised => "Unrecognised"@,
        ControlActionType::GenericCommand => "genericCommand"@,
        ControlActionType::AddUser => "addUser"@,
        ControlActionType::CreateDirectory => "createDirectory"@,
        ControlActionType::RemoveDirectory => "removeDirectory"@,
        ControlActionType::InstallPackages => "installPackages"@,
        ControlActionType::RemovePackages => "removePackages"@,
        ControlActionType::SystemCtl => "systemCtl"@,
        ControlActionType::Firewall => "firewall"@,
        ControlActionType::EditFile => "editFile"@,
        ControlActionType::CopyPath => "copyPath"@,
        ControlActionType::RemoveFile => "removeFile"@,
        ControlActionType::DownloadFile => "downloadFile"@,
        ControlActionType::TransmitFile => "transmitFile"@,
        ControlActionType::ReceiveFile => "receiveFile"@,
        ControlActionType::CreateSymlink => "createSymlink"@,
        ControlActionType::SetTimeZone => "setTimeZone"@,
        ControlActionType::DisableSwap => "disableSwap"@,
        ControlActionType::CreateFile => "createFile"@,
        ControlActionType::AddGroup => "addGroup"@,
        ControlActionType::SetHostname => "setHostname"@,
        ControlActionType::CreateSystemdService => "createSystemdService"@,
        ControlActionType::ConfigureSSH => "configureSSH"@,
        ControlActionType::AddPackageRepo => "addPackageRepo"@,
    }
}

/// The action type a name in a control script stands for; names that are
/// not known give `Unrecognised`.
pub open spec fn action_type_named(name: Seq<char>) -> ControlActionType {
    if name == "genericCommand"@ {
        ControlActionType::GenericCommand
    } else if name == "addUser"@ {
        ControlActionType::AddUser
    } else if name == "createDirectory"@ {
        ControlActionType::CreateDirectory
    } else if name == "removeDirectory"@ {
        ControlActionType::RemoveDirectory
    } else if name == "installPackages"@ {
        ControlActionType::InstallPackages
    } else if name == "removePackages"@ {
        ControlActionType::RemovePackages
    } else if name == "systemCtl"@ {
        ControlActionType::SystemCtl
    } else if name == "firewall"@ {
        ControlActionType::Firewall
    } else if name == "editFile"@ {
        ControlActionType::EditFile
    } else if name == "copyPath"@ {
        ControlActionType::CopyPath
    } else if name == "removeFile"@ {
        ControlActionType::RemoveFile
    } else if name == "downloadFile"@ {
        ControlActionType::DownloadFile
    } else if name == "transmitFile"@ {
        ControlActionType::TransmitFile
    } else if name == "receiveFile"@ {
        ControlActionType::ReceiveFile
    } else if name == "createSymlink"@ {
        ControlActionType::CreateSymlink
    } else if name == "setTimeZone"@ {
        ControlActionType::SetTimeZone
    } else if name == "disableSwap"@ {
        ControlActionType::DisableSwap
    } else if name == "createFile"@ {
        ControlActionType::CreateFile
    } else if name == "addGroup"@ {
        ControlActionType::AddGroup
    } else if name == "setHostname"@ {
        ControlActionType::SetHostname
    } else if name == "createSystemdService"@ {
        ControlActionType::CreateSystemdService
    } else if name == "configureSSH"@ {
        ControlActionType::ConfigureSSH
    } else if name == "addPackageRepo"@ {
        ControlActionType::AddPackageRepo
    } else {
        ControlActionType::Unrecognised
    }
}

impl ControlActionType {
    /// The name of the action type, as written in a control script.
    pub fn to_text(&self) -> (r: String)
        ensures
            r@ == action_type_text(*self),
    {
        match self {
            ControlActionType::NotSet => owned("None"),
            ControlActionType::Unrecognised => owned("Unrecognised"),
            ControlActionType::GenericCommand => owned("genericCommand"),
            ControlActionType::AddUser => owned("addUser"),
            ControlActionType::CreateDirectory => owned("createDirectory"),
            ControlActionType::RemoveDirectory => owned("removeDirectory"),
            ControlActionType::InstallPackages => owned("installPackages"),
            ControlActionType::RemovePackages => owned("removePackages"),
            ControlActionType::SystemCtl => owned("systemCtl"),
            ControlActionType::Firewall => owned("firewall"),
            ControlActionType::EditFile => owned("editFile"),
            ControlActionType::CopyPath => owned("copyPath"),
            ControlActionType::RemoveFile => owned("removeFile"),
            ControlActionType::DownloadFile => owned("downloadFile"),
            ControlActionType::TransmitFile => owned("transmitFile"),
            ControlActionType::ReceiveFile => owned("receiveFile"),
            ControlActionType::CreateSymlink => owned("createSymlink"),
            ControlActionType::SetTimeZone => owned("setTimeZone"),
            ControlActionType::DisableSwap => owned("disableSwap"),
            ControlActionType::CreateFile => owned("createFile"),
            ControlActionType::AddGroup => owned("addGroup"),
            ControlActionType::SetHostname => owned("setHostname"),
            ControlActionType::CreateSystemdService => owned("createSystemdService"),
            ControlActionType::ConfigureSSH => owned("configureSSH"),
            ControlActionType::AddPackageRepo => owned("addPackageRepo"),
        }
    }
}

/// How an action failed.
#[derive(Clone, Debug)]
pub enum ActionError {
    NotImplemented,
    InvalidParams(String),
    CantConnect,
    AuthenticationIssue,
    FailedCommand(String),
    FailedOther(String),
}

/// An action failure with its text as characters.
pub enum ActionErr {
    NotImplemented,
    InvalidParams(Seq<char>),
    CantConnect,
    AuthenticationIssue,
    FailedCommand(Seq<char>),
    FailedOther(Seq<char>),
}

impl View for ActionError {
    type V = ActionErr;

    open spec fn view(&self) -> ActionErr {
        match self {
            ActionError::NotImplemented => ActionErr::NotImplemented,
            ActionError::InvalidParams(s) => ActionErr::InvalidParams(s@),
            ActionError::CantConnect => ActionErr::CantConnect,
            ActionError::AuthenticationIssue => ActionErr::AuthenticationIssue,
            ActionError::FailedCommand(s) => ActionErr::FailedCommand(s@),
            ActionError::FailedOther(s) => ActionErr::FailedOther(s@),
        }
    }
}

/// One action of a control script, with its parameters.
#[derive(Debug)]
pub struct ControlAction {
    pub action: ControlActionType,
    pub params: Params,
}

/// The text of the error for a missing required string parameter.
pub open spec fn missing_param_text(name: Seq<char>) -> Seq<char> {
    "The '"@ + name + "' parameter was not specified."@
}

impl ControlAction {
    pub fn new() -> (r: ControlAction)
        ensures
            r.action == ControlActionType::NotSet,
            r.params.values@.len() == 0,
    {
        ControlAction { action: ControlActionType::NotSet, params: Params::new() }
    }

    /// A parameter that must be given as a string.
    pub fn get_required_string_param(&self, param_name: &str) -> (r: Result<String, ActionError>)
        ensures
            match str_of(self.params.get(param_name@)) {
                Some(s) => r matches Ok(v) && v@ == s,
                None => r matches Err(e) && e@ == ActionErr::InvalidParams(missing_param_text(param_name@)),
            },
    {
        match self.params.get_string_value(param_name) {
            Some(value) => Ok(value),
            None => Err(ActionError::InvalidParams(concat3("The '", param_name, "' parameter was not specified."))),
        }
    }
}

/// What a host reports of its distribution.
pub struct SystemDetailsResult {
    pub distr_id: String,
    pub release: String,
}

impl SystemDetailsResult {
    pub fn new() -> (r: SystemDetailsResult)
        ensures
            r.distr_id@.len() == 0,
            r.release@.len() == 0,
    {
        SystemDetailsResult { distr_id: String::new(), release: String::new() }
    }
}

/// How a request for values from a host failed.
pub enum GenericError {
    NotImplemented,
    CommandFailed(String),
    Other(String),
}

/// A control script: where to connect, how to log in, what to check of the
/// host, and the actions to run.
#[derive(Debug)]
pub struct ControlActions {
    pub provider: String,
    pub hostname: String,
    pub port: Option<u32>,
    pub auth: ControlSessionUserAuth,
    pub system_validation: SystemValidation,
    pub actions: Vec<ControlAction>,
}

impl ControlActions {
    /// An empty script: no provider, no host, a user/password login with
    /// both empty, nothing to check and no actions.
    pub fn new() -> (r: ControlActions)
        ensures
            r.provider@.len() == 0,
            r.hostname@.len() == 0,
            r.port is None,
            r.auth matches ControlSessionUserAuth::UserPass(up) && up.username@.len() == 0 && up.password@.len() == 0,
            r.system_validation@ == empty_validation(),
            r.actions@.len() == 0,
    {
        proof {
            reveal_strlit("");
        }
        ControlActions {
            provider: String::new(),
            hostname: String::new(),
            port: None,
            auth: ControlSessionUserAuth::UserPass(UserAuthUserPass::new("", "")),
            system_validation: SystemValidation::new(),
            actions: Vec::new(),
        }
    }
}

/// What a provider of control actions offers. Each action is asked for
/// its next step, given the replies to the requests it made so far; an
/// action a provider does not offer is not implemented.
pub trait ActionProvider {
    fn name(&self) -> (r: String)
        default_ensures
            r@.len() == 0,
    {
        String::new()
    }

    /// The session settings the provider runs with, if any.
    spec fn session_spec(&self) -> Option<ControlSessionParams>;

    /// The session settings the provider runs with, if any.
    fn get_session_params(&self) -> (r: Option<&ControlSessionParams>)
        ensures
            match r {
                Some(p) => self.session_spec() == Some(*p),
                None => self.session_spec() is None,
            };

    /// A command as the session sends it; empty without session settings.
    fn post_process_command(&self, command: &str) -> (r: String)
        default_ensures
            r@ == match self.session_spec() {
                Some(p) => crate::control::action_script::processed_command(p, command@),
                None => seq![],
            },
    {
        match self.get_session_params() {
            Some(p) => post_process_command(p, command),
            None => String::new(),
        }
    }

    fn generic_command(&self, action: &ControlAction, replies: &Vec<ActionReply>) -> (r: ActionStep)
        default_ensures
            r@ == crate::control::action_script::StepV::Finished(Err(ActionErr::NotImplemented)),
    {
        ActionStep::Finished(Err(ActionError::NotImplemented))
    }

    fn get_system_details(&self, replies: &Vec<ActionReply>) -> (r: SystemDetailsStep)
        default_ensures
            r@ == crate::control::common_actions_linux::DetailsV::NotImplemented,
    {
        SystemDetailsStep::Finished(Err(GenericError::NotImplemented))
    }

    fn add_user(&self, action: &ControlAction, replies: &Vec<ActionReply>) -> (r: ActionStep)
        default_ensures
            r@ == crate::control::action_script::StepV::Finished(Err(ActionErr::NotImplemented)),
    {
        ActionStep::Finished(Err(ActionError::NotImplemented))
    }

    fn create_directory(&self, action: &ControlAction, replies: &Vec<ActionReply>) -> (r: ActionStep)
        default_ensures
            r@ == crate::control::action_script::StepV::Finished(Err(ActionErr::NotImplemented)),
    {
        ActionStep::Finished(Err(ActionError::NotImplemented))
    }

    fn remove_directory(&self, action: &ControlAction, replies: &Vec<ActionReply>) -> (r: ActionStep)
        default_ensures
            r@ == crate::control::action_script::StepV::Finished(Err(ActionErr::NotImplemented)),
    {
        ActionStep::Finished(Err(ActionError::NotImplemented))
    }

    fn install_packages(&self, action: &ControlAction, replies: &Vec<ActionReply>) -> (r: ActionStep)
        default_ensures
            r@ == crate::control::action_script::StepV::Finished(Err(ActionErr::NotImplemented)),
    {
        ActionStep::Finished(Err(ActionError::NotImplemented))
    }

    fn remove_packages(&self, action: &ControlAction, replies: &Vec<ActionReply>) -> (r: ActionStep)
        default_ensures
            r@ == crate::control::action_script::StepV::Finished(Err(ActionErr::NotImplemented)),
    {
        ActionStep::Finished(Err(ActionError::NotImplemented))
    }

    fn systemctrl(&self, action: &ControlAction, replies: &Vec<ActionReply>) -> (r: ActionStep)
        default_ensures
            r@ == crate::control::action_script::StepV::Finished(Err(ActionErr::NotImplemented)),
    {
        ActionStep::Finished(Err(ActionError::NotImplemented))
    }

    fn firewall(&self, action: &ControlAction, replies: &Vec<ActionReply>) -> (r: ActionStep)
        default_ensures
            r@ == crate::control::action_script::StepV::Finished(Err(ActionErr::NotImplemented)),
    {
        ActionStep::Finished(Err(ActionError::NotImplemented))
    }

    fn edit_file(&self, action: &ControlAction, replies: &Vec<ActionReply>) -> (r: ActionStep)
        default_ensures
            r@ == crate::control::action_script::StepV::Finished(Err(ActionErr::NotImplemented)),
    {
        ActionStep::Finished(Err(ActionError::NotImplemented))
    }

    fn copy_path(&self, action: &ControlAction, replies: &Vec<ActionReply>) -> (r: ActionStep)
        default_ensures
            r@ == crate::control::action_script::StepV::Finished(Err(ActionErr::NotImplemented)),
    {
        ActionStep::Finished(Err(ActionError::NotImplemented))
    }

    fn remove_file(&self, action: &ControlAction, replies: &Vec<ActionReply>) -> (r: ActionStep)
        default_ensures
            r@ == crate::control::action_script::StepV::Finished(Err(ActionErr::NotImplemented)),
    {
        ActionStep::Finished(Err(ActionError::NotImplemented))
    }

    fn download_file(&self, action: &ControlAction, replies: &Vec<ActionReply>) -> (r: ActionStep)
        default_ensures
            r@ == crate::control::action_script::StepV::Finished(Err(ActionErr::NotImplemented)),
    {
        ActionStep::Finished(Err(ActionError::NotImplemented))
    }

    fn transmit_file(&self, action: &ControlAction, replies: &Vec<ActionReply>) -> (r: ActionStep)
        default_ensures
            r@ == crate::control::action_script::StepV::Finished(Err(ActionErr::NotImplemented)),
    {
        ActionStep::Finished(Err(ActionError::NotImplemented))
    }

    fn receive_file(&self, action: &ControlAction, replies: &Vec<ActionReply>) -> (r: ActionStep)
        default_ensures
            r@ == crate::control::action_script::StepV::Finished(Err(ActionErr::NotImplemented)),
    {
        ActionStep::Finished(Err(ActionError::NotImplemented))
    }

    fn create_symlink(&self, action: &ControlAction, replies: &Vec<ActionReply>) -> (r: ActionStep)
        default_ensures
            r@ == crate::control::action_script::StepV::Finished(Err(ActionErr::NotImplemented)),
    {
        ActionStep::Finished(Err(ActionError::NotImplemented))
    }

    fn set_time_zone(&self, action: &ControlAction, replies: &Vec<ActionReply>) -> (r: ActionStep)
        default_ensures
            r@ == crate::control::action_script::StepV::Finished(Err(ActionErr::NotImplemented)),
    {
        ActionStep::Finished(Err(ActionError::NotImplemented))
    }

    fn disable_swap(&self, action: &ControlAction, replies: &Vec<ActionReply>) -> (r: ActionStep)
        default_ensures
            r@ == crate::control::action_script::StepV::Finished(Err(ActionErr::NotImplemented)),
    {
        ActionStep::Finished(Err(ActionError::NotImplemented))
    }

    fn create_file(&self, action: &ControlAction, replies: &Vec<ActionReply>) -> (r: ActionStep)
        default_ensures
            r@ == crate::control::action_script::StepV::Finished(Err(ActionErr::NotImplemented)),
    {
        ActionStep::Finished(Err(ActionError::NotImplemented))
    }

    fn add_group(&self, action: &ControlAction, replies: &Vec<ActionReply>) -> (r: ActionStep)
        default_ensures
            r@ == crate::control::action_script::StepV::Finished(Err(ActionErr::NotImplemented)),
    {
        ActionStep::Finished(Err(ActionError::NotImplemented))
    }

    fn set_hostname(&self, action: &ControlAction, replies: &Vec<ActionReply>) -> (r: ActionStep)
        default_ensures
            r@ == crate::control::action_script::StepV::Finished(Err(ActionErr::NotImplemented)),
    {
        ActionStep::Finished(Err(ActionError::NotImplemented))
    }

    fn create_systemd_service(&self, action: &ControlAction, replies: &Vec<ActionReply>) -> (r: ActionStep)
        default_ensures
            r@ == crate::control::action_script::StepV::Finished(Err(ActionErr::NotImplemented)),
    {
        ActionStep::Finished(Err(ActionError::NotImplemented))
    }

    fn configure_ssh(&self, action: &ControlAction, replies: &Vec<ActionReply>) -> (r: ActionStep)
        default_ensures
            r@ == crate::control::action_script::StepV::Finished(Err(ActionErr::NotImplemented)),
    {
        ActionStep::Finished(Err(ActionError::NotImplemented))
    }

    fn add_package_repo(&self, action: &ControlAction, replies: &Vec<ActionReply>) -> (r: ActionStep)
        default_ensures
            r@ == crate::control::action_script::StepV::Finished(Err(ActionErr::NotImplemented)),
    {
        ActionStep::Finished(Err(ActionError::NotImplemented))
    }
}

// ---------------------------------------------------------------------
// Reading control scripts
// ---------------------------------------------------------------------

/// Why a script or parameter file could not be loaded.
#[derive(Debug)]
pub enum FileLoadError {
    CustomError(String),
    StdError(String),
    IOError(String),
}

pub enum LoadErr {
    CustomError(Seq<char>),
    StdError(Seq<char>),
    IOError(Seq<char>),
}

impl View for FileLoadError {
    type V = LoadErr;

    open spec fn view(&self) -> LoadErr {
        match self {
            FileLoadError::CustomError(s) => LoadErr::CustomError(s@),
            FileLoadError::StdError(s) => LoadErr::StdError(s@),
            FileLoadError::IOError(s) => LoadErr::IOError(s@),
        }
    }
}

/// An action of a script as read: its type and its parameters in order.
pub struct ActionSpecV {
    pub t: ControlActionType,
    pub params: Seq<(Seq<char>, ParamVal)>,
}

/// A control script as read.
pub struct ScriptV {
    pub provider: Seq<char>,
    pub hostname: Seq<char>,
    pub port: Option<u32>,
    pub auth: AuthV,
    pub validation: ValidationSpec,
    pub actions: Seq<ActionSpecV>,
}

/// The value of the last parameter with the given name.
pub open spec fn last_value(es: Seq<(Seq<char>, ParamVal)>, k: Seq<char>) -> Option<ParamVal>
    decreases es.len(),
{
    if es.len() == 0 {
        None
    } else if es.last().0 == k {
        Some(es.last().1)
    } else {
        last_value(es.drop_last(), k)
    }
}

pub open spec fn opt_param_view(v: Option<ParamValue>) -> Option<ParamVal> {
    match v {
        Some(p) => Some(p@),
        None => None,
    }
}

/// An action holds what was read: the type, and under each name the last
/// value given for it.
pub open spec fn action_matches(a: ControlAction, s: ActionSpecV) -> bool {
    &&& a.action == s.t
    &&& forall|k: Seq<char>| #[trigger] opt_param_view(a.params.get(k)) == last_value(s.params, k)
}

pub open spec fn script_matches(ca: ControlActions, s: ScriptV) -> bool {
    &&& ca.provider@ == s.provider
    &&& ca.hostname@ == s.hostname
    &&& ca.port == s.port
    &&& ca.auth@ == s.auth
    &&& ca.system_validation@ == s.validation
    &&& ca.actions@.len() == s.actions.len()
    &&& forall|i: int| 0 <= i < s.actions.len() ==> action_matches(#[trigger] ca.actions@[i], s.actions[i])
}

/// The action an entry of the `actions` list names: a known action name
/// with a map of parameters.
pub open spec fn action_item(name: Seq<char>, values: Seq<(YamlNode, YamlNode)>) -> Seq<ActionSpecV> {
    let t = action_type_named(name);
    if t == ControlActionType::Unrecognised {
        seq![]
    } else {
        seq![ActionSpecV { t, params: yaml_entries(values) }]
    }
}

/// The actions an `actions` node holds: lists are read item by item, maps
/// entry by entry; an entry is an action when its key is a string and its
/// value a map.
pub open spec fn actions_in(n: YamlNode) -> Seq<ActionSpecV>
    decreases n,
{
    match n {
        YamlNode::Array(a) => actions_in_seq(a@),
        YamlNode::Hash(h) => actions_in_hash(h@),
        _ => seq![],
    }
}

pub open spec fn actions_in_seq(s: Seq<YamlNode>) -> Seq<ActionSpecV>
    decreases s,
{
    if s.len() == 0 {
        seq![]
    } else {
        actions_in_seq(s.drop_last()) + actions_in(s.last())
    }
}

pub open spec fn actions_in_hash(h: Seq<(YamlNode, YamlNode)>) -> Seq<ActionSpecV>
    decreases h.len(),
{
    if h.len() == 0 {
        seq![]
    } else {
        actions_in_hash(h.drop_last()) + match (h.last().0, h.last().1) {
            (YamlNode::Str(k), YamlNode::Hash(vh)) => action_item(k@, vh@),
            _ => seq![],
        }
    }
}

/// The text under a key of a map, when it is a string.
pub open spec fn str_item(h: Seq<(YamlNode, YamlNode)>, key: Seq<char>) -> Option<Seq<char>> {
    match hash_get(h, key) {
        Some(v) => v.str_value(),
        None => None,
    }
}

pub open spec fn has_item(h: Seq<(YamlNode, YamlNode)>, key: Seq<char>) -> bool {
    hash_get(h, key) is Some
}

pub open spec fn text_or(v: Option<Seq<char>>, d: Seq<char>) -> Seq<char> {
    match v {
        Some(t) => t,
        None => d,
    }
}

/// Whether a script's login is by key: asked for with `authType`
/// (`userpass` or `publickey`, in any case), or else when any of the key
/// settings is given. `None` for another `authType`.
pub open spec fn uses_public_key(h: Seq<(YamlNode, YamlNode)>) -> Option<bool> {
    match str_item(h, "authType"@) {
        Some(a) => if eq_ignore_ascii_case("userpass"@, a) {
            Some(false)
        } else if eq_ignore_ascii_case("publickey"@, a) {
            Some(true)
        } else {
            None
        },
        None => Some(has_item(h, "publicKeyPath"@) || has_item(h, "privateKeyPath"@) || has_item(h, "passphrase"@)),
    }
}

/// The login a script describes: the `user` (asked for when absent) with a
/// `password`, or with the key paths and a `passphrase`; `None` when the
/// type is unknown or the key paths are missing or empty.
pub open spec fn auth_of(h: Seq<(YamlNode, YamlNode)>) -> Option<AuthV> {
    let user = text_or(str_item(h, "user"@), "$PROMPT"@);
    match uses_public_key(h) {
        None => None,
        Some(false) => Some(AuthV::UserPass(user, text_or(str_item(h, "password"@), seq![]))),
        Some(true) => if !has_item(h, "publicKeyPath"@) || !has_item(h, "privateKeyPath"@) {
            None
        } else {
            let public_key = text_or(str_item(h, "publicKeyPath"@), seq![]);
            let private_key = text_or(str_item(h, "privateKeyPath"@), seq![]);
            if public_key.len() == 0 || private_key.len() == 0 {
                None
            } else {
                Some(AuthV::PublicKey(user, public_key, private_key, text_or(str_item(h, "passphrase"@), seq![])))
            }
        },
    }
}

/// The key paths of a key login are strings when they are given.
pub open spec fn auth_keys_ok(h: Seq<(YamlNode, YamlNode)>) -> bool {
    uses_public_key(h) == Some(true) ==> (
        (has_item(h, "publicKeyPath"@) ==> str_item(h, "publicKeyPath"@) is Some)
        && (has_item(h, "privateKeyPath"@) ==> str_item(h, "privateKeyPath"@) is Some)
    )
}

/// The text of a `systemValidation` value: a string, or an integer's
/// decimal text.
pub open spec fn validation_value(v: YamlNode) -> Option<Seq<char>> {
    match v {
        YamlNode::Str(t) => Some(t@),
        YamlNode::Integer(i) => Some(int_decimal(i as int)),
        _ => None,
    }
}

/// One top-level entry of a script, applied to what was read before it;
/// `Err` for a `port` that is not an integer or a `systemValidation` that
/// is not understood.
pub open spec fn apply_entry(acc: Result<ScriptV, ()>, key: YamlNode, value: YamlNode) -> Result<ScriptV, ()> {
    match acc {
        Err(()) => Err(()),
        Ok(s) => {
            let k = text_or(key.str_value(), seq![]);
            if k == "provider"@ {
                Ok(ScriptV { provider: text_or(value.str_value(), seq![]), ..s })
            } else if k == "host"@ || k == "hostname"@ {
                Ok(ScriptV { hostname: text_or(value.str_value(), seq![]), ..s })
            } else if k == "port"@ {
                match value {
                    YamlNode::Integer(v) => Ok(ScriptV { port: Some(v as u32), ..s }),
                    _ => Err(()),
                }
            } else if k == "systemValidation"@ {
                match validation_value(value) {
                    None => Err(()),
                    Some(t) => match parse_validation(t) {
                        Ok(v) => Ok(ScriptV { validation: v, ..s }),
                        Err(_) => Err(()),
                    },
                }
            } else if k == "actions"@ {
                Ok(ScriptV { actions: s.actions + actions_in(value), ..s })
            } else {
                Ok(s)
            }
        },
    }
}

pub open spec fn apply_entries(start: ScriptV, h: Seq<(YamlNode, YamlNode)>) -> Result<ScriptV, ()>
    decreases h.len(),
{
    if h.len() == 0 {
        Ok(start)
    } else {
        apply_entry(apply_entries(start, h.drop_last()), h.last().0, h.last().1)
    }
}

/// An entry the reading can take without failing: a string key, a string
/// value for `provider`, `host` and `hostname`, and a `systemValidation`
/// text that can be read.
pub open spec fn entry_ok(key: YamlNode, value: YamlNode) -> bool {
    &&& key.str_value() is Some
    &&& (key.str_value() == Some("provider"@) || key.str_value() == Some("host"@) || key.str_value() == Some("hostname"@))
        ==> value.str_value() is Some
    &&& key.str_value() == Some("systemValidation"@) ==> match validation_value(value) {
        Some(t) => validation_text_ok(t),
        None => true,
    }
}

/// A script document that can be read without failing.
pub open spec fn script_doc_ok(doc: YamlNode) -> bool {
    match doc {
        YamlNode::Hash(h) => auth_keys_ok(h@) && forall|i: int| 0 <= i < h@.len() ==> entry_ok(#[trigger] h@[i].0, h@[i].1),
        _ => true,
    }
}

/// What a script document gives: `Err` when it is not a map, when its
/// login is not understood, or when an entry fails.
pub open spec fn script_of(doc: YamlNode) -> Result<ScriptV, ()> {
    match doc {
        YamlNode::Hash(h) => match auth_of(h@) {
            None => Err(()),
            Some(a) => apply_entries(
                ScriptV {
                    provider: seq![],
                    hostname: seq![],
                    port: None,
                    auth: a,
                    validation: empty_validation(),
                    actions: seq![],
                },
                h@,
            ),
        },
        _ => Err(()),
    }
}

fn str_item_exec(h: &Vec<(YamlNode, YamlNode)>, key: &str) -> (r: Option<String>)
    ensures
        match r {
            Some(t) => str_item(h@, key@) == Some(t@),
            None => str_item(h@, key@) is None,
        },
{
    match hash_lookup(h, key) {
        Some(v) => match v.as_str() {
            Some(t) => Some(owned(t)),
            None => None,
        },
        None => None,
    }
}

/// The text under a key of a map, when it is a string
/// (`Hash::get(&Yaml::String(..))` then `as_str`).
pub fn get_yaml_map_item_as_string(map: &Vec<(YamlNode, YamlNode)>, str_val: &str) -> (r: Option<String>)
    ensures
        match r {
            Some(t) => str_item(map@, str_val@) == Some(t@),
            None => str_item(map@, str_val@) is None,
        },
{
    str_item_exec(map, str_val)
}

/// The login a script's top-level map describes; the raw values are kept
/// (`$PROMPT` is resolved later).
pub fn process_auth_yaml_items(map: &Vec<(YamlNode, YamlNode)>) -> (r: Option<ControlSessionUserAuth>)
    requires
        auth_keys_ok(map@),
    ensures
        match r {
            Some(a) => auth_of(map@) == Some(a@),
            None => auth_of(map@) is None,
        },
{
    let public_key = match get_yaml_map_item_as_string(map, "authType") {
        Some(a) => {
            let ac = chars_of(a.as_str());
            let up = chars_of("userpass");
            let pk = chars_of("publickey");
            if eq_ignore_ascii_case_chars(up.as_slice(), ac.as_slice()) {
                false
            } else if eq_ignore_ascii_case_chars(pk.as_slice(), ac.as_slice()) {
                true
            } else {
                return None;
            }
        },
        None => hash_lookup(map, "publicKeyPath").is_some() || hash_lookup(map, "privateKeyPath").is_some()
            || hash_lookup(map, "passphrase").is_some(),
    };
    proof {
        reveal_strlit("");
    }
    let user = match get_yaml_map_item_as_string(map, "user") {
        Some(u) => u,
        None => owned("$PROMPT"),
    };
    if !public_key {
        let password = match get_yaml_map_item_as_string(map, "password") {
            Some(p) => p,
            None => String::new(),
        };
        return Some(ControlSessionUserAuth::UserPass(UserAuthUserPass::new(user.as_str(), password.as_str())));
    }
    if hash_lookup(map, "publicKeyPath").is_none() || hash_lookup(map, "privateKeyPath").is_none() {
        return None;
    }
    let public_path = match get_yaml_map_item_as_string(map, "publicKeyPath") {
        Some(p) => p,
        None => String::new(),
    };
    let private_path = match get_yaml_map_item_as_string(map, "privateKeyPath") {
        Some(p) => p,
        None => String::new(),
    };
    if public_path.as_str().unicode_len() == 0 || private_path.as_str().unicode_len() == 0 {
        return None;
    }
    let passphrase = match get_yaml_map_item_as_string(map, "passphrase") {
        Some(p) => p,
        None => String::new(),
    };
    Some(ControlSessionUserAuth::PublicKey(UserAuthPublicKey::new(
        user.as_str(),
        public_path.as_str(),
        private_path.as_str(),
        passphrase.as_str(),
    )))
}

/// The action type a name stands for.
fn action_type_from_name(name: &str) -> (r: ControlActionType)
    ensures
        r == action_type_named(name@),
{
    if str_eq(name, "genericCommand") {
        ControlActionType::GenericCommand
    } else if str_eq(name, "addUser") {
        ControlActionType::AddUser
    } else if str_eq(name, "createDirectory") {
        ControlActionType::CreateDirectory
    } else if str_eq(name, "removeDirectory") {
        ControlActionType::RemoveDirectory
    } else if str_eq(name, "installPackages") {
        ControlActionType::InstallPackages
    } else if str_eq(name, "removePackages") {
        ControlActionType::RemovePackages
    } else if str_eq(name, "systemCtl") {
        ControlActionType::SystemCtl
    } else if str_eq(name, "firewall") {
        ControlActionType::Firewall
    } else if str_eq(name, "editFile") {
        ControlActionType::EditFile
    } else if str_eq(name, "copyPath") {
        ControlActionType::CopyPath
    } else if str_eq(name, "removeFile") {
        ControlActionType::RemoveFile
    } else if str_eq(name, "downloadFile") {
        ControlActionType::DownloadFile
    } else if str_eq(name, "transmitFile") {
        ControlActionType::TransmitFile
    } else if str_eq(name, "receiveFile") {
        ControlActionType::ReceiveFile
    } else if str_eq(name, "createSymlink") {
        ControlActionType::CreateSymlink
    } else if str_eq(name, "setTimeZone") {
        ControlActionType::SetTimeZone
    } else if str_eq(name, "disableSwap") {
        ControlActionType::DisableSwap
    } else if str_eq(name, "createFile") {
        ControlActionType::CreateFile
    } else if str_eq(name, "addGroup") {
        ControlActionType::AddGroup
    } else if str_eq(name, "setHostname") {
        ControlActionType::SetHostname
    } else if str_eq(name, "createSystemdService") {
        ControlActionType::CreateSystemdService
    } else if str_eq(name, "configureSSH") {
        ControlActionType::ConfigureSSH
    } else if str_eq(name, "addPackageRepo") {
        ControlActionType::AddPackageRepo
    } else {
        ControlActionType::Unrecognised
    }
}

impl ControlActions {
    /// Appends the action an entry of the `actions` list names, when its
    /// name is known; its parameters are the map's string-keyed entries.
    fn ingest_control_yaml_action_item(&mut self, name: &str, values: &Vec<(YamlNode, YamlNode)>)
        ensures
            final(self).provider == old(self).provider,
            final(self).hostname == old(self).hostname,
            final(self).port == old(self).port,
            final(self).auth == old(self).auth,
            final(self).system_validation == old(self).system_validation,
            final(self).actions@.len() == old(self).actions@.len() + action_item(name@, values@).len(),
            forall|i: int| 0 <= i < old(self).actions@.len() ==> #[trigger] final(self).actions@[i] == old(self).actions@[i],
            forall|j: int| 0 <= j < action_item(name@, values@).len() ==> action_matches(
                #[trigger] final(self).actions@[old(self).actions@.len() + j],
                action_item(name@, values@)[j],
            ),
    {
        let t = action_type_from_name(name);
        if t == ControlActionType::Unrecognised {
            return;
        }
        let mut action = ControlAction { action: t, params: Params::new() };
        let mut i: usize = 0;
        while i < values.len()
            invariant
                i <= values@.len(),
                action.action == t,
                forall|k: Seq<char>| #[trigger] opt_param_view(action.params.get(k)) == last_value(yaml_entries(values@.take(i as int)), k),
            decreases values@.len() - i,
        {
            proof {
                assert(values@.take(i + 1).drop_last() =~= values@.take(i as int));
                assert(values@.take(i + 1).last() == values@[i as int]);
            }
            let ghost prev = yaml_entries(values@.take(i as int));
            if let YamlNode::Str(key) = &values[i].0 {
                let v = ParamValue::from_yaml(&values[i].1);
                action.params.insert(key.as_str(), v);
                proof {
                    let es = yaml_entries(values@.take(i + 1));
                    assert(es == prev.push((key@, yaml_param(values@[i as int].1))));
                    assert(es.drop_last() =~= prev);
                    assert forall|k: Seq<char>| #[trigger] opt_param_view(action.params.get(k)) == last_value(es, k) by {
                        if k != key@ {
                            assert(last_value(es, k) == last_value(prev, k));
                        }
                    }
                }
            } else {
                assert(yaml_entries(values@.take(i + 1)) == prev);
            }
            i = i + 1;
        }
        proof {
            assert(values@.take(values@.len() as int) =~= values@);
        }
        self.actions.push(action);
    }

    /// Appends the actions an `actions` node holds.
    fn ingest_control_actions_yaml_items(&mut self, actions_item: &YamlNode)
        ensures
            final(self).provider == old(self).provider,
            final(self).hostname == old(self).hostname,
            final(self).port == old(self).port,
            final(self).auth == old(self).auth,
            final(self).system_validation == old(self).system_validation,
            final(self).actions@.len() == old(self).actions@.len() + actions_in(*actions_item).len(),
            forall|i: int| 0 <= i < old(self).actions@.len() ==> #[trigger] final(self).actions@[i] == old(self).actions@[i],
            forall|j: int| 0 <= j < actions_in(*actions_item).len() ==> action_matches(
                #[trigger] final(self).actions@[old(self).actions@.len() + j],
                actions_in(*actions_item)[j],
            ),
        decreases *actions_item,
    {
        let ghost start = self.actions@;
        match actions_item {
            YamlNode::Array(a) => {
                let mut i: usize = 0;
                while i < a.len()
                    invariant
                        i <= a@.len(),
                        *actions_item == YamlNode::Array(*a),
                        self.provider == old(self).provider,
                        self.hostname == old(self).hostname,
                        self.port == old(self).port,
                        self.auth == old(self).auth,
                        self.system_validation == old(self).system_validation,
                        start == old(self).actions@,
                        self.actions@.len() == start.len() + actions_in_seq(a@.take(i as int)).len(),
                        forall|q: int| 0 <= q < start.len() ==> #[trigger] self.actions@[q] == start[q],
                        forall|j: int| 0 <= j < actions_in_seq(a@.take(i as int)).len() ==> action_matches(
                            #[trigger] self.actions@[start.len() + j],
                            actions_in_seq(a@.take(i as int))[j],
                        ),
                    decreases a@.len() - i,
                {
                    proof {
                        assert(decreases_to!(*actions_item => (*actions_item)->Array_0));
                        assert(decreases_to!(*a => a@));
                        assert(decreases_to!(a@ => a@[i as int]));
                        assert(a@.take(i + 1).drop_last() =~= a@.take(i as int));
                        assert(a@.take(i + 1).last() == a@[i as int]);
                    }
                    let ghost before = self.actions@;
                    let ghost done = actions_in_seq(a@.take(i as int));
                    self.ingest_control_actions_yaml_items(&a[i]);
                    proof {
                        let added = actions_in(a@[i as int]);
                        assert(actions_in_seq(a@.take(i + 1)) =~= done + added);
                        assert forall|j: int| 0 <= j < (done + added).len() implies action_matches(
                            #[trigger] self.actions@[start.len() + j],
                            (done + added)[j],
                        ) by {
                            if j < done.len() {
                                assert(self.actions@[start.len() + j] == before[start.len() + j]);
                            } else {
                                assert(self.actions@[before.len() + (j - done.len())] == self.actions@[start.len() + j]);
                            }
                        }
                    }
                    i = i + 1;
                }
                proof {
                    assert(a@.take(a@.len() as int) =~= a@);
                }
            },
            YamlNode::Hash(h) => {
                let mut i: usize = 0;
                while i < h.len()
                    invariant
                        i <= h@.len(),
                        *actions_item == YamlNode::Hash(*h),
                        self.provider == old(self).provider,
                        self.hostname == old(self).hostname,
                        self.port == old(self).port,
                        self.auth == old(self).auth,
                        self.system_validation == old(self).system_validation,
                        start == old(self).actions@,
                        self.actions@.len() == start.len() + actions_in_hash(h@.take(i as int)).len(),
                        forall|q: int| 0 <= q < start.len() ==> #[trigger] self.actions@[q] == start[q],
                        forall|j: int| 0 <= j < actions_in_hash(h@.take(i as int)).len() ==> action_matches(
                            #[trigger] self.actions@[start.len() + j],
                            actions_in_hash(h@.take(i as int))[j],
                        ),
                    decreases h@.len() - i,
                {
                    proof {
                        assert(h@.take(i + 1).drop_last() =~= h@.take(i as int));
                        assert(h@.take(i + 1).last() == h@[i as int]);
                    }
                    let ghost before = self.actions@;
                    let ghost done = actions_in_hash(h@.take(i as int));
                    match (&h[i].0, &h[i].1) {
                        (YamlNode::Str(k), YamlNode::Hash(vh)) => {
                            self.ingest_control_yaml_action_item(k.as_str(), vh);
                            proof {
                                let added = action_item(k@, vh@);
                                assert(actions_in_hash(h@.take(i + 1)) =~= done + added);
                                assert forall|j: int| 0 <= j < (done + added).len() implies action_matches(
                                    #[trigger] self.actions@[start.len() + j],
                                    (done + added)[j],
                                ) by {
                                    if j < done.len() {
                                        assert(self.actions@[start.len() + j] == before[start.len() + j]);
                                    } else {
                                        assert(self.actions@[before.len() + (j - done.len())] == self.actions@[start.len() + j]);
                                    }
                                }
                            }
                        },
                        _ => {
                            assert(actions_in_hash(h@.take(i + 1)) =~= done);
                        },
                    }
                    i = i + 1;
                }
                proof {
                    assert(h@.take(h@.len() as int) =~= h@);
                }
            },
            _ => {},
        }
    }
}

proof fn lemma_apply_entries_err(start: ScriptV, h: Seq<(YamlNode, YamlNode)>, n: int)
    requires
        0 <= n <= h.len(),
        apply_entries(start, h.take(n)) is Err,
    ensures
        apply_entries(start, h) is Err,
    decreases h.len() - n,
{
    if n < h.len() {
        assert(h.take(n + 1).drop_last() =~= h.take(n));
        lemma_apply_entries_err(start, h, n + 1);
    } else {
        assert(h.take(n) =~= h);
    }
}

pub open spec fn load_error() -> LoadErr {
    LoadErr::CustomError("Error loading file."@)
}

pub open spec fn start_script(a: AuthV) -> ScriptV {
    ScriptV { provider: seq![], hostname: seq![], port: None, auth: a, validation: empty_validation(), actions: seq![] }
}

impl ControlActions {
    /// Reads a control script from its YAML document: the login, then the
    /// top-level entries in order (`provider`, `host`/`hostname`, `port`,
    /// `systemValidation`, `actions`; others are ignored).
    pub fn from_yaml_document(doc: &YamlNode) -> (r: Result<ControlActions, FileLoadError>)
        requires
            script_doc_ok(*doc),
        ensures
            match script_of(*doc) {
                Ok(sv) => r matches Ok(ca) && script_matches(ca, sv),
                Err(()) => r matches Err(e) && e@ == load_error(),
            },
    {
        let h = match doc {
            YamlNode::Hash(h) => h,
            _ => {
                return Err(FileLoadError::CustomError(owned("Error loading file.")));
            },
        };
        let auth = match process_auth_yaml_items(h) {
            None => {
                return Err(FileLoadError::CustomError(owned("Error loading file.")));
            },
            Some(a) => a,
        };
        let mut ca = ControlActions::new();
        ca.auth = auth;
        let ghost start = start_script(auth@);
        let ghost mut sv = start;
        proof {
            assert(h@.take(0) =~= Seq::<(YamlNode, YamlNode)>::empty());
            assert(ca.actions@ =~= Seq::<ControlAction>::empty());
            assert(ca.provider@ =~= Seq::<char>::empty());
            assert(ca.hostname@ =~= Seq::<char>::empty());
        }
        let mut i: usize = 0;
        while i < h.len()
            invariant
                i <= h@.len(),
                *doc == YamlNode::Hash(*h),
                script_doc_ok(*doc),
                start == start_script(auth_of(h@)->Some_0),
                auth_of(h@) is Some,
                apply_entries(start, h@.take(i as int)) == Ok::<ScriptV, ()>(sv),
                script_matches(ca, sv),
            decreases h@.len() - i,
        {
            proof {
                assert(h@.take(i + 1).drop_last() =~= h@.take(i as int));
                assert(h@.take(i + 1).last() == h@[i as int]);
                assert(entry_ok(h@[i as int].0, h@[i as int].1));
            }
            let key = match h[i].0.as_str() {
                Some(k) => k,
                None => "",
            };
            let value = &h[i].1;
            if str_eq(key, "provider") {
                let v = match value.as_str() {
                    Some(t) => owned(t),
                    None => String::new(),
                };
                ca.provider = v;
                proof {
                    sv = ScriptV { provider: ca.provider@, ..sv };
                }
            } else if str_eq(key, "host") || str_eq(key, "hostname") {
                let v = match value.as_str() {
                    Some(t) => owned(t),
                    None => String::new(),
                };
                ca.hostname = v;
                proof {
                    sv = ScriptV { hostname: ca.hostname@, ..sv };
                }
            } else if str_eq(key, "port") {
                match value {
                    YamlNode::Integer(v) => {
                        ca.port = Some(#[verifier::truncate] (*v as u32));
                        proof {
                            sv = ScriptV { port: ca.port, ..sv };
                        }
                    },
                    _ => {
                        proof {
                            lemma_apply_entries_err(start, h@, i + 1);
                        }
                        return Err(FileLoadError::CustomError(owned("Error loading file.")));
                    },
                }
            } else if str_eq(key, "systemValidation") {
                let text = match value {
                    YamlNode::Str(t) => owned(t.as_str()),
                    YamlNode::Integer(n) => int_to_string(*n),
                    _ => {
                        proof {
                            lemma_apply_entries_err(start, h@, i + 1);
                        }
                        return Err(FileLoadError::CustomError(owned("Error loading file.")));
                    },
                };
                match SystemValidation::parse_string_value(text.as_str()) {
                    Ok(v) => {
                        ca.system_validation = v;
                        proof {
                            sv = ScriptV { validation: ca.system_validation@, ..sv };
                        }
                    },
                    Err(_) => {
                        proof {
                            lemma_apply_entries_err(start, h@, i + 1);
                        }
                        return Err(FileLoadError::CustomError(owned("Error loading file.")));
                    },
                }
            } else if str_eq(key, "actions") {
                let ghost before = ca.actions@;
                ca.ingest_control_actions_yaml_items(value);
                proof {
                    let added = actions_in(*value);
                    let all = sv.actions + added;
                    assert forall|j: int| 0 <= j < all.len() implies action_matches(#[trigger] ca.actions@[j], all[j]) by {
                        if j < sv.actions.len() {
                            assert(ca.actions@[j] == before[j]);
                        } else {
                            assert(ca.actions@[before.len() + (j - sv.actions.len())] == ca.actions@[j]);
                        }
                    }
                    sv = ScriptV { actions: all, ..sv };
                }
            }
            i = i + 1;
        }
        proof {
            assert(h@.take(h@.len() as int) =~= h@);
        }
        Ok(ca)
    }
}

fn entry_ok_exec(key: &YamlNode, value: &YamlNode) -> (r: bool)
    ensures
        r == entry_ok(*key, *value),
{
    let k = match key.as_str() {
        None => {
            return false;
        },
        Some(k) => k,
    };
    proof {
        reveal_strlit("provider");
        reveal_strlit("host");
        reveal_strlit("hostname");
        reveal_strlit("systemValidation");
    }
    assert(key.str_value() == Some(k@));
    if str_eq(k, "provider") || str_eq(k, "host") || str_eq(k, "hostname") {
        assert("systemValidation"@.len() == 16);
        assert("provider"@.len() == 8 && "host"@.len() == 4 && "hostname"@.len() == 8);
        assert(k@ != "systemValidation"@);
        value.as_str().is_some()
    } else if str_eq(k, "systemValidation") {
        match value {
            YamlNode::Str(t) => validation_text_is_readable(t.as_str()),
            YamlNode::Integer(n) => {
                let t = int_to_string(*n);
                validation_text_is_readable(t.as_str())
            },
            _ => true,
        }
    } else {
        true
    }
}

fn auth_keys_ok_exec(h: &Vec<(YamlNode, YamlNode)>) -> (r: bool)
    ensures
        r == auth_keys_ok(h@),
{
    let key_login = match get_yaml_map_item_as_string(h, "authType") {
        Some(a) => {
            let ac = chars_of(a.as_str());
            let up = chars_of("userpass");
            let pk = chars_of("publickey");
            if eq_ignore_ascii_case_chars(up.as_slice(), ac.as_slice()) {
                false
            } else {
                eq_ignore_ascii_case_chars(pk.as_slice(), ac.as_slice())
            }
        },
        None => hash_lookup(h, "publicKeyPath").is_some() || hash_lookup(h, "privateKeyPath").is_some()
            || hash_lookup(h, "passphrase").is_some(),
    };
    if !key_login {
        return true;
    }
    let public_ok = hash_lookup(h, "publicKeyPath").is_none() || get_yaml_map_item_as_string(h, "publicKeyPath").is_some();
    let private_ok = hash_lookup(h, "privateKeyPath").is_none() || get_yaml_map_item_as_string(h, "privateKeyPath").is_some();
    public_ok && private_ok
}

/// Whether a script document can be read without failing.
pub fn script_doc_readable(doc: &YamlNode) -> (r: bool)
    ensures
        r == script_doc_ok(*doc),
{
    match doc {
        YamlNode::Hash(h) => {
            if !auth_keys_ok_exec(h) {
                return false;
            }
            let mut i: usize = 0;
            while i < h.len()
                invariant
                    i <= h@.len(),
                    *doc == YamlNode::Hash(*h),
                    forall|q: int| 0 <= q < i ==> entry_ok(#[trigger] h@[q].0, h@[q].1),
                decreases h@.len() - i,
            {
                if !entry_ok_exec(&h[i].0, &h[i].1) {
                    assert(!entry_ok(h@[i as int].0, h@[i as int].1));
                    return false;
                }
                i = i + 1;
            }
            true
        },
        _ => true,
    }
}

/// The path without its trailing slashes.
pub open spec fn trim_slashes(p: Seq<char>) -> Seq<char>
    decreases p.len(),
{
    if p.len() > 0 && p.last() == '/' {
        trim_slashes(p.drop_last())
    } else {
        p
    }
}

/// The position of the last `c`, or -1.
pub open spec fn last_index_of(s: Seq<char>, c: char) -> int
    decreases s.len(),
{
    if s.len() == 0 {
        -1
    } else if s.last() == c {
        s.len() - 1
    } else {
        last_index_of(s.drop_last(), c)
    }
}

/// The last component of a path (`Path::file_name`), empty when there is
/// none.
pub open spec fn file_name_of(path: Seq<char>) -> Seq<char> {
    let t = trim_slashes(path);
    let n = t.skip(last_index_of(t, '/') + 1);
    if n == ".."@ || n == "."@ {
        seq![]
    } else {
        n
    }
}

/// The extension of a path (`Path::extension`): what follows the last `.`
/// of the file name, unless that `.` starts the name.
pub open spec fn extension_of(path: Seq<char>) -> Option<Seq<char>> {
    let n = file_name_of(path);
    let d = last_index_of(n, '.');
    if d <= 0 {
        None
    } else {
        Some(n.skip(d + 1))
    }
}

fn last_index_of_exec(s: &[char], c: char) -> (r: Option<usize>)
    ensures
        match r {
            Some(i) => last_index_of(s@, c) == i && i < s@.len(),
            None => last_index_of(s@, c) == -1,
        },
{
    let mut n: usize = s.len();
    assert(s@.take(n as int) =~= s@);
    while n > 0
        invariant
            n <= s@.len(),
            last_index_of(s@, c) == last_index_of(s@.take(n as int), c),
        decreases n,
    {
        assert(s@.take(n as int).drop_last() =~= s@.take(n - 1));
        if s[n - 1] == c {
            return Some(n - 1);
        }
        n = n - 1;
    }
    None
}

/// The extension of a path, in lower case.
pub fn file_extension(path: &str) -> (r: Option<String>)
    ensures
        match r {
            Some(e) => extension_of(path@) matches Some(x) && e@ == lower_ascii(x),
            None => extension_of(path@) is None,
        },
{
    let chars = chars_of(path);
    let mut end: usize = chars.len();
    assert(chars@.take(end as int) =~= path@);
    while end > 0 && chars[end - 1] == '/'
        invariant
            end <= chars@.len(),
            trim_slashes(path@) == trim_slashes(chars@.take(end as int)),
        decreases end,
    {
        assert(chars@.take(end as int).drop_last() =~= chars@.take(end - 1));
        end = end - 1;
    }
    let t = slice_chars(chars.as_slice(), 0, end);
    assert(t@ =~= chars@.take(end as int));
    assert(trim_slashes(t@) == t@);
    let start = match last_index_of_exec(t.as_slice(), '/') {
        Some(i) => i + 1,
        None => 0,
    };
    let n = slice_chars(t.as_slice(), start, t.len());
    assert(n@ =~= t@.skip(last_index_of(t@, '/') + 1));
    let dots = chars_of("..");
    let dot = chars_of(".");
    let name = if chars_eq(n.as_slice(), dots.as_slice()) || chars_eq(n.as_slice(), dot.as_slice()) {
        Vec::new()
    } else {
        n
    };
    assert(name@ =~= file_name_of(path@));
    match last_index_of_exec(name.as_slice(), '.') {
        Some(d) => if d == 0 {
            None
        } else {
            let ext = slice_chars(name.as_slice(), d + 1, name.len());
            assert(ext@ =~= name@.skip(d + 1));
            Some(string_of(to_ascii_lower(ext.as_slice()).as_slice()))
        },
        None => None,
    }
}

/// What reading a script file gives, by the extension of its path (in any
/// case): `txt` gives an empty script; `yaml` is read from its first YAML
/// document; other extensions are refused. `contents` is the file's text,
/// `None` when it could not be read. Where the YAML has no document, or a
/// document that cannot be read without failing, the file is refused.
pub open spec fn script_file_result(path: Seq<char>, contents: Option<Seq<char>>) -> Result<Option<ScriptV>, LoadErr> {
    let ext = lower_ascii(extension_of(path)->Some_0);
    if ext == "txt"@ {
        Ok(None)
    } else if ext == "yaml"@ {
        match contents {
            None => Err(load_error()),
            Some(t) => match yaml_documents(t) {
                Err(_) => Err(load_error()),
                Ok(docs) => if docs.len() == 0 || !script_doc_ok(docs[0]) {
                    Err(load_error())
                } else {
                    match script_of(docs[0]) {
                        Ok(sv) => Ok(Some(sv)),
                        Err(()) => Err(load_error()),
                    }
                },
            },
        }
    } else {
        Err(LoadErr::CustomError("Unknown file type."@))
    }
}

/// Whether reading a script at this path looks at the file's text: only
/// for the `txt` and `yaml` kinds (in any case).
pub fn script_reads_contents(path: &str) -> (r: bool)
    ensures
        r == (extension_of(path@) matches Some(e) && (lower_ascii(e) == "txt"@ || lower_ascii(e) == "yaml"@)),
{
    match file_extension(path) {
        Some(e) => str_eq(e.as_str(), "txt") || str_eq(e.as_str(), "yaml"),
        None => false,
    }
}

impl ControlActions {
    /// Reads a control script file given its path and its text.
    pub fn from_file(path: &str, contents: Option<&str>) -> (r: Result<ControlActions, FileLoadError>)
        requires
            extension_of(path@) is Some,
            lower_ascii(extension_of(path@)->Some_0) == "txt"@ ==> contents is Some,
        ensures
            match script_file_result(path@, match contents {
                Some(t) => Some(t@),
                None => None,
            }) {
                Ok(None) => r matches Ok(ca) && ca.provider@.len() == 0 && ca.hostname@.len() == 0 && ca.port is None
                    && ca.auth@ == AuthV::UserPass(seq![], seq![]) && ca.system_validation@ == empty_validation()
                    && ca.actions@.len() == 0,
                Ok(Some(sv)) => r matches Ok(ca) && script_matches(ca, sv),
                Err(e) => r matches Err(x) && x@ == e,
            },
    {
        let ext = match file_extension(path) {
            Some(e) => e,
            None => {
                return Err(FileLoadError::CustomError(owned("Unknown file type.")));
            },
        };
        if str_eq(ext.as_str(), "txt") {
            let ca = ControlActions::new();
            proof {
                assert(ca.auth->UserPass_0.username@ =~= Seq::<char>::empty());
                assert(ca.auth->UserPass_0.password@ =~= Seq::<char>::empty());
                assert(ca.provider@ =~= Seq::<char>::empty());
                assert(ca.hostname@ =~= Seq::<char>::empty());
            }
            return Ok(ca);
        }
        if !str_eq(ext.as_str(), "yaml") {
            return Err(FileLoadError::CustomError(owned("Unknown file type.")));
        }
        let text = match contents {
            None => {
                return Err(FileLoadError::CustomError(owned("Error loading file.")));
            },
            Some(t) => t,
        };
        let docs = match load_yaml_documents(text) {
            Err(_) => {
                return Err(FileLoadError::CustomError(owned("Error loading file.")));
            },
            Ok(d) => d,
        };
        if docs.len() == 0 {
            return Err(FileLoadError::CustomError(owned("Error loading file.")));
        }
        if !script_doc_readable(&docs[0]) {
            return Err(FileLoadError::CustomError(owned("Error loading file.")));
        }
        ControlActions::from_yaml_document(&docs[0])
    }
}

/// An action written out: its type, then its parameters one per line, in
/// the order of their names.
pub open spec fn action_text(a: ControlAction) -> Seq<char> {
    " Action: "@ + action_type_text(a.action) + ", params ("@ + nat_decimal(a.params.values@.len()) + "): {\n"@
        + crate::params::param_lines(crate::keyed::by_name(a.params.values@), "  "@) + " }\n"@
}

pub open spec fn actions_text(s: Seq<ControlAction>) -> Seq<char>
    decreases s.len(),
{
    if s.len() == 0 {
        seq![]
    } else {
        actions_text(s.drop_last()) + "  "@ + action_text(s.last())
    }
}

impl ControlAction {
    /// The action written out: its type, then its parameters one per line.
    pub fn to_text(&self) -> (r: String)
        ensures
            r@ == action_text(*self),
    {
        let name = self.action.to_text();
        let count = string_of(u64_decimal(self.params.values.len() as u64).as_slice());
        let mut out = concat5(" Action: ", name.as_str(), ", params (", count.as_str(), "): {\n");
        crate::params::append_param_lines(&mut out, &self.params.values, "  ");
        out.append(" }\n");
        out
    }
}

impl ControlActions {
    /// The script written out: the provider and host, then the actions.
    pub fn to_text(&self) -> (r: String)
        ensures
            r@ == "Provider: "@ + self.provider@ + ", Hostname: "@ + self.hostname@ + ", User: ,\n"@ + " actions ("@
                + nat_decimal(self.actions@.len()) + "): {\n"@ + actions_text(self.actions@) + " }\n"@,
    {
        let count = string_of(u64_decimal(self.actions.len() as u64).as_slice());
        let mut out = concat5("Provider: ", self.provider.as_str(), ", Hostname: ", self.hostname.as_str(), ", User: ,\n");
        out.append(" actions (");
        out.append(count.as_str());
        out.append("): {\n");
        let ghost head = out@;
        let mut i: usize = 0;
        while i < self.actions.len()
            invariant
                i <= self.actions@.len(),
                out@ == head + actions_text(self.actions@.take(i as int)),
            decreases self.actions@.len() - i,
        {
            proof {
                assert(self.actions@.take(i + 1).drop_last() =~= self.actions@.take(i as int));
            }
            let t = self.actions[i].to_text();
            out.append("  ");
            out.append(t.as_str());
            i = i + 1;
        }
        proof {
            assert(self.actions@.take(self.actions@.len() as int) =~= self.actions@);
        }
        out.append(" }\n");
        out
    }
}

} // verus!
