//! What a control action asks of the connection to a host, and what comes
//! back. Actions are decided here; the connection itself is run by the
//! program that drives them.
use vstd::prelude::*;
use crate::control::control_actions::{action_type_text, ControlAction, ControlActionType};
use crate::text::{concat2, concat5, owned};

verus! {

/// Why reading or writing a remote file failed.
#[derive(Clone, Debug)]
pub enum RemoteFileContentsControlError {
    NotImplemented,
    LocalFileDoesntExist(String),
    RemoteFileDoesntExist(String),
    CantConnect(String),
    AuthenticationIssue(String),
    CantCreateLocalTempFile(String),
    TransferError(String),
    Other(String),
}

impl RemoteFileContentsControlError {
    pub open spec fn message_spec(&self) -> Seq<char> {
        match self {
            RemoteFileContentsControlError::NotImplemented => "Not implemented"@,
            RemoteFileContentsControlError::LocalFileDoesntExist(s) => "Local file doesn't exist: "@ + s@,
            RemoteFileContentsControlError::RemoteFileDoesntExist(s) => "Remote file doesn't exist: "@ + s@,
            RemoteFileContentsControlError::CantConnect(s) => "Can't connect: "@ + s@,
            RemoteFileContentsControlError::AuthenticationIssue(s) => "Authentication issue: "@ + s@,
            RemoteFileContentsControlError::CantCreateLocalTempFile(s) => "Can't create local temp file: "@ + s@,
            RemoteFileContentsControlError::TransferError(s) => "Transfer error: "@ + s@,
            RemoteFileContentsControlError::Other(s) => "Other error: "@ + s@,
        }
    }

    /// The error as a line of text.
    pub fn message(&self) -> (r: String)
        ensures
            r@ == self.message_spec(),
    {
        match self {
            RemoteFileContentsControlError::NotImplemented => owned("Not implemented"),
            RemoteFileContentsControlError::LocalFileDoesntExist(s) => concat2("Local file doesn't exist: ", s.as_str()),
            RemoteFileContentsControlError::RemoteFileDoesntExist(s) => concat2("Remote file doesn't exist: ", s.as_str()),
            RemoteFileContentsControlError::CantConnect(s) => concat2("Can't connect: ", s.as_str()),
            RemoteFileContentsControlError::AuthenticationIssue(s) => concat2("Authentication issue: ", s.as_str()),
            RemoteFileContentsControlError::CantCreateLocalTempFile(s) => concat2("Can't create local temp file: ", s.as_str()),
            RemoteFileContentsControlError::TransferError(s) => concat2("Transfer error: ", s.as_str()),
            RemoteFileContentsControlError::Other(s) => concat2("Other error: ", s.as_str()),
        }
    }
}

/// What a remote command left behind: its standard output, its standard
/// error output when there was any, and its exit code when one was reported.
#[derive(Clone, Debug)]
pub struct CommandOutput {
    pub stdout: String,
    pub stderr: Option<String>,
    pub exit_code: Option<i32>,
}

pub struct OutputV {
    pub stdout: Seq<char>,
    pub stderr: Option<Seq<char>>,
    pub exit_code: Option<i32>,
}

pub open spec fn opt_text(o: Option<String>) -> Option<Seq<char>> {
    match o {
        Some(s) => Some(s@),
        None => None,
    }
}

impl View for CommandOutput {
    type V = OutputV;

    open spec fn view(&self) -> OutputV {
        OutputV { stdout: self.stdout@, stderr: opt_text(self.stderr), exit_code: self.exit_code }
    }
}

/// The command reported a non-zero exit code.
pub open spec fn exit_failed(o: OutputV) -> bool {
    o.exit_code matches Some(c) && c != 0
}

/// One thing an action needs done: a remote command, a file read, written
/// or transferred, a pause, or a secret typed in locally.
#[derive(Clone, Debug)]
pub enum ActionRequest {
    Command(String),
    GetTextFile(String),
    SendTextFile(String, i32, String),
    SendFile(String, String, i32),
    ReceiveFile(String, String),
    Pause(u64),
    PromptSecret(String),
}

pub enum RequestV {
    Command(Seq<char>),
    GetTextFile(Seq<char>),
    SendTextFile(Seq<char>, i32, Seq<char>),
    SendFile(Seq<char>, Seq<char>, i32),
    ReceiveFile(Seq<char>, Seq<char>),
    Pause(u64),
    PromptSecret(Seq<char>),
}

impl View for ActionRequest {
    type V = RequestV;

    open spec fn view(&self) -> RequestV {
        match self {
            ActionRequest::Command(c) => RequestV::Command(c@),
            ActionRequest::GetTextFile(p) => RequestV::GetTextFile(p@),
            ActionRequest::SendTextFile(p, m, c) => RequestV::SendTextFile(p@, *m, c@),
            ActionRequest::SendFile(l, r, m) => RequestV::SendFile(l@, r@, *m),
            ActionRequest::ReceiveFile(r, l) => RequestV::ReceiveFile(r@, l@),
            ActionRequest::Pause(s) => RequestV::Pause(*s),
            ActionRequest::PromptSecret(m) => RequestV::PromptSecret(m@),
        }
    }
}

/// What came back for a request: a command's output, a file's text or
/// the reason it could not be read, whether a transfer worked, the end of
/// a pause, or the secret that was typed.
#[derive(Debug)]
pub enum ActionReply {
    Output(CommandOutput),
    TextFile(Result<String, String>),
    Transfer(Result<(), String>),
    Paused,
    Entered(String),
}

pub enum ReplyV {
    Output(OutputV),
    TextFile(Result<Seq<char>, Seq<char>>),
    Transfer(Result<(), Seq<char>>),
    Paused,
    Entered(Seq<char>),
}

impl View for ActionReply {
    type V = ReplyV;

    open spec fn view(&self) -> ReplyV {
        match self {
            ActionReply::Output(o) => ReplyV::Output(o@),
            ActionReply::TextFile(Ok(t)) => ReplyV::TextFile(Ok(t@)),
            ActionReply::TextFile(Err(e)) => ReplyV::TextFile(Err(e@)),
            ActionReply::Transfer(Ok(())) => ReplyV::Transfer(Ok(())),
            ActionReply::Transfer(Err(e)) => ReplyV::Transfer(Err(e@)),
            ActionReply::Paused => ReplyV::Paused,
            ActionReply::Entered(s) => ReplyV::Entered(s@),
        }
    }
}

pub open spec fn replies_view(s: Seq<ActionReply>) -> Seq<ReplyV> {
    s.map_values(|r: ActionReply| r@)
}

/// The message for a command that exited with an error code, naming the
/// command (as written, before any prefix) and the action, and quoting the
/// error output when there was some.
pub open spec fn failed_command_text(command: Seq<char>, t: ControlActionType, stderr: Option<Seq<char>>) -> Seq<char> {
    match stderr {
        Some(e) => "Unexpected error exit code after running command: '"@ + command + "' within control method: '"@
            + action_type_text(t) + "', with stderr response: "@ + e,
        None => "Unexpected error exit code after running command: '"@ + command + "' within control method: '"@
            + action_type_text(t) + "'."@,
    }
}

pub fn failed_command_message(command: &str, t: ControlActionType, stderr: Option<&str>) -> (r: String)
    ensures
        r@ == failed_command_text(command@, t, match stderr {
            Some(e) => Some(e@),
            None => None,
        }),
{
    let name = t.to_text();
    match stderr {
        Some(e) => {
            let head = concat5(
                "Unexpected error exit code after running command: '",
                command,
                "' within control method: '",
                name.as_str(),
                "', with stderr response: ",
            );
            concat2(head.as_str(), e)
        },
        None => concat5(
            "Unexpected error exit code after running command: '",
            command,
            "' within control method: '",
            name.as_str(),
            "'.",
        ),
    }
}

/// A connection to a host that runs commands and moves files. The
/// defaults do nothing and report nothing.
pub trait ControlConnection {
    fn send_command(&mut self, command: &str) {
    }

    fn had_command_response(&self) -> (r: bool)
        default_ensures
            !r,
    {
        false
    }

    fn get_previous_stdout_response(&self) -> (r: &str)
        default_ensures
            r@.len() == 0,
    {
        proof {
            reveal_strlit("");
        }
        ""
    }

    /// The error output of the last command, where there was any; by
    /// default there is none.
    fn get_previous_stderr_response(&self) -> (r: Option<&str>)
        default_ensures
            r is None,
    {
        None
    }

    fn get_exit_code(&self) -> (r: Option<i32>)
        default_ensures
            r is None,
    {
        None
    }

    fn did_exit_with_error_code(&self) -> (r: bool)
        default_ensures
            !r,
    {
        false
    }

    /// The message for a command of an action that exited with an error
    /// code, with the error output of the last command when there was any.
    fn return_failed_command_error_response_str(&self, command_string: &str, control_action: &ControlAction) -> (r: String)
        default_ensures
            exists|e: Option<Seq<char>>| r@ == failed_command_text(command_string@, control_action.action, e),
    {
        let stderr = self.get_previous_stderr_response();
        let r = failed_command_message(command_string, control_action.action, stderr);
        proof {
            let e = match stderr {
                Some(x) => Some(x@),
                None => None,
            };
            assert(r@ == failed_command_text(command_string@, control_action.action, e));
        }
        r
    }

    fn get_text_file_contents(&mut self, filepath: &str) -> (r: Result<String, RemoteFileContentsControlError>)
        default_ensures
            r matches Err(RemoteFileContentsControlError::NotImplemented),
    {
        Err(RemoteFileContentsControlError::NotImplemented)
    }

    fn send_text_file_contents(&mut self, filepath: &str, mode: i32, contents: &str) -> (r: Result<(), RemoteFileContentsControlError>)
        default_ensures
            r matches Err(RemoteFileContentsControlError::NotImplemented),
    {
        Err(RemoteFileContentsControlError::NotImplemented)
    }

    fn send_file(&mut self, local_filepath: &str, dest_filepath: &str, mode: i32) -> (r: Result<(), ()>)
        default_ensures
            r is Err,
    {
        Err(())
    }

    fn receive_file(&mut self, remote_filepath: &str, local_filepath: &str) -> (r: Result<(), ()>)
        default_ensures
            r is Err,
    {
        Err(())
    }
}

/// A connection that does nothing, for trying out a control script.
pub struct ControlConnectionDummyDebug {}

impl ControlConnectionDummyDebug {
    pub fn new() -> (r: ControlConnectionDummyDebug) {
        ControlConnectionDummyDebug {}
    }
}

impl ControlConnection for ControlConnectionDummyDebug {
    /// The debug connection reports no error output, so the message names
    /// only the command and the action.
    fn return_failed_command_error_response_str(&self, command_string: &str, control_action: &ControlAction) -> (r: String)
        ensures
            r@ == failed_command_text(command_string@, control_action.action, None),
    {
        failed_command_message(command_string, control_action.action, None)
    }
}

} // verus!
