//! Session settings for a control connection: who logs in, how, and where.
use vstd::prelude::*;
use crate::text::{concat2, owned};

verus! {

/// The kind of connection a session uses.
pub enum ConnectionType {
    SSH,
}

/// Whether commands run as the logged-in user or through `sudo`.
#[derive(Clone, Copy, Debug, PartialEq, Eq, Structural)]
pub enum UserType {
    Standard,
    Sudo,
}

#[derive(Clone, Debug)]
pub struct UserAuthUserPass {
    pub username: String,
    pub password: String,
}

impl UserAuthUserPass {
    pub fn new(user: &str, pass: &str) -> (r: UserAuthUserPass)
        ensures
            r.username@ == user@,
            r.password@ == pass@,
    {
        UserAuthUserPass { username: owned(user), password: owned(pass) }
    }
}

#[derive(Clone, Debug)]
pub struct UserAuthPublicKey {
    pub username: String,
    pub publickey_path: String,
    pub privatekey_path: String,
    pub passphrase: String,
}

impl UserAuthPublicKey {
    pub fn new(username: &str, publickey_path: &str, privatekey_path: &str, passphrase: &str) -> (r: UserAuthPublicKey)
        ensures
            r.username@ == username@,
            r.publickey_path@ == publickey_path@,
            r.privatekey_path@ == privatekey_path@,
            r.passphrase@ == passphrase@,
    {
        UserAuthPublicKey {
            username: owned(username),
            publickey_path: owned(publickey_path),
            privatekey_path: owned(privatekey_path),
            passphrase: owned(passphrase),
        }
    }
}

/// How a session authenticates.
#[derive(Clone, Debug)]
pub enum ControlSessionUserAuth {
    UserPass(UserAuthUserPass),
    PublicKey(UserAuthPublicKey),
}

/// A login with its texts as characters.
pub enum AuthV {
    UserPass(Seq<char>, Seq<char>),
    PublicKey(Seq<char>, Seq<char>, Seq<char>, Seq<char>),
}

impl View for ControlSessionUserAuth {
    type V = AuthV;

    open spec fn view(&self) -> AuthV {
        match self {
            ControlSessionUserAuth::UserPass(u) => AuthV::UserPass(u.username@, u.password@),
            ControlSessionUserAuth::PublicKey(k) => AuthV::PublicKey(
                k.username@,
                k.publickey_path@,
                k.privatekey_path@,
                k.passphrase@,
            ),
        }
    }
}

impl AuthV {
    pub open spec fn username(self) -> Seq<char> {
        match self {
            AuthV::UserPass(u, _) => u,
            AuthV::PublicKey(u, _, _, _) => u,
        }
    }
}

/// Where and how a control session connects.
pub struct ControlSessionParams {
    pub connection_type: ConnectionType,
    pub target_host: String,
    pub target_port: u32,
    pub user_auth: ControlSessionUserAuth,
    pub user_type: UserType,
    pub hide_commands_from_history: bool,
}

impl ControlSessionParams {
    /// Settings for an SSH session; commands run as the logged-in user.
    pub fn new(
        target_host: &str,
        target_port: u32,
        user_auth: ControlSessionUserAuth,
        hide_commands_from_history: bool,
    ) -> (r: ControlSessionParams)
        ensures
            r.target_host@ == target_host@,
            r.target_port == target_port,
            r.user_auth == user_auth,
            r.user_type == UserType::Standard,
            r.hide_commands_from_history == hide_commands_from_history,
    {
        ControlSessionParams {
            connection_type: ConnectionType::SSH,
            target_host: owned(target_host),
            target_port,
            user_auth,
            user_type: UserType::Standard,
            hide_commands_from_history,
        }
    }
}

/// Why a session could not be opened.
#[derive(Clone, Debug)]
pub enum ControlSessionCreationError {
    ConfigFailure(String),
    ConnectionError(String),
    AuthenticationError(String),
    Other(String),
}

impl ControlSessionCreationError {
    /// Whether trying again may help: only for connection and other errors.
    pub fn should_attempt_connection_retry(&self) -> (r: bool)
        ensures
            r == (self is ConnectionError || self is Other),
    {
        match self {
            ControlSessionCreationError::ConfigFailure(_) => false,
            ControlSessionCreationError::AuthenticationError(_) => false,
            ControlSessionCreationError::ConnectionError(_) => true,
            ControlSessionCreationError::Other(_) => true,
        }
    }

    pub open spec fn message_spec(&self) -> Seq<char> {
        match self {
            ControlSessionCreationError::ConfigFailure(e) => "Config Failure: "@ + e@,
            ControlSessionCreationError::ConnectionError(e) => "Can't connect: "@ + e@,
            ControlSessionCreationError::AuthenticationError(e) => "Authentication Error: "@ + e@,
            ControlSessionCreationError::Other(e) => "Other error: "@ + e@,
        }
    }

    /// The error as a line of text.
    pub fn message(&self) -> (r: String)
        ensures
            r@ == self.message_spec(),
    {
        match self {
            ControlSessionCreationError::ConfigFailure(e) => concat2("Config Failure: ", e.as_str()),
            ControlSessionCreationError::ConnectionError(e) => concat2("Can't connect: ", e.as_str()),
            ControlSessionCreationError::AuthenticationError(e) => concat2("Authentication Error: ", e.as_str()),
            ControlSessionCreationError::Other(e) => concat2("Other error: ", e.as_str()),
        }
    }
}

} // verus!
