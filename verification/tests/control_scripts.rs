use prod::params::{ParamValue, Params};
use prod::control::action_script::ActionStep;
use prod::control::control_actions::{ActionError, ControlAction, ControlActionType, ControlActions, FileLoadError};
use prod::control::control_common::{ControlSessionCreationError, ControlSessionParams, ControlSessionUserAuth, UserAuthUserPass};
use prod::control::control_connection::{ActionReply, ActionRequest, CommandOutput};
use prod::control::control_manager::{
    ConnectDecision, ControlGeneralParams, ControlManager, PrepareStep, SessionAction, SessionEvent, SessionState, RETRY_LIMIT,
};
use prod::yaml::{load_yaml_documents, YamlNode};

const README_SCRIPT: &str = "---
provider: linux_debian
host: $PROMPT
user: root
actions:
- addUser:
    username: MrUser
    password: DontForgetThePassword
    groups:
    - sudo
- installPackages:
    packages:
    - \"fail2ban\"
- systemCtl:
    service: \"fail2ban\"
    action: stop
- copyPath:
    sourcePath: /etc/fail2ban/fail2ban.conf
    destPath: /etc/fail2ban/fail2ban.local
- copyPath:
    sourcePath: /etc/fail2ban/jail.conf
    destPath: /etc/fail2ban/jail.local
- editFile:
    backup: false
    filepath: \"/etc/fail2ban/jail.local\"
    insertLine:
      position: below
      matchString: '[sshd]'
      insertString: 'enabled: true'
      matchType: startsWith
      onceOnly: true
      reportFailure: false
    replaceLine:
      matchString: 'bantime  = 10m'
      replaceString: 'bantime  = 120m'
      matchType: startsWith
      onceOnly: true
      reportFailure: false
- systemCtl:
    service: \"fail2ban\"
    action: start
- systemCtl:
    service: \"fail2ban\"
    action: restart
- firewall:
    type: ufw
    enabled: true
    rules:
    - \"allow 80/tcp\"
";

fn load(path: &str, text: &str) -> ControlActions {
    match ControlActions::from_file(path, Some(text)) {
        Ok(a) => a,
        Err(e) => panic!("the script should be read: {:?}", e),
    }
}

fn output(stdout: &str, code: i32) -> ActionReply {
    ActionReply::Output(CommandOutput { stdout: stdout.to_string(), stderr: None, exit_code: Some(code) })
}

#[test]
fn readme_script_is_read() {
    let script = load("fail2ban.yaml", README_SCRIPT);
    assert_eq!(script.provider, "linux_debian");
    assert_eq!(script.hostname, "$PROMPT");
    assert_eq!(script.port, None);
    match &script.auth {
        ControlSessionUserAuth::UserPass(up) => {
            assert_eq!(up.username, "root");
            assert_eq!(up.password, "");
        },
        _ => panic!("a password login was expected"),
    }
    let kinds: Vec<ControlActionType> = script.actions.iter().map(|a| a.action).collect();
    assert_eq!(
        kinds,
        vec![
            ControlActionType::AddUser,
            ControlActionType::InstallPackages,
            ControlActionType::SystemCtl,
            ControlActionType::CopyPath,
            ControlActionType::CopyPath,
            ControlActionType::EditFile,
            ControlActionType::SystemCtl,
            ControlActionType::SystemCtl,
            ControlActionType::Firewall,
        ]
    );
    assert_eq!(script.actions[3].params.get_string_value("sourcePath"), Some("/etc/fail2ban/fail2ban.conf".to_string()));
}

#[test]
fn scripts_of_other_kinds() {
    match ControlActions::from_file("notes.md", Some("")) {
        Err(FileLoadError::CustomError(m)) => assert_eq!(m, "Unknown file type."),
        _ => panic!("an unknown file type was expected"),
    }
    let empty = load("script.TXT", "anything");
    assert!(empty.actions.is_empty());
    assert_eq!(empty.provider, "");
    assert!(ControlActions::from_file("broken.yaml", Some("a: [1, 2")).is_err());
    assert!(ControlActions::from_file("missing.yaml", None).is_err());
}

#[test]
fn yaml_documents_are_read() {
    match load_yaml_documents("a: 1\nb: [x, true]\n---\n- 2\n") {
        Ok(docs) => {
            assert_eq!(docs.len(), 2);
            match &docs[0] {
                YamlNode::Hash(entries) => {
                    assert_eq!(entries.len(), 2);
                    assert!(matches!(&entries[0], (YamlNode::Str(k), YamlNode::Integer(1)) if k == "a"));
                    assert!(matches!(&entries[1].1, YamlNode::Array(items) if items.len() == 2));
                },
                _ => panic!("a mapping was expected"),
            }
            assert!(matches!(&docs[1], YamlNode::Array(items) if items.len() == 1));
        },
        Err(_) => panic!("the text should be read"),
    }
    assert!(load_yaml_documents("a: [1").is_err());
}

#[test]
fn session_preparation_asks_what_is_missing() {
    let manager = ControlManager::new();
    let script = load("fail2ban.yaml", README_SCRIPT);
    match manager.prepare_session(&script, &Vec::new()) {
        PrepareStep::AskLine(m) => assert_eq!(m, "Please enter hostname to connect to:"),
        _ => panic!("the host should be asked for"),
    }
    match manager.prepare_session(&script, &vec!["example.com:2222".to_string()]) {
        PrepareStep::AskSecret(m) => assert_eq!(m, "Enter password for user 'root':"),
        _ => panic!("the password should be asked for"),
    }
    match manager.prepare_session(&script, &vec![" example.com:2222 ".to_string(), "pw".to_string()]) {
        PrepareStep::Ready(plan) => {
            assert_eq!(plan.host, "example.com");
            assert_eq!(plan.port, Some(2222));
            assert!(plan.asked_for_hostname);
            assert!(plan.port_warning.is_none());
            match plan.auth {
                ControlSessionUserAuth::UserPass(up) => {
                    assert_eq!(up.username, "root");
                    assert_eq!(up.password, "pw");
                },
                _ => panic!("a password login was expected"),
            }
        },
        _ => panic!("the session should be ready"),
    }
    match manager.prepare_session(&script, &vec!["example.com:ssh".to_string(), "pw".to_string()]) {
        PrepareStep::Ready(plan) => {
            assert_eq!(plan.port, None);
            assert_eq!(plan.port_warning, Some("Error parsing suffix port number after hostname: ssh".to_string()));
        },
        _ => panic!("the session should be ready"),
    }
}

#[test]
fn known_host_password_prompt_names_the_host() {
    let manager = ControlManager::new();
    let script = load("s.yaml", "provider: linux_fedora\nhost: h.example\nuser: $PROMPT\nactions:\n- createDirectory:\n    path: /tmp/x\n");
    match manager.prepare_session(&script, &vec!["admin".to_string()]) {
        PrepareStep::AskSecret(m) => assert_eq!(m, "Enter password for user 'admin' on host 'h.example':"),
        _ => panic!("the password should be asked for"),
    }
}

#[test]
fn connection_retries_are_bounded() {
    let manager = ControlManager::new();
    let mut general = ControlGeneralParams::new();
    let err = ControlSessionCreationError::ConnectionError("timed out".to_string());
    match manager.connect_decision(&general, &err, 0, "h", None) {
        ConnectDecision::GiveUp(m) => assert_eq!(m, "Error connecting to: h:22, error: Can't connect: timed out..."),
        _ => panic!("no retry was expected"),
    }
    general.retry = true;
    let mut count = 0;
    let mut attempts = 1;
    loop {
        match manager.connect_decision(&general, &err, count, "h", Some(2200)) {
            ConnectDecision::Retry(n) => {
                assert_eq!(n, count + 1);
                count = n;
                attempts += 1;
            },
            ConnectDecision::GiveUp(m) => {
                assert_eq!(m, "Connection failed after: 16 retry attempts, will abort. Latest error was: Can't connect: timed out");
                break;
            },
        }
    }
    assert_eq!(attempts, RETRY_LIMIT + 2);
    let auth = ControlSessionCreationError::AuthenticationError("denied".to_string());
    assert!(matches!(manager.connect_decision(&general, &auth, 0, "h", Some(2200)), ConnectDecision::GiveUp(_)));
}

#[test]
fn copy_path_runs_one_command() {
    let manager = ControlManager::new();
    let script = load(
        "s.yaml",
        "provider: linux_debian\nhost: h\nuser: u\npassword: p\nactions:\n- copyPath:\n    sourcePath: /a\n    destPath: /b\n    recursive: true\n- copyPath:\n    sourcePath: /a\n",
    );
    let session = ControlSessionParams::new("h", 22, ControlSessionUserAuth::UserPass(UserAuthUserPass::new("u", "p")), true);
    let provider = manager.create_provider(&script.provider, session).unwrap();
    match provider.run_action(&script.actions[0], &Vec::new()) {
        ActionStep::Send(ActionRequest::Command(c)) => assert_eq!(c, " cp -R /a /b"),
        _ => panic!("a command was expected"),
    }
    assert!(matches!(provider.run_action(&script.actions[0], &vec![output("", 0)]), ActionStep::Finished(Ok(()))));
    match provider.run_action(&script.actions[0], &vec![output("", 1)]) {
        ActionStep::Finished(Err(ActionError::FailedCommand(m))) => assert_eq!(
            m,
            "Unexpected error exit code after running command: 'cp -R /a /b' within control method: 'copyPath'."
        ),
        _ => panic!("a failed command was expected"),
    }
    match provider.run_action(&script.actions[1], &Vec::new()) {
        ActionStep::Finished(Err(ActionError::InvalidParams(m))) => assert_eq!(m, "The 'destPath' parameter was not specified."),
        _ => panic!("a missing parameter was expected"),
    }
}

#[test]
fn providers_by_name() {
    let manager = ControlManager::new();
    let session = ControlSessionParams::new("h", 22, ControlSessionUserAuth::UserPass(UserAuthUserPass::new("u", "p")), false);
    assert!(manager.create_provider("linux_debian", session).is_some());
    let session = ControlSessionParams::new("h", 22, ControlSessionUserAuth::UserPass(UserAuthUserPass::new("u", "p")), false);
    assert!(manager.create_provider("windows", session).is_none());
}

#[test]
fn run_messages() {
    let manager = ControlManager::new();
    assert_eq!(manager.running_message(1), "Running 1 action...");
    assert_eq!(manager.running_message(3), "Running 3 actions...");
    assert_eq!(manager.action_banner(0, ControlActionType::CopyPath), " Running Action 1: copyPath...");
    assert_eq!(
        manager.action_failure_message(2, ControlActionType::SystemCtl, &ActionError::NotImplemented),
        "Error running action index 2 : systemCtl - the action provider does not implement this action..."
    );
    assert_eq!(manager.success_message(2), "Successfully ran actions.");
}

#[test]
fn scripts_as_text() {
    let script = load(
        "s.yaml",
        "provider: linux_debian\nhost: h\nactions:\n- createDirectory:\n    path: /tmp/x\n    permissions: 755\n",
    );
    assert_eq!(
        script.to_text(),
        "Provider: linux_debian, Hostname: h, User: ,\n actions (1): {\n   Action: createDirectory, params (2): {\n  path: '/tmp/x'\n  permissions: 755\n }\n }\n"
    );
    assert_eq!(script.actions[0].params.to_text(), "Params: (2) {\n path: '/tmp/x'\n permissions: 755\n}");
}

#[test]
fn readme_add_user_joins_its_groups() {
    let manager = ControlManager::new();
    let script = load("fail2ban.yaml", README_SCRIPT);
    let session = ControlSessionParams::new("h", 22, ControlSessionUserAuth::UserPass(UserAuthUserPass::new("root", "p")), false);
    let provider = manager.create_provider(&script.provider, session).unwrap();
    match provider.run_action(&script.actions[0], &Vec::new()) {
        ActionStep::Send(ActionRequest::Command(c)) => assert_eq!(c, "useradd -m -G sudo -s /bin/bash MrUser"),
        _ => panic!("the useradd command was expected"),
    }
    match provider.run_action(&script.actions[0], &vec![output("", 0)]) {
        ActionStep::Send(ActionRequest::Command(c)) => assert_eq!(c, " echo -e 'MrUser:DontForgetThePassword' | chpasswd"),
        _ => panic!("the chpasswd command was expected"),
    }
    assert!(matches!(
        provider.run_action(&script.actions[0], &vec![output("", 0), output("", 0)]),
        ActionStep::Finished(Ok(()))
    ));
}

#[test]
fn map_values_are_written_in_the_order_of_their_names() {
    let m = ParamValue::Mapping(vec![
        ("b".to_string(), ParamValue::Int(1)),
        ("a".to_string(), ParamValue::Bool(true)),
    ]);
    assert_eq!(m.to_text(), "{ a: true,  b: 1, }");
    let mut params = Params::new();
    params.insert("zone", ParamValue::Str("x".to_string()));
    params.insert("alpha", ParamValue::Int(2));
    assert_eq!(params.to_text(), "Params: (2) {\n alpha: 2\n zone: 'x'\n}");
}

fn script_with(provider: &str, n_actions: usize) -> ControlActions {
    let mut script = ControlActions::new();
    script.provider = provider.to_string();
    for _ in 0..n_actions {
        script.actions.push(ControlAction::new());
    }
    script
}

#[test]
fn session_refuses_a_script_before_asking_anything() {
    let manager = ControlManager::new();
    let (state, action) = manager.session_step(&script_with("linux_debian", 0), SessionState::Start, SessionEvent::Started);
    assert_eq!(state, SessionState::Finished);
    assert!(matches!(action, SessionAction::Refuse(ref m) if m == "Error: no valid actions specified."));
    let (state, action) = manager.session_step(&script_with("bsd", 2), SessionState::Start, SessionEvent::Started);
    assert_eq!(state, SessionState::Finished);
    assert!(matches!(action, SessionAction::Refuse(ref m) if m == "Error: Can't find control provider: 'bsd'."));
    let (state, action) = manager.session_step(&script_with("linux_fedora", 2), SessionState::Start, SessionEvent::Started);
    assert_eq!(state, SessionState::Preparing);
    assert!(matches!(action, SessionAction::Prepare));
}

#[test]
fn session_runs_actions_in_order_and_stops_at_a_failure() {
    let manager = ControlManager::new();
    let script = script_with("linux_debian", 2);
    let (state, action) = manager.session_step(&script, SessionState::Preparing, SessionEvent::Prepared);
    assert_eq!(state, SessionState::Connecting);
    assert!(matches!(action, SessionAction::Connect));
    let (state, action) = manager.session_step(&script, state, SessionEvent::Connected(true));
    assert_eq!(state, SessionState::Running(0));
    assert!(matches!(action, SessionAction::Run(0)));
    let (state, action) = manager.session_step(&script, state, SessionEvent::ActionFinished(true));
    assert_eq!(state, SessionState::Running(1));
    assert!(matches!(action, SessionAction::Run(1)));
    let (state, action) = manager.session_step(&script, state, SessionEvent::ActionFinished(true));
    assert_eq!(state, SessionState::Finished);
    assert!(matches!(action, SessionAction::Finish(true)));
    let (_, action) = manager.session_step(&script, SessionState::Running(0), SessionEvent::ActionFinished(false));
    assert!(matches!(action, SessionAction::Finish(false)));
    let (_, action) = manager.session_step(&script, SessionState::Connecting, SessionEvent::Connected(false));
    assert!(matches!(action, SessionAction::Finish(false)));
}
