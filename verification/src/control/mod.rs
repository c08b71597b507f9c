pub mod file_modifier_helpers;
pub mod terminal_helpers_linux;
pub mod control_system_validation;
pub mod control_common;
pub mod control_actions;
pub mod control_connection;
pub mod action_script;
pub mod common_actions_unix;
pub mod common_actions_linux;
pub mod common_actions_unix_edit_file;
pub mod action_provider_linux_debian;
pub mod action_provider_linux_fedora;
pub mod control_manager;
