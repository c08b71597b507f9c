pub mod provision_common;
pub mod provision_params;
pub mod json;
pub mod provision_provider;
pub mod providers;
pub mod provision_manager;
pub mod listing;
