//! Provisioning and control of remote Linux hosts: the parsing, planning
//! and decision logic, with contracts.
pub mod text;
pub mod yaml;
pub mod params;
pub mod keyed;
pub mod control;
pub mod provision;
