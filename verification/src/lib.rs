//! The verified core of `metal-deploy`, which deploys git repositories as
//! systemd user services, one Linux user per service: how services are named,
//! where their files live, the files written for them, and each command's
//! steps as a state machine that asks the system for one thing at a time.
pub mod text;
pub mod env;
pub mod naming;
pub mod layout;
pub mod files;
pub mod effects;
pub mod session;
pub mod release;
pub mod console;
pub mod control;
pub mod build_flow;
pub mod delete_flow;
pub mod start_flow;
pub mod update_flow;
pub mod add_flow;
