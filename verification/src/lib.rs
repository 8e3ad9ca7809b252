//! The decisions of the Habitat Supervisor's command line program.

pub mod args;
pub mod boot;
pub mod boot_laws;
pub mod cli;
pub mod cli_laws;
pub mod config;
pub mod config_laws;
pub mod control;
pub mod control_laws;
pub mod domain;
pub mod outside;
pub mod replies;
pub mod replies_laws;
pub mod run;
pub mod run_laws;
pub mod settings;
pub mod settings_laws;
pub mod start;
pub mod start_laws;
pub mod svc_load;
pub mod svc_load_laws;
pub mod text;
pub mod text_laws;
pub mod validate;
pub mod validate_laws;
pub mod view_laws;
