//! Verified core of the ArmaField dedicated-server launcher: configuration
//! models, runtime-config patching, MapSeeding rotation, firewall rule plans,
//! SteamCMD freshness decisions and the supervisor state machine.
pub mod cli;
pub mod config;
pub mod error;
pub mod firewall;
pub mod paths;
pub mod service;
pub mod steamcmd;
pub mod supervisor;
pub mod text;
