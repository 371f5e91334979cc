//! The command line of `armafield-server`.
use vstd::prelude::*;

verus! {

#[derive(Debug)]
pub struct Cli {
    pub command: Command,
}

#[derive(Debug)]
pub enum Command {
    /// Foreground supervisor loop. Ctrl+C for graceful shutdown.
    Run,
    /// Seed launcher.toml/config.json from templates, download SteamCMD,
    /// install the game. Does not start the server.
    Install,
    /// Force `steamcmd validate` once and exit.
    Update,
    /// Validate launcher.toml and config.json without starting anything.
    Config { action: ConfigAction },
    /// Manage Windows Firewall UDP rules.
    Firewall { action: FirewallAction },
    /// Manage the Windows Service.
    Service { action: ServiceAction },
}

#[derive(Debug)]
pub enum ConfigAction {
    /// Parse and validate configuration files.
    Check,
}

#[derive(Debug)]
pub enum FirewallAction {
    /// Idempotently create the three UDP rules.
    Add,
    /// Delete the three rules.
    Remove,
}

#[derive(Debug)]
pub enum ServiceAction {
    /// Register as a Windows Service; the flags override
    /// `launcher.toml:service.start_type`.
    Install { auto: bool, manual: bool, disabled: bool },
    /// Remove the service.
    Uninstall,
    /// Start the service via SCM.
    Start,
    /// Stop the service via SCM.
    Stop,
    /// Print the service's current SCM state.
    Status,
    /// SCM entry point - never invoked directly.
    Run,
}

} // verus!
