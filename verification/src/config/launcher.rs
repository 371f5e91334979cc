//! `launcher.toml`: every section and field is optional and has a default.
use crate::error::Error;
use vstd::prelude::*;

verus! {

/// What reading a configuration file produced.
#[derive(Debug)]
pub enum FileContents<T> {
    /// The file does not exist.
    Missing,
    /// The file exists but could not be read.
    Unreadable(std::io::Error),
    /// The file was read but its text is not a valid document; the parser's message.
    Malformed(String),
    /// The file was read and parsed.
    Parsed(T),
}

/// What reading a text file produced.
#[derive(Debug)]
pub enum FileRead {
    /// The file does not exist.
    Missing,
    /// The file exists but could not be read.
    Unreadable(std::io::Error),
    /// The file's text.
    Text(String),
}

#[derive(Debug, Clone)]
pub struct Network {
    pub public_address: String,
    pub game_port: u16,
    pub a2s_port: u16,
    pub rcon_port: u16,
}

#[derive(Debug, Clone)]
pub struct Arma {
    pub params: String,
}

#[derive(Debug, Clone)]
pub struct SteamCmd {
    pub check_interval_minutes: u64,
    pub skip_install: bool,
    pub app_id: String,
}

#[derive(Debug, Clone)]
pub struct Firewall {
    pub rule_prefix: String,
    pub auto_manage: bool,
}

#[derive(Debug, Clone)]
pub struct Service {
    pub name: String,
    pub display_name: String,
    pub description: String,
    pub start_type: String,
}

#[derive(Debug, Clone)]
pub struct Launcher {
    pub network: Network,
    pub arma: Arma,
    pub steamcmd: SteamCmd,
    pub firewall: Firewall,
    pub service: Service,
}

pub fn default_game_port() -> (p: u16)
    ensures
        p == 2001,
{
    2001
}

pub fn default_a2s_port() -> (p: u16)
    ensures
        p == 17777,
{
    17777
}

pub fn default_rcon_port() -> (p: u16)
    ensures
        p == 19999,
{
    19999
}

pub fn default_params() -> (s: String)
    ensures
        s@ == "-maxFPS 120 -backendlog -nothrow"@,
{
    "-maxFPS 120 -backendlog -nothrow".to_owned()
}

pub fn default_check_interval() -> (m: u64)
    ensures
        m == 60,
{
    60
}

pub fn default_app_id() -> (s: String)
    ensures
        s@ == "1874900"@,
{
    "1874900".to_owned()
}

pub fn default_rule_prefix() -> (s: String)
    ensures
        s@ == "ArmaField Server"@,
{
    "ArmaField Server".to_owned()
}

pub fn default_service_name() -> (s: String)
    ensures
        s@ == "ArmaFieldServer"@,
{
    "ArmaFieldServer".to_owned()
}

pub fn default_service_display_name() -> (s: String)
    ensures
        s@ == "ArmaField Reforger Server"@,
{
    "ArmaField Reforger Server".to_owned()
}

pub fn default_service_description() -> (s: String)
    ensures
        s@
            == "Runs the Arma Reforger dedicated server with ArmaField MapSeeding rotation and auto-updates."@,
{
    "Runs the Arma Reforger dedicated server with ArmaField MapSeeding rotation and auto-updates.".to_owned()
}

pub fn default_start_type() -> (s: String)
    ensures
        s@ == "auto"@,
{
    "auto".to_owned()
}

pub open spec fn is_default_network(n: Network) -> bool {
    &&& n.public_address@.len() == 0
    &&& n.game_port == 2001
    &&& n.a2s_port == 17777
    &&& n.rcon_port == 19999
}

pub open spec fn is_default_arma(a: Arma) -> bool {
    a.params@ == "-maxFPS 120 -backendlog -nothrow"@
}

pub open spec fn is_default_steamcmd(s: SteamCmd) -> bool {
    &&& s.check_interval_minutes == 60
    &&& !s.skip_install
    &&& s.app_id@ == "1874900"@
}

pub open spec fn is_default_firewall(f: Firewall) -> bool {
    &&& f.rule_prefix@ == "ArmaField Server"@
    &&& !f.auto_manage
}

pub open spec fn is_default_service(s: Service) -> bool {
    &&& s.name@ == "ArmaFieldServer"@
    &&& s.display_name@ == "ArmaField Reforger Server"@
    &&& s.description@
        == "Runs the Arma Reforger dedicated server with ArmaField MapSeeding rotation and auto-updates."@
    &&& s.start_type@ == "auto"@
}

pub open spec fn is_default_launcher(l: Launcher) -> bool {
    &&& is_default_network(l.network)
    &&& is_default_arma(l.arma)
    &&& is_default_steamcmd(l.steamcmd)
    &&& is_default_firewall(l.firewall)
    &&& is_default_service(l.service)
}

impl Default for Network {
    fn default() -> (n: Self)
        ensures
            is_default_network(n),
    {
        Network {
            public_address: String::new(),
            game_port: default_game_port(),
            a2s_port: default_a2s_port(),
            rcon_port: default_rcon_port(),
        }
    }
}

impl Default for Arma {
    fn default() -> (a: Self)
        ensures
            is_default_arma(a),
    {
        Arma { params: default_params() }
    }
}

impl Default for SteamCmd {
    fn default() -> (s: Self)
        ensures
            is_default_steamcmd(s),
    {
        SteamCmd {
            check_interval_minutes: default_check_interval(),
            skip_install: false,
            app_id: default_app_id(),
        }
    }
}

impl Default for Firewall {
    fn default() -> (f: Self)
        ensures
            is_default_firewall(f),
    {
        Firewall { rule_prefix: default_rule_prefix(), auto_manage: false }
    }
}

impl Default for Service {
    fn default() -> (s: Self)
        ensures
            is_default_service(s),
    {
        Service {
            name: default_service_name(),
            display_name: default_service_display_name(),
            description: default_service_description(),
            start_type: default_start_type(),
        }
    }
}

impl Launcher {
    /// The outcome of loading `launcher.toml`: a missing file yields the
    /// fully defaulted configuration, so the launcher can run on defaults.
    pub fn load(file: FileContents<Launcher>) -> (res: Result<Launcher, Error>)
        ensures
            match file {
                FileContents::Missing => res matches Ok(l) && is_default_launcher(l),
                FileContents::Unreadable(e) => res == Err::<Launcher, Error>(Error::Io(e)),
                FileContents::Malformed(m) => res matches Err(Error::Toml(t)) && t@ == m@,
                FileContents::Parsed(l) => res == Ok::<Launcher, Error>(l),
            },
    {
        match file {
            FileContents::Missing => Ok(
                Launcher {
                    network: Network::default(),
                    arma: Arma::default(),
                    steamcmd: SteamCmd::default(),
                    firewall: Firewall::default(),
                    service: Service::default(),
                },
            ),
            FileContents::Unreadable(e) => Err(Error::Io(e)),
            FileContents::Malformed(m) => Err(Error::Toml(m)),
            FileContents::Parsed(l) => Ok(l),
        }
    }
}

} // verus!
