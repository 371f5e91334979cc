use armafield_server::config::launcher::Network;
use armafield_server::error::{Error, ExitCode};
use armafield_server::firewall::{rule_name, Role};
use armafield_server::paths::Paths;
use std::io;

#[test]
fn exit_code_numeric_values_are_stable() {
    assert_eq!(ExitCode::Success.as_i32(), 0);
    assert_eq!(ExitCode::ConfigError.as_i32(), 1);
    assert_eq!(ExitCode::SteamcmdFatal.as_i32(), 2);
    assert_eq!(ExitCode::WindowsAccess.as_i32(), 3);
    assert_eq!(ExitCode::IoFatal.as_i32(), 4);
}

#[test]
fn config_error_maps_to_exit_code_1() {
    let err = Error::Config("oops".into());
    assert_eq!(err.exit_code(), ExitCode::ConfigError);
}

#[test]
fn needs_admin_maps_to_exit_code_3() {
    assert_eq!(Error::NeedsAdmin.exit_code(), ExitCode::WindowsAccess);
}

#[test]
fn io_error_maps_to_exit_code_4() {
    let err = Error::Io(io::Error::other("boom"));
    assert_eq!(err.exit_code(), ExitCode::IoFatal);
}

#[test]
fn every_error_kind_has_its_exit_code() {
    assert_eq!(Error::ConfigNotFound("x".into()).exit_code(), ExitCode::ConfigError);
    assert_eq!(Error::Json("bad".into()).exit_code(), ExitCode::ConfigError);
    assert_eq!(Error::Toml("bad".into()).exit_code(), ExitCode::ConfigError);
    assert_eq!(Error::Steamcmd("x".into()).exit_code(), ExitCode::SteamcmdFatal);
    assert_eq!(Error::SteamcmdFatal.exit_code(), ExitCode::SteamcmdFatal);
    assert_eq!(Error::Service("x".into()).exit_code(), ExitCode::WindowsAccess);
    assert_eq!(Error::Firewall("x".into()).exit_code(), ExitCode::WindowsAccess);
}

#[test]
fn role_suffix_is_stable() {
    assert_eq!(Role::Game.suffix(), "GAME");
    assert_eq!(Role::A2s.suffix(), "A2S");
    assert_eq!(Role::Rcon.suffix(), "RCON");
}

#[test]
fn rule_name_concatenates_prefix_and_suffix() {
    assert_eq!(rule_name("ArmaField", Role::Game), "ArmaField GAME");
    assert_eq!(rule_name("MyServer", Role::Rcon), "MyServer RCON");
}

#[test]
fn role_port_reads_from_network() {
    let net = Network {
        public_address: String::new(),
        game_port: 5,
        a2s_port: 6,
        rcon_port: 7,
    };
    assert_eq!(Role::Game.port(&net), 5);
    assert_eq!(Role::A2s.port(&net), 6);
    assert_eq!(Role::Rcon.port(&net), 7);
}

#[test]
fn rule_names_of_all_roles_differ() {
    let names: Vec<String> = Role::ALL.iter().map(|r| rule_name("AF", *r)).collect();
    assert_eq!(names, vec!["AF GAME", "AF A2S", "AF RCON"]);
}

#[test]
fn from_home_builds_expected_layout() {
    let p = Paths::from_home(r"C:\games\af".to_string());
    assert_eq!(p.launcher_toml, r"C:\games\af\launcher.toml");
    assert_eq!(p.config_json, r"C:\games\af\config.json");
    assert_eq!(p.runtime_config, r"C:\games\af\state\runtime_config.json");
    assert_eq!(p.marker, r"C:\games\af\state\steamcmd.marker");
    assert_eq!(p.steamcmd_exe, r"C:\games\af\steamcmd\steamcmd.exe");
    assert_eq!(p.server_exe, r"C:\games\af\server\ArmaReforgerServer.exe");
}

#[test]
fn map_seeding_uses_double_profile_subdir() {
    let p = Paths::from_home(r"C:\af".to_string());
    assert_eq!(
        p.map_seeding_json,
        r"C:\af\profile\profile\ArmaField\Systems\MapSeeding.json"
    );
}

#[test]
fn resolve_respects_armafield_home_env() {
    let paths = Paths::resolve(Some(r"D:\srv\af".to_string()), Some(r"C:\bin".to_string())).unwrap();
    assert_eq!(paths.home, r"D:\srv\af");
    assert_eq!(paths.logs_dir, r"D:\srv\af\logs");
}

#[test]
fn resolve_falls_back_to_exe_dir_when_env_empty() {
    let paths = Paths::resolve(None, Some(r"C:\bin".to_string())).unwrap();
    assert_eq!(paths.home, r"C:\bin");
    let paths = Paths::resolve(Some(String::new()), Some(r"C:\bin".to_string())).unwrap();
    assert_eq!(paths.home, r"C:\bin");
}

#[test]
fn resolve_without_any_home_is_config_error() {
    let err = Paths::resolve(None, None).unwrap_err();
    assert!(matches!(err, Error::Config(ref m) if m == "cannot locate ARMAFIELD_HOME or exe directory"));
}

#[test]
fn join_does_not_double_separators() {
    let p = Paths::from_home(r"C:\af\".to_string());
    assert_eq!(p.config_json, r"C:\af\config.json");
    let p = Paths::from_home("C:".to_string());
    assert_eq!(p.config_json, "C:config.json");
    let p = Paths::from_home(String::new());
    assert_eq!(p.config_json, "config.json");
}

#[test]
fn long_home_is_flagged() {
    assert!(!Paths::from_home("C:\\af".to_string()).home_is_long());
    assert!(Paths::from_home("x".repeat(201)).home_is_long());
    assert!(!Paths::from_home("x".repeat(200)).home_is_long());
}
