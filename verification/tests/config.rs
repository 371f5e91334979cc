use armafield_server::config::arma::{check_user_config, load_user_config, ArmaConfig};
use armafield_server::config::json::{JsonNumber, JsonValue};
use armafield_server::config::launcher::{FileContents, FileRead, Launcher, Network};
use armafield_server::config::mapseeding::{apply_map_seeding, apply_seeding_data, SeedingOutcome};
use armafield_server::config::runtime::{apply_launcher_overrides, runtime_config_text};
use armafield_server::error::{Error, ExitCode};
use armafield_server::supervisor::load_and_patch_config;

/// The document model of a JSON value.
fn model(v: serde_json::Value) -> JsonValue {
    match v {
        serde_json::Value::Null => JsonValue::Null,
        serde_json::Value::Bool(b) => JsonValue::Bool(b),
        serde_json::Value::Number(n) => JsonValue::Number(match (n.as_u64(), n.as_i64()) {
            (Some(u), _) => JsonNumber::PosInt(u),
            (None, Some(i)) => JsonNumber::NegInt(i),
            (None, None) => JsonNumber::Float(n.to_string()),
        }),
        serde_json::Value::String(s) => JsonValue::Str(s),
        serde_json::Value::Array(items) => JsonValue::Array(items.into_iter().map(model).collect()),
        serde_json::Value::Object(members) => {
            JsonValue::Object(members.into_iter().map(|(k, v)| (k, model(v))).collect())
        }
    }
}

/// What reading a file with this text gives.
fn read_json(text: &str) -> FileRead {
    FileRead::Text(text.to_string())
}

fn num(n: u64) -> JsonValue {
    JsonValue::Number(JsonNumber::PosInt(n))
}

fn json(text: &str) -> JsonValue {
    model(serde_json::from_str(text).unwrap())
}

fn text(s: &str) -> JsonValue {
    JsonValue::Str(s.to_string())
}

fn get<'a>(v: &'a JsonValue, path: &[&str]) -> Option<&'a JsonValue> {
    let mut cur = v;
    for key in path {
        cur = cur.get(key)?;
    }
    Some(cur)
}

// ---- config.json ----

#[test]
fn missing_file_returns_config_not_found() {
    let p = "C:\\tmp\\nope.json";
    match load_user_config(p, FileRead::Missing) {
        Err(Error::ConfigNotFound(got)) => assert_eq!(got, p),
        other => panic!("expected ConfigNotFound, got {other:?}"),
    }
}

#[test]
fn invalid_json_returns_json_error() {
    let err = load_user_config("bad.json", read_json("{not valid json")).unwrap_err();
    assert!(matches!(err, Error::Json(_)));
}

#[test]
fn missing_game_section_is_config_error() {
    let err = load_user_config("c.json", read_json(r#"{"bindPort": 2001}"#)).unwrap_err();
    match err {
        Error::Config(msg) => assert!(msg.contains("game")),
        other => panic!("unexpected {other:?}"),
    }
}

#[test]
fn missing_scenario_id_is_config_error() {
    let err = load_user_config("c.json", read_json(r#"{"game": {"name": "test"}}"#)).unwrap_err();
    match err {
        Error::Config(msg) => assert!(msg.contains("scenarioId")),
        other => panic!("unexpected {other:?}"),
    }
}

#[test]
fn empty_scenario_id_is_config_error() {
    let err = load_user_config("c.json", read_json(r#"{"game": {"scenarioId": "   "}}"#)).unwrap_err();
    assert!(matches!(err, Error::Config(_)));
}

#[test]
fn valid_config_loads() {
    let cfg = load_user_config(
        "c.json",
        read_json(r#"{"game": {"scenarioId": "{A}M.conf", "name": "t"}}"#),
    )
    .unwrap();
    let scenario = get(cfg.as_value(), &["game", "scenarioId"]).unwrap();
    assert_eq!(scenario, &text("{A}M.conf"));
}

#[test]
fn config_error_messages_name_the_file() {
    let err = load_user_config("C:\\af\\config.json", read_json("[1, 2]")).unwrap_err();
    match err {
        Error::Config(msg) => {
            assert_eq!(msg, "C:\\af\\config.json: missing or non-object 'game' section")
        }
        other => panic!("unexpected {other:?}"),
    }
    let err = load_user_config("x.json", read_json(r#"{"game": {"scenarioId": 7}}"#)).unwrap_err();
    match err {
        Error::Config(msg) => assert_eq!(msg, "x.json: missing or empty 'game.scenarioId'"),
        other => panic!("unexpected {other:?}"),
    }
}

#[test]
fn unreadable_config_is_io_error() {
    let err = load_user_config(
        "c.json",
        FileRead::Unreadable(std::io::Error::other("denied")),
    )
    .unwrap_err();
    assert!(matches!(err, Error::Io(_)));
    assert_eq!(err.exit_code(), ExitCode::IoFatal);
}

// ---- launcher.toml ----

#[test]
fn missing_file_yields_defaults() {
    let l = Launcher::load(FileContents::Missing).unwrap();
    assert_eq!(l.network.game_port, 2001);
    assert_eq!(l.steamcmd.app_id, "1874900");
    assert!(!l.firewall.auto_manage);
    assert_eq!(l.service.start_type, "auto");
}

#[test]
fn defaults_match_documented_values() {
    let l = Launcher::load(FileContents::Missing).unwrap();
    assert_eq!(l.network.public_address, "");
    assert_eq!(l.network.a2s_port, 17777);
    assert_eq!(l.network.rcon_port, 19999);
    assert_eq!(l.arma.params, "-maxFPS 120 -backendlog -nothrow");
    assert_eq!(l.steamcmd.check_interval_minutes, 60);
    assert!(!l.steamcmd.skip_install);
    assert_eq!(l.firewall.rule_prefix, "ArmaField Server");
    assert_eq!(l.service.name, "ArmaFieldServer");
    assert_eq!(l.service.display_name, "ArmaField Reforger Server");
}

#[test]
fn malformed_launcher_toml_is_toml_error() {
    let e = toml::from_str::<toml::Value>("[network\ngame_port = 2001").unwrap_err();
    let err = Launcher::load(FileContents::Malformed(e.to_string())).unwrap_err();
    assert!(matches!(err, Error::Toml(_)));
    assert_eq!(err.exit_code(), ExitCode::ConfigError);
}

#[test]
fn parsed_launcher_is_kept() {
    let mut l = Launcher::load(FileContents::Missing).unwrap();
    l.network.game_port = 4242;
    let got = Launcher::load(FileContents::Parsed(l)).unwrap();
    assert_eq!(got.network.game_port, 4242);
}

// ---- MapSeeding.json ----

fn cfg_with_fallback() -> ArmaConfig {
    ArmaConfig(json(r#"{"game": { "scenarioId": "{ABC}Missions/Fallback.conf" }}"#))
}

fn scenario_of(cfg: &ArmaConfig) -> String {
    match get(cfg.as_value(), &["game", "scenarioId"]) {
        Some(JsonValue::Str(s)) => s.clone(),
        other => panic!("no scenario: {other:?}"),
    }
}

#[test]
fn missing_file_keeps_fallback() {
    let mut cfg = cfg_with_fallback();
    let outcome = apply_map_seeding(&mut cfg, FileRead::Missing);
    assert!(matches!(outcome, SeedingOutcome::FileMissing));
    assert_eq!(scenario_of(&cfg), "{ABC}Missions/Fallback.conf");
}

#[test]
fn valid_override_applies() {
    let mut cfg = cfg_with_fallback();
    let outcome = apply_map_seeding(
        &mut cfg,
        read_json(r#"{"SeedingLevel": 2, "MissionResourceName": "{XYZ}Missions/Next.conf"}"#),
    );
    assert!(matches!(outcome, SeedingOutcome::Applied(ref m) if m == "{XYZ}Missions/Next.conf"));
    assert_eq!(scenario_of(&cfg), "{XYZ}Missions/Next.conf");
}

#[test]
fn invalid_json_keeps_fallback() {
    let mut cfg = cfg_with_fallback();
    let outcome = apply_map_seeding(&mut cfg, read_json("{corrupt"));
    assert!(matches!(outcome, SeedingOutcome::FileMalformed(_)));
    assert_eq!(scenario_of(&cfg), "{ABC}Missions/Fallback.conf");
}

#[test]
fn missing_key_keeps_fallback() {
    let mut cfg = cfg_with_fallback();
    let outcome = apply_map_seeding(&mut cfg, read_json(r#"{"SeedingLevel": 1}"#));
    assert!(matches!(outcome, SeedingOutcome::NameMissing));
    assert_eq!(scenario_of(&cfg), "{ABC}Missions/Fallback.conf");
}

#[test]
fn empty_value_keeps_fallback() {
    let mut cfg = cfg_with_fallback();
    apply_map_seeding(
        &mut cfg,
        read_json(r#"{"SeedingLevel": 1, "MissionResourceName": "   "}"#),
    );
    assert_eq!(scenario_of(&cfg), "{ABC}Missions/Fallback.conf");
}

#[test]
fn suspicious_value_keeps_fallback() {
    let mut cfg = cfg_with_fallback();
    let outcome = apply_map_seeding(
        &mut cfg,
        read_json(r#"{"SeedingLevel": 1, "MissionResourceName": "totally-not-a-mission"}"#),
    );
    assert!(matches!(outcome, SeedingOutcome::NotAScenario(ref m) if m == "totally-not-a-mission"));
    assert_eq!(scenario_of(&cfg), "{ABC}Missions/Fallback.conf");
}

#[test]
fn config_without_game_section_is_tolerated() {
    let mut cfg = ArmaConfig(json(r#"{"bindPort": 2001}"#));
    let outcome = apply_map_seeding(
        &mut cfg,
        read_json(r#"{"SeedingLevel": 1, "MissionResourceName": "{A}M.conf"}"#),
    );
    assert!(matches!(outcome, SeedingOutcome::NoGameSection));
    assert!(cfg.as_value().get("game").is_none());
}

#[test]
fn mission_name_is_trimmed_before_use() {
    let mut cfg = cfg_with_fallback();
    apply_map_seeding(
        &mut cfg,
        read_json(r#"{"MissionResourceName": "  {Q}Next.conf \n"}"#),
    );
    assert_eq!(scenario_of(&cfg), "{Q}Next.conf");
}

#[test]
fn mission_without_conf_suffix_is_ignored() {
    let mut cfg = cfg_with_fallback();
    apply_map_seeding(&mut cfg, read_json(r#"{"MissionResourceName": "{Q}Next.cfg"}"#));
    assert_eq!(scenario_of(&cfg), "{ABC}Missions/Fallback.conf");
}

#[test]
fn non_string_mission_is_ignored() {
    let mut cfg = cfg_with_fallback();
    let outcome = apply_map_seeding(&mut cfg, read_json(r#"{"MissionResourceName": 12}"#));
    assert!(matches!(outcome, SeedingOutcome::NameMissing));
    assert_eq!(scenario_of(&cfg), "{ABC}Missions/Fallback.conf");
}

// ---- runtime overrides ----

fn full_cfg() -> ArmaConfig {
    ArmaConfig(json(
        r#"{
            "bindAddress": "1.2.3.4",
            "bindPort": 9999,
            "publicAddress": "5.6.7.8",
            "publicPort": 9999,
            "a2s":  { "address": "1.2.3.4", "port": 99 },
            "rcon": { "address": "1.2.3.4", "port": 88, "password": "x" },
            "game": { "scenarioId": "{A}M.conf" }
        }"#,
    ))
}

fn net(game: u16, a2s: u16, rcon: u16, pub_addr: &str) -> Network {
    Network {
        public_address: pub_addr.to_string(),
        game_port: game,
        a2s_port: a2s,
        rcon_port: rcon,
    }
}

fn remove_member(cfg: &mut ArmaConfig, key: &str) {
    match cfg.as_value_mut() {
        JsonValue::Object(members) => members.retain(|(k, _)| k != key),
        other => panic!("not an object: {other:?}"),
    }
}

#[test]
fn forces_bind_addresses_to_zero() {
    let mut cfg = full_cfg();
    apply_launcher_overrides(&mut cfg, &net(2001, 17777, 19999, ""));
    assert_eq!(get(cfg.as_value(), &["bindAddress"]), Some(&text("0.0.0.0")));
    assert_eq!(get(cfg.as_value(), &["a2s", "address"]), Some(&text("0.0.0.0")));
    assert_eq!(get(cfg.as_value(), &["rcon", "address"]), Some(&text("0.0.0.0")));
}

#[test]
fn sets_all_three_ports() {
    let mut cfg = full_cfg();
    apply_launcher_overrides(&mut cfg, &net(2001, 17777, 19999, ""));
    assert_eq!(get(cfg.as_value(), &["bindPort"]), Some(&num(2001)));
    assert_eq!(get(cfg.as_value(), &["publicPort"]), Some(&num(2001)));
    assert_eq!(get(cfg.as_value(), &["a2s", "port"]), Some(&num(17777)));
    assert_eq!(get(cfg.as_value(), &["rcon", "port"]), Some(&num(19999)));
}

#[test]
fn public_address_set_when_non_empty() {
    let mut cfg = full_cfg();
    apply_launcher_overrides(&mut cfg, &net(2001, 17777, 19999, "203.0.113.42"));
    assert_eq!(get(cfg.as_value(), &["publicAddress"]), Some(&text("203.0.113.42")));
}

#[test]
fn public_address_preserved_when_env_empty() {
    let mut cfg = full_cfg();
    apply_launcher_overrides(&mut cfg, &net(2001, 17777, 19999, ""));
    assert_eq!(get(cfg.as_value(), &["publicAddress"]), Some(&text("5.6.7.8")));
}

#[test]
fn public_address_preserved_when_env_whitespace() {
    let mut cfg = full_cfg();
    apply_launcher_overrides(&mut cfg, &net(2001, 17777, 19999, "   \t  "));
    assert_eq!(get(cfg.as_value(), &["publicAddress"]), Some(&text("5.6.7.8")));
}

#[test]
fn tolerates_missing_a2s_section() {
    let mut cfg = full_cfg();
    remove_member(&mut cfg, "a2s");
    apply_launcher_overrides(&mut cfg, &net(2001, 17777, 19999, ""));
    assert!(cfg.as_value().get("a2s").is_none());
}

#[test]
fn tolerates_missing_rcon_section() {
    let mut cfg = full_cfg();
    remove_member(&mut cfg, "rcon");
    apply_launcher_overrides(&mut cfg, &net(2001, 17777, 19999, ""));
    assert!(cfg.as_value().get("rcon").is_none());
}

#[test]
fn public_address_is_trimmed() {
    let mut cfg = full_cfg();
    apply_launcher_overrides(&mut cfg, &net(2001, 17777, 19999, "  198.51.100.7 \n"));
    assert_eq!(get(cfg.as_value(), &["publicAddress"]), Some(&text("198.51.100.7")));
}

#[test]
fn overrides_keep_other_members() {
    let mut cfg = full_cfg();
    apply_launcher_overrides(&mut cfg, &net(2001, 17777, 19999, ""));
    assert_eq!(get(cfg.as_value(), &["rcon", "password"]), Some(&text("x")));
    assert_eq!(get(cfg.as_value(), &["game", "scenarioId"]), Some(&text("{A}M.conf")));
}

#[test]
fn overrides_twice_equal_overrides_once() {
    let mut once = full_cfg();
    apply_launcher_overrides(&mut once, &net(2302, 27016, 19999, " 203.0.113.9 "));
    let mut twice = full_cfg();
    apply_launcher_overrides(&mut twice, &net(2302, 27016, 19999, " 203.0.113.9 "));
    apply_launcher_overrides(&mut twice, &net(2302, 27016, 19999, " 203.0.113.9 "));
    for key in ["bindAddress", "bindPort", "publicPort", "publicAddress", "a2s", "rcon", "game"] {
        assert_eq!(once.as_value().get(key), twice.as_value().get(key), "member {key}");
    }
}

#[test]
fn non_object_config_is_left_alone() {
    let mut cfg = ArmaConfig(json("[1, 2, 3]"));
    apply_launcher_overrides(&mut cfg, &net(2001, 17777, 19999, "1.1.1.1"));
    assert_eq!(cfg.as_value(), &json("[1, 2, 3]"));
}

// ---- the whole runtime configuration ----

#[test]
fn run_once_writes_runtime_config() {
    let network = net(2001, 17777, 19999, "");
    let (cfg, _) = load_and_patch_config(
        "config.json",
        read_json(
            r#"{"a2s":{"address":"1.1.1.1","port":1},"rcon":{"address":"1.1.1.1","port":1},"game":{"scenarioId":"{A}M.conf"}}"#,
        ),
        FileRead::Missing,
        &network,
    )
    .unwrap();
    let parsed = cfg.as_value();
    assert_eq!(get(parsed, &["bindAddress"]), Some(&text("0.0.0.0")));
    assert_eq!(get(parsed, &["bindPort"]), Some(&num(2001)));
    assert_eq!(get(parsed, &["publicPort"]), Some(&num(2001)));
    assert_eq!(get(parsed, &["a2s", "address"]), Some(&text("0.0.0.0")));
    assert_eq!(get(parsed, &["a2s", "port"]), Some(&num(17777)));
    assert_eq!(get(parsed, &["rcon", "address"]), Some(&text("0.0.0.0")));
    assert_eq!(get(parsed, &["rcon", "port"]), Some(&num(19999)));
    assert_eq!(get(parsed, &["game", "scenarioId"]), Some(&text("{A}M.conf")));
}

#[test]
fn runtime_config_takes_seeded_mission() {
    let (cfg, outcome) = load_and_patch_config(
        "config.json",
        read_json(r#"{"game":{"scenarioId":"{A}M.conf"}}"#),
        read_json(r#"{"MissionResourceName": "{B}Next.conf"}"#),
        &net(2001, 17777, 19999, ""),
    )
    .unwrap();
    assert!(matches!(outcome, SeedingOutcome::Applied(_)));
    assert_eq!(get(cfg.as_value(), &["game", "scenarioId"]), Some(&text("{B}Next.conf")));
}

#[test]
fn valid_config_exits_zero() {
    assert!(Launcher::load(FileContents::Missing).is_ok());
    assert!(load_user_config("config.json", read_json(r#"{"game":{"scenarioId":"{A}M.conf"}}"#)).is_ok());
}

#[test]
fn missing_config_json_fails_with_exit_1() {
    let err = load_user_config("config.json", FileRead::Missing).unwrap_err();
    assert_eq!(err.exit_code().as_i32(), 1);
}

#[test]
fn invalid_json_fails_with_exit_1() {
    let err = load_user_config("config.json", read_json("{not valid")).unwrap_err();
    assert_eq!(err.exit_code().as_i32(), 1);
}

#[test]
fn invalid_launcher_toml_fails_with_exit_1() {
    let e = toml::from_str::<toml::Value>("[network\ngame_port = 2001").unwrap_err();
    let err = Launcher::load(FileContents::Malformed(e.to_string())).unwrap_err();
    assert_eq!(err.exit_code().as_i32(), 1);
}

#[test]
fn json_lookup_takes_last_duplicate_member() {
    let v = JsonValue::Object(vec![
        ("k".to_string(), num(1)),
        ("k".to_string(), num(2)),
    ]);
    assert_eq!(v.get("k"), Some(&num(2)));
    assert_eq!(v.get("missing"), None);
    assert_eq!(JsonValue::Null.get("k"), None);
}

#[test]
fn write_runtime_config_creates_parent_dirs_and_indents() {
    let cfg = ArmaConfig(json(r#"{"a": 1, "b": 2}"#));
    let content = runtime_config_text(&cfg).unwrap();
    assert!(content.contains('\n'));
    assert!(content.contains("  "));
    let parsed: serde_json::Value = serde_json::from_str(&content).unwrap();
    let expected: serde_json::Value = serde_json::from_str(r#"{"a": 1, "b": 2}"#).unwrap();
    assert_eq!(parsed, expected);
}

#[test]
fn runtime_config_text_writes_ports_as_numbers() {
    let (cfg, _) = load_and_patch_config(
        "config.json",
        read_json(r#"{"game":{"scenarioId":"{A}M.conf"},"a2s":{"port":1}}"#),
        FileRead::Missing,
        &net(2001, 17777, 19999, ""),
    )
    .unwrap();
    let content = runtime_config_text(&cfg).unwrap();
    assert!(content.contains("\"bindPort\": 2001"));
    assert!(content.contains("\"port\": 17777"));
    assert!(content.contains("\"bindAddress\": \"0.0.0.0\""));
}

#[test]
fn runtime_config_text_rejects_a_number_that_is_not_json() {
    let cfg = ArmaConfig(JsonValue::Object(vec![(
        "n".to_string(),
        JsonValue::Number(JsonNumber::Float("twelve".to_string())),
    )]));
    let err = runtime_config_text(&cfg).unwrap_err();
    assert!(matches!(err, Error::Json(_)));
    assert_eq!(err.exit_code(), ExitCode::ConfigError);
}

#[test]
fn parsed_numbers_keep_their_form() {
    let cfg = load_user_config(
        "c.json",
        read_json(r#"{"game":{"scenarioId":"{A}M.conf"},"n":-3,"f":1.5,"big":18446744073709551615}"#),
    )
    .unwrap();
    assert_eq!(get(cfg.as_value(), &["n"]), Some(&JsonValue::Number(JsonNumber::NegInt(-3))));
    assert_eq!(
        get(cfg.as_value(), &["f"]),
        Some(&JsonValue::Number(JsonNumber::Float("1.5".to_string())))
    );
    assert_eq!(get(cfg.as_value(), &["big"]), Some(&num(18446744073709551615)));
}

#[test]
fn parsed_duplicate_member_keeps_the_last() {
    let cfg = load_user_config(
        "c.json",
        read_json(r#"{"game":{"scenarioId":"   "},"game":{"scenarioId":"{B}N.conf"}}"#),
    )
    .unwrap();
    assert_eq!(get(cfg.as_value(), &["game", "scenarioId"]), Some(&text("{B}N.conf")));
}

#[test]
fn checking_a_parsed_config_keeps_it_whole() {
    let value = json(r#"{"game":{"scenarioId":"{A}M.conf","name":"t"},"x":[1,true,null]}"#);
    let cfg = check_user_config("c.json", json(r#"{"game":{"scenarioId":"{A}M.conf","name":"t"},"x":[1,true,null]}"#)).unwrap();
    assert_eq!(cfg.as_value(), &value);
    let err = check_user_config("c.json", json(r#"{"game": 1}"#)).unwrap_err();
    assert!(matches!(err, Error::Config(ref m) if m == "c.json: missing or non-object 'game' section"));
}

#[test]
fn seeding_data_applies_without_a_file() {
    let mut cfg = cfg_with_fallback();
    let outcome = apply_seeding_data(&mut cfg, &json(r#"{"MissionResourceName": "{C}Third.conf"}"#));
    assert!(matches!(outcome, SeedingOutcome::Applied(ref m) if m == "{C}Third.conf"));
    assert_eq!(scenario_of(&cfg), "{C}Third.conf");
    let outcome = apply_seeding_data(&mut cfg, &json(r#"[1]"#));
    assert!(matches!(outcome, SeedingOutcome::NameMissing));
    assert_eq!(scenario_of(&cfg), "{C}Third.conf");
}

#[test]
fn runtime_config_text_writes_the_last_duplicate_member() {
    let cfg = ArmaConfig(JsonValue::Object(vec![
        ("k".to_string(), num(1)),
        ("j".to_string(), text("x")),
        ("k".to_string(), num(2)),
    ]));
    let content = runtime_config_text(&cfg).unwrap();
    let parsed: serde_json::Value = serde_json::from_str(&content).unwrap();
    let expected: serde_json::Value = serde_json::from_str(r#"{"j": "x", "k": 2}"#).unwrap();
    assert_eq!(parsed, expected);
}

#[test]
fn runtime_config_text_matches_serde_json_for_the_same_document() {
    let doc = r#"{"game":{"scenarioId":"{A}M.conf"},"f":[0.1,0.30000000000000004,1e300,-2.5e-7,5e-324,1.7976931348623157e308],"i":[-9223372036854775808,0,18446744073709551615],"s":"tab\t \"q\" \u00e9"}"#;
    let cfg = load_user_config("c.json", read_json(doc)).unwrap();
    let ours = runtime_config_text(&cfg).unwrap();
    let value: serde_json::Value = serde_json::from_str(doc).unwrap();
    assert_eq!(ours, serde_json::to_string_pretty(&value).unwrap());
}

#[test]
fn printed_runtime_config_reads_back_as_the_patched_document() {
    let (cfg, _) = load_and_patch_config(
        "config.json",
        read_json(r#"{"game":{"scenarioId":"{A}M.conf","n":-4},"rcon":{"password":"p\"w"}}"#),
        read_json(r#"{"MissionResourceName": "{B}Next.conf"}"#),
        &net(2302, 17777, 19999, "203.0.113.1"),
    )
    .unwrap();
    let text = runtime_config_text(&cfg).unwrap();
    let back = load_user_config("runtime.json", read_json(&text)).unwrap();
    let paths: [&[&str]; 9] = [
        &["game", "scenarioId"],
        &["game", "n"],
        &["rcon", "password"],
        &["rcon", "address"],
        &["rcon", "port"],
        &["bindPort"],
        &["publicPort"],
        &["bindAddress"],
        &["publicAddress"],
    ];
    for path in paths {
        assert!(get(cfg.as_value(), path).is_some(), "{path:?}");
        assert_eq!(get(back.as_value(), path), get(cfg.as_value(), path), "{path:?}");
    }
}
