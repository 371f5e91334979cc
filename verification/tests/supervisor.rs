use armafield_server::config::launcher::{FileContents, Launcher};
use armafield_server::error::{Error, ExitCode};
use armafield_server::steamcmd::marker::MarkerAge;
use armafield_server::steamcmd::validate::ProcessStatus;
use armafield_server::supervisor::argv::{argv_from_split, build_server_argv};
use armafield_server::supervisor::process::{wait_for_exit_or_shutdown, WaitOutcome, WaitPoll};
use armafield_server::supervisor::{run_supervisor, Action, Event, Phase, CRASH_BACKOFF_MS};

#[test]
fn basic_argv() {
    let strs = build_server_argv(
        "./server/ArmaReforgerServer.exe",
        "C:\\af\\state\\runtime.json",
        "C:\\af\\profile",
        "C:\\af\\workshop",
        "-maxFPS 120 -backendlog -nothrow",
    )
    .unwrap();

    assert_eq!(strs[0], "./server/ArmaReforgerServer.exe");
    assert!(strs.iter().any(|s| s == "-config"));
    assert!(strs.iter().any(|s| s.contains("runtime.json")));
    assert!(strs.iter().any(|s| s == "-profile"));
    assert!(strs.iter().any(|s| s == "-addonDownloadDir"));
    assert!(strs.iter().any(|s| s == "-addonsDir"));
    assert_eq!(strs.iter().filter(|s| s.ends_with("workshop")).count(), 2);
    assert!(strs.iter().any(|s| s == "-maxFPS"));
    assert!(strs.iter().any(|s| s == "120"));
    assert!(strs.iter().any(|s| s == "-backendlog"));
    assert!(strs.iter().any(|s| s == "-nothrow"));
}

#[test]
fn empty_params_produces_no_extra_args() {
    let argv = build_server_argv("srv", "c.json", "p", "w", "").unwrap();
    // binary + 8 flag/value pairs = 9 items.
    assert_eq!(argv.len(), 9);
}

#[test]
fn quoted_params_parsed_by_shell_words() {
    let strs = build_server_argv("srv", "c.json", "p", "w", r#"-logLevel "high warn" -maxFPS 60"#)
        .unwrap();
    assert!(strs.contains(&"high warn".to_string()));
    assert!(strs.contains(&"60".to_string()));
}

#[test]
fn invalid_quoting_returns_config_error() {
    // unbalanced quote
    let err = build_server_argv("srv", "c.json", "p", "w", r#"-foo "unterminated"#).unwrap_err();
    assert!(matches!(err, Error::Config(_)));
}

#[test]
fn argv_has_fixed_order() {
    let argv = build_server_argv("srv", "c.json", "p", "w", "  -a 'b c'  ").unwrap();
    assert_eq!(
        argv,
        vec![
            "srv",
            "-config",
            "c.json",
            "-profile",
            "p",
            "-addonDownloadDir",
            "w",
            "-addonsDir",
            "w",
            "-a",
            "b c"
        ]
    );
}

#[test]
fn quoting_error_message() {
    match build_server_argv("srv", "c.json", "p", "w", "'open").unwrap_err() {
        Error::Config(m) => assert_eq!(m, "failed to parse arma.params: missing closing quote"),
        other => panic!("unexpected {other:?}"),
    }
}

fn launcher(auto_manage: bool, skip_install: bool) -> Launcher {
    let mut l = Launcher::load(FileContents::Missing).unwrap();
    l.firewall.auto_manage = auto_manage;
    l.steamcmd.skip_install = skip_install;
    l
}

#[test]
fn supervisor_cycle_launches_and_relaunches() {
    let (mut sup, first) = run_supervisor(&launcher(false, false));
    assert_eq!(first, Action::CheckFirewall);
    assert_eq!(sup.step(Event::Done), Action::PollShutdown);
    assert_eq!(sup.step(Event::Shutdown(false)), Action::InspectInstall);
    let fresh = Event::Install {
        binary_present: true,
        marker: MarkerAge::Age(1_000_000),
    };
    assert_eq!(sup.step(fresh), Action::PrepareConfig);
    assert_eq!(sup.step(Event::Done), Action::SpawnServer);
    assert_eq!(sup.step(Event::Done), Action::WaitForExit);
    assert_eq!(
        sup.step(Event::ServerExited),
        Action::Backoff { millis: CRASH_BACKOFF_MS }
    );
    assert_eq!(CRASH_BACKOFF_MS, 5000);
    assert_eq!(sup.step(Event::Shutdown(false)), Action::PollShutdown);
    assert_eq!(sup.phase, Phase::Polling);
}

#[test]
fn supervisor_validates_stale_install() {
    let (mut sup, _) = run_supervisor(&launcher(false, false));
    sup.step(Event::Done);
    sup.step(Event::Shutdown(false));
    let stale = Event::Install {
        binary_present: true,
        marker: MarkerAge::Age(2 * 3600 * 1_000_000_000),
    };
    assert_eq!(sup.step(stale), Action::EnsureSteamcmd);
    assert_eq!(sup.step(Event::Done), Action::RunValidate);
    let ok = Event::Validated {
        success: true,
        server_present: true,
    };
    assert_eq!(sup.step(ok), Action::TouchMarker);
    assert_eq!(sup.step(Event::Done), Action::PrepareConfig);
}

#[test]
fn supervisor_skip_install_goes_straight_to_config() {
    let (mut sup, _) = run_supervisor(&launcher(false, true));
    sup.step(Event::Done);
    assert_eq!(sup.step(Event::Shutdown(false)), Action::PrepareConfig);
}

#[test]
fn supervisor_shutdown_while_running_terminates_then_exits_zero() {
    let (mut sup, _) = run_supervisor(&launcher(false, true));
    sup.step(Event::Done);
    sup.step(Event::Shutdown(false));
    sup.step(Event::Done);
    sup.step(Event::Done);
    assert_eq!(sup.step(Event::ShutdownRequested), Action::Terminate);
    assert_eq!(sup.step(Event::Done), Action::Exit(ExitCode::Success));
    assert_eq!(sup.step(Event::Done), Action::Exit(ExitCode::Success));
}

#[test]
fn supervisor_auto_manage_adds_and_removes_rules() {
    let (mut sup, _) = run_supervisor(&launcher(true, true));
    assert_eq!(sup.step(Event::Done), Action::AddFirewallRules);
    assert_eq!(sup.step(Event::Done), Action::PollShutdown);
    assert_eq!(sup.step(Event::Shutdown(true)), Action::RemoveFirewallRules);
    assert_eq!(sup.step(Event::Done), Action::Exit(ExitCode::Success));
}

#[test]
fn supervisor_steamcmd_failure_without_server_is_fatal() {
    let (mut sup, _) = run_supervisor(&launcher(false, false));
    sup.step(Event::Done);
    sup.step(Event::Shutdown(false));
    sup.step(Event::Install {
        binary_present: false,
        marker: MarkerAge::Missing,
    });
    let unavailable = Event::SteamcmdUnavailable {
        server_present: false,
    };
    assert_eq!(sup.step(unavailable), Action::Exit(ExitCode::SteamcmdFatal));
}

#[test]
fn supervisor_steamcmd_failure_with_server_launches_existing_install() {
    let (mut sup, _) = run_supervisor(&launcher(false, false));
    sup.step(Event::Done);
    sup.step(Event::Shutdown(false));
    sup.step(Event::Install {
        binary_present: true,
        marker: MarkerAge::Unknown,
    });
    sup.step(Event::Done);
    let failed = Event::Validated {
        success: false,
        server_present: true,
    };
    assert_eq!(sup.step(failed), Action::PrepareConfig);
}

#[test]
fn supervisor_config_failure_exits_with_its_code() {
    let (mut sup, _) = run_supervisor(&launcher(false, true));
    sup.step(Event::Done);
    sup.step(Event::Shutdown(false));
    let failed = Event::Failed(Error::ConfigNotFound("config.json".into()));
    assert_eq!(sup.step(failed), Action::Exit(ExitCode::ConfigError));
}

#[test]
fn supervisor_repeats_action_on_unexpected_event() {
    let (mut sup, _) = run_supervisor(&launcher(false, true));
    assert_eq!(sup.step(Event::ServerExited), Action::CheckFirewall);
    assert_eq!(sup.phase, Phase::CheckingFirewall);
}

#[test]
fn wait_rounds_decide_outcome() {
    assert_eq!(
        wait_for_exit_or_shutdown(WaitPoll::ShutdownSignalled),
        Some(WaitOutcome::Shutdown)
    );
    assert_eq!(
        wait_for_exit_or_shutdown(WaitPoll::ChannelClosed),
        Some(WaitOutcome::Shutdown)
    );
    assert_eq!(wait_for_exit_or_shutdown(WaitPoll::ChildRunning), None);
    assert_eq!(
        wait_for_exit_or_shutdown(WaitPoll::ChildExited(ProcessStatus { code: 3 })),
        Some(WaitOutcome::Exited(ProcessStatus { code: 3 }))
    );
    assert_eq!(
        wait_for_exit_or_shutdown(WaitPoll::ChildQueryFailed),
        Some(WaitOutcome::Exited(ProcessStatus { code: 1 }))
    );
}

#[test]
fn split_words_are_appended_after_the_fixed_part() {
    let argv = argv_from_split(
        "srv",
        "c.json",
        "p",
        "w",
        Ok(vec!["-a".to_string(), "b c".to_string()]),
    )
    .unwrap();
    assert_eq!(
        argv,
        vec![
            "srv",
            "-config",
            "c.json",
            "-profile",
            "p",
            "-addonDownloadDir",
            "w",
            "-addonsDir",
            "w",
            "-a",
            "b c"
        ]
    );
    match argv_from_split("srv", "c.json", "p", "w", Err("bad".to_string())).unwrap_err() {
        Error::Config(m) => assert_eq!(m, "failed to parse arma.params: bad"),
        other => panic!("unexpected {other:?}"),
    }
}
