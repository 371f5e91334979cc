use armafield_server::error::{Error, ExitCode};
use armafield_server::steamcmd::marker::{check_interval_nanos, should_validate, MarkerAge};
use armafield_server::steamcmd::validate::{
    run_steamcmd_validate, steamcmd_validate_args, validate_exit_code, ProcessStatus,
    SteamcmdRunner,
};
use std::cell::RefCell;
use std::time::Duration;

fn nanos(d: Duration) -> u128 {
    d.as_nanos()
}

#[test]
fn skip_install_always_false() {
    assert!(!should_validate(
        true,
        MarkerAge::Age(0),
        nanos(Duration::from_secs(3600)),
        true
    ));
}

#[test]
fn binary_missing_returns_true() {
    assert!(should_validate(
        false,
        MarkerAge::Age(0),
        nanos(Duration::from_secs(3600)),
        false
    ));
}

#[test]
fn marker_missing_returns_true() {
    assert!(should_validate(
        true,
        MarkerAge::Missing,
        nanos(Duration::from_secs(3600)),
        false
    ));
}

#[test]
fn fresh_marker_returns_false() {
    assert!(!should_validate(
        true,
        MarkerAge::Age(nanos(Duration::from_millis(5))),
        nanos(Duration::from_secs(3600)),
        false
    ));
}

#[test]
fn stale_marker_returns_true() {
    assert!(should_validate(
        true,
        MarkerAge::Age(nanos(Duration::from_secs(90 * 60))),
        nanos(Duration::from_secs(60 * 60)),
        false
    ));
}

#[test]
fn zero_interval_always_validates() {
    assert!(should_validate(
        true,
        MarkerAge::Age(nanos(Duration::ZERO)),
        nanos(Duration::ZERO),
        false
    ));
}

#[test]
fn unknown_marker_age_validates() {
    assert!(should_validate(true, MarkerAge::Unknown, u128::MAX, false));
}

#[test]
fn marker_exactly_interval_old_is_fresh() {
    let hour = nanos(Duration::from_secs(3600));
    assert!(!should_validate(true, MarkerAge::Age(hour), hour, false));
    assert!(should_validate(true, MarkerAge::Age(hour + 1), hour, false));
}

#[test]
fn interval_is_minutes_in_nanoseconds() {
    assert_eq!(check_interval_nanos(60), nanos(Duration::from_secs(3600)));
    assert_eq!(check_interval_nanos(0), 0);
}

struct Mock {
    called: RefCell<Vec<Vec<String>>>,
    exit: u32,
}

impl SteamcmdRunner for Mock {
    fn run(&mut self, args: &Vec<String>) -> Result<ProcessStatus, std::io::Error> {
        self.called.borrow_mut().push(args.clone());
        Ok(ProcessStatus { code: self.exit })
    }
}

struct Broken;

impl SteamcmdRunner for Broken {
    fn run(&mut self, _args: &Vec<String>) -> Result<ProcessStatus, std::io::Error> {
        Err(std::io::Error::other("no such file"))
    }
}

#[test]
fn success_passes_expected_args() {
    let mut mock = Mock {
        called: RefCell::new(Vec::new()),
        exit: 0,
    };
    let status = run_steamcmd_validate(&mut mock, "C:\\af\\server", "1874900").unwrap();
    assert!(status.success());

    let calls = mock.called.borrow();
    assert_eq!(calls.len(), 1);
    let args = &calls[0];
    assert!(args.iter().any(|a| a == "+force_install_dir"));
    assert!(args.iter().any(|a| a == "C:\\af\\server"));
    assert!(args.iter().any(|a| a == "+login"));
    assert!(args.iter().any(|a| a == "anonymous"));
    assert!(args.iter().any(|a| a == "+app_update"));
    assert!(args.iter().any(|a| a == "1874900"));
    assert!(args.iter().any(|a| a == "validate"));
    assert!(args.iter().any(|a| a == "+quit"));
}

#[test]
fn failure_is_propagated_as_non_zero_exit() {
    let mut mock = Mock {
        called: RefCell::new(Vec::new()),
        exit: 1,
    };
    let status = run_steamcmd_validate(&mut mock, "C:\\af\\server", "1874900").unwrap();
    assert!(!status.success());
}

#[test]
fn validate_args_are_in_order() {
    assert_eq!(
        steamcmd_validate_args("D:\\srv", "42"),
        vec![
            "+force_install_dir",
            "D:\\srv",
            "+login",
            "anonymous",
            "+app_update",
            "42",
            "validate",
            "+quit"
        ]
    );
}

#[test]
fn unstartable_steamcmd_is_io_error() {
    let err = run_steamcmd_validate(&mut Broken, "C:\\af\\server", "1874900").unwrap_err();
    assert!(matches!(err, Error::Io(_)));
}

#[test]
fn failed_validate_is_fatal_for_install() {
    assert_eq!(validate_exit_code(ProcessStatus { code: 0 }), ExitCode::Success);
    assert_eq!(validate_exit_code(ProcessStatus { code: 8 }), ExitCode::SteamcmdFatal);
}
