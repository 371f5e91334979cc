pub mod argv;
pub mod process;

use crate::config::arma::{game_of, load_user_config, valid_user_config, ArmaConfig};
use crate::config::json::{json_parse, Json};
use crate::config::launcher::{FileRead, Launcher, Network};
use crate::config::mapseeding::{
    apply_map_seeding, looks_like_scenario, seeded_mission, with_scenario, SeedingOutcome,
};
use crate::config::runtime::{apply_launcher_overrides, with_overrides};
use crate::error::{error_exit_code, Error, ExitCode};
use crate::steamcmd::marker::{
    check_interval_nanos, interval_nanos_of, should_validate, validation_due, MarkerAge,
};
use vstd::prelude::*;

verus! {

/// The configuration after MapSeeding: `game.scenarioId` replaced by a usable
/// mission name from `MapSeeding.json`, if there is one.
pub open spec fn seeded(cfg: Json, seeding: FileRead) -> Json {
    match seeding {
        FileRead::Text(t) => match json_parse(t@) {
            Some(data) => match seeded_mission(data) {
                Some(mission) if mission.len() > 0 && looks_like_scenario(mission) => with_scenario(
                    cfg,
                    mission,
                ),
                _ => cfg,
            },
            None => cfg,
        },
        _ => cfg,
    }
}

/// Build the runtime configuration: load `config.json` (read from
/// `config_path`), apply MapSeeding, then force the network settings.
pub fn load_and_patch_config(
    config_path: &str,
    config: FileRead,
    seeding: FileRead,
    network: &Network,
) -> (res: Result<(ArmaConfig, SeedingOutcome), Error>)
    ensures
        match config {
            FileRead::Missing => res matches Err(Error::ConfigNotFound(p)) && p@ == config_path@,
            FileRead::Unreadable(e) => res == Err::<(ArmaConfig, SeedingOutcome), Error>(
                Error::Io(e),
            ),
            FileRead::Text(t) => match json_parse(t@) {
                None => res matches Err(Error::Json(_)),
                Some(v) => if game_of(v) is None {
                    res matches Err(Error::Config(msg)) && msg@ == config_path@
                        + ": missing or non-object 'game' section"@
                } else if !valid_user_config(v) {
                    res matches Err(Error::Config(msg)) && msg@ == config_path@
                        + ": missing or empty 'game.scenarioId'"@
                } else {
                    res matches Ok((cfg, _)) && cfg.0@ == with_overrides(seeded(v, seeding), *network)
                },
            },
        },
{
    let mut arma = load_user_config(config_path, config)?;
    let outcome = apply_map_seeding(&mut arma, seeding);
    apply_launcher_overrides(&mut arma, network);
    Ok((arma, outcome))
}

/// Pause between a server exit and the next launch, in milliseconds.
pub const CRASH_BACKOFF_MS: u64 = 5000;

/// Where the supervisor is in its cycle; each phase waits for the outcome of
/// the action that led into it.
#[derive(Debug, Clone, Copy, PartialEq, Eq, Structural)]
pub enum Phase {
    CheckingFirewall,
    AddingRules,
    Polling,
    Inspecting,
    EnsuringSteamcmd,
    Validating,
    TouchingMarker,
    Preparing,
    Spawning,
    Running,
    Terminating,
    BackingOff,
    RemovingRules,
    Finished,
}

/// The outside work the supervisor asks for next.
#[derive(Debug, Clone, Copy, PartialEq, Eq, Structural)]
pub enum Action {
    /// Log whether the firewall rules match `launcher.toml`.
    CheckFirewall,
    /// Add the firewall rules (`firewall.auto_manage`); a failure is only logged.
    AddFirewallRules,
    /// Report whether a shutdown has been requested.
    PollShutdown,
    /// Report whether the server binary exists and how old the marker is.
    InspectInstall,
    /// Make sure SteamCMD is installed.
    EnsureSteamcmd,
    /// Run `steamcmd validate`.
    RunValidate,
    /// Record a successful validate in the marker file (a failure is only logged).
    TouchMarker,
    /// Build and write the runtime configuration.
    PrepareConfig,
    /// Start the server.
    SpawnServer,
    /// Wait until the server exits or a shutdown is requested.
    WaitForExit,
    /// Stop the server, gracefully where possible.
    Terminate,
    /// Sleep, waking early if a shutdown is requested.
    Backoff { millis: u64 },
    /// Remove the firewall rules (`firewall.auto_manage`); a failure is only logged.
    RemoveFirewallRules,
    /// Leave the supervisor with this exit code.
    Exit(ExitCode),
}

/// The outcome of the action last asked for.
#[derive(Debug)]
pub enum Event {
    /// The action completed.
    Done,
    /// Whether a shutdown was requested (after a poll or a backoff).
    Shutdown(bool),
    /// The state of the installation.
    Install { binary_present: bool, marker: MarkerAge },
    /// SteamCMD could not be installed; whether the server binary exists.
    SteamcmdUnavailable { server_present: bool },
    /// `steamcmd validate` ended (`success` is false also when it could not be
    /// started); whether the server binary exists.
    Validated { success: bool, server_present: bool },
    /// Preparing the configuration or starting the server failed.
    Failed(Error),
    /// The server exited by itself.
    ServerExited,
    /// A shutdown was requested while the server ran.
    ShutdownRequested,
}

/// The supervisor: launch the server, relaunch it after it exits, keep the
/// installation fresh, and honour shutdown requests.
#[derive(Debug)]
pub struct Supervisor {
    pub auto_manage: bool,
    pub skip_install: bool,
    pub check_interval_minutes: u64,
    pub phase: Phase,
    /// The exit code once the supervisor has decided to stop.
    pub exit: ExitCode,
}

pub open spec fn with_phase(s: Supervisor, phase: Phase) -> Supervisor {
    Supervisor { phase, ..s }
}

/// Stop with `code`, removing the firewall rules first where they are managed.
pub open spec fn finish(s: Supervisor, code: ExitCode) -> (Supervisor, Action) {
    if s.auto_manage {
        (Supervisor { phase: Phase::RemovingRules, exit: code, ..s }, Action::RemoveFirewallRules)
    } else {
        (Supervisor { phase: Phase::Finished, exit: code, ..s }, Action::Exit(code))
    }
}

/// Prepare the configuration and launch.
pub open spec fn launch(s: Supervisor) -> (Supervisor, Action) {
    (with_phase(s, Phase::Preparing), Action::PrepareConfig)
}

/// The action a phase waits on (asked again when an event does not fit).
pub open spec fn pending_action(s: Supervisor) -> Action {
    match s.phase {
        Phase::CheckingFirewall => Action::CheckFirewall,
        Phase::AddingRules => Action::AddFirewallRules,
        Phase::Polling => Action::PollShutdown,
        Phase::Inspecting => Action::InspectInstall,
        Phase::EnsuringSteamcmd => Action::EnsureSteamcmd,
        Phase::Validating => Action::RunValidate,
        Phase::TouchingMarker => Action::TouchMarker,
        Phase::Preparing => Action::PrepareConfig,
        Phase::Spawning => Action::SpawnServer,
        Phase::Running => Action::WaitForExit,
        Phase::Terminating => Action::Terminate,
        Phase::BackingOff => Action::Backoff { millis: CRASH_BACKOFF_MS },
        Phase::RemovingRules => Action::RemoveFirewallRules,
        Phase::Finished => Action::Exit(s.exit),
    }
}

/// One step of the supervisor: from its state and the outcome of the last
/// action to its next state and action.
pub open spec fn next(s: Supervisor, e: Event) -> (Supervisor, Action) {
    match (s.phase, e) {
        (Phase::CheckingFirewall, Event::Done) => if s.auto_manage {
            (with_phase(s, Phase::AddingRules), Action::AddFirewallRules)
        } else {
            (with_phase(s, Phase::Polling), Action::PollShutdown)
        },
        (Phase::AddingRules, Event::Done) => (with_phase(s, Phase::Polling), Action::PollShutdown),
        (Phase::Polling, Event::Shutdown(requested)) => if requested {
            finish(s, ExitCode::Success)
        } else if s.skip_install {
            launch(s)
        } else {
            (with_phase(s, Phase::Inspecting), Action::InspectInstall)
        },
        (Phase::Inspecting, Event::Install { binary_present, marker }) => if validation_due(
            binary_present,
            marker,
            interval_nanos_of(s.check_interval_minutes),
            s.skip_install,
        ) {
            (with_phase(s, Phase::EnsuringSteamcmd), Action::EnsureSteamcmd)
        } else {
            launch(s)
        },
        (Phase::EnsuringSteamcmd, Event::Done) => (
            with_phase(s, Phase::Validating),
            Action::RunValidate,
        ),
        (Phase::EnsuringSteamcmd, Event::SteamcmdUnavailable { server_present }) => if server_present {
            launch(s)
        } else {
            finish(s, ExitCode::SteamcmdFatal)
        },
        (Phase::Validating, Event::Validated { success, server_present }) => if success {
            (with_phase(s, Phase::TouchingMarker), Action::TouchMarker)
        } else if server_present {
            launch(s)
        } else {
            finish(s, ExitCode::SteamcmdFatal)
        },
        (Phase::TouchingMarker, Event::Done) => launch(s),
        (Phase::Preparing, Event::Done) => (with_phase(s, Phase::Spawning), Action::SpawnServer),
        (Phase::Preparing, Event::Failed(err)) => finish(s, error_exit_code(err)),
        (Phase::Spawning, Event::Done) => (with_phase(s, Phase::Running), Action::WaitForExit),
        (Phase::Spawning, Event::Failed(err)) => finish(s, error_exit_code(err)),
        (Phase::Running, Event::ServerExited) => (
            with_phase(s, Phase::BackingOff),
            Action::Backoff { millis: CRASH_BACKOFF_MS },
        ),
        (Phase::Running, Event::ShutdownRequested) => (
            with_phase(s, Phase::Terminating),
            Action::Terminate,
        ),
        (Phase::Terminating, Event::Done) => finish(s, ExitCode::Success),
        (Phase::BackingOff, Event::Shutdown(requested)) => if requested {
            finish(s, ExitCode::Success)
        } else {
            (with_phase(s, Phase::Polling), Action::PollShutdown)
        },
        (Phase::RemovingRules, Event::Done) => (
            with_phase(s, Phase::Finished),
            Action::Exit(s.exit),
        ),
        _ => (s, pending_action(s)),
    }
}

/// Start a supervisor run for `cfg`: its first action is the firewall check.
pub fn run_supervisor(cfg: &Launcher) -> (res: (Supervisor, Action))
    ensures
        res.0.auto_manage == cfg.firewall.auto_manage,
        res.0.skip_install == cfg.steamcmd.skip_install,
        res.0.check_interval_minutes == cfg.steamcmd.check_interval_minutes,
        res.0.phase == Phase::CheckingFirewall,
        res.0.exit == ExitCode::Success,
        res.1 == Action::CheckFirewall,
{
    (
        Supervisor {
            auto_manage: cfg.firewall.auto_manage,
            skip_install: cfg.steamcmd.skip_install,
            check_interval_minutes: cfg.steamcmd.check_interval_minutes,
            phase: Phase::CheckingFirewall,
            exit: ExitCode::Success,
        },
        Action::CheckFirewall,
    )
}

impl Supervisor {
    fn finish(&mut self, code: ExitCode) -> (a: Action)
        ensures
            (*final(self), a) == finish(*old(self), code),
    {
        self.exit = code;
        if self.auto_manage {
            self.phase = Phase::RemovingRules;
            Action::RemoveFirewallRules
        } else {
            self.phase = Phase::Finished;
            Action::Exit(code)
        }
    }

    fn pending(&self) -> (a: Action)
        ensures
            a == pending_action(*self),
    {
        match self.phase {
            Phase::CheckingFirewall => Action::CheckFirewall,
            Phase::AddingRules => Action::AddFirewallRules,
            Phase::Polling => Action::PollShutdown,
            Phase::Inspecting => Action::InspectInstall,
            Phase::EnsuringSteamcmd => Action::EnsureSteamcmd,
            Phase::Validating => Action::RunValidate,
            Phase::TouchingMarker => Action::TouchMarker,
            Phase::Preparing => Action::PrepareConfig,
            Phase::Spawning => Action::SpawnServer,
            Phase::Running => Action::WaitForExit,
            Phase::Terminating => Action::Terminate,
            Phase::BackingOff => Action::Backoff { millis: CRASH_BACKOFF_MS },
            Phase::RemovingRules => Action::RemoveFirewallRules,
            Phase::Finished => Action::Exit(self.exit),
        }
    }

    fn go(&mut self, phase: Phase, a: Action) -> (r: Action)
        ensures
            *final(self) == with_phase(*old(self), phase),
            r == a,
    {
        self.phase = phase;
        a
    }

    /// Advance the supervisor by the outcome of its last action.
    pub fn step(&mut self, event: Event) -> (a: Action)
        ensures
            (*final(self), a) == next(*old(self), event),
    {
        match (self.phase, event) {
            (Phase::CheckingFirewall, Event::Done) => if self.auto_manage {
                self.go(Phase::AddingRules, Action::AddFirewallRules)
            } else {
                self.go(Phase::Polling, Action::PollShutdown)
            },
            (Phase::AddingRules, Event::Done) => self.go(Phase::Polling, Action::PollShutdown),
            (Phase::Polling, Event::Shutdown(requested)) => if requested {
                self.finish(ExitCode::Success)
            } else if self.skip_install {
                self.go(Phase::Preparing, Action::PrepareConfig)
            } else {
                self.go(Phase::Inspecting, Action::InspectInstall)
            },
            (Phase::Inspecting, Event::Install { binary_present, marker }) => {
                let interval = check_interval_nanos(self.check_interval_minutes);
                if should_validate(binary_present, marker, interval, self.skip_install) {
                    self.go(Phase::EnsuringSteamcmd, Action::EnsureSteamcmd)
                } else {
                    self.go(Phase::Preparing, Action::PrepareConfig)
                }
            },
            (Phase::EnsuringSteamcmd, Event::Done) => self.go(Phase::Validating, Action::RunValidate),
            (Phase::EnsuringSteamcmd, Event::SteamcmdUnavailable { server_present }) => if server_present {
                self.go(Phase::Preparing, Action::PrepareConfig)
            } else {
                self.finish(ExitCode::SteamcmdFatal)
            },
            (Phase::Validating, Event::Validated { success, server_present }) => if success {
                self.go(Phase::TouchingMarker, Action::TouchMarker)
            } else if server_present {
                self.go(Phase::Preparing, Action::PrepareConfig)
            } else {
                self.finish(ExitCode::SteamcmdFatal)
            },
            (Phase::TouchingMarker, Event::Done) => self.go(Phase::Preparing, Action::PrepareConfig),
            (Phase::Preparing, Event::Done) => self.go(Phase::Spawning, Action::SpawnServer),
            (Phase::Preparing, Event::Failed(err)) => {
                let code = err.exit_code();
                self.finish(code)
            },
            (Phase::Spawning, Event::Done) => self.go(Phase::Running, Action::WaitForExit),
            (Phase::Spawning, Event::Failed(err)) => {
                let code = err.exit_code();
                self.finish(code)
            },
            (Phase::Running, Event::ServerExited) => self.go(
                Phase::BackingOff,
                Action::Backoff { millis: CRASH_BACKOFF_MS },
            ),
            (Phase::Running, Event::ShutdownRequested) => self.go(Phase::Terminating, Action::Terminate),
            (Phase::Terminating, Event::Done) => self.finish(ExitCode::Success),
            (Phase::BackingOff, Event::Shutdown(requested)) => if requested {
                self.finish(ExitCode::Success)
            } else {
                self.go(Phase::Polling, Action::PollShutdown)
            },
            (Phase::RemovingRules, Event::Done) => {
                let code = self.exit;
                self.go(Phase::Finished, Action::Exit(code))
            },
            _ => self.pending(),
        }
    }
}

/// A requested shutdown ends the run with exit code 0: while polling or
/// backing off the supervisor stops at once; while the server runs it first
/// terminates the server, then stops.
pub proof fn lemma_shutdown_exits_cleanly(s: Supervisor)
    ensures
        (s.phase == Phase::Polling || s.phase == Phase::BackingOff) ==> {
            let (t, a) = next(s, Event::Shutdown(true));
            &&& t.exit == ExitCode::Success
            &&& a == (if s.auto_manage {
                Action::RemoveFirewallRules
            } else {
                Action::Exit(ExitCode::Success)
            })
        },
        s.phase == Phase::Running ==> {
            let (t, a) = next(s, Event::ShutdownRequested);
            &&& a == Action::Terminate
            &&& next(t, Event::Done).0.exit == ExitCode::Success
        },
{
}

/// With `firewall.auto_manage`, the rules are removed before the supervisor
/// exits: `Exit` is only asked for after `RemoveFirewallRules` completed (or
/// again once finished), and the run is finished only by way of removing the
/// rules.
pub proof fn lemma_rules_removed_before_exit(s: Supervisor, e: Event)
    ensures
        ({
            let (t, a) = next(s, e);
            &&& (s.auto_manage && a is Exit) ==> (s.phase == Phase::RemovingRules || s.phase
                == Phase::Finished)
            &&& (s.auto_manage && t.phase == Phase::Finished) ==> (s.phase == Phase::RemovingRules
                || s.phase == Phase::Finished)
        }),
{
}

/// The actions a supervisor in state `s` asks for, one per event, when the
/// events report the outcomes of its previous actions.
pub open spec fn actions_of(s: Supervisor, events: Seq<Event>) -> Seq<Action>
    decreases events.len(),
{
    if events.len() == 0 {
        Seq::empty()
    } else {
        let (t, a) = next(s, events[0]);
        seq![a] + actions_of(t, events.drop_first())
    }
}

/// Over a whole run with `firewall.auto_manage`, every request to exit comes
/// after a request to remove the firewall rules, whatever the outcomes of the
/// actions were.
pub proof fn lemma_run_removes_rules_before_exit(s: Supervisor, events: Seq<Event>)
    requires
        s.auto_manage,
        s.phase != Phase::RemovingRules,
        s.phase != Phase::Finished,
    ensures
        forall|i: int|
            0 <= i < actions_of(s, events).len() && (#[trigger] actions_of(s, events)[i]) is Exit
                ==> exists|j: int| 0 <= j < i && actions_of(s, events)[j] == Action::RemoveFirewallRules,
    decreases events.len(),
{
    if events.len() > 0 {
        let (t, a) = next(s, events[0]);
        let rest = actions_of(t, events.drop_first());
        let all = actions_of(s, events);
        assert(all == seq![a] + rest);
        lemma_rules_removed_before_exit(s, events[0]);
        assert(!(a is Exit));
        if t.phase == Phase::RemovingRules || t.phase == Phase::Finished {
            assert(t.phase == Phase::RemovingRules);
            assert(a == Action::RemoveFirewallRules);
            assert forall|i: int|
                0 <= i < all.len() && (#[trigger] all[i]) is Exit implies exists|j: int|
                0 <= j < i && all[j] == Action::RemoveFirewallRules by {
                assert(all[0] == Action::RemoveFirewallRules);
            }
        } else {
            assert(t.auto_manage);
            lemma_run_removes_rules_before_exit(t, events.drop_first());
            assert forall|i: int|
                0 <= i < all.len() && (#[trigger] all[i]) is Exit implies exists|j: int|
                0 <= j < i && all[j] == Action::RemoveFirewallRules by {
                assert(i >= 1);
                assert(all[i] == rest[i - 1]);
                let k = choose|k: int| 0 <= k < i - 1 && rest[k] == Action::RemoveFirewallRules;
                assert(all[k + 1] == rest[k]);
            }
        }
    }
}

/// A server that exits by itself is relaunched: after the crash backoff, and
/// unless a shutdown is requested meanwhile, the supervisor polls again and
/// starts a new cycle.
pub proof fn lemma_exited_server_is_relaunched(s: Supervisor)
    requires
        s.phase == Phase::Running,
    ensures
        ({
            let (t, a) = next(s, Event::ServerExited);
            &&& a == Action::Backoff { millis: CRASH_BACKOFF_MS }
            &&& next(t, Event::Shutdown(false)).1 == Action::PollShutdown
            &&& next(t, Event::Shutdown(false)).0.phase == Phase::Polling
        }),
{
}

/// The run fails with `SteamcmdFatal` because of SteamCMD only when the server
/// binary is missing: with an installed server a SteamCMD failure is logged
/// and the existing install is launched.
pub proof fn lemma_steamcmd_fatal_only_without_server(s: Supervisor, e: Event)
    ensures
        ({
            let (t, a) = next(s, e);
            (t.exit == ExitCode::SteamcmdFatal && s.exit != ExitCode::SteamcmdFatal) ==> match e {
                Event::SteamcmdUnavailable { server_present } => !server_present,
                Event::Validated { success, server_present } => !success && !server_present,
                Event::Failed(err) => error_exit_code(err) == ExitCode::SteamcmdFatal,
                _ => false,
            }
        }),
{
}

pub open spec fn is_steamcmd_phase(p: Phase) -> bool {
    p == Phase::Inspecting || p == Phase::EnsuringSteamcmd || p == Phase::Validating || p
        == Phase::TouchingMarker
}

pub open spec fn is_steamcmd_action(a: Action) -> bool {
    a == Action::InspectInstall || a == Action::EnsureSteamcmd || a == Action::RunValidate || a
        == Action::TouchMarker
}

/// With `steamcmd.skip_install` SteamCMD is skipped entirely: a supervisor that is not already in a
/// SteamCMD phase never enters one and never asks for SteamCMD work.
pub proof fn lemma_skip_install_skips_steamcmd(s: Supervisor, e: Event)
    requires
        s.skip_install,
        !is_steamcmd_phase(s.phase),
    ensures
        !is_steamcmd_phase(next(s, e).0.phase),
        !is_steamcmd_action(next(s, e).1),
        next(s, e).0.skip_install,
{
}

/// Once finished, the supervisor stays finished and keeps asking to exit
/// with the same code.
pub proof fn lemma_finished_is_final(s: Supervisor, e: Event)
    requires
        s.phase == Phase::Finished,
    ensures
        next(s, e) == (s, Action::Exit(s.exit)),
{
}

/// Managing the firewall rules never changes how a run ends: where a step of
/// a supervisor with `firewall.auto_manage` asks to remove the rules, the same
/// step without it asks to exit with some code, and once the rules are
/// removed the supervisor asks to exit with that same code.
pub proof fn lemma_rule_removal_keeps_exit_code(s: Supervisor, e: Event)
    requires
        s.auto_manage,
        s.phase != Phase::RemovingRules,
        next(s, e).1 == Action::RemoveFirewallRules,
    ensures
        ({
            let unmanaged = Supervisor { auto_manage: false, ..s };
            next(unmanaged, e).1 matches Action::Exit(code) && next(next(s, e).0, Event::Done).1
                == Action::Exit(code)
        }),
{
}

/// A failure to prepare the configuration or to start the server ends the run
/// with that failure's exit code (1 for a configuration error, 4 for an I/O
/// error, ...), whether or not the firewall rules are managed; where they are,
/// the rules are removed first.
pub proof fn lemma_failure_exits_with_its_code(s: Supervisor, err: Error)
    requires
        s.phase == Phase::Preparing || s.phase == Phase::Spawning,
    ensures
        ({
            let (t, a) = next(s, Event::Failed(err));
            if s.auto_manage {
                &&& a == Action::RemoveFirewallRules
                &&& next(t, Event::Done).1 == Action::Exit(error_exit_code(err))
            } else {
                a == Action::Exit(error_exit_code(err))
            }
        }),
{
}

/// A fatal SteamCMD failure (no SteamCMD, or a failed validate, with no
/// server installed) ends the run with the SteamCMD exit code, also after the
/// firewall rules are removed.
pub proof fn lemma_steamcmd_fatal_exit_code(s: Supervisor, e: Event)
    requires
        (s.phase == Phase::EnsuringSteamcmd && e == (Event::SteamcmdUnavailable {
            server_present: false,
        })) || (s.phase == Phase::Validating && e == (Event::Validated {
            success: false,
            server_present: false,
        })),
    ensures
        ({
            let (t, a) = next(s, e);
            if s.auto_manage {
                &&& a == Action::RemoveFirewallRules
                &&& next(t, Event::Done).1 == Action::Exit(ExitCode::SteamcmdFatal)
            } else {
                a == Action::Exit(ExitCode::SteamcmdFatal)
            }
        }),
{
}

} // verus!
