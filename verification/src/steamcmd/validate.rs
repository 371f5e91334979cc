//! `steamcmd +app_update <app> validate`.
use crate::error::{Error, ExitCode};
use crate::supervisor::argv::texts;
use vstd::prelude::*;

verus! {

/// How a finished process ended: its exit code.
#[derive(Debug, Clone, Copy, PartialEq, Eq, Structural)]
pub struct ProcessStatus {
    pub code: u32,
}

impl ProcessStatus {
    pub fn success(&self) -> (r: bool)
        ensures
            r == (self.code == 0),
    {
        self.code == 0
    }
}

/// Invokes the steamcmd binary with the given arguments; tests swap in a mock.
pub trait SteamcmdRunner {
    /// `outcome` is one way a run of steamcmd with the argument texts `args`
    /// can end. A runner that says no more allows every outcome.
    open spec fn ran(&self, args: Seq<Seq<char>>, outcome: Result<ProcessStatus, std::io::Error>) -> bool {
        true
    }

    /// Whether this runner keeps count of its runs in `runs`.
    open spec fn counts_runs(&self) -> bool {
        false
    }

    /// How many times this runner has run steamcmd, where it keeps count.
    open spec fn runs(&self) -> nat {
        0
    }

    /// Run steamcmd once with `args`.
    fn run(&mut self, args: &Vec<String>) -> (outcome: Result<ProcessStatus, std::io::Error>)
        ensures
            old(self).ran(texts(args@), outcome),
            old(self).counts_runs() ==> final(self).counts_runs() && final(self).runs() == old(
                self,
            ).runs() + 1,
    ;
}

/// The arguments of a validating update of `app_id` into `install_dir`.
pub open spec fn validate_args(install_dir: Seq<char>, app_id: Seq<char>) -> Seq<Seq<char>> {
    seq![
        "+force_install_dir"@,
        install_dir,
        "+login"@,
        "anonymous"@,
        "+app_update"@,
        app_id,
        "validate"@,
        "+quit"@,
    ]
}

pub fn steamcmd_validate_args(install_dir: &str, app_id: &str) -> (args: Vec<String>)
    ensures
        texts(args@) == validate_args(install_dir@, app_id@),
{
    let mut args: Vec<String> = Vec::new();
    args.push("+force_install_dir".to_owned());
    args.push(install_dir.to_owned());
    args.push("+login".to_owned());
    args.push("anonymous".to_owned());
    args.push("+app_update".to_owned());
    args.push(app_id.to_owned());
    args.push("validate".to_owned());
    args.push("+quit".to_owned());
    assert(texts(args@) =~= validate_args(install_dir@, app_id@));
    args
}

/// A run's outcome as reported by `run_steamcmd_validate`: the status, or the
/// failure to start steamcmd as an I/O error.
pub open spec fn validate_result(outcome: Result<ProcessStatus, std::io::Error>) -> Result<
    ProcessStatus,
    Error,
> {
    match outcome {
        Ok(status) => Ok(status),
        Err(e) => Err(Error::Io(e)),
    }
}

/// Run `steamcmd` once, with the arguments of `steamcmd_validate_args`, and
/// report how that run ended; a failure to start it is an I/O error.
pub fn run_steamcmd_validate<R: SteamcmdRunner>(runner: &mut R, install_dir: &str, app_id: &str) -> (res:
    Result<ProcessStatus, Error>)
    ensures
        exists|outcome: Result<ProcessStatus, std::io::Error>|
            #[trigger] old(runner).ran(validate_args(install_dir@, app_id@), outcome) && res
                == validate_result(outcome),
        old(runner).counts_runs() ==> final(runner).runs() == old(runner).runs() + 1,
{
    let args = steamcmd_validate_args(install_dir, app_id);
    let outcome = runner.run(&args);
    let ghost seen = outcome;
    assert(old(runner).ran(validate_args(install_dir@, app_id@), seen));
    match outcome {
        Ok(status) => Ok(status),
        Err(e) => Err(Error::Io(e)),
    }
}

/// The exit code of `install` and `update` once `steamcmd validate` has run:
/// a failed validate is fatal.
pub fn validate_exit_code(status: ProcessStatus) -> (code: ExitCode)
    ensures
        code == (if status.code == 0 {
            ExitCode::Success
        } else {
            ExitCode::SteamcmdFatal
        }),
{
    if status.success() {
        ExitCode::Success
    } else {
        ExitCode::SteamcmdFatal
    }
}

} // verus!
