//! Waiting on the server process.
use crate::steamcmd::validate::ProcessStatus;
use vstd::prelude::*;

verus! {

/// How a wait on the server ended.
#[derive(Debug, Clone, Copy, PartialEq, Eq, Structural)]
pub enum WaitOutcome {
    Exited(ProcessStatus),
    Shutdown,
}

/// One round of waiting: first the shutdown channel is watched for a while;
/// if it stays quiet, the child process is polled.
#[derive(Debug, Clone, Copy, PartialEq, Eq, Structural)]
pub enum WaitPoll {
    /// A shutdown was requested.
    ShutdownSignalled,
    /// The shutdown channel is gone.
    ChannelClosed,
    /// The channel stayed quiet and the child has exited.
    ChildExited(ProcessStatus),
    /// The channel stayed quiet and the child still runs.
    ChildRunning,
    /// The channel stayed quiet and the child's state could not be queried.
    ChildQueryFailed,
}

/// What a round of waiting means: a shutdown request, or a closed channel,
/// ends the wait as a shutdown; an exited child ends it with its status; a
/// child that cannot be queried counts as exited with status 1; otherwise
/// waiting goes on (`None`).
pub fn wait_for_exit_or_shutdown(poll: WaitPoll) -> (r: Option<WaitOutcome>)
    ensures
        r == match poll {
            WaitPoll::ShutdownSignalled | WaitPoll::ChannelClosed => Some(WaitOutcome::Shutdown),
            WaitPoll::ChildExited(status) => Some(WaitOutcome::Exited(status)),
            WaitPoll::ChildRunning => None::<WaitOutcome>,
            WaitPoll::ChildQueryFailed => Some(WaitOutcome::Exited(ProcessStatus { code: 1 })),
        },
{
    match poll {
        WaitPoll::ShutdownSignalled | WaitPoll::ChannelClosed => Some(WaitOutcome::Shutdown),
        WaitPoll::ChildExited(status) => Some(WaitOutcome::Exited(status)),
        WaitPoll::ChildRunning => None,
        WaitPoll::ChildQueryFailed => Some(WaitOutcome::Exited(ProcessStatus { code: 1 })),
    }
}

} // verus!
