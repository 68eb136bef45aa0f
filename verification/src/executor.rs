//! The sync executor's verified half: the exact argument vector handed to
//! the external mirroring tool, and the classification of what the tool
//! reported back. The process invocation itself happens outside this
//! crate; it returns as a plain exit status and captured output.

use vstd::prelude::*;
use vstd::string::StringExecFns;

use crate::config::Mirror;
use crate::events::Direction;

verus! {

/// What one invocation of the external mirroring tool produced. `success`
/// is the tool's exit contract: exit status zero and nothing else.
#[derive(Clone, Debug)]
pub struct SyncOutcome {
    pub direction: Direction,
    pub success: bool,
    pub stdout: String,
    pub stderr: String,
    pub exit_status: i32,
}

/// A failed sync pass: recoverable, logged, never retried by itself — the
/// next significant filesystem event is the sole retry trigger.
#[derive(Clone, Debug)]
pub struct SyncError {
    pub direction: Direction,
    pub exit_status: i32,
    pub stderr: String,
}

/// The argument vector for one mirroring pass: archive mode, delete what
/// the origin no longer has (an exact mirror, not an additive merge), skip
/// everything matching a pattern in the exclusion-list file, then the two
/// trees. The origin path is passed exactly as configured, with no
/// trailing slash appended: the directory itself, not its contents, is
/// mirrored into the destination, and changing that silently reshapes the
/// destination tree.
pub fn rsync_args(from_dir: &str, to_dir: &str, ignorefile: &str) -> (args: Vec<String>)
    ensures
        args@.len() == 6,
        args@[0]@ == "-a"@,
        args@[1]@ == "--delete"@,
        args@[2]@ == "--exclude-from"@,
        args@[3]@ == ignorefile@,
        args@[4]@ == from_dir@,
        args@[5]@ == to_dir@,
{
    let mut args: Vec<String> = Vec::new();
    args.push(String::from_str("-a"));
    args.push(String::from_str("--delete"));
    args.push(String::from_str("--exclude-from"));
    args.push(ignorefile.to_owned());
    args.push(from_dir.to_owned());
    args.push(to_dir.to_owned());
    args
}

impl Mirror {
    /// The argument vector for a pass in the given direction: forward
    /// mirrors source into target, reverse mirrors target into source; the
    /// same exclusion list applies both ways.
    pub fn sync_args(&self, direction: Direction) -> (args: Vec<String>)
        ensures
            args@.len() == 6,
            args@[0]@ == "-a"@,
            args@[1]@ == "--delete"@,
            args@[2]@ == "--exclude-from"@,
            args@[3]@ == self.ignorefile@,
            direction is Forward ==> args@[4]@ == self.source@ && args@[5]@ == self.target@,
            direction is Reverse ==> args@[4]@ == self.target@ && args@[5]@ == self.source@,
    {
        match direction {
            Direction::Forward => rsync_args(self.source.as_str(), self.target.as_str(), self.ignorefile.as_str()),
            Direction::Reverse => rsync_args(self.target.as_str(), self.source.as_str(), self.ignorefile.as_str()),
        }
    }
}

/// Folds a finished invocation into a [`SyncOutcome`]: exit status zero
/// means success, any other status means failure, and the captured output
/// is carried verbatim for the log.
pub fn outcome_from_exit(direction: Direction, exit_status: i32, stdout: String, stderr: String) -> (outcome: SyncOutcome)
    ensures
        outcome.direction == direction,
        outcome.success == (exit_status == 0),
        outcome.exit_status == exit_status,
        outcome.stdout == stdout,
        outcome.stderr == stderr,
{
    let success = exit_status == 0;
    SyncOutcome { direction, success, stdout, stderr, exit_status }
}

/// The caller-facing result of a pass: a successful outcome is `Ok`, a
/// failed one carries its direction, exit status, and diagnostic text —
/// exactly and only when the outcome failed.
pub fn outcome_result(outcome: &SyncOutcome) -> (result: Result<(), SyncError>)
    ensures
        result is Ok <==> outcome.success,
        result matches Err(e) ==> e.direction == outcome.direction
            && e.exit_status == outcome.exit_status && e.stderr@ == outcome.stderr@,
{
    if outcome.success {
        Ok(())
    } else {
        Err(SyncError {
            direction: outcome.direction,
            exit_status: outcome.exit_status,
            stderr: outcome.stderr.clone(),
        })
    }
}

} // verus!
