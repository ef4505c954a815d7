//! The run coordinator's exit policy. Two tasks race: the synchronization
//! loop, which ends only fatally, and the command, which ends with a report
//! or a typed error. Whichever ends first decides the process outcome:
//! zero for a completed command (including a cleanly interrupted listener),
//! and otherwise a code that tells a usage mistake apart from a failed
//! remote operation.

use vstd::prelude::*;

use crate::dispatch::Report;
use crate::errors::{is_usage_error, CliError};

verus! {

/// How the race ended: which task finished first, and how.
pub enum TaskOutcome {
    /// The synchronization loop ended, which it only does fatally.
    SyncEnded { error: CliError },
    /// The command finished with its report or its typed error.
    CommandEnded { result: Result<Report, CliError> },
}

/// The exit code for a failure: usage mistakes and remote failures are
/// told apart.
pub open spec fn exit_code_of(e: CliError) -> u8 {
    if is_usage_error(e) {
        2
    } else {
        1
    }
}

/// The exit code for one error.
pub fn exit_code(e: &CliError) -> (c: u8)
    ensures
        c == exit_code_of(*e),
        c != 0,
{
    match e {
        CliError::MissingCredentials => 2,
        CliError::BadHomeserverUrl { .. } => 2,
        CliError::BadRoomName { .. } => 2,
        CliError::BadRoomVersion { .. } => 2,
        CliError::UnknownMediaType { .. } => 2,
        CliError::MalformedReference { .. } => 2,
        _ => 1,
    }
}

/// The process outcome for whichever task ended first: success exits with
/// zero, every propagated error with its non-zero code.
pub fn process_exit(outcome: &TaskOutcome) -> (c: u8)
    ensures
        match outcome {
            TaskOutcome::SyncEnded { error } => c == exit_code_of(*error) && c != 0,
            TaskOutcome::CommandEnded { result } => match result {
                Ok(_) => c == 0,
                Err(e) => c == exit_code_of(*e) && c != 0,
            },
        },
{
    match outcome {
        TaskOutcome::SyncEnded { error } => exit_code(error),
        TaskOutcome::CommandEnded { result } => match result {
            Ok(_) => 0,
            Err(e) => exit_code(e),
        },
    }
}

} // verus!
