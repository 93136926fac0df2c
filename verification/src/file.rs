//! The checks and the messages of moving an artifact into place. The file
//! system itself is touched by the caller.

use vstd::prelude::*;
use vstd::string::StringExecFns;
use crate::error::Error;

verus! {

/// Result of a file move.
#[derive(Debug, Clone)]
pub struct FileMoveResult {
    /// Destination path where the file was moved.
    pub destination: String,
    /// Whether the operation succeeded.
    pub success: bool,
}

/// The step at which a move failed.
#[derive(Debug, Clone, Copy, PartialEq, Eq, Structural)]
pub enum MoveStep {
    /// The directories above the destination could not be created.
    CreateParent,
    /// The source could not be copied to the destination.
    Copy,
    /// The source could not be removed after the copy.
    RemoveSource,
}

/// The message for a source that cannot be moved: one that does not exist,
/// or one that is no file.
pub open spec fn source_message(exists: bool, is_file: bool, source: Seq<char>) -> Option<
    Seq<char>,
> {
    if !exists {
        Some("source file not found: "@ + source)
    } else if !is_file {
        Some("source is not a file: "@ + source)
    } else {
        None
    }
}

/// Checks that the source of a move exists and is a file.
pub fn check_source(exists: bool, is_file: bool, source: &str) -> (r: Result<(), Error>)
    ensures
        match r {
            Ok(_) => source_message(exists, is_file, source@) is None,
            Err(error) => source_message(exists, is_file, source@) matches Some(message)
                && error.is_validation(message),
        },
{
    if !exists {
        return Err(
            Error::Validation {
                message: String::from_str("source file not found: ").concat(source),
            },
        );
    }
    if !is_file {
        return Err(
            Error::Validation { message: String::from_str("source is not a file: ").concat(source) },
        );
    }
    Ok(())
}

/// The message for a step of a move that failed for `reason`.
pub open spec fn step_message(
    step: MoveStep,
    source: Seq<char>,
    destination: Seq<char>,
    reason: Seq<char>,
) -> Seq<char> {
    match step {
        MoveStep::CreateParent => "failed to create parent directories for "@ + destination
            + ": "@ + reason,
        MoveStep::Copy => "failed to copy "@ + source + " to "@ + destination + ": "@ + reason,
        MoveStep::RemoveSource => "failed to remove source file "@ + source + ": "@ + reason,
    }
}

/// Builds the error for a step of a move that failed.
pub fn step_failure(step: MoveStep, source: &str, destination: &str, reason: &str) -> (r: Error)
    ensures
        r.is_service(step_message(step, source@, destination@, reason@)),
{
    let message = match step {
        MoveStep::CreateParent => String::from_str(
            "failed to create parent directories for ",
        ).concat(destination).concat(": ").concat(reason),
        MoveStep::Copy => String::from_str("failed to copy ").concat(source).concat(" to ").concat(
            destination,
        ).concat(": ").concat(reason),
        MoveStep::RemoveSource => String::from_str("failed to remove source file ").concat(
            source,
        ).concat(": ").concat(reason),
    };
    Error::Service { message }
}

/// The result of a move that succeeded.
pub fn moved_to(destination: &str) -> (r: FileMoveResult)
    ensures
        r.success,
        r.destination@ == destination@,
{
    FileMoveResult { destination: String::from_str(destination), success: true }
}

} // verus!
