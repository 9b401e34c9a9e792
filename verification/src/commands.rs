//! The six commands, each as the step from what the operating system
//! reported to what the caller is told.
//!
//! A report is a `Result` whose error is the operating system's description
//! of what went wrong. Every command answers one report with one reply and
//! keeps nothing between calls.

use vstd::prelude::*;

use crate::failure::{describe_failure, failure_text, Operation};

verus! {

/// Whether `reply` is the right answer to `outcome` for `operation`: the
/// payload of a success is handed on unchanged, and a failure becomes the
/// operation's failure message.
pub open spec fn relays<T>(
    operation: Operation,
    outcome: Result<T, String>,
    reply: Result<T, String>,
) -> bool {
    match outcome {
        Ok(payload) => reply == Ok::<T, String>(payload),
        Err(detail) => reply matches Err(message) && message@ == failure_text(
            operation,
            detail@,
        ),
    }
}

/// Answers `outcome` for `operation`.
pub fn relay<T>(operation: Operation, outcome: Result<T, String>) -> (reply: Result<T, String>)
    ensures
        relays(operation, outcome, reply),
{
    match outcome {
        Ok(payload) => Ok(payload),
        Err(detail) => Err(describe_failure(operation, detail.as_str())),
    }
}

/// The reply to a request to create a directory and its missing parents.
pub fn create_directory(outcome: Result<(), String>) -> (reply: Result<(), String>)
    ensures
        relays(Operation::CreateDirectory, outcome, reply),
{
    relay(Operation::CreateDirectory, outcome)
}

/// The reply to a request to copy a file. A copy reports how many bytes it
/// wrote; the caller is not told.
pub fn copy_file(outcome: Result<u64, String>) -> (reply: Result<(), String>)
    ensures
        outcome is Err ==> reply is Err,
        match outcome {
            Ok(_) => reply == Ok::<(), String>(()),
            Err(detail) => reply matches Err(message) && message@ == failure_text(
                Operation::CopyFile,
                detail@,
            ),
        },
{
    match outcome {
        Ok(_) => Ok(()),
        Err(detail) => Err(describe_failure(Operation::CopyFile, detail.as_str())),
    }
}

/// The reply to a request to write bytes to a file.
pub fn write_file(outcome: Result<(), String>) -> (reply: Result<(), String>)
    ensures
        relays(Operation::WriteFile, outcome, reply),
{
    relay(Operation::WriteFile, outcome)
}

/// The reply to a request to read a file: the bytes that were read, all of
/// them and in their order. A file that could not be read is a failure, never
/// an empty sequence of bytes.
pub fn read_file(outcome: Result<Vec<u8>, String>) -> (reply: Result<Vec<u8>, String>)
    ensures
        relays(Operation::ReadFile, outcome, reply),
        outcome is Err ==> reply is Err,
{
    relay(Operation::ReadFile, outcome)
}

/// Whether a path exists, given what a query for its metadata reported. A
/// query that failed, for whatever reason, means that the path does not
/// exist: this command has no failure.
pub fn file_exists(outcome: Result<(), String>) -> (present: bool)
    ensures
        present == outcome is Ok,
{
    outcome.is_ok()
}

/// The reply to a request to show a folder, given what starting the opener
/// reported. A program that started is a success, whatever it then does.
pub fn open_folder(outcome: Result<(), String>) -> (reply: Result<(), String>)
    ensures
        relays(Operation::OpenFolder, outcome, reply),
        outcome is Ok ==> reply is Ok,
{
    relay(Operation::OpenFolder, outcome)
}

} // verus!
