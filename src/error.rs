//! Failures: what the host reports of one file-system call, and the classified
//! error that the library hands back.
use vstd::prelude::*;
use vstd::string::*;

verus! {

/// How a file-system call failed, as the host saw it.
#[derive(Clone, Copy, Debug, PartialEq, Eq, Structural)]
pub enum FaultKind {
    /// The path was not there.
    Missing,
    /// The call was refused for lack of permission.
    Denied,
    /// Any other failure: a full disk, a locked file.
    Other,
}

/// One failed file-system or process call, with the host's own words for it.
#[derive(Clone, Debug)]
pub struct IoFault {
    pub kind: FaultKind,
    pub message: String,
}

/// The classes of failure that callers tell apart.
#[derive(Clone, Copy, Debug, PartialEq, Eq, Structural)]
pub enum ErrorKind {
    NotFound,
    IoFailure,
    PermissionDenied,
    LaunchFailure,
    InvalidArgument,
}

/// What was being done when a failure came.
#[derive(Clone, Copy, Debug, PartialEq, Eq, Structural)]
pub enum Operation {
    CreateDir,
    CheckDir,
    ProbeWrite,
    Write,
    Read,
    ListDir,
    RemoveFile,
    RemoveDir,
    Launch,
    ParseArgument,
}

/// A classified failure, naming the path (or command, or value) it concerns.
#[derive(Clone, Debug)]
pub struct StagingError {
    pub kind: ErrorKind,
    pub operation: Operation,
    pub path: String,
    pub detail: String,
}

/// The words that lead a message for each operation.
pub open spec fn operation_words(op: Operation) -> Seq<char> {
    match op {
        Operation::CreateDir => "Failed to create directory"@,
        Operation::CheckDir => "Directory does not exist"@,
        Operation::ProbeWrite => "Directory is not writable"@,
        Operation::Write => "Failed to write file"@,
        Operation::Read => "Failed to read file"@,
        Operation::ListDir => "Failed to read directory"@,
        Operation::RemoveFile => "Failed to remove file"@,
        Operation::RemoveDir => "Failed to remove directory"@,
        Operation::Launch => "Failed to execute"@,
        Operation::ParseArgument => "Invalid value"@,
    }
}

/// The message of an error: the operation's words, the path, and the detail.
pub open spec fn message_of(e: StagingError) -> Seq<char> {
    operation_words(e.operation) + " "@ + e.path@ + ": "@ + e.detail@
}

fn words(op: Operation) -> (r: &'static str)
    ensures
        r@ == operation_words(op),
{
    match op {
        Operation::CreateDir => "Failed to create directory",
        Operation::CheckDir => "Directory does not exist",
        Operation::ProbeWrite => "Directory is not writable",
        Operation::Write => "Failed to write file",
        Operation::Read => "Failed to read file",
        Operation::ListDir => "Failed to read directory",
        Operation::RemoveFile => "Failed to remove file",
        Operation::RemoveDir => "Failed to remove directory",
        Operation::Launch => "Failed to execute",
        Operation::ParseArgument => "Invalid value",
    }
}

impl StagingError {
    /// The error of `kind` met during `operation` on `path`.
    pub fn new(kind: ErrorKind, operation: Operation, path: &str, detail: &str) -> (r: Self)
        ensures
            r.kind == kind,
            r.operation == operation,
            r.path@ == path@,
            r.detail@ == detail@,
    {
        StagingError {
            kind,
            operation,
            path: String::from_str(path),
            detail: String::from_str(detail),
        }
    }

    /// A message for a person: what was done, on which path, and why it failed.
    pub fn message(&self) -> (r: String)
        ensures
            r@ == message_of(*self),
    {
        let mut r = String::from_str(words(self.operation));
        r.append(" ");
        r.append(self.path.as_str());
        r.append(": ");
        r.append(self.detail.as_str());
        r
    }
}

} // verus!
