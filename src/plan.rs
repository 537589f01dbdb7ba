//! A file-system operation as a plan of steps. The host performs one step at a
//! time and reports what came of it; `advance` decides what happens next.
use vstd::prelude::*;
use crate::error::{ErrorKind, FaultKind, IoFault, Operation, StagingError};

verus! {

/// One file-system call of a plan, with the path it acts on.
#[derive(Clone, Debug)]
pub enum Step {
    /// Create a directory and its missing ancestors; a failure ends the run.
    CreateDirAll(String),
    /// Look whether a directory exists; where it does not, the run fails.
    RequireDir(String),
    /// Look whether a path exists; where it does not, the run ends successfully.
    SkipIfAbsent(String),
    /// Write a small sentinel file; a failure ends the run as a denied permission.
    WriteProbe(String),
    /// Delete the sentinel file; a failure is passed over.
    RemoveProbe(String),
    /// Write the caller's content, replacing any file there; a failure ends the run.
    WriteContent(String),
    /// Read a file as text; a failure ends the run.
    ReadText(String),
    /// List the names of a directory's entries; a failure ends the run.
    ListDir(String),
    /// Remove a directory and all that it holds; a failure ends the run.
    RemoveDirAll(String),
}

/// What came of performing a step.
#[derive(Clone, Debug)]
pub enum Event {
    /// The call succeeded.
    Succeeded,
    /// The existence check found the path (`true`) or not (`false`).
    Found(bool),
    /// The call failed.
    Failed(IoFault),
}

/// What the host does next.
#[derive(Debug)]
pub enum Next {
    /// Perform the step at this index of the plan.
    Perform(usize),
    /// Stop: the operation succeeded or failed.
    Finish(Result<(), StagingError>),
}

/// The path a step acts on.
pub open spec fn step_path(s: Step) -> Seq<char> {
    match s {
        Step::CreateDirAll(p) => p@,
        Step::RequireDir(p) => p@,
        Step::SkipIfAbsent(p) => p@,
        Step::WriteProbe(p) => p@,
        Step::RemoveProbe(p) => p@,
        Step::WriteContent(p) => p@,
        Step::ReadText(p) => p@,
        Step::ListDir(p) => p@,
        Step::RemoveDirAll(p) => p@,
    }
}

/// The operation a step performs, as an error names it.
pub open spec fn step_operation(s: Step) -> Operation {
    match s {
        Step::CreateDirAll(_) => Operation::CreateDir,
        Step::RequireDir(_) => Operation::CheckDir,
        Step::SkipIfAbsent(_) => Operation::CheckDir,
        Step::WriteProbe(_) => Operation::ProbeWrite,
        Step::RemoveProbe(_) => Operation::RemoveFile,
        Step::WriteContent(_) => Operation::Write,
        Step::ReadText(_) => Operation::Read,
        Step::ListDir(_) => Operation::ListDir,
        Step::RemoveDirAll(_) => Operation::RemoveDir,
    }
}

/// Whether the event ends the run with a failure at this step.
pub open spec fn fails(s: Step, ev: Event) -> bool {
    ||| (ev is Failed && !(s is RemoveProbe))
    ||| (ev matches Event::Found(false) && s is RequireDir)
}

/// Whether the event ends the run successfully before the plan is done.
pub open spec fn ends_early(s: Step, ev: Event) -> bool {
    ev matches Event::Found(false) && s is SkipIfAbsent
}

/// The class of the failure that the event brings at this step.
pub open spec fn failure_kind(s: Step, ev: Event) -> ErrorKind {
    if s is WriteProbe {
        ErrorKind::PermissionDenied
    } else if s is ReadText && (ev matches Event::Failed(f) && f.kind == FaultKind::Missing) {
        ErrorKind::NotFound
    } else {
        ErrorKind::IoFailure
    }
}

/// The host's words for a failure, empty where the event carries none.
pub open spec fn failure_detail(ev: Event) -> Seq<char> {
    match ev {
        Event::Failed(f) => f.message@,
        _ => Seq::empty(),
    }
}

/// `e` is the failure that `ev` brings at step `s`.
pub open spec fn is_failure_of(e: StagingError, s: Step, ev: Event) -> bool {
    &&& e.kind == failure_kind(s, ev)
    &&& e.operation == step_operation(s)
    &&& e.path@ == step_path(s)
    &&& e.detail@ == failure_detail(ev)
}

fn path_of(s: &Step) -> (r: &String)
    ensures
        r@ == step_path(*s),
{
    match s {
        Step::CreateDirAll(p) => p,
        Step::RequireDir(p) => p,
        Step::SkipIfAbsent(p) => p,
        Step::WriteProbe(p) => p,
        Step::RemoveProbe(p) => p,
        Step::WriteContent(p) => p,
        Step::ReadText(p) => p,
        Step::ListDir(p) => p,
        Step::RemoveDirAll(p) => p,
    }
}

fn operation_of(s: &Step) -> (r: Operation)
    ensures
        r == step_operation(*s),
{
    match s {
        Step::CreateDirAll(_) => Operation::CreateDir,
        Step::RequireDir(_) => Operation::CheckDir,
        Step::SkipIfAbsent(_) => Operation::CheckDir,
        Step::WriteProbe(_) => Operation::ProbeWrite,
        Step::RemoveProbe(_) => Operation::RemoveFile,
        Step::WriteContent(_) => Operation::Write,
        Step::ReadText(_) => Operation::Read,
        Step::ListDir(_) => Operation::ListDir,
        Step::RemoveDirAll(_) => Operation::RemoveDir,
    }
}

/// The first thing to do for a plan: its first step, or nothing where it is empty.
pub fn start(plan: &Vec<Step>) -> (r: Next)
    ensures
        plan@.len() > 0 ==> (r matches Next::Perform(i) && i == 0),
        plan@.len() == 0 ==> r matches Next::Finish(Ok(())),
{
    if plan.len() > 0 {
        Next::Perform(0)
    } else {
        Next::Finish(Ok(()))
    }
}

/// Decides what follows once the step at `at` has been performed with outcome `ev`.
pub fn advance(plan: &Vec<Step>, at: usize, ev: &Event) -> (r: Next)
    requires
        at < plan@.len(),
    ensures
        fails(plan@[at as int], *ev) ==> (r matches Next::Finish(Err(e)) && is_failure_of(
            e,
            plan@[at as int],
            *ev,
        )),
        ends_early(plan@[at as int], *ev) ==> r matches Next::Finish(Ok(())),
        !fails(plan@[at as int], *ev) && !ends_early(plan@[at as int], *ev) ==> if at + 1
            < plan@.len() {
            (r matches Next::Perform(i) && i == at + 1)
        } else {
            r matches Next::Finish(Ok(()))
        },
{
    let s = &plan[at];
    let failed = match ev {
        Event::Failed(_) => !matches!(s, Step::RemoveProbe(_)),
        Event::Found(false) => matches!(s, Step::RequireDir(_)),
        _ => false,
    };
    if failed {
        let kind = match s {
            Step::WriteProbe(_) => ErrorKind::PermissionDenied,
            Step::ReadText(_) => match ev {
                Event::Failed(f) => if f.kind == FaultKind::Missing {
                    ErrorKind::NotFound
                } else {
                    ErrorKind::IoFailure
                },
                _ => ErrorKind::IoFailure,
            },
            _ => ErrorKind::IoFailure,
        };
        let e = match ev {
            Event::Failed(f) => StagingError::new(
                kind,
                operation_of(s),
                path_of(s).as_str(),
                f.message.as_str(),
            ),
            _ => StagingError::new(kind, operation_of(s), path_of(s).as_str(), ""),
        };
        proof {
            reveal_strlit("");
        }
        assert(e.kind == failure_kind(*s, *ev));
        assert(e.operation == step_operation(*s));
        assert(e.path@ == step_path(*s));
        assert(e.detail@ == failure_detail(*ev));
        return Next::Finish(Err(e));
    }
    let early = match ev {
        Event::Found(false) => matches!(s, Step::SkipIfAbsent(_)),
        _ => false,
    };
    if early || at == plan.len() - 1 {
        Next::Finish(Ok(()))
    } else {
        Next::Perform(at + 1)
    }
}

} // verus!
