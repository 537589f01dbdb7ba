//! The artifact writer: the final bytes of a conversion go to a chosen path,
//! once the directory that will hold them is known to exist and take writes.
use vstd::prelude::*;
use crate::paths::{join_path, joined, parent_dir, parent_of, PathStyle};
use crate::plan::Step;

verus! {

/// The sentinel file that tries the destination directory.
pub open spec fn probe_file_of(style: PathStyle, dir: Seq<char>) -> Seq<char> {
    joined(style, dir, "test_write.tmp"@)
}

/// `plan` writes an artifact to `destination`. Where the destination has a
/// parent directory, the plan creates it, checks that it is there, writes and
/// deletes a sentinel file in it, and only then writes the artifact.
pub open spec fn is_artifact_plan(plan: Seq<Step>, style: PathStyle, destination: Seq<char>) -> bool {
    match parent_of(style, destination) {
        Some(dir) => {
            &&& plan.len() == 5
            &&& plan[0] matches Step::CreateDirAll(d) && d@ == dir
            &&& plan[1] matches Step::RequireDir(d) && d@ == dir
            &&& plan[2] matches Step::WriteProbe(f) && f@ == probe_file_of(style, dir)
            &&& plan[3] matches Step::RemoveProbe(f) && f@ == probe_file_of(style, dir)
            &&& plan[4] matches Step::WriteContent(f) && f@ == destination
        },
        None => {
            &&& plan.len() == 1
            &&& plan[0] matches Step::WriteContent(f) && f@ == destination
        },
    }
}

/// The steps that write an artifact to `destination`.
pub fn artifact_plan(style: PathStyle, destination: &str) -> (r: Vec<Step>)
    ensures
        is_artifact_plan(r@, style, destination@),
{
    let target = String::from_str(destination);
    match parent_dir(style, destination) {
        Some(dir) => {
            let probe = join_path(style, dir.as_str(), "test_write.tmp");
            let probe_again = probe.clone();
            let checked = dir.clone();
            vec![
                Step::CreateDirAll(dir),
                Step::RequireDir(checked),
                Step::WriteProbe(probe),
                Step::RemoveProbe(probe_again),
                Step::WriteContent(target),
            ]
        },
        None => vec![Step::WriteContent(target)],
    }
}

} // verus!
