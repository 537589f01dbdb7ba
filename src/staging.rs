//! The temp staging area: scratch files under `<temp_root>/temp`, purged one
//! session at a time from `<temp_root>/temp/<session_id>`.
//!
//! Staging does not scope a file to a session by itself: a caller that wants a
//! file purged with its session names it `<session_id>/<leaf>`.
use vstd::prelude::*;
use crate::paths::{join_path, joined, PathStyle};
use crate::plan::Step;

verus! {

/// The scratch directory under `temp_root`.
pub open spec fn temp_dir_of(style: PathStyle, temp_root: Seq<char>) -> Seq<char> {
    joined(style, temp_root, "temp"@)
}

/// Where a file named `file_name` is staged.
pub open spec fn staged_file_of(style: PathStyle, temp_root: Seq<char>, file_name: Seq<char>) -> Seq<char> {
    joined(style, temp_dir_of(style, temp_root), file_name)
}

/// The directory that purging a session removes.
pub open spec fn purge_dir_of(style: PathStyle, temp_root: Seq<char>, session_id: Seq<char>) -> Seq<char> {
    joined(style, temp_dir_of(style, temp_root), session_id)
}

/// `plan` stages a file: it creates the scratch directory, then writes the file.
pub open spec fn is_stage_plan(plan: Seq<Step>, style: PathStyle, temp_root: Seq<char>, file_name: Seq<char>) -> bool {
    &&& plan.len() == 2
    &&& plan[0] matches Step::CreateDirAll(d) && d@ == temp_dir_of(style, temp_root)
    &&& plan[1] matches Step::WriteContent(f) && f@ == staged_file_of(style, temp_root, file_name)
}

/// `plan` reads a staged file back by its path.
pub open spec fn is_load_staged_plan(plan: Seq<Step>, file_path: Seq<char>) -> bool {
    &&& plan.len() == 1
    &&& plan[0] matches Step::ReadText(f) && f@ == file_path
}

/// `plan` removes a session's scratch tree, and does nothing where it is absent.
pub open spec fn is_purge_plan(plan: Seq<Step>, style: PathStyle, temp_root: Seq<char>, session_id: Seq<char>) -> bool {
    &&& plan.len() == 2
    &&& plan[0] matches Step::SkipIfAbsent(d) && d@ == purge_dir_of(style, temp_root, session_id)
    &&& plan[1] matches Step::RemoveDirAll(d) && d@ == purge_dir_of(style, temp_root, session_id)
}

/// The scratch directory under `temp_root`.
pub fn temp_dir(style: PathStyle, temp_root: &str) -> (r: String)
    ensures
        r@ == temp_dir_of(style, temp_root@),
{
    join_path(style, temp_root, "temp")
}

/// The path at which a file named `file_name` is staged.
pub fn staged_file(style: PathStyle, file_name: &str, temp_root: &str) -> (r: String)
    ensures
        r@ == staged_file_of(style, temp_root@, file_name@),
{
    let dir = temp_dir(style, temp_root);
    join_path(style, dir.as_str(), file_name)
}

/// The steps that stage `file_name`, overwriting a file of that name.
pub fn stage_plan(style: PathStyle, file_name: &str, temp_root: &str) -> (r: Vec<Step>)
    ensures
        is_stage_plan(r@, style, temp_root@, file_name@),
{
    vec![
        Step::CreateDirAll(temp_dir(style, temp_root)),
        Step::WriteContent(staged_file(style, file_name, temp_root)),
    ]
}

/// The steps that read a staged file by its path.
pub fn load_staged_plan(file_path: &str) -> (r: Vec<Step>)
    ensures
        is_load_staged_plan(r@, file_path@),
{
    vec![Step::ReadText(String::from_str(file_path))]
}

/// The steps that purge a session's scratch tree.
pub fn purge_plan(style: PathStyle, temp_root: &str, session_id: &str) -> (r: Vec<Step>)
    ensures
        is_purge_plan(r@, style, temp_root@, session_id@),
{
    let dir = temp_dir(style, temp_root);
    let target = join_path(style, dir.as_str(), session_id);
    let removed = target.clone();
    vec![Step::SkipIfAbsent(target), Step::RemoveDirAll(removed)]
}

} // verus!
