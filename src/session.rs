//! The session store: one file `<save_dir>/sessions/<id>.json` per session.
use vstd::prelude::*;
use vstd::string::*;
use crate::paths::{extension_of, join_path, joined, split_extension, stem_of, PathStyle};
use crate::plan::Step;

verus! {

/// The directory that holds the session files under `save_dir`.
pub open spec fn sessions_dir_of(style: PathStyle, save_dir: Seq<char>) -> Seq<char> {
    joined(style, save_dir, "sessions"@)
}

/// The name of the file that holds a session.
pub open spec fn session_file_name(id: Seq<char>) -> Seq<char> {
    id + ".json"@
}

/// The file that holds session `id` under `save_dir`.
pub open spec fn session_file_of(style: PathStyle, save_dir: Seq<char>, id: Seq<char>) -> Seq<char> {
    joined(style, sessions_dir_of(style, save_dir), session_file_name(id))
}

/// The session that a directory entry stands for: the stem of a name whose
/// extension is `json`. A name that is not valid Unicode (`None`) stands for none.
pub open spec fn session_id_of_entry(name: Option<String>) -> Option<Seq<char>> {
    match name {
        Some(n) => if extension_of(n@) == Some("json"@) {
            stem_of(n@)
        } else {
            None
        },
        None => None,
    }
}

/// The sessions that a list of entry names stands for, in the order of the list.
pub open spec fn session_ids_of(names: Seq<Option<String>>) -> Seq<Seq<char>>
    decreases names.len(),
{
    if names.len() == 0 {
        Seq::empty()
    } else {
        let rest = session_ids_of(names.drop_last());
        match session_id_of_entry(names.last()) {
            Some(id) => rest.push(id),
            None => rest,
        }
    }
}

/// `plan` stores a session: it creates the sessions directory, then writes the file.
pub open spec fn is_save_plan(plan: Seq<Step>, style: PathStyle, save_dir: Seq<char>, id: Seq<char>) -> bool {
    &&& plan.len() == 2
    &&& plan[0] matches Step::CreateDirAll(d) && d@ == sessions_dir_of(style, save_dir)
    &&& plan[1] matches Step::WriteContent(f) && f@ == session_file_of(style, save_dir, id)
}

/// `plan` reads a session's file.
pub open spec fn is_load_plan(plan: Seq<Step>, style: PathStyle, save_dir: Seq<char>, id: Seq<char>) -> bool {
    &&& plan.len() == 1
    &&& plan[0] matches Step::ReadText(f) && f@ == session_file_of(style, save_dir, id)
}

/// `plan` lists the sessions directory, where it exists.
pub open spec fn is_list_plan(plan: Seq<Step>, style: PathStyle, save_dir: Seq<char>) -> bool {
    &&& plan.len() == 2
    &&& plan[0] matches Step::SkipIfAbsent(d) && d@ == sessions_dir_of(style, save_dir)
    &&& plan[1] matches Step::ListDir(d) && d@ == sessions_dir_of(style, save_dir)
}

/// The directory that holds the session files under `save_dir`.
pub fn sessions_dir(style: PathStyle, save_dir: &str) -> (r: String)
    ensures
        r@ == sessions_dir_of(style, save_dir@),
{
    join_path(style, save_dir, "sessions")
}

/// The file that holds session `session_id` under `save_dir`.
pub fn session_file(style: PathStyle, save_dir: &str, session_id: &str) -> (r: String)
    ensures
        r@ == session_file_of(style, save_dir@, session_id@),
{
    let dir = sessions_dir(style, save_dir);
    let name = String::from_str(session_id).concat(".json");
    join_path(style, dir.as_str(), name.as_str())
}

/// The steps that save a session's state, overwriting what was there.
pub fn save_session_plan(style: PathStyle, session_id: &str, save_dir: &str) -> (r: Vec<Step>)
    ensures
        is_save_plan(r@, style, save_dir@, session_id@),
{
    let dir = sessions_dir(style, save_dir);
    let file = session_file(style, save_dir, session_id);
    vec![Step::CreateDirAll(dir), Step::WriteContent(file)]
}

/// The steps that load a session's state.
pub fn load_session_plan(style: PathStyle, session_id: &str, save_dir: &str) -> (r: Vec<Step>)
    ensures
        is_load_plan(r@, style, save_dir@, session_id@),
{
    vec![Step::ReadText(session_file(style, save_dir, session_id))]
}

/// The steps that list the sessions: nothing is read where the directory is absent.
pub fn list_sessions_plan(style: PathStyle, save_dir: &str) -> (r: Vec<Step>)
    ensures
        is_list_plan(r@, style, save_dir@),
{
    let dir = sessions_dir(style, save_dir);
    let listed = dir.clone();
    vec![Step::SkipIfAbsent(dir), Step::ListDir(listed)]
}

/// The session that one directory entry stands for, if any.
pub fn session_id_of(name: &Option<String>) -> (r: Option<String>)
    ensures
        r matches Some(id) ==> session_id_of_entry(*name) == Some(id@),
        r is None ==> session_id_of_entry(*name) is None,
{
    match name {
        Some(n) => match split_extension(n.as_str()) {
            Some((stem, ext)) => {
                let json = String::from_str("json");
                if ext == json {
                    Some(stem)
                } else {
                    None
                }
            },
            None => None,
        },
        None => None,
    }
}

/// The sessions that a directory's entry names stand for, in the order given.
pub fn session_ids(names: &Vec<Option<String>>) -> (r: Vec<String>)
    ensures
        r@.map_values(|s: String| s@) == session_ids_of(names@),
{
    let mut r: Vec<String> = Vec::new();
    let mut i: usize = 0;
    while i < names.len()
        invariant
            i <= names@.len(),
            r@.map_values(|s: String| s@) == session_ids_of(names@.subrange(0, i as int)),
        decreases names@.len() - i,
    {
        let id = session_id_of(&names[i]);
        proof {
            assert(names@.subrange(0, i + 1).drop_last() =~= names@.subrange(0, i as int));
            assert(names@.subrange(0, i + 1).last() == names@[i as int]);
        }
        match id {
            Some(s) => {
                let ghost before = r@;
                r.push(s);
                proof {
                    assert(r@.map_values(|s: String| s@) =~= before.map_values(|s: String| s@).push(
                        s@,
                    ));
                }
            },
            None => {},
        }
        i = i + 1;
    }
    proof {
        assert(names@.subrange(0, names@.len() as int) =~= names@);
    }
    r
}

} // verus!
