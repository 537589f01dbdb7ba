//! Laws that relate the operations of the library to one another.
use vstd::prelude::*;
use crate::artifact::{is_artifact_plan, probe_file_of};
use crate::error::{ErrorKind, FaultKind, IoFault};
use crate::paths::{
    extension_of, is_absolute, is_sep, joined, last_index, parent_of, sep_of, stem_of, PathStyle,
};
use crate::plan::{ends_early, failure_kind, fails, step_path, Event, Step};
use crate::session::{
    is_list_plan, is_load_plan, is_save_plan, session_file_name, session_id_of_entry,
    session_ids_of,
};
use crate::staging::{
    is_load_staged_plan, is_purge_plan, is_stage_plan, purge_dir_of, staged_file_of, temp_dir_of,
};

verus! {

/// Saving a session writes the very file that loading it reads, so a load after
/// a save gives back what was saved.
pub proof fn save_then_load_use_one_file(
    save: Seq<Step>,
    load: Seq<Step>,
    style: PathStyle,
    save_dir: Seq<char>,
    id: Seq<char>,
)
    requires
        is_save_plan(save, style, save_dir, id),
        is_load_plan(load, style, save_dir, id),
    ensures
        save.last() is WriteContent,
        load[0] is ReadText,
        step_path(save.last()) == step_path(load[0]),
{
}

/// Loading a session whose file is missing fails as not found.
pub proof fn load_of_missing_session_is_not_found(
    load: Seq<Step>,
    style: PathStyle,
    save_dir: Seq<char>,
    id: Seq<char>,
    fault: IoFault,
)
    requires
        is_load_plan(load, style, save_dir, id),
        fault.kind == FaultKind::Missing,
    ensures
        fails(load[0], Event::Failed(fault)),
        failure_kind(load[0], Event::Failed(fault)) == ErrorKind::NotFound,
{
}

/// Listing the sessions of a root without a sessions directory succeeds at once,
/// reading no directory, and so gives no session.
pub proof fn fresh_root_lists_no_sessions(list: Seq<Step>, style: PathStyle, save_dir: Seq<char>)
    requires
        is_list_plan(list, style, save_dir),
    ensures
        !fails(list[0], Event::Found(false)),
        ends_early(list[0], Event::Found(false)),
        session_ids_of(Seq::empty()) == Seq::<Seq<char>>::empty(),
{
}

/// The file that stores a session is listed back as that session, for any
/// non-empty id.
pub proof fn saved_session_is_listed(id: Seq<char>, name: String)
    requires
        id.len() > 0,
        name@ == session_file_name(id),
    ensures
        session_id_of_entry(Some(name)) == Some(id),
{
    reveal_strlit(".json");
    reveal_strlit("json");
    let s = name@;
    let s1 = s.drop_last();
    let s2 = s1.drop_last();
    let s3 = s2.drop_last();
    let s4 = s3.drop_last();
    assert(s =~= id + seq!['.', 'j', 's', 'o', 'n']);
    assert(s1 =~= id + seq!['.', 'j', 's', 'o']);
    assert(s2 =~= id + seq!['.', 'j', 's']);
    assert(s3 =~= id + seq!['.', 'j']);
    assert(s4 =~= id + seq!['.']);
    assert(last_index(s4, '.') == id.len());
    assert(last_index(s3, '.') == last_index(s4, '.'));
    assert(last_index(s2, '.') == last_index(s3, '.'));
    assert(last_index(s1, '.') == last_index(s2, '.'));
    assert(last_index(s, '.') == last_index(s1, '.'));
    assert(extension_of(s) == Some("json"@)) by {
        assert(s.subrange(id.len() + 1int, s.len() as int) =~= "json"@);
    }
    assert(stem_of(s) == Some(id)) by {
        assert(s.subrange(0, id.len() as int) =~= id);
    }
}

/// A staged file is read back from the path that staging wrote.
pub proof fn staged_file_reads_back(
    stage: Seq<Step>,
    load: Seq<Step>,
    style: PathStyle,
    temp_root: Seq<char>,
    file_name: Seq<char>,
)
    requires
        is_stage_plan(stage, style, temp_root, file_name),
        is_load_staged_plan(load, staged_file_of(style, temp_root, file_name)),
    ensures
        stage.last() is WriteContent,
        load[0] is ReadText,
        step_path(stage.last()) == step_path(load[0]),
{
}

/// A file staged as `<session_id>/<leaf>` lies in the directory that purging the
/// session removes; once it is gone, reading it back fails as not found.
pub proof fn purge_removes_namespaced_file(
    style: PathStyle,
    temp_root: Seq<char>,
    session_id: Seq<char>,
    leaf: Seq<char>,
    load: Seq<Step>,
    fault: IoFault,
)
    requires
        session_id.len() > 0,
        !is_absolute(style, session_id),
        !is_sep(style, session_id.last()),
        !is_absolute(style, leaf),
        is_load_staged_plan(
            load,
            staged_file_of(style, temp_root, session_id + seq![sep_of(style)] + leaf),
        ),
        fault.kind == FaultKind::Missing,
    ensures
        staged_file_of(style, temp_root, session_id + seq![sep_of(style)] + leaf) == joined(
            style,
            purge_dir_of(style, temp_root, session_id),
            leaf,
        ),
        fails(load[0], Event::Failed(fault)),
        failure_kind(load[0], Event::Failed(fault)) == ErrorKind::NotFound,
{
    reveal_strlit("temp");
    let sep = seq![sep_of(style)];
    let t = temp_dir_of(style, temp_root);
    let name = session_id + sep + leaf;
    assert(!is_absolute(style, "temp"@));
    assert(t.len() > 0 && t.last() == 'p');
    assert(name[0] == session_id[0]);
    if session_id.len() >= 2 {
        assert(name[1] == session_id[1]);
    } else {
        assert(name[1] == sep_of(style));
    }
    assert(!is_absolute(style, name));
    assert(joined(style, t, name) =~= t + sep + name);
    let d = joined(style, t, session_id);
    assert(d =~= t + sep + session_id);
    assert(d.last() == session_id.last());
    assert(joined(style, d, leaf) =~= d + sep + leaf);
    assert(t + sep + name =~= d + sep + leaf);
}

/// Purging a session that has no scratch directory succeeds and removes nothing.
pub proof fn purge_without_files_is_noop(
    purge: Seq<Step>,
    style: PathStyle,
    temp_root: Seq<char>,
    session_id: Seq<char>,
)
    requires
        is_purge_plan(purge, style, temp_root, session_id),
    ensures
        !fails(purge[0], Event::Found(false)),
        ends_early(purge[0], Event::Found(false)),
{
}

/// Writing an artifact first creates its directory; where the sentinel write
/// fails the run ends as a denied permission before the artifact is written;
/// a failure to delete the sentinel does not end the run.
pub proof fn artifact_checks_directory_before_writing(
    plan: Seq<Step>,
    style: PathStyle,
    destination: Seq<char>,
    fault: IoFault,
    ev: Event,
)
    requires
        is_artifact_plan(plan, style, destination),
        parent_of(style, destination) is Some,
    ensures
        plan[0] matches Step::CreateDirAll(d) && Some(d@) == parent_of(style, destination),
        plan[2] matches Step::WriteProbe(f) && f@ == probe_file_of(
            style,
            parent_of(style, destination)->0,
        ),
        fails(plan[2], Event::Failed(fault)),
        failure_kind(plan[2], Event::Failed(fault)) == ErrorKind::PermissionDenied,
        forall|i: int| 0 <= i < 4 ==> !(#[trigger] plan[i] is WriteContent),
        !fails(plan[3], ev),
        plan.last() matches Step::WriteContent(f) && f@ == destination,
{
}

} // verus!
