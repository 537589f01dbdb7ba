use paper_burner::artifact::artifact_plan;
use paper_burner::convert::{conversion_outcome, launch_failure, outcome_from_text};
use paper_burner::error::{ErrorKind, FaultKind, IoFault, Operation, StagingError};
use paper_burner::paths::{file_name, is_absolute_path, join_path, parent_dir, split_extension, PathStyle};

const UNIX: PathStyle = PathStyle::Unix;
const WINDOWS: PathStyle = PathStyle::Windows;
use paper_burner::plan::{advance, start, Event, Next, Step};
use paper_burner::session::{
    list_sessions_plan, load_session_plan, save_session_plan, session_file, session_id_of,
    session_ids, sessions_dir,
};
use paper_burner::settings::{
    default_output_dir, download_dir_or_default, has_pdf, is_pdf_extension, is_pdf_path,
    parse_theme, pdf_paths, username_or_default, Theme,
};
use paper_burner::staging::{load_staged_plan, purge_plan, stage_plan, staged_file, temp_dir};

fn fault(kind: FaultKind, message: &str) -> IoFault {
    IoFault { kind, message: message.to_string() }
}

fn path_of(step: &Step) -> &str {
    match step {
        Step::CreateDirAll(p)
        | Step::RequireDir(p)
        | Step::SkipIfAbsent(p)
        | Step::WriteProbe(p)
        | Step::RemoveProbe(p)
        | Step::WriteContent(p)
        | Step::ReadText(p)
        | Step::ListDir(p)
        | Step::RemoveDirAll(p) => p.as_str(),
    }
}

/// Runs a plan against the given outcomes, one per step performed, and
/// returns the indices of the steps performed and how the run ended.
fn run(plan: &Vec<Step>, outcomes: Vec<Event>) -> (Vec<usize>, Result<(), StagingError>) {
    let mut done = Vec::new();
    let mut outcomes = outcomes.into_iter();
    let mut next = start(plan);
    loop {
        match next {
            Next::Perform(i) => {
                done.push(i);
                let ev = outcomes.next().expect("an outcome for each step");
                next = advance(plan, i, &ev);
            }
            Next::Finish(r) => return (done, r),
        }
    }
}

#[test]
fn saved_session_scenario() {
    assert_eq!(session_file(UNIX, "/root", "s1"), "/root/sessions/s1.json");
    assert_eq!(sessions_dir(UNIX, "/root"), "/root/sessions");
    let save = save_session_plan(UNIX, "s1", "/root");
    assert_eq!(save.len(), 2);
    assert!(matches!(&save[0], Step::CreateDirAll(d) if d == "/root/sessions"));
    assert!(matches!(&save[1], Step::WriteContent(f) if f == "/root/sessions/s1.json"));
    let (done, r) = run(&save, vec![Event::Succeeded, Event::Succeeded]);
    assert_eq!(done, vec![0, 1]);
    assert!(r.is_ok());
    let load = load_session_plan(UNIX, "s1", "/root");
    assert!(matches!(&load[0], Step::ReadText(f) if f == "/root/sessions/s1.json"));
    let names = vec![Some("s1.json".to_string())];
    assert_eq!(session_ids(&names), vec!["s1".to_string()]);
}

#[test]
fn save_and_load_use_the_same_file() {
    let save = save_session_plan(UNIX, "job-7", "/data/app/");
    let load = load_session_plan(UNIX, "job-7", "/data/app/");
    assert_eq!(path_of(&save[1]), "/data/app/sessions/job-7.json");
    assert_eq!(path_of(&save[1]), path_of(&load[0]));
}

#[test]
fn save_failure_names_the_path() {
    let save = save_session_plan(UNIX, "s1", "/ro");
    let (done, r) = run(&save, vec![Event::Failed(fault(FaultKind::Denied, "permission denied"))]);
    assert_eq!(done, vec![0]);
    let e = r.unwrap_err();
    assert_eq!(e.kind, ErrorKind::IoFailure);
    assert_eq!(e.operation, Operation::CreateDir);
    assert_eq!(e.path, "/ro/sessions");
    assert_eq!(e.message(), "Failed to create directory /ro/sessions: permission denied");
    let (_, r) = run(&save, vec![Event::Succeeded, Event::Failed(fault(FaultKind::Other, "disk full"))]);
    let e = r.unwrap_err();
    assert_eq!(e.kind, ErrorKind::IoFailure);
    assert_eq!(e.operation, Operation::Write);
    assert_eq!(e.path, "/ro/sessions/s1.json");
}

#[test]
fn loading_unsaved_session_is_not_found() {
    let load = load_session_plan(UNIX, "never", "/root");
    let (_, r) = run(&load, vec![Event::Failed(fault(FaultKind::Missing, "no such file"))]);
    let e = r.unwrap_err();
    assert_eq!(e.kind, ErrorKind::NotFound);
    assert_eq!(e.path, "/root/sessions/never.json");
    let (_, r) = run(&load, vec![Event::Failed(fault(FaultKind::Denied, "denied"))]);
    assert_eq!(r.unwrap_err().kind, ErrorKind::IoFailure);
}

#[test]
fn fresh_root_lists_nothing() {
    let list = list_sessions_plan(UNIX, "/fresh");
    assert!(matches!(&list[0], Step::SkipIfAbsent(d) if d == "/fresh/sessions"));
    assert!(matches!(&list[1], Step::ListDir(d) if d == "/fresh/sessions"));
    let (done, r) = run(&list, vec![Event::Found(false)]);
    assert_eq!(done, vec![0]);
    assert!(r.is_ok());
    assert!(session_ids(&vec![]).is_empty());
    let (done, r) = run(&list, vec![Event::Found(true), Event::Succeeded]);
    assert_eq!(done, vec![0, 1]);
    assert!(r.is_ok());
}

#[test]
fn listing_keeps_only_json_stems() {
    let names = vec![
        Some("a.json".to_string()),
        Some("notes.txt".to_string()),
        None,
        Some(".json".to_string()),
        Some("b.c.json".to_string()),
        Some("plain".to_string()),
        Some("d.JSON".to_string()),
    ];
    assert_eq!(session_ids(&names), vec!["a".to_string(), "b.c".to_string()]);
    assert_eq!(session_id_of(&Some("x.json".to_string())), Some("x".to_string()));
    assert_eq!(session_id_of(&None), None);
}

#[test]
fn staged_file_reads_back_and_purges() {
    assert_eq!(temp_dir(UNIX, "/work"), "/work/temp");
    let stage = stage_plan(UNIX, "s1/page1.md", "/work");
    assert!(matches!(&stage[0], Step::CreateDirAll(d) if d == "/work/temp"));
    let path = staged_file(UNIX, "s1/page1.md", "/work");
    assert_eq!(path, "/work/temp/s1/page1.md");
    assert_eq!(path_of(&stage[1]), path);
    let load = load_staged_plan(&path);
    assert_eq!(path_of(&load[0]), path);
    let purge = purge_plan(UNIX, "/work", "s1");
    assert_eq!(path_of(&purge[1]), "/work/temp/s1");
    assert!(path.starts_with(&format!("{}/", path_of(&purge[1]))));
    let (done, r) = run(&purge, vec![Event::Found(true), Event::Succeeded]);
    assert_eq!(done, vec![0, 1]);
    assert!(r.is_ok());
    let (_, r) = run(&load, vec![Event::Failed(fault(FaultKind::Missing, "gone"))]);
    assert_eq!(r.unwrap_err().kind, ErrorKind::NotFound);
}

#[test]
fn purging_without_files_is_noop() {
    let purge = purge_plan(UNIX, "/work", "nothing-here");
    let (done, r) = run(&purge, vec![Event::Found(false)]);
    assert_eq!(done, vec![0]);
    assert!(r.is_ok());
}

#[test]
fn artifact_plan_checks_directory_first() {
    let plan = artifact_plan(UNIX, "/out/new/dir/book.zip");
    assert_eq!(plan.len(), 5);
    assert!(matches!(&plan[0], Step::CreateDirAll(d) if d == "/out/new/dir"));
    assert!(matches!(&plan[1], Step::RequireDir(d) if d == "/out/new/dir"));
    assert!(matches!(&plan[2], Step::WriteProbe(f) if f == "/out/new/dir/test_write.tmp"));
    assert!(matches!(&plan[3], Step::RemoveProbe(f) if f == "/out/new/dir/test_write.tmp"));
    assert!(matches!(&plan[4], Step::WriteContent(f) if f == "/out/new/dir/book.zip"));
    let (done, r) = run(
        &plan,
        vec![Event::Succeeded, Event::Found(true), Event::Succeeded, Event::Succeeded, Event::Succeeded],
    );
    assert_eq!(done, vec![0, 1, 2, 3, 4]);
    assert!(r.is_ok());
}

#[test]
fn artifact_probe_failure_is_permission_denied() {
    let plan = artifact_plan(UNIX, "/readonly/book.zip");
    let (done, r) = run(
        &plan,
        vec![Event::Succeeded, Event::Found(true), Event::Failed(fault(FaultKind::Denied, "read-only"))],
    );
    assert_eq!(done, vec![0, 1, 2]);
    let e = r.unwrap_err();
    assert_eq!(e.kind, ErrorKind::PermissionDenied);
    assert_eq!(e.operation, Operation::ProbeWrite);
    assert_eq!(e.path, "/readonly/test_write.tmp");
}

#[test]
fn artifact_sentinel_removal_failure_is_ignored() {
    let plan = artifact_plan(UNIX, "/out/book.zip");
    let (done, r) = run(
        &plan,
        vec![
            Event::Succeeded,
            Event::Found(true),
            Event::Succeeded,
            Event::Failed(fault(FaultKind::Other, "busy")),
            Event::Succeeded,
        ],
    );
    assert_eq!(done, vec![0, 1, 2, 3, 4]);
    assert!(r.is_ok());
}

#[test]
fn artifact_missing_directory_after_creation_fails() {
    let plan = artifact_plan(UNIX, "/out/book.zip");
    let (done, r) = run(&plan, vec![Event::Succeeded, Event::Found(false)]);
    assert_eq!(done, vec![0, 1]);
    let e = r.unwrap_err();
    assert_eq!(e.kind, ErrorKind::IoFailure);
    assert_eq!(e.operation, Operation::CheckDir);
    assert_eq!(e.path, "/out");
}

#[test]
fn artifact_final_write_failure() {
    let plan = artifact_plan(UNIX, "/out/book.zip");
    let (_, r) = run(
        &plan,
        vec![
            Event::Succeeded,
            Event::Found(true),
            Event::Succeeded,
            Event::Succeeded,
            Event::Failed(fault(FaultKind::Other, "disk full")),
        ],
    );
    let e = r.unwrap_err();
    assert_eq!(e.kind, ErrorKind::IoFailure);
    assert_eq!(e.operation, Operation::Write);
    assert_eq!(e.path, "/out/book.zip");
}

#[test]
fn artifact_at_root_has_no_parent_step() {
    let plan = artifact_plan(UNIX, "/");
    assert_eq!(plan.len(), 1);
    let plan = artifact_plan(UNIX, "book.zip");
    assert!(matches!(&plan[1], Step::RequireDir(d) if d.is_empty()));
}

#[test]
fn converter_success_has_no_error() {
    let o = conversion_outcome(true, b"converted", b"warning");
    assert!(o.succeeded);
    assert_eq!(o.output, "converted");
    assert_eq!(o.error, None);
}

#[test]
fn converter_failure_keeps_stderr() {
    let o = conversion_outcome(false, b"partial", b"unknown format");
    assert!(!o.succeeded);
    assert_eq!(o.output, "partial");
    assert_eq!(o.error, Some("unknown format".to_string()));
    let o = outcome_from_text(false, String::new(), "bad".to_string());
    assert_eq!(o.error, Some("bad".to_string()));
}

#[test]
fn converter_output_is_decoded_lossily() {
    let o = conversion_outcome(false, &[b'a', 0xff, b'b'], &[0xc3]);
    assert_eq!(o.output, "a\u{fffd}b");
    assert_eq!(o.error, Some("\u{fffd}".to_string()));
}

#[test]
fn converter_launch_failure() {
    let e = launch_failure("/no/such/pandoc", &fault(FaultKind::Missing, "not found"));
    assert_eq!(e.kind, ErrorKind::LaunchFailure);
    assert_eq!(e.operation, Operation::Launch);
    assert_eq!(e.path, "/no/such/pandoc");
    assert_eq!(e.message(), "Failed to execute /no/such/pandoc: not found");
}

#[test]
fn joins_paths() {
    assert_eq!(join_path(UNIX, "/a", "b"), "/a/b");
    assert_eq!(join_path(UNIX, "/a/", "b"), "/a/b");
    assert_eq!(join_path(UNIX, "", "b"), "b");
    assert_eq!(join_path(UNIX, "/a", "/b"), "/b");
}

#[test]
fn parents_of_paths() {
    assert_eq!(parent_dir(UNIX, "/a/b/c.zip"), Some("/a/b".to_string()));
    assert_eq!(parent_dir(UNIX, "/a//b/"), Some("/a".to_string()));
    assert_eq!(parent_dir(UNIX, "/a"), Some("/".to_string()));
    assert_eq!(parent_dir(UNIX, "a"), Some(String::new()));
    assert_eq!(parent_dir(UNIX, "/"), None);
    assert_eq!(parent_dir(UNIX, ""), None);
}

#[test]
fn file_names_and_extensions() {
    assert_eq!(file_name(UNIX, "/a/b/c.pdf"), "c.pdf");
    assert_eq!(file_name(UNIX, "c.pdf/"), "c.pdf");
    assert_eq!(split_extension("c.tar.gz"), Some(("c.tar".to_string(), "gz".to_string())));
    assert_eq!(split_extension(".bashrc"), None);
    assert_eq!(split_extension("plain"), None);
}

#[test]
fn themes_by_name() {
    assert_eq!(parse_theme("dark").unwrap(), Theme::Dark);
    assert_eq!(parse_theme("light").unwrap(), Theme::Light);
    let e = parse_theme("blue").unwrap_err();
    assert_eq!(e.kind, ErrorKind::InvalidArgument);
    assert_eq!(e.path, "blue");
    assert_eq!(e.detail, "Use 'dark' or 'light'");
    assert_eq!(e.message(), "Invalid value blue: Use 'dark' or 'light'");
}

#[test]
fn fallbacks() {
    assert_eq!(download_dir_or_default(None), "C:/download");
    assert_eq!(download_dir_or_default(Some("/home/u/Downloads".to_string())), "/home/u/Downloads");
    assert_eq!(username_or_default(None, None), "User");
    assert_eq!(username_or_default(None, Some("bob".to_string())), "bob");
    assert_eq!(username_or_default(Some("ann".to_string()), Some("bob".to_string())), "ann");
    assert_eq!(default_output_dir("ann"), "C:\\Users\\ann\\Downloads\\pdf2md\\");
}

#[test]
fn drops_keep_pdf_paths() {
    assert!(is_pdf_extension("pdf"));
    assert!(!is_pdf_extension("PDF"));
    assert!(is_pdf_path(UNIX, "/docs/Report.PDF"));
    assert!(!is_pdf_path(UNIX, "/docs/.pdf"));
    let paths = vec![
        "/docs/a.pdf".to_string(),
        "/docs/b.txt".to_string(),
        "/docs/C.Pdf".to_string(),
        "/docs/pdf".to_string(),
    ];
    assert_eq!(pdf_paths(UNIX, &paths), vec!["/docs/a.pdf".to_string(), "/docs/C.Pdf".to_string()]);
    assert!(has_pdf(UNIX, &paths));
    assert!(!has_pdf(UNIX, &vec!["/x/y.doc".to_string()]));
}

#[test]
fn windows_parents_and_roots() {
    assert_eq!(parent_dir(WINDOWS, "C:\\out\\book.zip"), Some("C:\\out".to_string()));
    assert_eq!(parent_dir(WINDOWS, "C:\\book.zip"), Some("C:\\".to_string()));
    assert_eq!(parent_dir(WINDOWS, "C:/out/sub\\book.zip"), Some("C:/out/sub".to_string()));
    assert_eq!(parent_dir(WINDOWS, "C:\\"), None);
    assert_eq!(parent_dir(WINDOWS, "\\book.zip"), Some("\\".to_string()));
    assert_eq!(parent_dir(UNIX, "C:\\out\\book.zip"), Some(String::new()));
    assert_eq!(file_name(WINDOWS, "C:\\docs\\report.pdf"), "report.pdf");
}

#[test]
fn windows_joins() {
    assert_eq!(join_path(WINDOWS, "C:\\data", "sessions"), "C:\\data\\sessions");
    assert_eq!(join_path(WINDOWS, "C:\\data\\", "sessions"), "C:\\data\\sessions");
    assert_eq!(join_path(WINDOWS, "C:\\data", "D:\\other"), "D:\\other");
    assert_eq!(join_path(WINDOWS, "C:\\data", "\\root"), "\\root");
    assert!(is_absolute_path(WINDOWS, "c:relative"));
    assert!(!is_absolute_path(UNIX, "c:relative"));
    assert_eq!(session_file(WINDOWS, "C:\\app", "s1"), "C:\\app\\sessions\\s1.json");
    assert_eq!(staged_file(WINDOWS, "s1\\p.md", "C:\\app"), "C:\\app\\temp\\s1\\p.md");
    assert_eq!(path_of(&purge_plan(WINDOWS, "C:\\app", "s1")[1]), "C:\\app\\temp\\s1");
}

#[test]
fn windows_artifact_plan_probes_the_destination_directory() {
    let plan = artifact_plan(WINDOWS, "C:\\out\\book.zip");
    assert_eq!(plan.len(), 5);
    assert!(matches!(&plan[0], Step::CreateDirAll(d) if d == "C:\\out"));
    assert!(matches!(&plan[1], Step::RequireDir(d) if d == "C:\\out"));
    assert!(matches!(&plan[2], Step::WriteProbe(f) if f == "C:\\out\\test_write.tmp"));
    assert!(matches!(&plan[3], Step::RemoveProbe(f) if f == "C:\\out\\test_write.tmp"));
    assert!(matches!(&plan[4], Step::WriteContent(f) if f == "C:\\out\\book.zip"));
    let plan = artifact_plan(WINDOWS, "D:\\book.zip");
    assert!(matches!(&plan[0], Step::CreateDirAll(d) if d == "D:\\"));
    assert!(matches!(&plan[2], Step::WriteProbe(f) if f == "D:\\test_write.tmp"));
}

#[test]
fn windows_drops_keep_pdf_paths() {
    assert!(is_pdf_path(WINDOWS, "C:\\docs\\Report.PDF"));
    assert!(!is_pdf_path(WINDOWS, "C:\\docs\\.pdf"));
    assert!(!is_pdf_path(WINDOWS, "C:\\a.pdf\\notes"));
    let paths = vec!["C:\\a.pdf".to_string(), "C:\\b.doc".to_string()];
    assert_eq!(pdf_paths(WINDOWS, &paths), vec!["C:\\a.pdf".to_string()]);
    assert!(has_pdf(WINDOWS, &paths));
}

#[test]
fn sentinel_removal_failure_goes_on() {
    let plan = artifact_plan(UNIX, "/out/book.zip");
    let r = advance(&plan, 3, &Event::Failed(fault(FaultKind::Other, "busy")));
    assert!(matches!(r, Next::Perform(4)));
}
