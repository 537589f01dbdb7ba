//! Values that the host asks for: a theme by name, and the directories and user
//! name it falls back on when the machine does not tell.
use vstd::prelude::*;
use vstd::string::*;
use crate::error::{ErrorKind, Operation, StagingError};
use crate::paths::{extension_of, file_name, file_name_of, split_extension, PathStyle};

verus! {

/// A window theme.
#[derive(Clone, Copy, Debug, PartialEq, Eq, Structural)]
pub enum Theme {
    Dark,
    Light,
}

/// The theme named `dark` or `light`; any other name is an invalid argument.
pub fn parse_theme(name: &str) -> (r: Result<Theme, StagingError>)
    ensures
        r matches Ok(t) ==> (t == Theme::Dark && name@ == "dark"@) || (t == Theme::Light && name@
            == "light"@),
        r is Err <==> name@ != "dark"@ && name@ != "light"@,
        r matches Err(e) ==> e.kind == ErrorKind::InvalidArgument && e.operation
            == Operation::ParseArgument && e.path@ == name@ && e.detail@ == "Use 'dark' or 'light'"@,
{
    let given = String::from_str(name);
    if given == String::from_str("dark") {
        Ok(Theme::Dark)
    } else if given == String::from_str("light") {
        Ok(Theme::Light)
    } else {
        Err(
            StagingError::new(
                ErrorKind::InvalidArgument,
                Operation::ParseArgument,
                name,
                "Use 'dark' or 'light'",
            ),
        )
    }
}

/// Where downloads go when the machine names no download directory.
pub open spec fn fallback_download_dir() -> Seq<char> {
    "C:/download"@
}

/// The user name when neither variable is set.
pub open spec fn fallback_username() -> Seq<char> {
    "User"@
}

/// The download directory: the machine's own, or the fixed fallback.
pub fn download_dir_or_default(machine_dir: Option<String>) -> (r: String)
    ensures
        machine_dir matches Some(d) ==> r@ == d@,
        machine_dir is None ==> r@ == fallback_download_dir(),
{
    match machine_dir {
        Some(d) => d,
        None => String::from_str("C:/download"),
    }
}

/// The user name: the first variable that is set, in the order given, or the
/// fixed fallback.
pub fn username_or_default(primary: Option<String>, secondary: Option<String>) -> (r: String)
    ensures
        primary matches Some(u) ==> r@ == u@,
        primary is None ==> (secondary matches Some(u) ==> r@ == u@),
        primary is None && secondary is None ==> r@ == fallback_username(),
{
    match primary {
        Some(u) => u,
        None => match secondary {
            Some(u) => u,
            None => String::from_str("User"),
        },
    }
}

/// The default output directory for a user.
pub open spec fn default_output_dir_of(username: Seq<char>) -> Seq<char> {
    "C:\\Users\\"@ + username + "\\Downloads\\pdf2md\\"@
}

/// The default output directory for a user.
pub fn default_output_dir(username: &str) -> (r: String)
    ensures
        r@ == default_output_dir_of(username@),
{
    String::from_str("C:\\Users\\").concat(username).concat("\\Downloads\\pdf2md\\")
}

/// What lower-casing makes of a text.
pub uninterp spec fn lower_of(s: Seq<char>) -> Seq<char>;

/// Relies on `str::to_lowercase`: the result depends on the characters alone.
#[verifier::external_body]
fn lowercase(s: &str) -> (r: String)
    ensures
        r@ == lower_of(s@),
{
    s.to_lowercase()
}

/// Whether a lower-cased extension is that of a PDF document.
pub fn is_pdf_extension(lowered: &str) -> (r: bool)
    ensures
        r == (lowered@ == "pdf"@),
{
    String::from_str(lowered) == String::from_str("pdf")
}

/// Whether a path names a PDF document: its file name has the extension `pdf`
/// in any case.
pub open spec fn is_pdf_path_of(style: PathStyle, p: Seq<char>) -> bool {
    extension_of(file_name_of(style, p)) matches Some(e) && lower_of(e) == "pdf"@
}

/// The paths among `paths` that name PDF documents, in their order.
pub open spec fn pdf_paths_of(style: PathStyle, paths: Seq<String>) -> Seq<Seq<char>>
    decreases paths.len(),
{
    if paths.len() == 0 {
        Seq::empty()
    } else if is_pdf_path_of(style, paths.last()@) {
        pdf_paths_of(style, paths.drop_last()).push(paths.last()@)
    } else {
        pdf_paths_of(style, paths.drop_last())
    }
}

/// Whether `p` names a PDF document.
pub fn is_pdf_path(style: PathStyle, p: &str) -> (r: bool)
    ensures
        r == is_pdf_path_of(style, p@),
{
    let name = file_name(style, p);
    match split_extension(name.as_str()) {
        Some((_, ext)) => {
            let lowered = lowercase(ext.as_str());
            is_pdf_extension(lowered.as_str())
        },
        None => false,
    }
}

/// The paths of a drop that name PDF documents, in their order.
pub fn pdf_paths(style: PathStyle, paths: &Vec<String>) -> (r: Vec<String>)
    ensures
        r@.map_values(|s: String| s@) == pdf_paths_of(style, paths@),
{
    let mut r: Vec<String> = Vec::new();
    let mut i: usize = 0;
    while i < paths.len()
        invariant
            i <= paths@.len(),
            r@.map_values(|s: String| s@) == pdf_paths_of(style, paths@.subrange(0, i as int)),
        decreases paths@.len() - i,
    {
        proof {
            assert(paths@.subrange(0, i + 1).drop_last() =~= paths@.subrange(0, i as int));
            assert(paths@.subrange(0, i + 1).last() == paths@[i as int]);
        }
        if is_pdf_path(style, paths[i].as_str()) {
            let ghost before = r@;
            r.push(paths[i].clone());
            proof {
                assert(r@.map_values(|s: String| s@) =~= before.map_values(|s: String| s@).push(
                    paths@[i as int]@,
                ));
            }
        }
        i = i + 1;
    }
    proof {
        assert(paths@.subrange(0, paths@.len() as int) =~= paths@);
    }
    r
}

/// Whether any path of a drop names a PDF document.
pub fn has_pdf(style: PathStyle, paths: &Vec<String>) -> (r: bool)
    ensures
        r == exists|i: int| 0 <= i < paths@.len() && is_pdf_path_of(style, #[trigger] paths@[i]@),
{
    let mut i: usize = 0;
    while i < paths.len()
        invariant
            i <= paths@.len(),
            forall|j: int| 0 <= j < i ==> !is_pdf_path_of(style, #[trigger] paths@[j]@),
        decreases paths@.len() - i,
    {
        if is_pdf_path(style, paths[i].as_str()) {
            return true;
        }
        i = i + 1;
    }
    false
}

} // verus!
