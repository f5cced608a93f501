//! Paths, held as strings, and the two std path operations the generator uses.
use vstd::prelude::*;
use vstd::string::*;

verus! {

/// The final component of the path `p`, as std `Path::file_name` followed by
/// `OsStr::to_str` yield it (`None` for a path such as `/` or one ending in `..`).
/// Path syntax is that of the target the crate is compiled for.
pub uninterp spec fn path_file_name(p: Seq<char>) -> Option<Seq<char>>;

/// The path `base` joined with `part`, as std `Path::join` yields it.
/// Path syntax is that of the target the crate is compiled for.
pub uninterp spec fn path_joined(base: Seq<char>, part: Seq<char>) -> Seq<char>;

/// Calls std `Path::file_name` on `p` and converts the component with
/// `OsStr::to_str`. Trusted: the result is `path_file_name(p@)`; nothing more
/// is stated about which component std picks.
#[verifier::external_body]
fn file_name_of(p: &str) -> (r: Option<String>)
    ensures
        r.deep_view() == path_file_name(p@),
{
    match std::path::Path::new(p).file_name() {
        Some(n) => match n.to_str() {
            Some(s) => Some(s.to_string()),
            None => None,
        },
        None => None,
    }
}

/// Calls std `Path::join` and converts the joined path back to a `String`
/// with `to_string_lossy` (lossless here: both parts are UTF-8).
/// Trusted: the result is `path_joined(base@, part@)`.
#[verifier::external_body]
pub(crate) fn join_path(base: &str, part: &str) -> (r: String)
    ensures
        r@ == path_joined(base@, part@),
{
    std::path::Path::new(base).join(part).to_string_lossy().into_owned()
}

/// The name of a directory: its final path component, or `unknown` when the
/// path has none.
pub open spec fn dir_name_spec(dir: Seq<char>) -> Seq<char> {
    match path_file_name(dir) {
        Some(n) => n,
        None => "unknown"@,
    }
}

/// The name of the directory `dir` (see `dir_name_spec`).
pub fn dir_name_of(dir: &str) -> (r: String)
    ensures
        r@ == dir_name_spec(dir@),
        r@ == match path_file_name(dir@) {
            Some(n) => n,
            None => "unknown"@,
        },
{
    match file_name_of(dir) {
        Some(n) => n,
        None => String::from_str("unknown"),
    }
}

} // verus!
