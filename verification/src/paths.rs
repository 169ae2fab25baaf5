//! File paths as `std::path::Path` reads them.
use vstd::prelude::*;
use crate::text::opt_view;
use crate::vhost::{join_dir, spec_join_dir};

verus! {

/// What `Path::file_name` gives for a path: its final component, if any
/// (`None` for `/` or a path ending in `..`).
pub uninterp spec fn path_file_name(path: Seq<char>) -> Option<Seq<char>>;

/// What `Path::extension` gives for a path: the part of its file name after the
/// last `.`, if the name has a `.` after its first character.
pub uninterp spec fn path_extension(path: Seq<char>) -> Option<Seq<char>>;

/// `Path::new(path).file_name()`, as text.
#[verifier::external_body]
pub(crate) fn file_name(path: &str) -> (r: Option<String>)
    ensures
        opt_view(r) == path_file_name(path@),
{
    std::path::Path::new(path).file_name().and_then(|f| f.to_str()).map(|f| f.to_string())
}

/// `Path::new(path).extension()`, as text.
#[verifier::external_body]
pub(crate) fn extension(path: &str) -> (r: Option<String>)
    ensures
        opt_view(r) == path_extension(path@),
{
    std::path::Path::new(path).extension().and_then(|e| e.to_str()).map(|e| e.to_string())
}

/// `dirs::data_dir()`, as text: the user's data directory, when the
/// environment names one. It depends on the environment, so nothing is
/// promised of it.
#[verifier::external_body]
pub(crate) fn user_data_dir() -> (r: Option<String>) {
    dirs::data_dir().map(|p| p.to_string_lossy().to_string())
}

/// The application's data directory under a user data directory (`/tmp` when
/// there is none).
pub open spec fn spec_localman_dir(base: Option<Seq<char>>) -> Seq<char> {
    spec_join_dir(
        match base {
            Some(b) => b,
            None => "/tmp"@,
        },
        "localman"@,
    )
}

pub fn localman_dir(base: Option<&str>) -> (r: String)
    ensures
        r@ == spec_localman_dir(
            match base {
                Some(b) => Some(b@),
                None => None,
            },
        ),
{
    match base {
        Some(b) => join_dir(b, "localman"),
        None => join_dir("/tmp", "localman"),
    }
}

/// Where the application keeps its files: `localman` under the user's data
/// directory, or under `/tmp` without one.
pub fn app_data_dir() -> (r: String)
    ensures
        exists|base: Option<Seq<char>>| r@ == spec_localman_dir(base),
{
    let base = user_data_dir();
    let r = match &base {
        Some(b) => localman_dir(Some(b.as_str())),
        None => localman_dir(None),
    };
    assert(r@ == spec_localman_dir(opt_view(base)));
    r
}

} // verus!
