//! Where a report tree keeps its categories, crates and reports, and where the
//! manifest goes. Paths are sequences of components, relative to the
//! directory that the run starts in.

use vstd::prelude::*;

verus! {

/// The name of the root directory, whose entries are the categories.
pub const ROOT: &'static str = "report";

/// The name of the directory, inside a category's, whose entries are the
/// category's crates.
pub const CRATES: &'static str = "reg";

/// The name of the file that the manifest is written to.
pub const MANIFEST: &'static str = "output.json";

/// The components of the directory that holds the crates of `category`.
pub open spec fn crates_path(category: Seq<char>) -> Seq<Seq<char>> {
    seq![ROOT@, category, CRATES@]
}

/// The components of the directory of `krate` under `category`. Its entries
/// are the crate's version directories, each of which holds the report.
pub open spec fn crate_path(category: Seq<char>, krate: Seq<char>) -> Seq<Seq<char>> {
    crates_path(category).push(krate)
}

/// The directory that holds the crates of `category`.
pub fn crates_dir(category: &str) -> (path: Vec<String>)
    ensures
        path.deep_view() == crates_path(category@),
{
    let mut path: Vec<String> = Vec::new();
    path.push(ROOT.to_owned());
    path.push(category.to_owned());
    path.push(CRATES.to_owned());
    path
}

/// The directory of `krate` under `category`.
pub fn crate_dir(category: &str, krate: &str) -> (path: Vec<String>)
    ensures
        path.deep_view() == crate_path(category@, krate@),
{
    let mut path = crates_dir(category);
    path.push(krate.to_owned());
    path
}

} // verus!
