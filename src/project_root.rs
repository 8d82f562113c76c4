//! Choosing the project root: the working tree of the enclosing git
//! repository, else the nearest ancestor that holds a root indicator.

use vstd::prelude::*;

use crate::text::opt_view;

verus! {

/// The entries whose presence marks a directory as a project root.
pub open spec fn indicator_names() -> Seq<Seq<char>> {
    seq![".git"@, "src"@, "flake.nix"@, "package.json"@, "Cargo.toml"@]
}

pub fn root_indicators() -> (r: Vec<&'static str>)
    ensures
        r@.map_values(|s: &str| s@) == indicator_names(),
{
    let r = vec![".git", "src", "flake.nix", "package.json", "Cargo.toml"];
    assert(r@.map_values(|s: &str| s@) =~= indicator_names());
    r
}

/// One directory on the way from the current directory up to the filesystem
/// root, and for each root indicator, in order, whether it exists there.
#[derive(Clone, Debug)]
pub struct Ancestor {
    pub path: String,
    pub present: Vec<bool>,
}

pub open spec fn has_indicator(a: Ancestor) -> bool {
    exists|j: int| 0 <= j < a.present@.len() && a.present@[j]
}

/// `i` is the first of the ancestors, nearest first, that holds an indicator.
pub open spec fn is_first_marked(levels: Seq<Ancestor>, i: int) -> bool {
    &&& 0 <= i < levels.len()
    &&& has_indicator(levels[i])
    &&& forall|k: int| 0 <= k < i ==> !has_indicator(#[trigger] levels[k])
}

fn any_present(present: &Vec<bool>) -> (r: bool)
    ensures
        r == exists|j: int| 0 <= j < present@.len() && present@[j],
{
    let mut j: usize = 0;
    while j < present.len()
        invariant
            j <= present@.len(),
            forall|k: int| 0 <= k < j ==> !present@[k],
        decreases present@.len() - j,
    {
        if present[j] {
            return true;
        }
        j = j + 1;
    }
    false
}

/// The nearest ancestor, the current directory first, that holds a root
/// indicator; none if no directory up to the filesystem root holds one.
pub fn find_root_by_indicators(levels: &Vec<Ancestor>) -> (r: Option<String>)
    ensures
        r is None <==> forall|i: int| 0 <= i < levels@.len() ==> !has_indicator(#[trigger] levels@[i]),
        r is Some ==> exists|i: int| is_first_marked(levels@, i) && opt_view(r) == Some(levels@[i].path@),
{
    let mut i: usize = 0;
    while i < levels.len()
        invariant
            i <= levels@.len(),
            forall|k: int| 0 <= k < i ==> !has_indicator(#[trigger] levels@[k]),
        decreases levels@.len() - i,
    {
        if any_present(&levels[i].present) {
            assert(is_first_marked(levels@, i as int));
            return Some(levels[i].path.clone());
        }
        i = i + 1;
    }
    None
}

/// The project root: the working directory of the git repository that
/// encloses the current directory, where there is one; else the nearest
/// ancestor that holds a root indicator; else none.
pub fn find_project_root(repository_workdir: Option<String>, levels: &Vec<Ancestor>) -> (r: Option<String>)
    ensures
        repository_workdir is Some ==> opt_view(r) == opt_view(repository_workdir),
        repository_workdir is None ==> {
            &&& r is None <==> forall|i: int| 0 <= i < levels@.len() ==> !has_indicator(#[trigger] levels@[i])
            &&& r is Some ==> exists|i: int| is_first_marked(levels@, i) && opt_view(r) == Some(levels@[i].path@)
        },
{
    match repository_workdir {
        Some(w) => Some(w),
        None => find_root_by_indicators(levels),
    }
}

} // verus!
